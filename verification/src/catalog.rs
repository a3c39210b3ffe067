//! The fixed catalog of L-system definitions.  Each entry is pure data,
//! constructed on request and pinned, field by field, to its spec-level
//! view.  Angles are tenths of a degree, pre-rotations microradians, and
//! scale factors parts per million, so that the tuning constants stay
//! exact integers.

use vstd::prelude::*;
use vstd::string::StrSliceExecFns;
use crate::errors::RenderError;
use crate::expansion::LSystemView;
use crate::lsystem::{rules_view, CanvasScaling, LSystem, Rule};

verus! {

/// The view of catalog entry `t`, for `1 <= t <= 17`; other identifiers
/// map to an empty placeholder that no contract ever promises.
pub open spec fn catalog_view(t: int) -> LSystemView {
    if t == 1 {
        // Barnsley fern
        LSystemView {
            variables: "XF"@,
            seed: "X"@,
            rules: seq![('X', "F-[[X]+X]+F[+FX]-X"@), ('F', "FF"@)],
            angle_tenth_degrees: 225,
            max_rounds: 8,
            canvas: CanvasScaling {
                initial_angle_urad: 1047198,
                length_ppm: 15000,
                height_ppm: 1000000,
                width_ppm: 500000,
            },
        }
    } else if t == 2 {
        // Fractal plant
        LSystemView {
            variables: "F"@,
            seed: "F"@,
            rules: seq![('F', "FF-[-F+F+F]+[+F-F-F]"@)],
            angle_tenth_degrees: 225,
            max_rounds: 5,
            canvas: CanvasScaling {
                initial_angle_urad: 1047198,
                length_ppm: 45000,
                height_ppm: 900000,
                width_ppm: 500000,
            },
        }
    } else if t == 3 {
        // Fractal plant, branching variant
        LSystemView {
            variables: "FVWXYZ"@,
            seed: "VZFFF"@,
            rules: seq![
                ('F', "F"@),
                ('V', "[+++W][---W]YV"@),
                ('W', "+X[-W]Z"@),
                ('X', "-W[+X]Z"@),
                ('Y', "YZ"@),
                ('Z', "[-FFF][+FFF]F"@),
            ],
            angle_tenth_degrees: 180,
            max_rounds: 12,
            canvas: CanvasScaling {
                initial_angle_urad: -785398i64,
                length_ppm: 150000,
                height_ppm: 900000,
                width_ppm: 500000,
            },
        }
    } else if t == 4 {
        // Dragon curve
        LSystemView {
            variables: "XY"@,
            seed: "FX"@,
            rules: seq![('X', "X+YF+"@), ('Y', "-FX-Y"@)],
            angle_tenth_degrees: 900,
            max_rounds: 14,
            canvas: CanvasScaling {
                initial_angle_urad: 30000000,
                length_ppm: 60000,
                height_ppm: 500000,
                width_ppm: 800000,
            },
        }
    } else if t == 5 {
        // 32-segment curve
        LSystemView {
            variables: "F"@,
            seed: "F+F+F+F"@,
            rules: seq![
                ('F', "-F+F-F-F+F+FF-F+F+FF+F-F-FF+FF-FF+F+F-FF-F-F+FF-F-F+F+F-F+"@),
            ],
            angle_tenth_degrees: 900,
            max_rounds: 3,
            canvas: CanvasScaling {
                initial_angle_urad: 90000000,
                length_ppm: 14000,
                height_ppm: 550000,
                width_ppm: 750000,
            },
        }
    } else if t == 6 {
        // Peano-Gosper curve; both A and B mean move forward
        LSystemView {
            variables: "AB"@,
            seed: "A"@,
            rules: seq![('A', "A-B--B+A++AA+B-"@), ('B', "+A-BB--B-A++A+B"@)],
            angle_tenth_degrees: 600,
            max_rounds: 6,
            canvas: CanvasScaling {
                initial_angle_urad: 60000000,
                length_ppm: 25000,
                height_ppm: 350000,
                width_ppm: 900000,
            },
        }
    } else if t == 7 {
        // Koch snowflake
        LSystemView {
            variables: "F"@,
            seed: "F++F++F"@,
            rules: seq![('F', "F-F++F-F"@)],
            angle_tenth_degrees: 600,
            max_rounds: 6,
            canvas: CanvasScaling {
                initial_angle_urad: -60000000i64,
                length_ppm: 14000,
                height_ppm: 750000,
                width_ppm: 150000,
            },
        }
    } else if t == 8 {
        // Koch variant on a square
        LSystemView {
            variables: "F"@,
            seed: "F+F+F+F"@,
            rules: seq![('F', "F-F+F+F-F"@)],
            angle_tenth_degrees: 900,
            max_rounds: 6,
            canvas: CanvasScaling {
                initial_angle_urad: 1047198,
                length_ppm: 7000,
                height_ppm: 250000,
                width_ppm: 800000,
            },
        }
    } else if t == 9 {
        // Koch variant on a line
        LSystemView {
            variables: "F"@,
            seed: "F"@,
            rules: seq![('F', "F-F+F+F-F"@)],
            angle_tenth_degrees: 850,
            max_rounds: 6,
            canvas: CanvasScaling {
                initial_angle_urad: -174533i64,
                length_ppm: 15000,
                height_ppm: 750000,
                width_ppm: 900000,
            },
        }
    } else if t == 10 {
        // Quadratic Koch island
        LSystemView {
            variables: "F"@,
            seed: "F+F+F+F"@,
            rules: seq![('F', "F+F-F-FF+F+F-F"@)],
            angle_tenth_degrees: 900,
            max_rounds: 5,
            canvas: CanvasScaling {
                initial_angle_urad: 90000000,
                length_ppm: 8500,
                height_ppm: 550000,
                width_ppm: 800000,
            },
        }
    } else if t == 11 {
        // Quadratic Koch island, second variant
        LSystemView {
            variables: "F"@,
            seed: "F+F+F+F"@,
            rules: seq![('F', "F+FF-FF-F-F+F+FF-F-F+F+FF+FF-F"@)],
            angle_tenth_degrees: 900,
            max_rounds: 4,
            canvas: CanvasScaling {
                initial_angle_urad: 90000000,
                length_ppm: 8000,
                height_ppm: 550000,
                width_ppm: 800000,
            },
        }
    } else if t == 12 {
        // Islands and lakes
        LSystemView {
            variables: "FS"@,
            seed: "F+F+F+F"@,
            rules: seq![('F', "F-SFF+F+FF+F-S-FFF-F+F+F-FFFF"@), ('S', "SSSSSSSS"@)],
            angle_tenth_degrees: 900,
            max_rounds: 4,
            canvas: CanvasScaling {
                initial_angle_urad: 1570796,
                length_ppm: 2000,
                height_ppm: 300000,
                width_ppm: 700000,
            },
        }
    } else if t == 13 {
        // Islands and lakes, second variant
        LSystemView {
            variables: "FS"@,
            seed: "F+F+F+F"@,
            rules: seq![('F', "F-SF+FF+F+FF-S-FF+SF-FF-F-FF+S+FFF"@), ('S', "SSSSSS"@)],
            angle_tenth_degrees: 900,
            max_rounds: 4,
            canvas: CanvasScaling {
                initial_angle_urad: 1570796,
                length_ppm: 7000,
                height_ppm: 350000,
                width_ppm: 800000,
            },
        }
    } else if t == 14 {
        // Sierpinski triangle
        LSystemView {
            variables: "XF"@,
            seed: "FXF--FF--FF"@,
            rules: seq![('X', "--FXF++FXF++FXF--"@), ('F', "FF"@)],
            angle_tenth_degrees: 600,
            max_rounds: 8,
            canvas: CanvasScaling {
                initial_angle_urad: -60000000i64,
                length_ppm: 22000,
                height_ppm: 10000,
                width_ppm: 10000,
            },
        }
    } else if t == 15 {
        // Sierpinski square curve
        LSystemView {
            variables: "F"@,
            seed: "F+F+F+F"@,
            rules: seq![('F', "FF+F+F+F+FF"@)],
            angle_tenth_degrees: 900,
            max_rounds: 5,
            canvas: CanvasScaling {
                initial_angle_urad: -90000000i64,
                length_ppm: 30000,
                height_ppm: 800000,
                width_ppm: 100000,
            },
        }
    } else if t == 16 {
        // Hilbert curve
        LSystemView {
            variables: "XY"@,
            seed: "X"@,
            rules: seq![('X', "+YF-XFX-FY+"@), ('Y', "-XF+YFY+FX-"@)],
            angle_tenth_degrees: 900,
            max_rounds: 8,
            canvas: CanvasScaling {
                initial_angle_urad: -90000000i64,
                length_ppm: 35000,
                height_ppm: 900000,
                width_ppm: 300000,
            },
        }
    } else if t == 17 {
        // Square-seeded space-filling fractal
        LSystemView {
            variables: "XY"@,
            seed: "XYXYXYX+XYXYXYX+XYXYXYX+XYXYXYX"@,
            rules: seq![('F', ""@), ('X', "FX+FX+FXFY-FY-"@), ('Y', "+FX+FXFY-FY-FY"@)],
            angle_tenth_degrees: 900,
            max_rounds: 5,
            canvas: CanvasScaling {
                initial_angle_urad: 45000000,
                length_ppm: 17000,
                height_ppm: 150000,
                width_ppm: 100000,
            },
        }
    } else {
        LSystemView {
            variables: Seq::empty(),
            seed: Seq::empty(),
            rules: Seq::empty(),
            angle_tenth_degrees: 0,
            max_rounds: 0,
            canvas: CanvasScaling {
                initial_angle_urad: 0,
                length_ppm: 0,
                height_ppm: 0,
                width_ppm: 0,
            },
        }
    }
}

/// The characters of `s` as a vector.
fn chars_of(s: &str) -> (r: Vec<char>)
    ensures
        r@ == s@,
{
    let n = s.unicode_len();
    let mut out: Vec<char> = Vec::new();
    let mut i: usize = 0;
    while i < n
        invariant
            n == s@.len(),
            i <= n,
            out@ == s@.take(i as int),
        decreases n - i,
    {
        proof {
            assert(s@.take(i as int).push(s@[i as int]) =~= s@.take(i as int + 1));
        }
        out.push(s.get_char(i));
        i += 1;
    }
    proof {
        assert(s@.take(n as int) =~= s@);
    }
    out
}

/// A rewrite rule from its symbol and replacement text.
fn make_rule(symbol: char, replacement: &str) -> (r: Rule)
    ensures
        r.symbol == symbol,
        r.replacement@ == replacement@,
{
    Rule { symbol, replacement: chars_of(replacement) }
}

/// The catalog entry named by `t`: identifiers 1 through 17 select an
/// entry, every other identifier is `UnknownFractal`.
pub fn catalog_entry(t: u32) -> (r: Result<LSystem, RenderError>)
    ensures
        r is Ok <==> 1 <= t <= 17,
        r is Ok ==> r->Ok_0@ == catalog_view(t as int),
        r is Err ==> r->Err_0 == RenderError::UnknownFractal,
{
    match t {
        1 => Ok(entry_1()),
        2 => Ok(entry_2()),
        3 => Ok(entry_3()),
        4 => Ok(entry_4()),
        5 => Ok(entry_5()),
        6 => Ok(entry_6()),
        7 => Ok(entry_7()),
        8 => Ok(entry_8()),
        9 => Ok(entry_9()),
        10 => Ok(entry_10()),
        11 => Ok(entry_11()),
        12 => Ok(entry_12()),
        13 => Ok(entry_13()),
        14 => Ok(entry_14()),
        15 => Ok(entry_15()),
        16 => Ok(entry_16()),
        17 => Ok(entry_17()),
        _ => Err(RenderError::UnknownFractal),
    }
}

fn entry_1() -> (r: LSystem)
    ensures
        r@ == catalog_view(1),
{
    let mut rules: Vec<Rule> = Vec::new();
    rules.push(make_rule('X', "F-[[X]+X]+F[+FX]-X"));
    rules.push(make_rule('F', "FF"));
    let system = LSystem {
        variables: chars_of("XF"),
        seed: chars_of("X"),
        rules,
        angle_tenth_degrees: 225,
        max_rounds: 8,
        canvas: CanvasScaling {
            initial_angle_urad: 1047198,
            length_ppm: 15000,
            height_ppm: 1000000,
            width_ppm: 500000,
        },
    };
    proof {
        assert(rules_view(system.rules@) =~= catalog_view(1).rules);
    }
    system
}

fn entry_2() -> (r: LSystem)
    ensures
        r@ == catalog_view(2),
{
    let mut rules: Vec<Rule> = Vec::new();
    rules.push(make_rule('F', "FF-[-F+F+F]+[+F-F-F]"));
    let system = LSystem {
        variables: chars_of("F"),
        seed: chars_of("F"),
        rules,
        angle_tenth_degrees: 225,
        max_rounds: 5,
        canvas: CanvasScaling {
            initial_angle_urad: 1047198,
            length_ppm: 45000,
            height_ppm: 900000,
            width_ppm: 500000,
        },
    };
    proof {
        assert(rules_view(system.rules@) =~= catalog_view(2).rules);
    }
    system
}

fn entry_3() -> (r: LSystem)
    ensures
        r@ == catalog_view(3),
{
    let mut rules: Vec<Rule> = Vec::new();
    rules.push(make_rule('F', "F"));
    rules.push(make_rule('V', "[+++W][---W]YV"));
    rules.push(make_rule('W', "+X[-W]Z"));
    rules.push(make_rule('X', "-W[+X]Z"));
    rules.push(make_rule('Y', "YZ"));
    rules.push(make_rule('Z', "[-FFF][+FFF]F"));
    let system = LSystem {
        variables: chars_of("FVWXYZ"),
        seed: chars_of("VZFFF"),
        rules,
        angle_tenth_degrees: 180,
        max_rounds: 12,
        canvas: CanvasScaling {
            initial_angle_urad: -785398i64,
            length_ppm: 150000,
            height_ppm: 900000,
            width_ppm: 500000,
        },
    };
    proof {
        assert(rules_view(system.rules@) =~= catalog_view(3).rules);
    }
    system
}

fn entry_4() -> (r: LSystem)
    ensures
        r@ == catalog_view(4),
{
    let mut rules: Vec<Rule> = Vec::new();
    rules.push(make_rule('X', "X+YF+"));
    rules.push(make_rule('Y', "-FX-Y"));
    let system = LSystem {
        variables: chars_of("XY"),
        seed: chars_of("FX"),
        rules,
        angle_tenth_degrees: 900,
        max_rounds: 14,
        canvas: CanvasScaling {
            initial_angle_urad: 30000000,
            length_ppm: 60000,
            height_ppm: 500000,
            width_ppm: 800000,
        },
    };
    proof {
        assert(rules_view(system.rules@) =~= catalog_view(4).rules);
    }
    system
}

fn entry_5() -> (r: LSystem)
    ensures
        r@ == catalog_view(5),
{
    let mut rules: Vec<Rule> = Vec::new();
    rules.push(make_rule('F', "-F+F-F-F+F+FF-F+F+FF+F-F-FF+FF-FF+F+F-FF-F-F+FF-F-F+F+F-F+"));
    let system = LSystem {
        variables: chars_of("F"),
        seed: chars_of("F+F+F+F"),
        rules,
        angle_tenth_degrees: 900,
        max_rounds: 3,
        canvas: CanvasScaling {
            initial_angle_urad: 90000000,
            length_ppm: 14000,
            height_ppm: 550000,
            width_ppm: 750000,
        },
    };
    proof {
        assert(rules_view(system.rules@) =~= catalog_view(5).rules);
    }
    system
}

fn entry_6() -> (r: LSystem)
    ensures
        r@ == catalog_view(6),
{
    let mut rules: Vec<Rule> = Vec::new();
    rules.push(make_rule('A', "A-B--B+A++AA+B-"));
    rules.push(make_rule('B', "+A-BB--B-A++A+B"));
    let system = LSystem {
        variables: chars_of("AB"),
        seed: chars_of("A"),
        rules,
        angle_tenth_degrees: 600,
        max_rounds: 6,
        canvas: CanvasScaling {
            initial_angle_urad: 60000000,
            length_ppm: 25000,
            height_ppm: 350000,
            width_ppm: 900000,
        },
    };
    proof {
        assert(rules_view(system.rules@) =~= catalog_view(6).rules);
    }
    system
}

fn entry_7() -> (r: LSystem)
    ensures
        r@ == catalog_view(7),
{
    let mut rules: Vec<Rule> = Vec::new();
    rules.push(make_rule('F', "F-F++F-F"));
    let system = LSystem {
        variables: chars_of("F"),
        seed: chars_of("F++F++F"),
        rules,
        angle_tenth_degrees: 600,
        max_rounds: 6,
        canvas: CanvasScaling {
            initial_angle_urad: -60000000i64,
            length_ppm: 14000,
            height_ppm: 750000,
            width_ppm: 150000,
        },
    };
    proof {
        assert(rules_view(system.rules@) =~= catalog_view(7).rules);
    }
    system
}

fn entry_8() -> (r: LSystem)
    ensures
        r@ == catalog_view(8),
{
    let mut rules: Vec<Rule> = Vec::new();
    rules.push(make_rule('F', "F-F+F+F-F"));
    let system = LSystem {
        variables: chars_of("F"),
        seed: chars_of("F+F+F+F"),
        rules,
        angle_tenth_degrees: 900,
        max_rounds: 6,
        canvas: CanvasScaling {
            initial_angle_urad: 1047198,
            length_ppm: 7000,
            height_ppm: 250000,
            width_ppm: 800000,
        },
    };
    proof {
        assert(rules_view(system.rules@) =~= catalog_view(8).rules);
    }
    system
}

fn entry_9() -> (r: LSystem)
    ensures
        r@ == catalog_view(9),
{
    let mut rules: Vec<Rule> = Vec::new();
    rules.push(make_rule('F', "F-F+F+F-F"));
    let system = LSystem {
        variables: chars_of("F"),
        seed: chars_of("F"),
        rules,
        angle_tenth_degrees: 850,
        max_rounds: 6,
        canvas: CanvasScaling {
            initial_angle_urad: -174533i64,
            length_ppm: 15000,
            height_ppm: 750000,
            width_ppm: 900000,
        },
    };
    proof {
        assert(rules_view(system.rules@) =~= catalog_view(9).rules);
    }
    system
}

fn entry_10() -> (r: LSystem)
    ensures
        r@ == catalog_view(10),
{
    let mut rules: Vec<Rule> = Vec::new();
    rules.push(make_rule('F', "F+F-F-FF+F+F-F"));
    let system = LSystem {
        variables: chars_of("F"),
        seed: chars_of("F+F+F+F"),
        rules,
        angle_tenth_degrees: 900,
        max_rounds: 5,
        canvas: CanvasScaling {
            initial_angle_urad: 90000000,
            length_ppm: 8500,
            height_ppm: 550000,
            width_ppm: 800000,
        },
    };
    proof {
        assert(rules_view(system.rules@) =~= catalog_view(10).rules);
    }
    system
}

fn entry_11() -> (r: LSystem)
    ensures
        r@ == catalog_view(11),
{
    let mut rules: Vec<Rule> = Vec::new();
    rules.push(make_rule('F', "F+FF-FF-F-F+F+FF-F-F+F+FF+FF-F"));
    let system = LSystem {
        variables: chars_of("F"),
        seed: chars_of("F+F+F+F"),
        rules,
        angle_tenth_degrees: 900,
        max_rounds: 4,
        canvas: CanvasScaling {
            initial_angle_urad: 90000000,
            length_ppm: 8000,
            height_ppm: 550000,
            width_ppm: 800000,
        },
    };
    proof {
        assert(rules_view(system.rules@) =~= catalog_view(11).rules);
    }
    system
}

fn entry_12() -> (r: LSystem)
    ensures
        r@ == catalog_view(12),
{
    let mut rules: Vec<Rule> = Vec::new();
    rules.push(make_rule('F', "F-SFF+F+FF+F-S-FFF-F+F+F-FFFF"));
    rules.push(make_rule('S', "SSSSSSSS"));
    let system = LSystem {
        variables: chars_of("FS"),
        seed: chars_of("F+F+F+F"),
        rules,
        angle_tenth_degrees: 900,
        max_rounds: 4,
        canvas: CanvasScaling {
            initial_angle_urad: 1570796,
            length_ppm: 2000,
            height_ppm: 300000,
            width_ppm: 700000,
        },
    };
    proof {
        assert(rules_view(system.rules@) =~= catalog_view(12).rules);
    }
    system
}

fn entry_13() -> (r: LSystem)
    ensures
        r@ == catalog_view(13),
{
    let mut rules: Vec<Rule> = Vec::new();
    rules.push(make_rule('F', "F-SF+FF+F+FF-S-FF+SF-FF-F-FF+S+FFF"));
    rules.push(make_rule('S', "SSSSSS"));
    let system = LSystem {
        variables: chars_of("FS"),
        seed: chars_of("F+F+F+F"),
        rules,
        angle_tenth_degrees: 900,
        max_rounds: 4,
        canvas: CanvasScaling {
            initial_angle_urad: 1570796,
            length_ppm: 7000,
            height_ppm: 350000,
            width_ppm: 800000,
        },
    };
    proof {
        assert(rules_view(system.rules@) =~= catalog_view(13).rules);
    }
    system
}

fn entry_14() -> (r: LSystem)
    ensures
        r@ == catalog_view(14),
{
    let mut rules: Vec<Rule> = Vec::new();
    rules.push(make_rule('X', "--FXF++FXF++FXF--"));
    rules.push(make_rule('F', "FF"));
    let system = LSystem {
        variables: chars_of("XF"),
        seed: chars_of("FXF--FF--FF"),
        rules,
        angle_tenth_degrees: 600,
        max_rounds: 8,
        canvas: CanvasScaling {
            initial_angle_urad: -60000000i64,
            length_ppm: 22000,
            height_ppm: 10000,
            width_ppm: 10000,
        },
    };
    proof {
        assert(rules_view(system.rules@) =~= catalog_view(14).rules);
    }
    system
}

fn entry_15() -> (r: LSystem)
    ensures
        r@ == catalog_view(15),
{
    let mut rules: Vec<Rule> = Vec::new();
    rules.push(make_rule('F', "FF+F+F+F+FF"));
    let system = LSystem {
        variables: chars_of("F"),
        seed: chars_of("F+F+F+F"),
        rules,
        angle_tenth_degrees: 900,
        max_rounds: 5,
        canvas: CanvasScaling {
            initial_angle_urad: -90000000i64,
            length_ppm: 30000,
            height_ppm: 800000,
            width_ppm: 100000,
        },
    };
    proof {
        assert(rules_view(system.rules@) =~= catalog_view(15).rules);
    }
    system
}

fn entry_16() -> (r: LSystem)
    ensures
        r@ == catalog_view(16),
{
    let mut rules: Vec<Rule> = Vec::new();
    rules.push(make_rule('X', "+YF-XFX-FY+"));
    rules.push(make_rule('Y', "-XF+YFY+FX-"));
    let system = LSystem {
        variables: chars_of("XY"),
        seed: chars_of("X"),
        rules,
        angle_tenth_degrees: 900,
        max_rounds: 8,
        canvas: CanvasScaling {
            initial_angle_urad: -90000000i64,
            length_ppm: 35000,
            height_ppm: 900000,
            width_ppm: 300000,
        },
    };
    proof {
        assert(rules_view(system.rules@) =~= catalog_view(16).rules);
    }
    system
}

fn entry_17() -> (r: LSystem)
    ensures
        r@ == catalog_view(17),
{
    let mut rules: Vec<Rule> = Vec::new();
    rules.push(make_rule('F', ""));
    rules.push(make_rule('X', "FX+FX+FXFY-FY-"));
    rules.push(make_rule('Y', "+FX+FXFY-FY-FY"));
    let system = LSystem {
        variables: chars_of("XY"),
        seed: chars_of("XYXYXYX+XYXYXYX+XYXYXYX+XYXYXYX"),
        rules,
        angle_tenth_degrees: 900,
        max_rounds: 5,
        canvas: CanvasScaling {
            initial_angle_urad: 45000000,
            length_ppm: 17000,
            height_ppm: 150000,
            width_ppm: 100000,
        },
    };
    proof {
        assert(rules_view(system.rules@) =~= catalog_view(17).rules);
    }
    system
}

} // verus!
