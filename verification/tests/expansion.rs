//! Tests for the expansion engine and the catalog.

use lsystem_fractals::errors::RenderError;
use lsystem_fractals::expansion::expand_lsystem;
use lsystem_fractals::lsystem::{CanvasScaling, LSystem, LSystemImpl, Rule};

fn chars(s: &str) -> Vec<char> {
    s.chars().collect()
}

fn plain_canvas() -> CanvasScaling {
    CanvasScaling { initial_angle_urad: 0, length_ppm: 10000, height_ppm: 500000, width_ppm: 500000 }
}

#[test]
fn zero_iterations_yield_seed_for_every_entry() {
    for t in 1..=17u32 {
        let system = LSystemImpl::new(t).unwrap();
        let expanded = system.expand(0).unwrap();
        assert_eq!(expanded, system.0.seed, "entry {t}");
    }
}

#[test]
fn expansion_is_deterministic() {
    for t in 1..=17u32 {
        let system = LSystemImpl::new(t).unwrap();
        let n = system.0.max_rounds.min(3);
        let first = system.expand(n).unwrap();
        let second = system.expand(n).unwrap();
        assert_eq!(first, second, "entry {t}");
    }
}

#[test]
fn expansion_length_follows_rule_lengths() {
    // Koch snowflake: seed "F++F++F", rule F -> "F-F++F-F" of length 8.
    // After one round each F becomes 8 symbols and the 4 turn symbols stay.
    let system = LSystemImpl::new(7).unwrap();
    let one = system.expand(1).unwrap();
    assert_eq!(one.len(), 3 * 8 + 4);
    // After two rounds: 12 Fs of 8 symbols each, 12 + 4 turns kept.
    let two = system.expand(2).unwrap();
    assert_eq!(two.len(), 12 * 8 + 12 + 4);
}

#[test]
fn dragon_curve_first_round() {
    let system = LSystemImpl::new(4).unwrap();
    assert_eq!(system.expand(0).unwrap(), chars("FX"));
    assert_eq!(system.expand(1).unwrap(), chars("FX+YF+"));
    assert_eq!(system.expand(2).unwrap(), chars("FX+YF++-FX-YF+"));
}

#[test]
fn barnsley_fern_first_round() {
    let system = LSystemImpl::new(1).unwrap();
    assert_eq!(system.expand(1).unwrap(), chars("F-[[X]+X]+F[+FX]-X"));
}

#[test]
fn iterations_above_ceiling_fail_for_every_entry() {
    for t in 1..=17u32 {
        let system = LSystemImpl::new(t).unwrap();
        let over = system.0.max_rounds + 1;
        assert_eq!(system.expand(over).unwrap_err(), RenderError::IterationLimitExceeded);
        // The ceiling itself is still served.
        assert!(system.expand(system.0.max_rounds).is_ok(), "entry {t}");
    }
}

#[test]
fn empty_replacement_deletes_symbol() {
    // rules = { A -> "AB", B -> "" }: B is erased on rewrite while A
    // regrows, so the expansion stays "AB" from the first round on.
    let system = LSystem {
        variables: chars("AB"),
        seed: chars("A"),
        rules: vec![
            Rule { symbol: 'A', replacement: chars("AB") },
            Rule { symbol: 'B', replacement: chars("") },
        ],
        angle_tenth_degrees: 900,
        max_rounds: 5,
        canvas: plain_canvas(),
    };
    assert_eq!(expand_lsystem(&system, 1).unwrap(), chars("AB"));
    assert_eq!(expand_lsystem(&system, 2).unwrap(), chars("AB"));
    assert_eq!(expand_lsystem(&system, 3).unwrap(), chars("AB"));
}

#[test]
fn symbols_outside_variables_pass_through() {
    let system = LSystem {
        variables: chars("F"),
        seed: chars("F+G-F"),
        rules: vec![Rule { symbol: 'F', replacement: chars("FF") }],
        angle_tenth_degrees: 900,
        max_rounds: 4,
        canvas: plain_canvas(),
    };
    assert_eq!(expand_lsystem(&system, 1).unwrap(), chars("FF+G-FF"));
}

#[test]
fn unknown_identifier_and_ceiling_errors_are_distinct() {
    let unknown = match LSystemImpl::new(0) {
        Err(e) => e,
        Ok(_) => panic!("identifier 0 must be rejected"),
    };
    assert_eq!(unknown, RenderError::UnknownFractal);
    let unknown_high = match LSystemImpl::new(18) {
        Err(e) => e,
        Ok(_) => panic!("identifier 18 must be rejected"),
    };
    assert_eq!(unknown_high, RenderError::UnknownFractal);
    let system = LSystemImpl::new(5).unwrap();
    let over = system.expand(4).unwrap_err();
    assert_eq!(over, RenderError::IterationLimitExceeded);
    assert_ne!(unknown, over);
}

#[test]
fn catalog_data_is_exposed() {
    let system = LSystemImpl::new(4).unwrap();
    assert_eq!(system.get_angle(), 900);
    let scaling = system.get_canvas_scaling();
    assert_eq!(scaling.initial_angle_urad, 30000000);
    assert_eq!(scaling.length_ppm, 60000);
    assert_eq!(scaling.height_ppm, 500000);
    assert_eq!(scaling.width_ppm, 800000);
    assert_eq!(system.0.max_rounds, 14);
    assert_eq!(system.0.variables, chars("XY"));
}
