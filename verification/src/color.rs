//! Hex-triplet color strings and their parsed RGB form.

use vstd::prelude::*;
use vstd::string::StrSliceExecFns;
use crate::errors::RenderError;

verus! {

/// One color as 8-bit red, green and blue components.
#[derive(Clone, Copy, Debug, PartialEq, Eq, Structural)]
pub struct Rgb {
    pub red: u8,
    pub green: u8,
    pub blue: u8,
}

/// Whether `c` is a hexadecimal digit, upper or lower case.
pub open spec fn is_hex_digit(c: char) -> bool {
    ('0' <= c && c <= '9') || ('a' <= c && c <= 'f') || ('A' <= c && c <= 'F')
}

/// Numeric value of a hexadecimal digit.
pub open spec fn hex_digit_value(c: char) -> int {
    if '0' <= c && c <= '9' {
        c as int - '0' as int
    } else if 'a' <= c && c <= 'f' {
        c as int - 'a' as int + 10
    } else {
        c as int - 'A' as int + 10
    }
}

/// The six hex digits of a color string: a leading `#`, if any, is dropped.
pub open spec fn hex_digits(s: Seq<char>) -> Seq<char> {
    if s.len() > 0 && s[0] == '#' {
        s.drop_first()
    } else {
        s
    }
}

/// A valid color string is six hex digits, with an optional leading `#`.
pub open spec fn is_valid_color(s: Seq<char>) -> bool {
    &&& hex_digits(s).len() == 6
    &&& forall|i: int| 0 <= i < 6 ==> is_hex_digit(#[trigger] hex_digits(s)[i])
}

/// Channel value of two hex digits.
pub open spec fn channel_value(hi: char, lo: char) -> int {
    16 * hex_digit_value(hi) + hex_digit_value(lo)
}

/// The color a valid color string denotes.
pub open spec fn color_of(s: Seq<char>) -> Rgb {
    let d = hex_digits(s);
    Rgb {
        red: channel_value(d[0], d[1]) as u8,
        green: channel_value(d[2], d[3]) as u8,
        blue: channel_value(d[4], d[5]) as u8,
    }
}

/// Decide whether `c` is a hex digit, and return its value if so.
fn hex_digit(c: char) -> (r: Option<u8>)
    ensures
        r is Some <==> is_hex_digit(c),
        r is Some ==> r->0 == hex_digit_value(c) && r->0 < 16,
{
    if '0' <= c && c <= '9' {
        Some((c as u8) - ('0' as u8))
    } else if 'a' <= c && c <= 'f' {
        Some((c as u8) - ('a' as u8) + 10)
    } else if 'A' <= c && c <= 'F' {
        Some((c as u8) - ('A' as u8) + 10)
    } else {
        None
    }
}

/// Parse a 6-hex-digit RGB string such as `#1a2b3c` (the `#` may be left
/// off).  Returns the parsed color exactly when the string is valid, and
/// `InvalidColor` otherwise.
pub fn parse_hex_color(s: &str) -> (r: Result<Rgb, RenderError>)
    ensures
        r is Ok <==> is_valid_color(s@),
        r is Ok ==> r->Ok_0 == color_of(s@),
        r is Err ==> r->Err_0 == RenderError::InvalidColor,
{
    let n = s.unicode_len();
    let skip: usize = if n > 0 && s.get_char(0) == '#' {
        1
    } else {
        0
    };
    proof {
        assert(hex_digits(s@) =~= s@.skip(skip as int));
    }
    if n - skip != 6 {
        return Err(RenderError::InvalidColor);
    }
    let mut digits: [u8; 6] = [0, 0, 0, 0, 0, 0];
    let mut i: usize = 0;
    while i < 6
        invariant
            i <= 6,
            skip + 6 == n,
            n == s@.len(),
            skip <= 1,
            hex_digits(s@) == s@.skip(skip as int),
            forall|j: int| 0 <= j < i ==> is_hex_digit(#[trigger] hex_digits(s@)[j]),
            forall|j: int|
                0 <= j < i ==> digits[j] == hex_digit_value(#[trigger] hex_digits(s@)[j]),
            forall|j: int| 0 <= j < i ==> #[trigger] digits[j] < 16,
        decreases 6 - i,
    {
        let c = s.get_char(skip + i);
        proof {
            assert(s@.skip(skip as int)[i as int] == s@[skip + i]);
            assert(c == hex_digits(s@)[i as int]);
        }
        match hex_digit(c) {
            Some(v) => {
                digits[i] = v;
            },
            None => {
                return Err(RenderError::InvalidColor);
            },
        }
        i += 1;
    }
    Ok(
        Rgb {
            red: 16 * digits[0] + digits[1],
            green: 16 * digits[2] + digits[3],
            blue: 16 * digits[4] + digits[5],
        },
    )
}

} // verus!
