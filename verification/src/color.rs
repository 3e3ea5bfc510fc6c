//! RGB colors, the three-color set the tool applies, and the hex
//! notation the colors are entered in.

use vstd::prelude::*;

use crate::errors::ApplyError;

verus! {

/// Whether `c` is one of the sixteen hexadecimal digit characters,
/// either case.
pub open spec fn is_hex_digit(c: char) -> bool {
    (48 <= c as int && c as int <= 57)  // '0' ..= '9'
    || (65 <= c as int && c as int <= 70)  // 'A' ..= 'F'
    || (97 <= c as int && c as int <= 102)  // 'a' ..= 'f'
}

/// The value of a hexadecimal digit character. Meaningful only when
/// `is_hex_digit(c)` holds.
pub open spec fn hex_digit_value(c: char) -> u8 {
    if 48 <= c as int && c as int <= 57 {
        (c as int - 48) as u8
    } else if 65 <= c as int && c as int <= 70 {
        (c as int - 55) as u8
    } else {
        (c as int - 87) as u8
    }
}

/// Whether `s` is a well-formed hexadecimal byte string: an even number
/// of characters, all of them hex digits.
pub open spec fn valid_hex(s: Seq<char>) -> bool {
    s.len() % 2 == 0 && forall|i: int| 0 <= i < s.len() ==> is_hex_digit(#[trigger] s[i])
}

/// The byte written by the `i`-th pair of digits of `s`.
pub open spec fn hex_byte(s: Seq<char>, i: int) -> u8 {
    (hex_digit_value(s[2 * i]) * 16 + hex_digit_value(s[2 * i + 1])) as u8
}

/// Relies on hex::decode: each pair of hex digits becomes one byte,
/// the first digit giving the high nibble; an odd number of characters
/// or a character outside `0-9a-fA-F` is refused.
#[verifier::external_body]
fn decode_hex(s: &str) -> (r: Option<Vec<u8>>)
    ensures
        r is Some <==> valid_hex(s@),
        r matches Some(v) ==> v@.len() == s@.len() / 2 && forall|i: int|
            0 <= i < v@.len() ==> v@[i] == hex_byte(s@, i),
{
    hex::decode(s).ok()
}

/// One 8-bit-per-channel RGB color. Alpha is never stored here: it is
/// inherited from the template a color is applied to.
#[derive(Default, Copy, Clone, PartialEq, Eq, Structural, Debug)]
pub struct Color {
    pub r: u8,
    pub g: u8,
    pub b: u8,
}

/// The three colors of one run: the two portal colors and the prop-carry
/// color, in that stable order (blue, orange, carry).
#[derive(Default, Copy, Clone, PartialEq, Eq, Structural, Debug)]
pub struct Colors {
    pub blue: Color,
    pub orange: Color,
    pub carry: Color,
}

impl Colors {
    /// Builds the set from three decoded channel triples, in the order
    /// blue, orange, carry.
    pub fn new(colors: &[Vec<u8>]) -> (r: Self)
        requires
            colors@.len() >= 3,
            colors@[0]@.len() >= 3,
            colors@[1]@.len() >= 3,
            colors@[2]@.len() >= 3,
        ensures
            r.blue == (Color { r: colors@[0]@[0], g: colors@[0]@[1], b: colors@[0]@[2] }),
            r.orange == (Color { r: colors@[1]@[0], g: colors@[1]@[1], b: colors@[1]@[2] }),
            r.carry == (Color { r: colors@[2]@[0], g: colors@[2]@[1], b: colors@[2]@[2] }),
    {
        let blue = Color { r: colors[0][0], g: colors[0][1], b: colors[0][2] };
        let carry = Color { r: colors[2][0], g: colors[2][1], b: colors[2][2] };
        let orange = Color { r: colors[1][0], g: colors[1][1], b: colors[1][2] };
        Colors { blue, orange, carry }
    }

    /// The color at a position of the stable order: 0 is blue, 1 is
    /// orange, 2 is carry.
    pub fn index(&self, i: u8) -> (r: Color)
        requires
            i < 3,
        ensures
            r == self.position(i as int),
    {
        if i == 0 {
            self.blue
        } else if i == 1 {
            self.orange
        } else {
            self.carry
        }
    }

    /// The stable positional order of the set.
    pub open spec fn position(&self, i: int) -> Color {
        if i == 0 {
            self.blue
        } else if i == 1 {
            self.orange
        } else {
            self.carry
        }
    }
}

/// Whether `s` spells one 24-bit RGB color: exactly six hex digits,
/// either case, with no leading `#`.
pub open spec fn valid_color_hex(s: Seq<char>) -> bool {
    s.len() == 6 && forall|i: int| 0 <= i < s.len() ==> is_hex_digit(#[trigger] s[i])
}

/// The color spelled by a six-digit hex string, two digits per channel
/// in the order red, green, blue.
pub open spec fn color_of_hex(s: Seq<char>) -> Color {
    Color { r: hex_byte(s, 0), g: hex_byte(s, 1), b: hex_byte(s, 2) }
}

/// Decodes one hex-encoded 24-bit RGB color.
pub fn parse_color(s: &str) -> (r: Option<Color>)
    ensures
        r is Some <==> valid_color_hex(s@),
        r matches Some(c) ==> c == color_of_hex(s@),
{
    match decode_hex(s) {
        Some(v) => {
            if v.len() == 3 {
                Some(Color { r: v[0], g: v[1], b: v[2] })
            } else {
                None
            }
        },
        None => None,
    }
}

/// Decodes the three color fields of one run, in the stable order blue,
/// orange, carry. Any malformed field refuses the whole set before any
/// work is done.
pub fn parse_colors(blue: &str, orange: &str, carry: &str) -> (r: Result<Colors, ApplyError>)
    ensures
        r is Ok <==> valid_color_hex(blue@) && valid_color_hex(orange@) && valid_color_hex(
            carry@,
        ),
        r matches Ok(cs) ==> cs == (Colors {
            blue: color_of_hex(blue@),
            orange: color_of_hex(orange@),
            carry: color_of_hex(carry@),
        }),
        r is Err ==> r == Err::<Colors, ApplyError>(ApplyError::InvalidColor),
{
    let b = match parse_color(blue) {
        Some(c) => c,
        None => {
            return Err(ApplyError::InvalidColor);
        },
    };
    let o = match parse_color(orange) {
        Some(c) => c,
        None => {
            return Err(ApplyError::InvalidColor);
        },
    };
    let c = match parse_color(carry) {
        Some(c) => c,
        None => {
            return Err(ApplyError::InvalidColor);
        },
    };
    Ok(Colors { blue: b, orange: o, carry: c })
}

} // verus!
