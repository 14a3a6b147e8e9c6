use vstd::prelude::*;

use crate::errors::QrError;

verus! {

/// One 8-bit RGBA pixel, row-major inside a grid.
#[derive(Clone, Copy, Debug, PartialEq, Eq, Structural)]
pub struct Rgba {
    pub r: u8,
    pub g: u8,
    pub b: u8,
    pub a: u8,
}

/// Pure opaque black, the color of a QR module as the encoder renders it.
pub open spec fn black() -> Rgba {
    Rgba { r: 0, g: 0, b: 0, a: 255 }
}

/// Pure opaque white, the background color as the encoder renders it.
pub open spec fn white() -> Rgba {
    Rgba { r: 255, g: 255, b: 255, a: 255 }
}

/// Fully transparent white, what the transparency filter turns `white()` into.
pub open spec fn clear_white() -> Rgba {
    Rgba { r: 255, g: 255, b: 255, a: 0 }
}

pub fn black_pixel() -> (c: Rgba)
    ensures
        c == black(),
{
    Rgba { r: 0, g: 0, b: 0, a: 255 }
}

/// The numeric value of one hex digit, or `None` for any other character.
pub open spec fn hex_val(c: char) -> Option<u8> {
    let u = c as u32;
    if 48 <= u && u <= 57 {
        Some((u - 48) as u8)
    } else if 65 <= u && u <= 70 {
        Some((u - 55) as u8)
    } else if 97 <= u && u <= 102 {
        Some((u - 87) as u8)
    } else {
        None
    }
}

/// Whether a string is `#` followed by exactly six hex digits, the accepted
/// color format.
pub open spec fn is_hex_color(cs: Seq<char>) -> bool {
    &&& cs.len() == 7
    &&& cs[0] == '#'
    &&& forall|i: int| 1 <= i < 7 ==> (#[trigger] hex_val(cs[i])) is Some
}

/// The byte two hex digits stand for; meaningful only when both are digits.
pub open spec fn hex_byte(hi: char, lo: char) -> u8 {
    (hex_val(hi).unwrap() * 16 + hex_val(lo).unwrap()) as u8
}

/// The opaque color a valid `#RRGGBB` string denotes.
pub open spec fn color_of_hex(cs: Seq<char>) -> Rgba {
    Rgba {
        r: hex_byte(cs[1], cs[2]),
        g: hex_byte(cs[3], cs[4]),
        b: hex_byte(cs[5], cs[6]),
        a: 255,
    }
}

fn hex_digit(c: char) -> (v: Option<u8>)
    ensures
        v == hex_val(c),
{
    let u = c as u32;
    if 48 <= u && u <= 57 {
        Some((u - 48) as u8)
    } else if 65 <= u && u <= 70 {
        Some((u - 55) as u8)
    } else if 97 <= u && u <= 102 {
        Some((u - 87) as u8)
    } else {
        None
    }
}

/// Reads the byte written as the two hex digits of `s` at `i` and `i + 1`.
fn hex_byte_at(s: &str, i: usize) -> (r: Option<u8>)
    requires
        i <= 5,
        i + 1 < s@.len(),
    ensures
        r is Some <==> hex_val(s@[i as int]) is Some && hex_val(s@[i + 1]) is Some,
        r is Some ==> r.unwrap() == hex_byte(s@[i as int], s@[i + 1]),
{
    let hi = match hex_digit(s.get_char(i)) {
        Some(v) => v,
        None => { return None; },
    };
    let lo = match hex_digit(s.get_char(i + 1)) {
        Some(v) => v,
        None => { return None; },
    };
    Some(hi * 16 + lo)
}

/// Parses one `#RRGGBB` color string into an opaque RGBA color.
///
/// Succeeds exactly on strings that start with `#` followed by six hex
/// digits; anything else is a `ColorFormat` error.
pub fn parse_hex_color(s: &str) -> (r: Result<Rgba, QrError>)
    ensures
        r is Ok <==> is_hex_color(s@),
        r is Ok ==> r == Ok::<Rgba, QrError>(color_of_hex(s@)),
        r is Err ==> r == Err::<Rgba, QrError>(QrError::ColorFormat),
{
    let n = s.unicode_len();
    if n != 7 {
        return Err(QrError::ColorFormat);
    }
    if s.get_char(0) != '#' {
        return Err(QrError::ColorFormat);
    }
    let red = match hex_byte_at(s, 1) {
        Some(v) => v,
        None => { return Err(QrError::ColorFormat); },
    };
    let green = match hex_byte_at(s, 3) {
        Some(v) => v,
        None => { return Err(QrError::ColorFormat); },
    };
    let blue = match hex_byte_at(s, 5) {
        Some(v) => v,
        None => { return Err(QrError::ColorFormat); },
    };
    Ok(Rgba { r: red, g: green, b: blue, a: 255 })
}

/// The character sequences behind a list of strings.
pub open spec fn views_of(ss: Seq<String>) -> Seq<Seq<char>> {
    ss.map_values(|s: String| s@)
}

/// Whether every entry of a color list is a valid `#RRGGBB` string.
pub open spec fn all_hex_colors(cs: Seq<Seq<char>>) -> bool {
    forall|i: int| 0 <= i < cs.len() ==> is_hex_color(#[trigger] cs[i])
}

/// The colors a list of valid `#RRGGBB` strings denotes.
pub open spec fn colors_of_hex(cs: Seq<Seq<char>>) -> Seq<Rgba> {
    cs.map_values(|c: Seq<char>| color_of_hex(c))
}

/// Parses every entry of a color list, failing on the first entry that is
/// not a valid `#RRGGBB` string.
pub fn parse_colors(colors: &Vec<String>) -> (r: Result<Vec<Rgba>, QrError>)
    ensures
        r is Ok <==> all_hex_colors(views_of(colors@)),
        r matches Ok(v) ==> v@ == colors_of_hex(views_of(colors@)),
        r is Err ==> r == Err::<Vec<Rgba>, QrError>(QrError::ColorFormat),
{
    let mut out: Vec<Rgba> = Vec::new();
    let n = colors.len();
    for i in 0..n
        invariant
            n == colors@.len(),
            out@.len() == i,
            forall|j: int| 0 <= j < i ==> is_hex_color(#[trigger] views_of(colors@)[j]),
            forall|j: int| 0 <= j < i ==> out@[j] == color_of_hex(#[trigger] views_of(colors@)[j]),
    {
        match parse_hex_color(colors[i].as_str()) {
            Ok(c) => { out.push(c); },
            Err(_) => {
                assert(!is_hex_color(views_of(colors@)[i as int]));
                return Err(QrError::ColorFormat);
            },
        }
    }
    assert(out@ =~= colors_of_hex(views_of(colors@)));
    Ok(out)
}

} // verus!

