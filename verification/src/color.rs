//! Colors: the RGBA bytes of a CSS color and their packing into a Win32 `COLORREF`.

use vstd::prelude::*;

verus! {

/// A color as four 8-bit channels (red, green, blue, alpha).
#[derive(Clone, Copy, Debug, PartialEq, Eq, Structural)]
pub struct Rgba8 {
    pub r: u8,
    pub g: u8,
    pub b: u8,
    pub a: u8,
}

/// The `COLORREF` value of a color: `0x00BBGGRR`, alpha dropped.
pub open spec fn color_ref_of(c: Rgba8) -> u32 {
    (c.b as int * 0x10000 + c.g as int * 0x100 + c.r as int) as u32
}

/// Packs the red, green and blue channels of `color` into a `COLORREF`
/// (`0x00BBGGRR`); the alpha channel is ignored.
pub fn color_to_color_ref(color: Rgba8) -> (res: u32)
    ensures
        res == color_ref_of(color),
        res as int == color.b as int * 0x10000 + color.g as int * 0x100 + color.r as int,
{
    let r: u32 = color.r as u32;
    let g: u32 = color.g as u32;
    let b: u32 = color.b as u32;
    let res: u32 = (b << 16u32) | (g << 8u32) | r;
    assert(res == b * 0x10000 + g * 0x100 + r) by (bit_vector)
        requires
            r < 256,
            g < 256,
            b < 256,
            res == (b << 16u32) | (g << 8u32) | r,
    ;
    res
}


/// Packs an optional color: `None` stays `None`.
pub fn option_color_to_color_ref(color: Option<Rgba8>) -> (res: Option<u32>)
    ensures
        res == (match color {
            Some(c) => Some(color_ref_of(c)),
            None => None::<u32>,
        }),
{
    match color {
        Some(color) => Some(color_to_color_ref(color)),
        None => None,
    }
}

/// The red channel stored in a `COLORREF`.
pub open spec fn color_ref_red(c: u32) -> int {
    c as int % 0x100
}

/// The green channel stored in a `COLORREF`.
pub open spec fn color_ref_green(c: u32) -> int {
    (c as int / 0x100) % 0x100
}

/// The blue channel stored in a `COLORREF`.
pub open spec fn color_ref_blue(c: u32) -> int {
    (c as int / 0x10000) % 0x100
}

/// Packing a color into a `COLORREF` loses nothing but alpha: each of red,
/// green and blue can be read back from its byte, and the top byte is zero.
pub proof fn lemma_color_ref_channels(c: Rgba8)
    ensures
        color_ref_red(color_ref_of(c)) == c.r,
        color_ref_green(color_ref_of(c)) == c.g,
        color_ref_blue(color_ref_of(c)) == c.b,
        color_ref_of(c) < 0x100_0000,
{
    let v: int = c.b as int * 0x10000 + c.g as int * 0x100 + c.r as int;
    assert(0 <= v < 0x100_0000);
    assert(color_ref_of(c) as int == v);
    assert(v / 0x100 == c.b as int * 0x100 + c.g as int);
    assert(v / 0x10000 == c.b as int);
}

/// Two colors with the same red, green and blue bytes give the same
/// `COLORREF`, and two that differ in one of them give different ones.
pub proof fn lemma_color_ref_injective(c1: Rgba8, c2: Rgba8)
    ensures
        (color_ref_of(c1) == color_ref_of(c2)) <==> (c1.r == c2.r && c1.g == c2.g && c1.b == c2.b),
{
    lemma_color_ref_channels(c1);
    lemma_color_ref_channels(c2);
}

/// What `csscolorparser` yields for the text of a CSS color: `None` where
/// `csscolorparser::parse` refuses the text, otherwise the color's
/// `to_rgba8()` bytes.
pub uninterp spec fn css_color_rgba8(text: Seq<char>) -> Option<Rgba8>;

/// Parses CSS color text (`#RRGGBB`, `rgb(r,g,b)`, a color name, ...) with
/// `csscolorparser::parse` and converts the color with `Color::to_rgba8`.
/// Trusted: the result is `None` exactly when `parse` returns an error, and
/// otherwise the four bytes of `to_rgba8`; both are functions of the text
/// alone, named `css_color_rgba8`.
#[verifier::external_body]
pub(crate) fn parse_css_color(text: &str) -> (res: Option<Rgba8>)
    ensures
        res == css_color_rgba8(text@),
{
    match csscolorparser::parse(text) {
        Ok(color) => {
            let [r, g, b, a] = color.to_rgba8();
            Some(Rgba8 { r, g, b, a })
        },
        Err(_) => None,
    }
}

} // verus!
