//! Colors: 8-bit RGB channels plus an alpha carried as IEEE-754 binary32
//! bits.  Color strings are resolved at parse time through a CSS color
//! parser; an alpha outside `[0, 1]` is coerced to fully opaque rather than
//! reported as an error.

use crate::error::{NodeError, NodeErrorView};
use crate::value::Value;
use vstd::prelude::*;

verus! {

/// IEEE-754 binary32 bits of one: the default, fully opaque alpha.
pub const OPAQUE_ALPHA: u32 = 0x3F80_0000;

/// IEEE-754 binary32 bits of negative zero.
pub const NARROW_MINUS_ZERO: u32 = 0x8000_0000;

/// Is `b`, read as a binary32 number, within `[0, 1]`?
///
/// Every non-negative number up to one has a bit pattern at most that of
/// one, negative zero is the one in-range number with its sign bit set,
/// and every pattern above one's is either a larger number, a negative
/// number, or not a number at all.
pub open spec fn alpha_in_unit(b: u32) -> bool {
    b <= OPAQUE_ALPHA || b == NARROW_MINUS_ZERO
}

/// The alpha a color actually keeps: the requested value when it lies in
/// `[0, 1]`, else fully opaque.
pub open spec fn clamp_alpha(b: u32) -> u32 {
    if alpha_in_unit(b) {
        b
    } else {
        OPAQUE_ALPHA
    }
}

/// An RGBA color: 8-bit channels and a binary32-bit alpha.
#[derive(Debug, Clone, Copy, PartialEq, Eq, Structural)]
pub struct Color {
    pub r: u8,
    pub g: u8,
    pub b: u8,
    /// IEEE-754 binary32 bits of the alpha, always within `[0, 1]`.
    pub a: u32,
}

/// What the CSS color parser makes of a string: `None` on unrecognized
/// syntax, else the three channels and the binary32 bits of the alpha.
/// The result is a function of the characters alone.
pub uninterp spec fn css_color_of(s: Seq<char>) -> Option<(u8, u8, u8, u32)>;

/// Relies on css_color_parser's `FromStr` for its `Color`: parsing a CSS
/// color string (`#rrggbb`, `rgba(...)`, named colors, ...) depends on the
/// characters alone; the alpha channel is handed back as its IEEE-754
/// binary32 bits.
#[verifier::external_body]
fn parse_css_color(s: &str) -> (r: Option<(u8, u8, u8, u32)>)
    ensures
        r == css_color_of(s@),
{
    match s.parse::<css_color_parser::Color>() {
        Ok(c) => Some((c.r, c.g, c.b, c.a.to_bits())),
        Err(_) => None,
    }
}

impl Color {
    /// The color `new` builds: the channels as given, the alpha coerced
    /// into `[0, 1]`.
    pub open spec fn new_spec(r: u8, g: u8, b: u8, a: u32) -> Color {
        Color { r, g, b, a: clamp_alpha(a) }
    }

    /// What `parse` returns for a string `s`: the parsed color with its
    /// intrinsic alpha, or `InvalidColor` carrying the string.
    pub open spec fn parse_spec(s: Seq<char>) -> Result<Color, NodeErrorView> {
        match css_color_of(s) {
            Some((r, g, b, a)) => Ok(Color::new_spec(r, g, b, a)),
            None => Err(NodeErrorView::InvalidColor(s)),
        }
    }

    /// Builds a color from channels and alpha bits, coercing an alpha
    /// outside `[0, 1]` to fully opaque.
    pub fn new(r: u8, g: u8, b: u8, a: u32) -> (c: Color)
        ensures
            c == Color::new_spec(r, g, b, a),
    {
        let a = if a <= OPAQUE_ALPHA || a == NARROW_MINUS_ZERO {
            a
        } else {
            OPAQUE_ALPHA
        };
        Color { r, g, b, a }
    }

    /// Resolves a CSS color string, or reports `InvalidColor` carrying the
    /// offending text.
    pub fn parse(src: String) -> (r: Result<Color, NodeError>)
        ensures
            crate::error::res_v(r) == Color::parse_spec(src@),
    {
        match parse_css_color(src.as_str()) {
            Some((r, g, b, a)) => Ok(Color::new(r, g, b, a)),
            None => Err(NodeError::InvalidColor(src)),
        }
    }
}

/// The color of a layer mapping, at the specification level: the `color`
/// field is required and resolved through the CSS parser; the layer's
/// `alpha` field (or the given default) overrides the color's intrinsic
/// alpha, leaving the channels unchanged.
pub open spec fn layer_color_spec(v: Value, ctx: Seq<char>, default_alpha: u32) -> Result<
    Color,
    NodeErrorView,
> {
    let alpha = crate::value::opt_or(crate::value::spec_narrow(v, "alpha"@), default_alpha);
    match crate::value::spec_text(v, "color"@) {
        None => Err(NodeErrorView::Required(ctx, "color"@)),
        Some(s) => match css_color_of(s) {
            Some((r, g, b, _)) => Ok(Color::new_spec(r, g, b, alpha)),
            None => Err(NodeErrorView::InvalidColor(s)),
        },
    }
}

/// Reads a layer's color: the required `color` field, with the layer's
/// `alpha` field (default `default_alpha`) overriding the color's own.
/// `ctx` names the owning layer in the `Required` error.
pub fn parse_layer_color(src: &Value, ctx: &str, default_alpha: u32) -> (r: Result<
    Color,
    NodeError,
>)
    ensures
        crate::error::res_v(r) == layer_color_spec(*src, ctx@, default_alpha),
{
    let alpha = match src.narrow_val("alpha") {
        Some(a) => a,
        None => default_alpha,
    };
    match src.string_val("color") {
        None => Err(NodeError::Required(ctx.to_owned(), "color".to_owned())),
        Some(s) => match Color::parse(s) {
            Ok(c) => Ok(Color::new(c.r, c.g, c.b, alpha)),
            Err(e) => Err(e),
        },
    }
}

impl View for Color {
    type V = Color;

    open spec fn view(&self) -> Color {
        *self
    }
}

} // verus!
