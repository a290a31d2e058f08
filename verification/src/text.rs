//! The text layer: a string shown at a position in a chosen face.

use crate::color::{layer_color_spec, parse_layer_color, Color, OPAQUE_ALPHA};
use crate::error::{res_v, NodeError, NodeErrorView};
use crate::scale::{layer_scale_spec, parse_layer_scale, Scale};
use crate::value::{opt_or, spec_text, spec_wide, str_eq, Value};
use vstd::prelude::*;

verus! {

/// IEEE-754 binary64 bits of fourteen: the default font size.
pub const DEFAULT_TEXT_SIZE: u64 = 0x402C_0000_0000_0000;

/// A font's weight.
#[derive(Debug, Clone, Copy, PartialEq, Eq, Structural)]
pub enum FontWeight {
    Normal,
    Bold,
}

/// A font's slant.
#[derive(Debug, Clone, Copy, PartialEq, Eq, Structural)]
pub enum FontSlant {
    Normal,
    Italic,
    Oblique,
}

/// A piece of text at `(x, y)`; coordinates and size are binary64 bits.
#[derive(Debug, Clone, PartialEq)]
pub struct Text {
    pub x: u64,
    pub y: u64,
    pub color: Color,
    pub scale: Scale,
    pub text: String,
    pub family: String,
    pub size: u64,
    pub weight: FontWeight,
    pub slant: FontSlant,
}

/// The mathematical shape of a [`Text`]: its strings as character
/// sequences.
pub struct TextView {
    pub x: u64,
    pub y: u64,
    pub color: Color,
    pub scale: Scale,
    pub text: Seq<char>,
    pub family: Seq<char>,
    pub size: u64,
    pub weight: FontWeight,
    pub slant: FontSlant,
}

impl View for Text {
    type V = TextView;

    open spec fn view(&self) -> TextView {
        TextView {
            x: self.x,
            y: self.y,
            color: self.color,
            scale: self.scale,
            text: self.text@,
            family: self.family@,
            size: self.size,
            weight: self.weight,
            slant: self.slant,
        }
    }
}

/// The weight a name selects; every name but `bold` means normal weight.
pub open spec fn weight_of_name(name: Option<Seq<char>>) -> FontWeight {
    match name {
        Some(s) => if s == "bold"@ {
            FontWeight::Bold
        } else {
            FontWeight::Normal
        },
        None => FontWeight::Normal,
    }
}

/// The slant a name selects; every name but `italic` and `oblique` means
/// no slant.
pub open spec fn slant_of_name(name: Option<Seq<char>>) -> FontSlant {
    match name {
        Some(s) => if s == "italic"@ {
            FontSlant::Italic
        } else if s == "oblique"@ {
            FontSlant::Oblique
        } else {
            FontSlant::Normal
        },
        None => FontSlant::Normal,
    }
}

impl Text {
    /// What `parse` makes of a layer mapping: `x`, `y`, `color` and `text`
    /// are required, in that order of reporting; `family` defaults to
    /// `serif`, `size` to fourteen, and `weight` and `slant` to normal.
    pub open spec fn parse_spec(v: Value) -> Result<TextView, NodeErrorView> {
        match spec_wide(v, "x"@) {
            None => Err(NodeErrorView::Required("text"@, "x"@)),
            Some(x) => match spec_wide(v, "y"@) {
                None => Err(NodeErrorView::Required("text"@, "y"@)),
                Some(y) => match layer_color_spec(v, "text"@, OPAQUE_ALPHA) {
                    Err(e) => Err(e),
                    Ok(color) => match spec_text(v, "text"@) {
                        None => Err(NodeErrorView::Required("text"@, "text"@)),
                        Some(text) => Ok(
                            TextView {
                                x,
                                y,
                                color,
                                scale: layer_scale_spec(v),
                                text,
                                family: opt_or(spec_text(v, "family"@), "serif"@),
                                size: opt_or(spec_wide(v, "size"@), DEFAULT_TEXT_SIZE),
                                weight: weight_of_name(spec_text(v, "weight"@)),
                                slant: slant_of_name(spec_text(v, "slant"@)),
                            },
                        ),
                    },
                },
            },
        }
    }

    /// Parses a text layer from its mapping.
    pub fn parse(src: &Value) -> (r: Result<Text, NodeError>)
        ensures
            res_v(r) == Text::parse_spec(*src),
    {
        let x = match src.wide_val("x") {
            Some(b) => b,
            None => {
                return Err(NodeError::Required("text".to_owned(), "x".to_owned()));
            },
        };
        let y = match src.wide_val("y") {
            Some(b) => b,
            None => {
                return Err(NodeError::Required("text".to_owned(), "y".to_owned()));
            },
        };
        let color = match parse_layer_color(src, "text", OPAQUE_ALPHA) {
            Ok(c) => c,
            Err(e) => {
                return Err(e);
            },
        };
        let scale = parse_layer_scale(src);
        let text = match src.string_val("text") {
            Some(s) => s,
            None => {
                return Err(NodeError::Required("text".to_owned(), "text".to_owned()));
            },
        };
        let family = match src.string_val("family") {
            Some(s) => s,
            None => "serif".to_owned(),
        };
        let size = match src.wide_val("size") {
            Some(b) => b,
            None => DEFAULT_TEXT_SIZE,
        };
        let weight = match src.str_val("weight") {
            Some(s) => {
                if str_eq(s.as_str(), "bold") {
                    FontWeight::Bold
                } else {
                    FontWeight::Normal
                }
            },
            None => FontWeight::Normal,
        };
        let slant = match src.str_val("slant") {
            Some(s) => {
                if str_eq(s.as_str(), "italic") {
                    FontSlant::Italic
                } else if str_eq(s.as_str(), "oblique") {
                    FontSlant::Oblique
                } else {
                    FontSlant::Normal
                }
            },
            None => FontSlant::Normal,
        };
        Ok(Text { x, y, color, scale, text, family, size, weight, slant })
    }
}

} // verus!
