//! Outline-painting style: line width and line cap, with forgiving
//! defaults.  Unrecognized cap names silently fall back to the default
//! rather than erroring.

use crate::value::{spec_text, spec_wide, str_eq, Value};
use vstd::prelude::*;

verus! {

/// IEEE-754 binary64 bits of one: the default stroke width.
pub const DEFAULT_STROKE_WIDTH: u64 = 0x3FF0_0000_0000_0000;

/// The shape of a stroked line's ends.
#[derive(Debug, Clone, Copy, PartialEq, Eq, Structural)]
pub enum LineCap {
    Butt,
    Round,
    Square,
}

/// Outline style: a line width carried as binary64 bits, and a line cap.
#[derive(Debug, Clone, Copy, PartialEq, Eq, Structural)]
pub struct Stroke {
    pub width: u64,
    pub cap: LineCap,
}

/// The cap a name selects; every unrecognized name means the default cap.
pub open spec fn cap_of_name(name: Option<Seq<char>>) -> LineCap {
    match name {
        Some(s) => if s == "butt"@ {
            LineCap::Butt
        } else if s == "round"@ {
            LineCap::Round
        } else if s == "square"@ {
            LineCap::Square
        } else {
            LineCap::Butt
        },
        None => LineCap::Butt,
    }
}

impl Stroke {
    /// What `parse` reads from a stroke mapping: width falls back to one,
    /// the cap is selected by name with the same fallback.
    pub open spec fn parse_spec(v: Value) -> Stroke {
        Stroke {
            width: match spec_wide(v, "width"@) {
                Some(b) => b,
                None => DEFAULT_STROKE_WIDTH,
            },
            cap: cap_of_name(spec_text(v, "cap"@)),
        }
    }

    /// Reads a stroke from a mapping with optional `width` and `cap`
    /// fields.
    pub fn parse(src: &Value) -> (r: Stroke)
        ensures
            r == Stroke::parse_spec(*src),
    {
        let width = match src.wide_val("width") {
            Some(b) => b,
            None => DEFAULT_STROKE_WIDTH,
        };
        let cap = match src.str_val("cap") {
            Some(s) => {
                if str_eq(s.as_str(), "butt") {
                    LineCap::Butt
                } else if str_eq(s.as_str(), "round") {
                    LineCap::Round
                } else if str_eq(s.as_str(), "square") {
                    LineCap::Square
                } else {
                    LineCap::Butt
                }
            },
            None => LineCap::Butt,
        };
        Stroke { width, cap }
    }
}

impl Default for Stroke {
    /// Width one, butt cap.
    fn default() -> (r: Stroke)
        ensures
            r == Stroke::default_spec(),
    {
        Stroke { width: DEFAULT_STROKE_WIDTH, cap: LineCap::Butt }
    }
}

impl Stroke {
    /// The default stroke: width one, butt cap.
    pub open spec fn default_spec() -> Stroke {
        Stroke { width: DEFAULT_STROKE_WIDTH, cap: LineCap::Butt }
    }
}

/// The stroke of a layer mapping: read from its `stroke` mapping when it
/// has one, else the default.
pub open spec fn layer_stroke_spec(v: Value) -> Stroke {
    match crate::value::spec_dict(v, "stroke"@) {
        Some(d) => Stroke::parse_spec(d),
        None => Stroke::default_spec(),
    }
}

/// Reads a layer's stroke: its `stroke` mapping when present, else the
/// default.
pub fn parse_layer_stroke(src: &Value) -> (r: Stroke)
    ensures
        r == layer_stroke_spec(*src),
{
    match src.dict_val("stroke") {
        Some(d) => Stroke::parse(d),
        None => Stroke::default(),
    }
}

} // verus!
