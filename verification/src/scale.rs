//! Per-layer coordinate scaling, defaulting to the identity.

use crate::value::{spec_wide, Value};
use vstd::prelude::*;

verus! {

/// IEEE-754 binary64 bits of one: the default scale factor.
pub const IDENTITY_SCALE: u64 = 0x3FF0_0000_0000_0000;

/// A per-axis scale factor pair, each carried as binary64 bits.
#[derive(Debug, Clone, Copy, PartialEq, Eq, Structural)]
pub struct Scale {
    pub x: u64,
    pub y: u64,
}

impl Scale {
    /// What `parse` reads from a scale mapping: each axis falls back to
    /// the identity when its field is missing or not a number.
    pub open spec fn parse_spec(v: Value) -> Scale {
        Scale {
            x: match spec_wide(v, "x"@) {
                Some(b) => b,
                None => IDENTITY_SCALE,
            },
            y: match spec_wide(v, "y"@) {
                Some(b) => b,
                None => IDENTITY_SCALE,
            },
        }
    }

    /// Reads a scale from a mapping with optional `x` and `y` fields.
    pub fn parse(src: &Value) -> (r: Scale)
        ensures
            r == Scale::parse_spec(*src),
    {
        let x = match src.wide_val("x") {
            Some(b) => b,
            None => IDENTITY_SCALE,
        };
        let y = match src.wide_val("y") {
            Some(b) => b,
            None => IDENTITY_SCALE,
        };
        Scale { x, y }
    }

}

impl Default for Scale {
    /// The identity scale.
    fn default() -> (r: Scale)
        ensures
            r == Scale::default_spec(),
    {
        Scale { x: IDENTITY_SCALE, y: IDENTITY_SCALE }
    }
}

impl Scale {
    /// The identity scale.
    pub open spec fn default_spec() -> Scale {
        Scale { x: IDENTITY_SCALE, y: IDENTITY_SCALE }
    }
}

/// The scale of a layer mapping: read from its `scale` mapping when it
/// has one, else the identity.
pub open spec fn layer_scale_spec(v: Value) -> Scale {
    match crate::value::spec_dict(v, "scale"@) {
        Some(d) => Scale::parse_spec(d),
        None => Scale::default_spec(),
    }
}

/// Reads a layer's scale: its `scale` mapping when present, else the
/// identity.
pub fn parse_layer_scale(src: &Value) -> (r: Scale)
    ensures
        r == layer_scale_spec(*src),
{
    match src.dict_val("scale") {
        Some(d) => Scale::parse(d),
        None => Scale::default(),
    }
}

} // verus!
