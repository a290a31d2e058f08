//! The circle layer: a full circle around a center point.
//!
//! `radius` is optional and defaults to zero; the degenerate circle that
//! yields is documented behavior, not an error.

use crate::color::{layer_color_spec, parse_layer_color, Color, OPAQUE_ALPHA};
use crate::error::{res_v, NodeError, NodeErrorView};
use crate::scale::{layer_scale_spec, parse_layer_scale, Scale};
use crate::stroke::{layer_stroke_spec, parse_layer_stroke, Stroke};
use crate::value::{opt_or, spec_bool, spec_wide, Value};
use vstd::prelude::*;

verus! {

/// A circle around `(x, y)` with the given radius; coordinates are
/// binary64 bits.
#[derive(Debug, Clone, Copy, PartialEq, Eq, Structural)]
pub struct Circle {
    pub x: u64,
    pub y: u64,
    pub fill: bool,
    pub color: Color,
    pub stroke: Stroke,
    pub scale: Scale,
    pub radius: u64,
}

impl Circle {
    /// What `parse` makes of a layer mapping: `x`, `y` and `color` are
    /// required, in that order of reporting; `fill` defaults to off and
    /// `radius` to zero.
    pub open spec fn parse_spec(v: Value) -> Result<Circle, NodeErrorView> {
        match spec_wide(v, "x"@) {
            None => Err(NodeErrorView::Required("circle"@, "x"@)),
            Some(x) => match spec_wide(v, "y"@) {
                None => Err(NodeErrorView::Required("circle"@, "y"@)),
                Some(y) => match layer_color_spec(v, "circle"@, OPAQUE_ALPHA) {
                    Err(e) => Err(e),
                    Ok(color) => Ok(
                        Circle {
                            x,
                            y,
                            fill: opt_or(spec_bool(v, "fill"@), false),
                            color,
                            stroke: layer_stroke_spec(v),
                            scale: layer_scale_spec(v),
                            radius: opt_or(spec_wide(v, "radius"@), 0),
                        },
                    ),
                },
            },
        }
    }

    /// Parses a circle layer from its mapping.
    pub fn parse(src: &Value) -> (r: Result<Circle, NodeError>)
        ensures
            res_v(r) == Circle::parse_spec(*src),
    {
        let x = match src.wide_val("x") {
            Some(b) => b,
            None => {
                return Err(NodeError::Required("circle".to_owned(), "x".to_owned()));
            },
        };
        let y = match src.wide_val("y") {
            Some(b) => b,
            None => {
                return Err(NodeError::Required("circle".to_owned(), "y".to_owned()));
            },
        };
        let fill = src.bool_val("fill").unwrap_or(false);
        let radius = src.wide_val("radius").unwrap_or(0);
        let color = match parse_layer_color(src, "circle", OPAQUE_ALPHA) {
            Ok(c) => c,
            Err(e) => {
                return Err(e);
            },
        };
        let stroke = parse_layer_stroke(src);
        let scale = parse_layer_scale(src);
        Ok(Circle { x, y, fill, color, stroke, scale, radius })
    }
}

impl View for Circle {
    type V = Circle;

    open spec fn view(&self) -> Circle {
        *self
    }
}

} // verus!
