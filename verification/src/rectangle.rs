//! The rectangle layer: an axis-aligned rectangle with optional corner
//! rounding.

use crate::color::{layer_color_spec, parse_layer_color, Color, OPAQUE_ALPHA};
use crate::error::{res_v, NodeError, NodeErrorView};
use crate::scale::{layer_scale_spec, parse_layer_scale, Scale};
use crate::stroke::{layer_stroke_spec, parse_layer_stroke, Stroke};
use crate::value::{opt_or, spec_bool, spec_wide, Value};
use vstd::prelude::*;

verus! {

/// A rectangle at `(x, y)` of size `width` by `height`; coordinates are
/// binary64 bits.  `radius` is the optional corner rounding, zero by
/// default.
#[derive(Debug, Clone, Copy, PartialEq, Eq, Structural)]
pub struct Rectangle {
    pub x: u64,
    pub y: u64,
    pub width: u64,
    pub height: u64,
    pub fill: bool,
    pub color: Color,
    pub stroke: Stroke,
    pub scale: Scale,
    pub radius: u64,
}

impl Rectangle {
    /// What `parse` makes of a layer mapping: `x`, `y`, `width`, `height`
    /// and `color` are required, in that order of reporting; `fill`
    /// defaults to off and `radius` to zero.
    pub open spec fn parse_spec(v: Value) -> Result<Rectangle, NodeErrorView> {
        match spec_wide(v, "x"@) {
            None => Err(NodeErrorView::Required("rectangle"@, "x"@)),
            Some(x) => match spec_wide(v, "y"@) {
                None => Err(NodeErrorView::Required("rectangle"@, "y"@)),
                Some(y) => match spec_wide(v, "width"@) {
                    None => Err(NodeErrorView::Required("rectangle"@, "width"@)),
                    Some(width) => match spec_wide(v, "height"@) {
                        None => Err(NodeErrorView::Required("rectangle"@, "height"@)),
                        Some(height) => match layer_color_spec(v, "rectangle"@, OPAQUE_ALPHA) {
                            Err(e) => Err(e),
                            Ok(color) => Ok(
                                Rectangle {
                                    x,
                                    y,
                                    width,
                                    height,
                                    fill: opt_or(spec_bool(v, "fill"@), false),
                                    color,
                                    stroke: layer_stroke_spec(v),
                                    scale: layer_scale_spec(v),
                                    radius: opt_or(spec_wide(v, "radius"@), 0),
                                },
                            ),
                        },
                    },
                },
            },
        }
    }

    /// Parses a rectangle layer from its mapping.
    pub fn parse(src: &Value) -> (r: Result<Rectangle, NodeError>)
        ensures
            res_v(r) == Rectangle::parse_spec(*src),
    {
        let x = match src.wide_val("x") {
            Some(b) => b,
            None => {
                return Err(NodeError::Required("rectangle".to_owned(), "x".to_owned()));
            },
        };
        let y = match src.wide_val("y") {
            Some(b) => b,
            None => {
                return Err(NodeError::Required("rectangle".to_owned(), "y".to_owned()));
            },
        };
        let width = match src.wide_val("width") {
            Some(b) => b,
            None => {
                return Err(NodeError::Required("rectangle".to_owned(), "width".to_owned()));
            },
        };
        let height = match src.wide_val("height") {
            Some(b) => b,
            None => {
                return Err(NodeError::Required("rectangle".to_owned(), "height".to_owned()));
            },
        };
        let fill = src.bool_val("fill").unwrap_or(false);
        let radius = src.wide_val("radius").unwrap_or(0);
        let color = match parse_layer_color(src, "rectangle", OPAQUE_ALPHA) {
            Ok(c) => c,
            Err(e) => {
                return Err(e);
            },
        };
        let stroke = parse_layer_stroke(src);
        let scale = parse_layer_scale(src);
        Ok(Rectangle { x, y, width, height, fill, color, stroke, scale, radius })
    }
}

impl View for Rectangle {
    type V = Rectangle;

    open spec fn view(&self) -> Rectangle {
        *self
    }
}

} // verus!
