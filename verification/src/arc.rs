//! The arc layer: a circular arc between two angles, optionally closed
//! back through its center.

use crate::color::{layer_color_spec, parse_layer_color, Color, OPAQUE_ALPHA};
use crate::error::{res_v, NodeError, NodeErrorView};
use crate::scale::{layer_scale_spec, parse_layer_scale, Scale};
use crate::stroke::{layer_stroke_spec, parse_layer_stroke, Stroke};
use crate::value::{opt_or, spec_bool, spec_wide, Value};
use vstd::prelude::*;

verus! {

/// An arc around `(x, y)`: `start` and `end` are angles in degrees, and
/// all numeric fields are binary64 bits.  With `close` set, the path runs
/// through the center before painting, closing a pie slice.
#[derive(Debug, Clone, Copy, PartialEq, Eq, Structural)]
pub struct Arc {
    pub x: u64,
    pub y: u64,
    pub start: u64,
    pub end: u64,
    pub close: bool,
    pub fill: bool,
    pub color: Color,
    pub stroke: Stroke,
    pub scale: Scale,
    pub radius: u64,
}

impl Arc {
    /// What `parse` makes of a layer mapping: `x`, `y`, `start`, `end`,
    /// `radius` and `color` are required, in that order of reporting;
    /// `fill` and `close` default to off.
    pub open spec fn parse_spec(v: Value) -> Result<Arc, NodeErrorView> {
        match spec_wide(v, "x"@) {
            None => Err(NodeErrorView::Required("arc"@, "x"@)),
            Some(x) => match spec_wide(v, "y"@) {
                None => Err(NodeErrorView::Required("arc"@, "y"@)),
                Some(y) => match spec_wide(v, "start"@) {
                    None => Err(NodeErrorView::Required("arc"@, "start"@)),
                    Some(start) => match spec_wide(v, "end"@) {
                        None => Err(NodeErrorView::Required("arc"@, "end"@)),
                        Some(end) => match spec_wide(v, "radius"@) {
                            None => Err(NodeErrorView::Required("arc"@, "radius"@)),
                            Some(radius) => match layer_color_spec(v, "arc"@, OPAQUE_ALPHA) {
                                Err(e) => Err(e),
                                Ok(color) => Ok(
                                    Arc {
                                        x,
                                        y,
                                        start,
                                        end,
                                        close: opt_or(spec_bool(v, "close"@), false),
                                        fill: opt_or(spec_bool(v, "fill"@), false),
                                        color,
                                        stroke: layer_stroke_spec(v),
                                        scale: layer_scale_spec(v),
                                        radius,
                                    },
                                ),
                            },
                        },
                    },
                },
            },
        }
    }

    /// Parses an arc layer from its mapping.
    pub fn parse(src: &Value) -> (r: Result<Arc, NodeError>)
        ensures
            res_v(r) == Arc::parse_spec(*src),
    {
        let x = match src.wide_val("x") {
            Some(b) => b,
            None => {
                return Err(NodeError::Required("arc".to_owned(), "x".to_owned()));
            },
        };
        let y = match src.wide_val("y") {
            Some(b) => b,
            None => {
                return Err(NodeError::Required("arc".to_owned(), "y".to_owned()));
            },
        };
        let start = match src.wide_val("start") {
            Some(b) => b,
            None => {
                return Err(NodeError::Required("arc".to_owned(), "start".to_owned()));
            },
        };
        let end = match src.wide_val("end") {
            Some(b) => b,
            None => {
                return Err(NodeError::Required("arc".to_owned(), "end".to_owned()));
            },
        };
        let fill = src.bool_val("fill").unwrap_or(false);
        let close = src.bool_val("close").unwrap_or(false);
        let radius = match src.wide_val("radius") {
            Some(b) => b,
            None => {
                return Err(NodeError::Required("arc".to_owned(), "radius".to_owned()));
            },
        };
        let color = match parse_layer_color(src, "arc", OPAQUE_ALPHA) {
            Ok(c) => c,
            Err(e) => {
                return Err(e);
            },
        };
        let stroke = parse_layer_stroke(src);
        let scale = parse_layer_scale(src);
        Ok(Arc { x, y, start, end, close, fill, color, stroke, scale, radius })
    }
}

impl View for Arc {
    type V = Arc;

    open spec fn view(&self) -> Arc {
        *self
    }
}

} // verus!
