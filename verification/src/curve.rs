//! The curve layer: one cubic curve from `start` through the control point
//! `mid` to `end`, always stroked and never filled.

use crate::color::{layer_color_spec, parse_layer_color, Color, OPAQUE_ALPHA};
use crate::error::{res_v, NodeError, NodeErrorView};
use crate::point::{spec_point, Point};
use crate::scale::{layer_scale_spec, parse_layer_scale, Scale};
use crate::stroke::{layer_stroke_spec, parse_layer_stroke, Stroke};
use crate::value::{spec_entry, Value};
use vstd::prelude::*;

verus! {

/// A stroked curve: its endpoints and one control point.
#[derive(Debug, Clone, Copy, PartialEq, Eq, Structural)]
pub struct Curve {
    pub color: Color,
    pub stroke: Stroke,
    pub scale: Scale,
    pub start: Point,
    pub mid: Point,
    pub end: Point,
}

/// What the point field `key` of a curve mapping yields: the field must be
/// an array (`Required` otherwise) holding a two-number point
/// (`InvalidPoint` otherwise).
pub open spec fn curve_point_spec(v: Value, key: Seq<char>) -> Result<Point, NodeErrorView> {
    match spec_entry(v, key) {
        Some(pv) => if pv is List {
            match spec_point(pv) {
                Some(p) => Ok(p),
                None => Err(NodeErrorView::InvalidPoint),
            }
        } else {
            Err(NodeErrorView::Required("curve"@, key))
        },
        None => Err(NodeErrorView::Required("curve"@, key)),
    }
}

/// Reads the point field `key` of a curve mapping.
fn parse_curve_point(src: &Value, key: &str) -> (r: Result<Point, NodeError>)
    ensures
        res_v(r) == curve_point_spec(*src, key@),
{
    match src.entry(key) {
        Some(pv) => match pv {
            Value::List(_) => match pv.as_point() {
                Some(p) => Ok(p),
                None => Err(NodeError::InvalidPoint),
            },
            _ => Err(NodeError::Required("curve".to_owned(), key.to_owned())),
        },
        None => Err(NodeError::Required("curve".to_owned(), key.to_owned())),
    }
}

impl Curve {
    /// What `parse` makes of a layer mapping: `color`, `start`, `mid` and
    /// `end` are required, in that order of reporting.
    pub open spec fn parse_spec(v: Value) -> Result<Curve, NodeErrorView> {
        match layer_color_spec(v, "curve"@, OPAQUE_ALPHA) {
            Err(e) => Err(e),
            Ok(color) => match curve_point_spec(v, "start"@) {
                Err(e) => Err(e),
                Ok(start) => match curve_point_spec(v, "mid"@) {
                    Err(e) => Err(e),
                    Ok(mid) => match curve_point_spec(v, "end"@) {
                        Err(e) => Err(e),
                        Ok(end) => Ok(
                            Curve {
                                color,
                                stroke: layer_stroke_spec(v),
                                scale: layer_scale_spec(v),
                                start,
                                mid,
                                end,
                            },
                        ),
                    },
                },
            },
        }
    }

    /// Parses a curve layer from its mapping.
    pub fn parse(src: &Value) -> (r: Result<Curve, NodeError>)
        ensures
            res_v(r) == Curve::parse_spec(*src),
    {
        let color = match parse_layer_color(src, "curve", OPAQUE_ALPHA) {
            Ok(c) => c,
            Err(e) => {
                return Err(e);
            },
        };
        let stroke = parse_layer_stroke(src);
        let scale = parse_layer_scale(src);
        let start = match parse_curve_point(src, "start") {
            Ok(p) => p,
            Err(e) => {
                return Err(e);
            },
        };
        let mid = match parse_curve_point(src, "mid") {
            Ok(p) => p,
            Err(e) => {
                return Err(e);
            },
        };
        let end = match parse_curve_point(src, "end") {
            Ok(p) => p,
            Err(e) => {
                return Err(e);
            },
        };
        Ok(Curve { color, stroke, scale, start, mid, end })
    }
}

impl View for Curve {
    type V = Curve;

    open spec fn view(&self) -> Curve {
        *self
    }
}

} // verus!
