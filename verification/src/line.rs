//! The line layer: an open polyline over one or more points, always
//! stroked and never filled.

use crate::color::{layer_color_spec, parse_layer_color, Color, OPAQUE_ALPHA};
use crate::error::{res_v, NodeError, NodeErrorView};
use crate::point::{parse_points, points_spec, Point};
use crate::scale::{layer_scale_spec, parse_layer_scale, Scale};
use crate::stroke::{layer_stroke_spec, parse_layer_stroke, Stroke};
use crate::value::{spec_list, Value};
use vstd::prelude::*;

verus! {

/// An open polyline over an ordered point list.
#[derive(Debug, Clone, PartialEq)]
pub struct Line {
    pub color: Color,
    pub stroke: Stroke,
    pub scale: Scale,
    pub points: Vec<Point>,
}

/// The mathematical shape of a [`Line`]: the point list as a sequence.
pub struct LineView {
    pub color: Color,
    pub stroke: Stroke,
    pub scale: Scale,
    pub points: Seq<Point>,
}

impl View for Line {
    type V = LineView;

    open spec fn view(&self) -> LineView {
        LineView {
            color: self.color,
            stroke: self.stroke,
            scale: self.scale,
            points: self.points@,
        }
    }
}

impl Line {
    /// What `parse` makes of a layer mapping: `color` and a `points` array
    /// of at least one point are required, the color reported first; a
    /// malformed entry is `InvalidPoint`, and a well-formed empty array
    /// `InvalidVertex`.
    pub open spec fn parse_spec(v: Value) -> Result<LineView, NodeErrorView> {
        match layer_color_spec(v, "line"@, OPAQUE_ALPHA) {
            Err(e) => Err(e),
            Ok(color) => match spec_list(v, "points"@) {
                None => Err(NodeErrorView::Required("line"@, "points"@)),
                Some(items) => match points_spec(items) {
                    Err(e) => Err(e),
                    Ok(points) => if points.len() < 1 {
                        Err(NodeErrorView::InvalidVertex)
                    } else {
                        Ok(
                            LineView {
                                color,
                                stroke: layer_stroke_spec(v),
                                scale: layer_scale_spec(v),
                                points,
                            },
                        )
                    },
                },
            },
        }
    }

    /// Parses a line layer from its mapping.
    pub fn parse(src: &Value) -> (r: Result<Line, NodeError>)
        ensures
            res_v(r) == Line::parse_spec(*src),
    {
        let color = match parse_layer_color(src, "line", OPAQUE_ALPHA) {
            Ok(c) => c,
            Err(e) => {
                return Err(e);
            },
        };
        let stroke = parse_layer_stroke(src);
        let scale = parse_layer_scale(src);
        let items = match src.array_val("points") {
            Some(xs) => xs,
            None => {
                return Err(NodeError::Required("line".to_owned(), "points".to_owned()));
            },
        };
        let points = match parse_points(items) {
            Ok(ps) => ps,
            Err(e) => {
                return Err(e);
            },
        };
        if points.len() < 1 {
            return Err(NodeError::InvalidVertex);
        }
        Ok(Line { color, stroke, scale, points })
    }
}

} // verus!
