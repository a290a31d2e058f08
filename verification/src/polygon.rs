//! The polygon layer: a closed path over two or more vertices.

use crate::color::{layer_color_spec, parse_layer_color, Color, OPAQUE_ALPHA};
use crate::error::{res_v, NodeError, NodeErrorView};
use crate::point::{parse_points, points_spec, Point};
use crate::scale::{layer_scale_spec, parse_layer_scale, Scale};
use crate::stroke::{layer_stroke_spec, parse_layer_stroke, Stroke};
use crate::value::{opt_or, spec_bool, spec_list, Value};
use vstd::prelude::*;

verus! {

/// A polygon over an ordered vertex list; the path is closed before
/// painting.
#[derive(Debug, Clone, PartialEq)]
pub struct Polygon {
    pub fill: bool,
    pub color: Color,
    pub stroke: Stroke,
    pub scale: Scale,
    pub vertex: Vec<Point>,
}

/// The mathematical shape of a [`Polygon`]: the vertex list as a sequence.
pub struct PolygonView {
    pub fill: bool,
    pub color: Color,
    pub stroke: Stroke,
    pub scale: Scale,
    pub vertex: Seq<Point>,
}

impl View for Polygon {
    type V = PolygonView;

    open spec fn view(&self) -> PolygonView {
        PolygonView {
            fill: self.fill,
            color: self.color,
            stroke: self.stroke,
            scale: self.scale,
            vertex: self.vertex@,
        }
    }
}

impl Polygon {
    /// What `parse` makes of a layer mapping: `color` and a `vertex` array
    /// of at least two points are required, the color reported first; a
    /// malformed entry is `InvalidPoint`, and a well-formed array of fewer
    /// than two points `InvalidVertex`; `fill` defaults to off.
    pub open spec fn parse_spec(v: Value) -> Result<PolygonView, NodeErrorView> {
        match layer_color_spec(v, "polygon"@, OPAQUE_ALPHA) {
            Err(e) => Err(e),
            Ok(color) => match spec_list(v, "vertex"@) {
                None => Err(NodeErrorView::Required("polygon"@, "vertex"@)),
                Some(items) => match points_spec(items) {
                    Err(e) => Err(e),
                    Ok(vertex) => if vertex.len() < 2 {
                        Err(NodeErrorView::InvalidVertex)
                    } else {
                        Ok(
                            PolygonView {
                                fill: opt_or(spec_bool(v, "fill"@), false),
                                color,
                                stroke: layer_stroke_spec(v),
                                scale: layer_scale_spec(v),
                                vertex,
                            },
                        )
                    },
                },
            },
        }
    }

    /// Parses a polygon layer from its mapping.
    pub fn parse(src: &Value) -> (r: Result<Polygon, NodeError>)
        ensures
            res_v(r) == Polygon::parse_spec(*src),
    {
        let fill = src.bool_val("fill").unwrap_or(false);
        let color = match parse_layer_color(src, "polygon", OPAQUE_ALPHA) {
            Ok(c) => c,
            Err(e) => {
                return Err(e);
            },
        };
        let stroke = parse_layer_stroke(src);
        let scale = parse_layer_scale(src);
        let items = match src.array_val("vertex") {
            Some(xs) => xs,
            None => {
                return Err(NodeError::Required("polygon".to_owned(), "vertex".to_owned()));
            },
        };
        let vertex = match parse_points(items) {
            Ok(ps) => ps,
            Err(e) => {
                return Err(e);
            },
        };
        if vertex.len() < 2 {
            return Err(NodeError::InvalidVertex);
        }
        Ok(Polygon { fill, color, stroke, scale, vertex })
    }
}

} // verus!
