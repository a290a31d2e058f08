//! The triangle layer: exactly three vertices.

use crate::color::{layer_color_spec, parse_layer_color, Color, OPAQUE_ALPHA};
use crate::error::{res_v, NodeError, NodeErrorView};
use crate::point::{spec_point, Point};
use crate::scale::{layer_scale_spec, parse_layer_scale, Scale};
use crate::stroke::{layer_stroke_spec, parse_layer_stroke, Stroke};
use crate::value::{opt_or, spec_bool, spec_list, Value};
use vstd::prelude::*;

verus! {

/// The three corners of a triangle.
#[derive(Debug, Clone, Copy, PartialEq, Eq, Structural)]
pub struct Vertex {
    pub a: Point,
    pub b: Point,
    pub c: Point,
}

/// A triangle over three explicit vertices.
#[derive(Debug, Clone, Copy, PartialEq, Eq, Structural)]
pub struct Triangle {
    pub fill: bool,
    pub color: Color,
    pub stroke: Stroke,
    pub scale: Scale,
    pub vertex: Vertex,
}

/// What the `vertex` field of a triangle mapping yields: the field is
/// required, must hold exactly three entries (`InvalidVertex` otherwise),
/// and each entry must be a two-number point (`InvalidPoint` otherwise).
pub open spec fn vertex_spec(v: Value) -> Result<Vertex, NodeErrorView> {
    match spec_list(v, "vertex"@) {
        None => Err(NodeErrorView::Required("triangle"@, "vertex"@)),
        Some(items) => if items.len() != 3 {
            Err(NodeErrorView::InvalidVertex)
        } else {
            match (spec_point(items[0]), spec_point(items[1]), spec_point(items[2])) {
                (Some(a), Some(b), Some(c)) => Ok(Vertex { a, b, c }),
                (None, _, _) => Err(NodeErrorView::InvalidPoint),
                (Some(_), None, _) => Err(NodeErrorView::InvalidPoint),
                (Some(_), Some(_), None) => Err(NodeErrorView::InvalidPoint),
            }
        },
    }
}

impl Triangle {
    /// What `parse` makes of a layer mapping: `color` and a three-point
    /// `vertex` array are required, the color reported first; `fill`
    /// defaults to off.
    pub open spec fn parse_spec(v: Value) -> Result<Triangle, NodeErrorView> {
        match layer_color_spec(v, "triangle"@, OPAQUE_ALPHA) {
            Err(e) => Err(e),
            Ok(color) => match vertex_spec(v) {
                Err(e) => Err(e),
                Ok(vertex) => Ok(
                    Triangle {
                        fill: opt_or(spec_bool(v, "fill"@), false),
                        color,
                        stroke: layer_stroke_spec(v),
                        scale: layer_scale_spec(v),
                        vertex,
                    },
                ),
            },
        }
    }

    /// Parses a triangle layer from its mapping.
    pub fn parse(src: &Value) -> (r: Result<Triangle, NodeError>)
        ensures
            res_v(r) == Triangle::parse_spec(*src),
    {
        let fill = src.bool_val("fill").unwrap_or(false);
        let color = match parse_layer_color(src, "triangle", OPAQUE_ALPHA) {
            Ok(c) => c,
            Err(e) => {
                return Err(e);
            },
        };
        let stroke = parse_layer_stroke(src);
        let scale = parse_layer_scale(src);
        let vertex = match Self::parse_vertex(src) {
            Ok(v) => v,
            Err(e) => {
                return Err(e);
            },
        };
        Ok(Triangle { fill, color, stroke, scale, vertex })
    }

    /// Reads the required three-point `vertex` array.
    fn parse_vertex(src: &Value) -> (r: Result<Vertex, NodeError>)
        ensures
            res_v(r) == vertex_spec(*src),
    {
        let items = match src.array_val("vertex") {
            Some(xs) => xs,
            None => {
                return Err(NodeError::Required("triangle".to_owned(), "vertex".to_owned()));
            },
        };
        if items.len() != 3 {
            return Err(NodeError::InvalidVertex);
        }
        let a = match items[0].as_point() {
            Some(p) => p,
            None => {
                return Err(NodeError::InvalidPoint);
            },
        };
        let b = match items[1].as_point() {
            Some(p) => p,
            None => {
                return Err(NodeError::InvalidPoint);
            },
        };
        let c = match items[2].as_point() {
            Some(p) => p,
            None => {
                return Err(NodeError::InvalidPoint);
            },
        };
        Ok(Vertex { a, b, c })
    }
}

impl View for Vertex {
    type V = Vertex;

    open spec fn view(&self) -> Vertex {
        *self
    }
}

impl View for Triangle {
    type V = Triangle;

    open spec fn view(&self) -> Triangle {
        *self
    }
}

} // verus!
