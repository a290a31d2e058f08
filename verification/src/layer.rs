//! The closed union of drawable layer kinds.

use crate::arc::Arc;
use crate::circle::Circle;
use crate::curve::Curve;
use crate::line::{Line, LineView};
use crate::polygon::{Polygon, PolygonView};
use crate::rectangle::Rectangle;
use crate::text::{Text, TextView};
use crate::triangle::Triangle;
use vstd::prelude::*;

verus! {

/// One drawable element of a scene, one of the eight fixed kinds.
/// Layers are drawn back to front in document order.
#[derive(Debug, Clone, PartialEq)]
pub enum Layer {
    Rectangle(Rectangle),
    Circle(Circle),
    Arc(Arc),
    Triangle(Triangle),
    Polygon(Polygon),
    Line(Line),
    Curve(Curve),
    Text(Text),
}

/// The mathematical shape of a [`Layer`]: each kind replaced by its view.
pub enum LayerView {
    Rectangle(Rectangle),
    Circle(Circle),
    Arc(Arc),
    Triangle(Triangle),
    Polygon(PolygonView),
    Line(LineView),
    Curve(Curve),
    Text(TextView),
}

impl View for Layer {
    type V = LayerView;

    open spec fn view(&self) -> LayerView {
        match self {
            Layer::Rectangle(x) => LayerView::Rectangle(*x),
            Layer::Circle(x) => LayerView::Circle(*x),
            Layer::Arc(x) => LayerView::Arc(*x),
            Layer::Triangle(x) => LayerView::Triangle(*x),
            Layer::Polygon(x) => LayerView::Polygon(x@),
            Layer::Line(x) => LayerView::Line(x@),
            Layer::Curve(x) => LayerView::Curve(*x),
            Layer::Text(x) => LayerView::Text(x@),
        }
    }
}

/// The views of a list of layers, in order.
pub open spec fn layer_views(ls: Seq<Layer>) -> Seq<LayerView> {
    Seq::new(ls.len(), |i: int| ls[i]@)
}

} // verus!
