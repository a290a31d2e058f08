//! The scene root: canvas size, background color, and the ordered layer
//! list, parsed from the top of the document.
//!
//! The error policy is deliberately asymmetric and preserved as such: a
//! bad `width`, `height` or `layers` field, or malformed layer-selection
//! syntax, aborts the whole scene, while a layer whose own content fails
//! to parse is silently dropped and the scene succeeds with the rest, and
//! a malformed background color silently falls back to transparent black.

use crate::arc::Arc;
use crate::circle::Circle;
use crate::color::{css_color_of, Color, OPAQUE_ALPHA};
use crate::curve::Curve;
use crate::error::{res_v, NodeError, NodeErrorView};
use crate::layer::{layer_views, Layer, LayerView};
use crate::line::Line;
use crate::polygon::Polygon;
use crate::rectangle::Rectangle;
use crate::text::Text;
use crate::triangle::Triangle;
use crate::value::{spec_list, spec_text, spec_whole32, str_eq, Value};
use vstd::prelude::*;

verus! {

/// A parsed scene: canvas size in pixels, background color, and the
/// layers in draw order.
#[derive(Debug, Clone, PartialEq)]
pub struct Root {
    pub width: i32,
    pub height: i32,
    pub color: Color,
    pub layers: Vec<Layer>,
}

/// The mathematical shape of a [`Root`]: the layer list as a sequence of
/// layer views.
pub struct RootView {
    pub width: i32,
    pub height: i32,
    pub color: Color,
    pub layers: Seq<LayerView>,
}

impl View for Root {
    type V = RootView;

    open spec fn view(&self) -> RootView {
        RootView {
            width: self.width,
            height: self.height,
            color: self.color,
            layers: layer_views(self.layers@),
        }
    }
}

/// Fully transparent black: the fallback background.
pub open spec fn transparent_spec() -> Color {
    Color { r: 0, g: 0, b: 0, a: 0 }
}

/// The background color of a scene mapping: the optional `color` field,
/// resolved with its alpha forced to opaque; when the field is absent, not
/// a string, or not recognized color syntax, the fallback is fully
/// transparent black, never an error.
pub open spec fn background_spec(v: Value) -> Color {
    match spec_text(v, "color"@) {
        Some(s) => match css_color_of(s) {
            Some((r, g, b, _)) => Color::new_spec(r, g, b, OPAQUE_ALPHA),
            None => transparent_spec(),
        },
        None => transparent_spec(),
    }
}

/// What one entry of the `layers` array yields: the entry must be a
/// mapping (`InvalidLayer`) with exactly one key (`InvalidLayerCount`)
/// that is a string (`InvalidLayerDefine`) naming one of the eight layer
/// kinds (`UnknownLayer`); the named parser then reads the entry's value.
pub open spec fn layer_spec(item: Value) -> Result<LayerView, NodeErrorView> {
    match item {
        Value::Dict(es) => if es@.len() != 1 {
            Err(NodeErrorView::InvalidLayerCount)
        } else {
            match es@[0].0 {
                Value::Text(k) => dispatch_spec(k@, es@[0].1),
                _ => Err(NodeErrorView::InvalidLayerDefine),
            }
        },
        _ => Err(NodeErrorView::InvalidLayer),
    }
}

/// The layer the key `k` selects for the entry value `v`, or
/// `UnknownLayer` carrying the key.
pub open spec fn dispatch_spec(k: Seq<char>, v: Value) -> Result<LayerView, NodeErrorView> {
    if k == "rectangle"@ {
        match Rectangle::parse_spec(v) {
            Ok(x) => Ok(LayerView::Rectangle(x)),
            Err(e) => Err(e),
        }
    } else if k == "circle"@ {
        match Circle::parse_spec(v) {
            Ok(x) => Ok(LayerView::Circle(x)),
            Err(e) => Err(e),
        }
    } else if k == "arc"@ {
        match Arc::parse_spec(v) {
            Ok(x) => Ok(LayerView::Arc(x)),
            Err(e) => Err(e),
        }
    } else if k == "triangle"@ {
        match Triangle::parse_spec(v) {
            Ok(x) => Ok(LayerView::Triangle(x)),
            Err(e) => Err(e),
        }
    } else if k == "polygon"@ {
        match Polygon::parse_spec(v) {
            Ok(x) => Ok(LayerView::Polygon(x)),
            Err(e) => Err(e),
        }
    } else if k == "line"@ {
        match Line::parse_spec(v) {
            Ok(x) => Ok(LayerView::Line(x)),
            Err(e) => Err(e),
        }
    } else if k == "curve"@ {
        match Curve::parse_spec(v) {
            Ok(x) => Ok(LayerView::Curve(x)),
            Err(e) => Err(e),
        }
    } else if k == "text"@ {
        match Text::parse_spec(v) {
            Ok(x) => Ok(LayerView::Text(x)),
            Err(e) => Err(e),
        }
    } else {
        Err(NodeErrorView::UnknownLayer(k))
    }
}

/// Is `e` a content error of a single layer?  Content errors are caught
/// at the layer iteration and drop only that layer; every other error is
/// a structural error of the scene and aborts parsing.
pub open spec fn is_content_error(e: NodeErrorView) -> bool {
    ||| e is Required
    ||| e is InvalidColor
    ||| e is InvalidVertex
    ||| e is InvalidPoint
}

/// What the entries of the `layers` array yield together: layers in
/// document order, entries whose content fails to parse dropped, and the
/// first structural error fatal.
pub open spec fn layers_spec(items: Seq<Value>) -> Result<Seq<LayerView>, NodeErrorView>
    decreases items.len(),
{
    if items.len() <= 0 {
        Ok(Seq::empty())
    } else {
        match layer_spec(items[0]) {
            Ok(l) => match layers_spec(items.skip(1)) {
                Ok(ls) => Ok(seq![l] + ls),
                Err(e) => Err(e),
            },
            Err(e) => if is_content_error(e) {
                layers_spec(items.skip(1))
            } else {
                Err(e)
            },
        }
    }
}

/// What the `layers` field of a scene mapping yields: the field must be
/// an array (`Required` otherwise), whose entries are read by
/// [`layers_spec`].
pub open spec fn parse_layers_spec(v: Value) -> Result<Seq<LayerView>, NodeErrorView> {
    match spec_list(v, "layers"@) {
        None => Err(NodeErrorView::Required("root"@, "layers"@)),
        Some(items) => layers_spec(items),
    }
}

impl Root {
    /// What `parse` makes of a scene mapping: `width` and `height` are
    /// required integers and `layers` a required array, in that order of
    /// reporting; the background color always falls back rather than
    /// failing.
    pub open spec fn parse_spec(v: Value) -> Result<RootView, NodeErrorView> {
        match spec_whole32(v, "width"@) {
            None => Err(NodeErrorView::Required("root"@, "width"@)),
            Some(width) => match spec_whole32(v, "height"@) {
                None => Err(NodeErrorView::Required("root"@, "height"@)),
                Some(height) => match parse_layers_spec(v) {
                    Err(e) => Err(e),
                    Ok(layers) => Ok(RootView { width, height, color: background_spec(v), layers }),
                },
            },
        }
    }

    /// Parses a whole scene from the document's top mapping.
    pub fn parse(src: &Value) -> (r: Result<Root, NodeError>)
        ensures
            res_v(r) == Root::parse_spec(*src),
    {
        let width = match src.whole32_val("width") {
            Some(x) => x,
            None => {
                return Err(NodeError::Required("root".to_owned(), "width".to_owned()));
            },
        };
        let height = match src.whole32_val("height") {
            Some(x) => x,
            None => {
                return Err(NodeError::Required("root".to_owned(), "height".to_owned()));
            },
        };
        let color = match src.string_val("color") {
            Some(s) => match Color::parse(s) {
                Ok(c) => Color::new(c.r, c.g, c.b, OPAQUE_ALPHA),
                Err(_) => Color { r: 0, g: 0, b: 0, a: 0 },
            },
            None => Color { r: 0, g: 0, b: 0, a: 0 },
        };
        let layers = match Self::parse_layers(src) {
            Ok(ls) => ls,
            Err(e) => {
                return Err(e);
            },
        };
        Ok(Root { width, height, color, layers })
    }

    /// Reads the required `layers` array, dropping layers whose content
    /// fails to parse and aborting on structural errors.
    fn parse_layers(src: &Value) -> (r: Result<Vec<Layer>, NodeError>)
        ensures
            match r {
                Ok(ls) => parse_layers_spec(*src) == Ok::<Seq<LayerView>, NodeErrorView>(
                    layer_views(ls@),
                ),
                Err(e) => parse_layers_spec(*src) == Err::<Seq<LayerView>, NodeErrorView>(e@),
            },
    {
        let items = match src.array_val("layers") {
            Some(xs) => xs,
            None => {
                return Err(NodeError::Required("root".to_owned(), "layers".to_owned()));
            },
        };
        let mut acc: Vec<Layer> = Vec::new();
        let n = items.len();
        let mut i: usize = 0;
        proof {
            assert(items@.skip(0) =~= items@);
            assert(layer_views(acc@) + layers_spec(items@)->Ok_0 =~= layers_spec(items@)->Ok_0);
        }
        while i < n
            invariant
                spec_list(*src, "layers"@) == Some(items@),
                n == items@.len(),
                i <= n,
                layers_spec(items@) matches Ok(all) ==> {
                    &&& layers_spec(items@.skip(i as int)) matches Ok(rest)
                    &&& all == layer_views(acc@) + rest
                },
                layers_spec(items@) matches Err(e) ==> layers_spec(items@.skip(i as int))
                    == Err::<Seq<LayerView>, NodeErrorView>(e),
            decreases n - i,
        {
            proof {
                assert(items@.skip(i as int)[0] == items@[i as int]);
                assert(items@.skip(i as int).skip(1) =~= items@.skip(i as int + 1));
            }
            match Self::parse_layer(&items[i]) {
                Ok(l) => {
                    acc.push(l);
                    proof {
                        if layers_spec(items@) is Ok {
                            assert(layer_views(acc@) =~= layer_views(acc@.drop_last()).push(l@));
                            assert(layer_views(acc@.drop_last()) + (seq![l@] + layers_spec(
                                items@.skip(i as int + 1),
                            )->Ok_0) =~= layer_views(acc@) + layers_spec(
                                items@.skip(i as int + 1),
                            )->Ok_0);
                        }
                    }
                },
                Err(e) => {
                    if !Self::is_content_err(&e) {
                        return Err(e);
                    }
                },
            }
            i = i + 1;
        }
        proof {
            assert(items@.skip(n as int) =~= Seq::<Value>::empty());
            assert(layer_views(acc@) + Seq::<LayerView>::empty() =~= layer_views(acc@));
        }
        Ok(acc)
    }

    /// Reads one entry of the `layers` array.
    fn parse_layer(item: &Value) -> (r: Result<Layer, NodeError>)
        ensures
            res_v(r) == layer_spec(*item),
    {
        let es = match item {
            Value::Dict(es) => es,
            _ => {
                return Err(NodeError::InvalidLayer);
            },
        };
        if es.len() != 1 {
            return Err(NodeError::InvalidLayerCount);
        }
        let key = match &es[0].0 {
            Value::Text(s) => s,
            _ => {
                return Err(NodeError::InvalidLayerDefine);
            },
        };
        let entry = &es[0].1;
        if str_eq(key.as_str(), "rectangle") {
            match Rectangle::parse(entry) {
                Ok(x) => Ok(Layer::Rectangle(x)),
                Err(e) => Err(e),
            }
        } else if str_eq(key.as_str(), "circle") {
            match Circle::parse(entry) {
                Ok(x) => Ok(Layer::Circle(x)),
                Err(e) => Err(e),
            }
        } else if str_eq(key.as_str(), "arc") {
            match Arc::parse(entry) {
                Ok(x) => Ok(Layer::Arc(x)),
                Err(e) => Err(e),
            }
        } else if str_eq(key.as_str(), "triangle") {
            match Triangle::parse(entry) {
                Ok(x) => Ok(Layer::Triangle(x)),
                Err(e) => Err(e),
            }
        } else if str_eq(key.as_str(), "polygon") {
            match Polygon::parse(entry) {
                Ok(x) => Ok(Layer::Polygon(x)),
                Err(e) => Err(e),
            }
        } else if str_eq(key.as_str(), "line") {
            match Line::parse(entry) {
                Ok(x) => Ok(Layer::Line(x)),
                Err(e) => Err(e),
            }
        } else if str_eq(key.as_str(), "curve") {
            match Curve::parse(entry) {
                Ok(x) => Ok(Layer::Curve(x)),
                Err(e) => Err(e),
            }
        } else if str_eq(key.as_str(), "text") {
            match Text::parse(entry) {
                Ok(x) => Ok(Layer::Text(x)),
                Err(e) => Err(e),
            }
        } else {
            Err(NodeError::UnknownLayer(key.clone()))
        }
    }

    /// Is `e` a content error of a single layer (see [`is_content_error`])?
    fn is_content_err(e: &NodeError) -> (r: bool)
        ensures
            r == is_content_error(e@),
    {
        match e {
            NodeError::Required(_, _) => true,
            NodeError::InvalidColor(_) => true,
            NodeError::InvalidVertex => true,
            NodeError::InvalidPoint => true,
            _ => false,
        }
    }
}

/// The dispatch law of layer entries.
///
/// A mapping with exactly one key that names one of the eight layer kinds
/// parses by that kind's parser and wraps the result in the matching
/// variant; every other shape of entry fails with the documented error:
/// a non-mapping with `InvalidLayer`, a mapping without exactly one key
/// with `InvalidLayerCount`, a non-string key with `InvalidLayerDefine`,
/// and an unrecognized name with `UnknownLayer` carrying it.
pub proof fn lemma_layer_dispatch(item: Value)
    ensures
        !(item is Dict) ==> layer_spec(item) == Err::<LayerView, NodeErrorView>(
            NodeErrorView::InvalidLayer,
        ),
        item matches Value::Dict(es) && es@.len() != 1 ==> layer_spec(item) == Err::<
            LayerView,
            NodeErrorView,
        >(NodeErrorView::InvalidLayerCount),
        item matches Value::Dict(es) && es@.len() == 1 && !(es@[0].0 is Text) ==> layer_spec(item)
            == Err::<LayerView, NodeErrorView>(NodeErrorView::InvalidLayerDefine),
        match item {
            Value::Dict(es) => es@.len() == 1 ==> (match es@[0].0 {
                Value::Text(k) => layer_key_dispatch(item, es@[0].1, k@),
                _ => true,
            }),
            _ => true,
        },
{
    match item {
        Value::Dict(es) => {
            if es@.len() == 1 {
                match es@[0].0 {
                    Value::Text(k) => {
                        let v = es@[0].1;
                        // Telling the eight names apart needs their
                        // characters: reveal each literal and pin its
                        // length, so that no two can be the same sequence.
                        reveal_strlit("rectangle");
                        reveal_strlit("circle");
                        reveal_strlit("arc");
                        reveal_strlit("triangle");
                        reveal_strlit("polygon");
                        reveal_strlit("line");
                        reveal_strlit("curve");
                        reveal_strlit("text");
                        assert("rectangle"@.len() == 9 && "circle"@.len() == 6 && "arc"@.len()
                            == 3 && "triangle"@.len() == 8 && "polygon"@.len() == 7
                            && "line"@.len() == 4 && "curve"@.len() == 5 && "text"@.len() == 4);
                        assert("line"@[0] == 'l' && "text"@[0] == 't');
                        assert(layer_spec(item) == dispatch_spec(k@, v));
                        assert(layer_key_dispatch(item, v, k@));
                    },
                    _ => {},
                }
            }
        },
        _ => {},
    }
}

/// The dispatch law for one recognized or unrecognized key (the body of
/// [`lemma_layer_dispatch`]'s last clause).
pub open spec fn layer_key_dispatch(item: Value, entry: Value, k: Seq<char>) -> bool {
    &&& k == "rectangle"@ ==> layer_spec(item) == wrap(
        Rectangle::parse_spec(entry),
        |x: Rectangle| LayerView::Rectangle(x),
    )
    &&& k == "circle"@ ==> layer_spec(item) == wrap(
        Circle::parse_spec(entry),
        |x: Circle| LayerView::Circle(x),
    )
    &&& k == "arc"@ ==> layer_spec(item) == wrap(Arc::parse_spec(entry), |x: Arc| LayerView::Arc(x))
    &&& k == "triangle"@ ==> layer_spec(item) == wrap(
        Triangle::parse_spec(entry),
        |x: Triangle| LayerView::Triangle(x),
    )
    &&& k == "polygon"@ ==> layer_spec(item) == wrap(
        Polygon::parse_spec(entry),
        |x: crate::polygon::PolygonView| LayerView::Polygon(x),
    )
    &&& k == "line"@ ==> layer_spec(item) == wrap(
        Line::parse_spec(entry),
        |x: crate::line::LineView| LayerView::Line(x),
    )
    &&& k == "curve"@ ==> layer_spec(item) == wrap(
        Curve::parse_spec(entry),
        |x: Curve| LayerView::Curve(x),
    )
    &&& k == "text"@ ==> layer_spec(item) == wrap(
        Text::parse_spec(entry),
        |x: crate::text::TextView| LayerView::Text(x),
    )
    &&& k != "rectangle"@ && k != "circle"@ && k != "arc"@ && k != "triangle"@ && k != "polygon"@
        && k != "line"@ && k != "curve"@ && k != "text"@ ==> layer_spec(item) == Err::<
        LayerView,
        NodeErrorView,
    >(NodeErrorView::UnknownLayer(k))
}

/// A parse result with its success value rewrapped.
pub open spec fn wrap<T>(r: Result<T, NodeErrorView>, f: spec_fn(T) -> LayerView) -> Result<
    LayerView,
    NodeErrorView,
> {
    match r {
        Ok(x) => Ok(f(x)),
        Err(e) => Err(e),
    }
}

/// The idempotence law of scene parsing.
///
/// Parsing is a function of the document alone: any two parses of the
/// same document yield structurally equal results, layer for layer.
pub proof fn lemma_reparse_equal(
    src: Value,
    r1: Result<Root, NodeError>,
    r2: Result<Root, NodeError>,
)
    requires
        res_v(r1) == Root::parse_spec(src),
        res_v(r2) == Root::parse_spec(src),
    ensures
        res_v(r1) == res_v(r2),
{
}

} // verus!
