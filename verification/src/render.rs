//! The render dispatcher: each layer kind maps to a fixed sequence of
//! drawing-surface operations, and every layer's replay is bracketed by a
//! save/restore pair so that no paint or transform state leaks between
//! layers.

use crate::arc::Arc;
use crate::circle::Circle;
use crate::color::Color;
use crate::context::{Context, DrawOp};
use crate::curve::Curve;
use crate::layer::Layer;
use crate::line::Line;
use crate::point::Point;
use crate::polygon::Polygon;
use crate::rectangle::Rectangle;
use crate::stroke::Stroke;
use crate::text::Text;
use crate::triangle::Triangle;
use vstd::prelude::*;

verus! {

/// IEEE-754 binary64 bits of 360: the full turn, in degrees, that closes
/// a circle's arc.
pub const FULL_TURN: u64 = 0x4076_8000_0000_0000;

/// How a shape with a fill flag ends its replay: filled shapes issue one
/// fill and never touch the stroke state; stroked shapes set their line
/// width and cap and issue one stroke.
pub open spec fn fill_stroke_ops(fill: bool, stroke: Stroke) -> Seq<DrawOp> {
    if fill {
        seq![DrawOp::Fill]
    } else {
        seq![
            DrawOp::SetLineWidth { width: stroke.width },
            DrawOp::SetLineCap { cap: stroke.cap },
            DrawOp::Stroke,
        ]
    }
}

/// The path of an ordered point list: move to the first point, then a
/// line to each of the rest.
pub open spec fn path_ops(ps: Seq<Point>) -> Seq<DrawOp> {
    Seq::new(
        ps.len(),
        |i: int|
            if i == 0 {
                DrawOp::MoveTo { x: ps[0].x, y: ps[0].y }
            } else {
                DrawOp::LineTo { x: ps[i].x, y: ps[i].y }
            },
    )
}

/// The replay of a rectangle layer.
pub open spec fn rect_ops(n: Rectangle) -> Seq<DrawOp> {
    seq![
        DrawOp::Translate { x: n.x, y: n.y },
        DrawOp::SetSourceRgba { color: n.color },
        DrawOp::Scale { x: n.scale.x, y: n.scale.y },
        DrawOp::Rectangle { x: 0, y: 0, width: n.width, height: n.height },
    ] + fill_stroke_ops(n.fill, n.stroke)
}

/// The replay of a circle layer: an arc over the full turn.
pub open spec fn circle_ops(n: Circle) -> Seq<DrawOp> {
    seq![
        DrawOp::Translate { x: n.x, y: n.y },
        DrawOp::SetSourceRgba { color: n.color },
        DrawOp::Scale { x: n.scale.x, y: n.scale.y },
        DrawOp::Arc { xc: 0, yc: 0, radius: n.radius, start: 0, end: FULL_TURN },
    ] + fill_stroke_ops(n.fill, n.stroke)
}

/// The replay of an arc layer: with `close` set, the path runs through
/// the center before and after the arc itself.
pub open spec fn arc_ops(n: Arc) -> Seq<DrawOp> {
    seq![
        DrawOp::Translate { x: n.x, y: n.y },
        DrawOp::SetSourceRgba { color: n.color },
        DrawOp::Scale { x: n.scale.x, y: n.scale.y },
    ] + (if n.close {
        seq![DrawOp::MoveTo { x: 0, y: 0 }]
    } else {
        Seq::empty()
    }) + seq![DrawOp::Arc { xc: 0, yc: 0, radius: n.radius, start: n.start, end: n.end }] + (
    if n.close {
        seq![DrawOp::LineTo { x: 0, y: 0 }]
    } else {
        Seq::empty()
    }) + fill_stroke_ops(n.fill, n.stroke)
}

/// The replay of a triangle layer: its three corners as a closed path.
pub open spec fn triangle_ops(n: Triangle) -> Seq<DrawOp> {
    seq![
        DrawOp::Translate { x: 0, y: 0 },
        DrawOp::SetSourceRgba { color: n.color },
        DrawOp::Scale { x: n.scale.x, y: n.scale.y },
        DrawOp::MoveTo { x: n.vertex.a.x, y: n.vertex.a.y },
        DrawOp::LineTo { x: n.vertex.b.x, y: n.vertex.b.y },
        DrawOp::LineTo { x: n.vertex.c.x, y: n.vertex.c.y },
        DrawOp::ClosePath,
    ] + fill_stroke_ops(n.fill, n.stroke)
}

/// The replay of a polygon layer: its vertex path, closed.
pub open spec fn polygon_ops(n: Polygon) -> Seq<DrawOp> {
    seq![
        DrawOp::Translate { x: 0, y: 0 },
        DrawOp::SetSourceRgba { color: n.color },
        DrawOp::Scale { x: n.scale.x, y: n.scale.y },
    ] + path_ops(n.vertex@) + seq![DrawOp::ClosePath] + fill_stroke_ops(n.fill, n.stroke)
}

/// The replay of a line layer: its point path, left open and stroked.
pub open spec fn line_ops(n: Line) -> Seq<DrawOp> {
    seq![
        DrawOp::Translate { x: 0, y: 0 },
        DrawOp::SetSourceRgba { color: n.color },
        DrawOp::Scale { x: n.scale.x, y: n.scale.y },
        DrawOp::SetLineWidth { width: n.stroke.width },
        DrawOp::SetLineCap { cap: n.stroke.cap },
    ] + path_ops(n.points@) + seq![DrawOp::Stroke]
}

/// The replay of a curve layer: one cubic curve, stroked.
pub open spec fn curve_ops(n: Curve) -> Seq<DrawOp> {
    seq![
        DrawOp::Translate { x: 0, y: 0 },
        DrawOp::SetSourceRgba { color: n.color },
        DrawOp::Scale { x: n.scale.x, y: n.scale.y },
        DrawOp::SetLineWidth { width: n.stroke.width },
        DrawOp::SetLineCap { cap: n.stroke.cap },
        DrawOp::CurveTo {
            x1: n.start.x,
            y1: n.start.y,
            x2: n.mid.x,
            y2: n.mid.y,
            x3: n.end.x,
            y3: n.end.y,
        },
        DrawOp::Stroke,
    ]
}

/// The replay of a text layer: face selection, size, the glyphs, then a
/// closing stroke.
pub open spec fn text_ops(n: Text) -> Seq<DrawOp> {
    seq![
        DrawOp::Translate { x: n.x, y: n.y },
        DrawOp::MoveTo { x: 0, y: 0 },
        DrawOp::SetSourceRgba { color: n.color },
        DrawOp::Scale { x: n.scale.x, y: n.scale.y },
        DrawOp::SelectFontFace { family: n.family, slant: n.slant, weight: n.weight },
        DrawOp::SetFontSize { size: n.size },
        DrawOp::ShowText { text: n.text },
        DrawOp::Stroke,
    ]
}

/// The replay of one layer, between its save/restore bracket.
pub open spec fn layer_body_ops(layer: Layer) -> Seq<DrawOp> {
    match layer {
        Layer::Rectangle(x) => rect_ops(x),
        Layer::Circle(x) => circle_ops(x),
        Layer::Arc(x) => arc_ops(x),
        Layer::Triangle(x) => triangle_ops(x),
        Layer::Polygon(x) => polygon_ops(x),
        Layer::Line(x) => line_ops(x),
        Layer::Curve(x) => curve_ops(x),
        Layer::Text(x) => text_ops(x),
    }
}

/// The whole replay of one layer: its body bracketed by exactly one save
/// and one restore.
pub open spec fn layer_ops(layer: Layer) -> Seq<DrawOp> {
    seq![DrawOp::Save] + layer_body_ops(layer) + seq![DrawOp::Restore]
}

/// The replay of a whole layer list, in document order: the concatenation
/// of each layer's replay, back to front.
pub open spec fn scene_ops(ls: Seq<Layer>) -> Seq<DrawOp>
    decreases ls.len(),
{
    if ls.len() <= 0 {
        Seq::empty()
    } else {
        scene_ops(ls.drop_last()) + layer_ops(ls.last())
    }
}

/// Does the layer end in a fill rather than a stroke?  Lines, curves and
/// text have no fill flag: they are always stroked.
pub open spec fn layer_fill(layer: Layer) -> bool {
    match layer {
        Layer::Rectangle(x) => x.fill,
        Layer::Circle(x) => x.fill,
        Layer::Arc(x) => x.fill,
        Layer::Triangle(x) => x.fill,
        Layer::Polygon(x) => x.fill,
        Layer::Line(_) => false,
        Layer::Curve(_) => false,
        Layer::Text(_) => false,
    }
}

/// How many operations of `ops` satisfy `pred`.
pub open spec fn count_ops(ops: Seq<DrawOp>, pred: spec_fn(DrawOp) -> bool) -> nat {
    ops.filter(pred).len()
}

/// Recognizes the save operation.
pub open spec fn save_op() -> spec_fn(DrawOp) -> bool {
    |op: DrawOp| op is Save
}

/// Recognizes the restore operation.
pub open spec fn restore_op() -> spec_fn(DrawOp) -> bool {
    |op: DrawOp| op is Restore
}

/// Recognizes the fill operation.
pub open spec fn fill_op() -> spec_fn(DrawOp) -> bool {
    |op: DrawOp| op is Fill
}

/// Recognizes the stroke operation.
pub open spec fn stroke_op() -> spec_fn(DrawOp) -> bool {
    |op: DrawOp| op is Stroke
}

/// Recognizes the line-width operation.
pub open spec fn line_width_op() -> spec_fn(DrawOp) -> bool {
    |op: DrawOp| op is SetLineWidth
}

/// Recognizes the line-cap operation.
pub open spec fn line_cap_op() -> spec_fn(DrawOp) -> bool {
    |op: DrawOp| op is SetLineCap
}

/// No operation of `s` satisfies `pred`, so the count is zero.
proof fn lemma_count_none(s: Seq<DrawOp>, pred: spec_fn(DrawOp) -> bool)
    requires
        forall|i: int| 0 <= i < s.len() ==> !pred(#[trigger] s[i]),
    ensures
        count_ops(s, pred) == 0,
    decreases s.len(),
{
    reveal(Seq::filter);
    if s.len() > 0 {
        lemma_count_none(s.drop_last(), pred);
    }
}

/// Exactly the operation at `k` satisfies `pred`, so the count is one.
proof fn lemma_count_one(s: Seq<DrawOp>, pred: spec_fn(DrawOp) -> bool, k: int)
    requires
        0 <= k < s.len(),
        pred(s[k]),
        forall|i: int| 0 <= i < s.len() && i != k ==> !pred(#[trigger] s[i]),
    ensures
        count_ops(s, pred) == 1,
    decreases s.len(),
{
    reveal(Seq::filter);
    if k == s.len() - 1 {
        lemma_count_none(s.drop_last(), pred);
    } else {
        lemma_count_one(s.drop_last(), pred, k);
    }
}

/// The discipline of a fillable shape's replay: `stem` is the shape's own
/// path construction, which touches neither the bracket nor the painting
/// state; the bracket and the fill-or-stroke tail do the rest.
proof fn lemma_fillable_discipline(stem: Seq<DrawOp>, fill: bool, stroke: Stroke)
    requires
        forall|j: int|
            0 <= j < stem.len() ==> {
                &&& !((#[trigger] stem[j]) is Save)
                &&& !(stem[j] is Restore)
                &&& !(stem[j] is Fill)
                &&& !(stem[j] is Stroke)
                &&& !(stem[j] is SetLineWidth)
                &&& !(stem[j] is SetLineCap)
            },
    ensures
        ({
            let ops = seq![DrawOp::Save] + (stem + fill_stroke_ops(fill, stroke)) + seq![
                DrawOp::Restore,
            ];
            &&& count_ops(ops, save_op()) == 1
            &&& count_ops(ops, restore_op()) == 1
            &&& fill ==> {
                &&& ops[ops.len() - 2] is Fill
                &&& count_ops(ops, fill_op()) == 1
                &&& count_ops(ops, stroke_op()) == 0
                &&& count_ops(ops, line_width_op()) == 0
                &&& count_ops(ops, line_cap_op()) == 0
            }
            &&& !fill ==> {
                &&& ops[ops.len() - 2] is Stroke
                &&& count_ops(ops, stroke_op()) == 1
                &&& count_ops(ops, fill_op()) == 0
                &&& count_ops(ops, line_width_op()) == 1
                &&& count_ops(ops, line_cap_op()) == 1
                &&& ops[ops.len() - 4] is SetLineWidth
                &&& ops[ops.len() - 3] is SetLineCap
            }
        }),
{
    let ops = seq![DrawOp::Save] + (stem + fill_stroke_ops(fill, stroke)) + seq![DrawOp::Restore];
    lemma_count_one(ops, save_op(), 0);
    lemma_count_one(ops, restore_op(), ops.len() - 1);
    if fill {
        lemma_count_one(ops, fill_op(), ops.len() - 2);
        lemma_count_none(ops, stroke_op());
        lemma_count_none(ops, line_width_op());
        lemma_count_none(ops, line_cap_op());
    } else {
        lemma_count_one(ops, stroke_op(), ops.len() - 2);
        lemma_count_none(ops, fill_op());
        lemma_count_one(ops, line_width_op(), ops.len() - 4);
        lemma_count_one(ops, line_cap_op(), ops.len() - 3);
    }
}

/// Every entry of a path is a move or a line: it never touches the
/// bracket or the painting state.
proof fn lemma_path_ops_plain(ps: Seq<Point>)
    ensures
        forall|j: int|
            0 <= j < path_ops(ps).len() ==> {
                &&& ((#[trigger] path_ops(ps)[j]) is MoveTo || path_ops(ps)[j] is LineTo)
            },
{
}

/// The save/restore and fill-or-stroke discipline of a layer's replay.
///
/// Every layer's replay is bracketed by exactly one save and one matching
/// restore, its first and last operations.  A filled layer issues exactly
/// one fill, as its last painting operation, and never touches the stroke
/// state; every other layer issues exactly one stroke, as its last
/// painting operation, and no fill, and unless it is a text layer it sets
/// its line width and line cap exactly once each, before the stroke.
#[verifier::rlimit(60)]
pub proof fn lemma_layer_discipline(layer: Layer)
    ensures
        layer_ops(layer).len() >= 3,
        layer_ops(layer).first() == DrawOp::Save,
        layer_ops(layer).last() == DrawOp::Restore,
        count_ops(layer_ops(layer), save_op()) == 1,
        count_ops(layer_ops(layer), restore_op()) == 1,
        layer_fill(layer) ==> {
            &&& layer_ops(layer)[layer_ops(layer).len() - 2] is Fill
            &&& count_ops(layer_ops(layer), fill_op()) == 1
            &&& count_ops(layer_ops(layer), stroke_op()) == 0
            &&& count_ops(layer_ops(layer), line_width_op()) == 0
            &&& count_ops(layer_ops(layer), line_cap_op()) == 0
        },
        !layer_fill(layer) ==> {
            &&& layer_ops(layer)[layer_ops(layer).len() - 2] is Stroke
            &&& count_ops(layer_ops(layer), stroke_op()) == 1
            &&& count_ops(layer_ops(layer), fill_op()) == 0
        },
        !layer_fill(layer) && !(layer is Text) ==> {
            &&& count_ops(layer_ops(layer), line_width_op()) == 1
            &&& count_ops(layer_ops(layer), line_cap_op()) == 1
            &&& exists|i: int, j: int|
                0 <= i < j < layer_ops(layer).len() - 2 && (#[trigger] layer_ops(layer)[i])
                    is SetLineWidth && (#[trigger] layer_ops(layer)[j]) is SetLineCap
        },
        (layer is Text) ==> {
            &&& count_ops(layer_ops(layer), line_width_op()) == 0
            &&& count_ops(layer_ops(layer), line_cap_op()) == 0
        },
{
    let ops = layer_ops(layer);
    match layer {
        Layer::Rectangle(x) => {
            lemma_fillable_discipline(
                rect_ops(x).subrange(0, 4),
                x.fill,
                x.stroke,
            );
            assert(rect_ops(x).subrange(0, 4) + fill_stroke_ops(x.fill, x.stroke) =~= rect_ops(x));
        },
        Layer::Circle(x) => {
            lemma_fillable_discipline(circle_ops(x).subrange(0, 4), x.fill, x.stroke);
            assert(circle_ops(x).subrange(0, 4) + fill_stroke_ops(x.fill, x.stroke) =~= circle_ops(
                x,
            ));
        },
        Layer::Arc(x) => {
            let stem_len: int = if x.close {
                6
            } else {
                4
            };
            lemma_fillable_discipline(arc_ops(x).subrange(0, stem_len), x.fill, x.stroke);
            assert(arc_ops(x).subrange(0, stem_len) + fill_stroke_ops(x.fill, x.stroke) =~= arc_ops(
                x,
            ));
        },
        Layer::Triangle(x) => {
            lemma_fillable_discipline(triangle_ops(x).subrange(0, 7), x.fill, x.stroke);
            assert(triangle_ops(x).subrange(0, 7) + fill_stroke_ops(x.fill, x.stroke)
                =~= triangle_ops(x));
        },
        Layer::Polygon(x) => {
            let stem_len = 3 + path_ops(x.vertex@).len() as int + 1;
            lemma_path_ops_plain(x.vertex@);
            lemma_fillable_discipline(polygon_ops(x).subrange(0, stem_len), x.fill, x.stroke);
            assert(polygon_ops(x).subrange(0, stem_len) + fill_stroke_ops(x.fill, x.stroke)
                =~= polygon_ops(x));
        },
        Layer::Line(x) => {
            lemma_path_ops_plain(x.points@);
            lemma_count_one(ops, save_op(), 0);
            lemma_count_one(ops, restore_op(), ops.len() - 1);
            lemma_count_one(ops, stroke_op(), ops.len() - 2);
            lemma_count_none(ops, fill_op());
            lemma_count_one(ops, line_width_op(), 4);
            lemma_count_one(ops, line_cap_op(), 5);
            assert(0 <= 4 < 5 < ops.len() - 2 && ops[4] is SetLineWidth && ops[5] is SetLineCap);
        },
        Layer::Curve(x) => {
            lemma_count_one(ops, save_op(), 0);
            lemma_count_one(ops, restore_op(), ops.len() - 1);
            lemma_count_one(ops, stroke_op(), ops.len() - 2);
            lemma_count_none(ops, fill_op());
            lemma_count_one(ops, line_width_op(), 4);
            lemma_count_one(ops, line_cap_op(), 5);
            assert(0 <= 4 < 5 < ops.len() - 2 && ops[4] is SetLineWidth && ops[5] is SetLineCap);
        },
        Layer::Text(x) => {
            lemma_count_one(ops, save_op(), 0);
            lemma_count_one(ops, restore_op(), ops.len() - 1);
            lemma_count_one(ops, stroke_op(), ops.len() - 2);
            lemma_count_none(ops, fill_op());
            lemma_count_none(ops, line_width_op());
            lemma_count_none(ops, line_cap_op());
        },
    }
}

/// The painting of the canvas background: the scene's color over the
/// whole canvas, inside its own save/restore bracket, before any layer.
/// The canvas size arrives as binary64 bits, converted from the scene's
/// pixel size by the caller.
pub open spec fn background_ops(color: Color, width: u64, height: u64) -> Seq<DrawOp> {
    seq![
        DrawOp::Save,
        DrawOp::SetSourceRgba { color },
        DrawOp::Rectangle { x: 0, y: 0, width, height },
        DrawOp::Fill,
        DrawOp::Restore,
    ]
}

/// Paints the canvas background before the layers are replayed.
pub fn paint_background(context: &mut Context, color: Color, width: u64, height: u64)
    ensures
        final(context).ops@ == old(context).ops@ + background_ops(color, width, height),
{
    context.save();
    context.set_source_rgba(color);
    context.rectangle(0, 0, width, height);
    context.fill();
    context.restore();
    proof {
        assert(context.ops@ =~= old(context).ops@ + background_ops(color, width, height));
    }
}

/// Replays one layer against the surface.
pub fn render(context: &mut Context, layer: &Layer)
    ensures
        final(context).ops@ == old(context).ops@ + layer_ops(*layer),
{
    context.save();
    match layer {
        Layer::Rectangle(x) => render_rectangle(context, x),
        Layer::Circle(x) => render_circle(context, x),
        Layer::Arc(x) => render_arc(context, x),
        Layer::Triangle(x) => render_triangle(context, x),
        Layer::Polygon(x) => render_polygon(context, x),
        Layer::Line(x) => render_line(context, x),
        Layer::Curve(x) => render_curve(context, x),
        Layer::Text(x) => render_text(context, x),
    }
    context.restore();
    proof {
        assert(context.ops@ =~= old(context).ops@ + layer_ops(*layer));
    }
}

/// Replays every layer of a list, in document order.
pub fn render_all(context: &mut Context, layers: &Vec<Layer>)
    ensures
        final(context).ops@ == old(context).ops@ + scene_ops(layers@),
{
    let ghost base: Seq<DrawOp> = context.ops@;
    let n = layers.len();
    let mut i: usize = 0;
    proof {
        assert(layers@.take(0) =~= Seq::<Layer>::empty());
        assert(base + scene_ops(layers@.take(0)) =~= base);
    }
    while i < n
        invariant
            n == layers@.len(),
            i <= n,
            context.ops@ == base + scene_ops(layers@.take(i as int)),
        decreases n - i,
    {
        render(context, &layers[i]);
        proof {
            assert(layers@.take(i as int + 1).drop_last() =~= layers@.take(i as int));
            assert(layers@.take(i as int + 1).last() == layers@[i as int]);
            assert(base + scene_ops(layers@.take(i as int + 1)) =~= (base + scene_ops(
                layers@.take(i as int),
            )) + layer_ops(layers@[i as int]));
        }
        i = i + 1;
    }
    proof {
        assert(layers@.take(n as int) =~= layers@);
    }
}

/// Replays a rectangle.
fn render_rectangle(context: &mut Context, node: &Rectangle)
    ensures
        final(context).ops@ == old(context).ops@ + rect_ops(*node),
{
    context.translate(node.x, node.y);
    context.set_source_rgba(node.color);
    context.scale(node.scale.x, node.scale.y);
    context.rectangle(0, 0, node.width, node.height);
    if node.fill {
        context.fill();
    } else {
        context.set_line_width(node.stroke.width);
        context.set_line_cap(node.stroke.cap);
        context.stroke();
    }
    proof {
        assert(context.ops@ =~= old(context).ops@ + rect_ops(*node));
    }
}

/// Replays a circle.
fn render_circle(context: &mut Context, node: &Circle)
    ensures
        final(context).ops@ == old(context).ops@ + circle_ops(*node),
{
    context.translate(node.x, node.y);
    context.set_source_rgba(node.color);
    context.scale(node.scale.x, node.scale.y);
    context.arc(0, 0, node.radius, 0, FULL_TURN);
    if node.fill {
        context.fill();
    } else {
        context.set_line_width(node.stroke.width);
        context.set_line_cap(node.stroke.cap);
        context.stroke();
    }
    proof {
        assert(context.ops@ =~= old(context).ops@ + circle_ops(*node));
    }
}

/// Replays an arc.
fn render_arc(context: &mut Context, node: &Arc)
    ensures
        final(context).ops@ == old(context).ops@ + arc_ops(*node),
{
    context.translate(node.x, node.y);
    context.set_source_rgba(node.color);
    context.scale(node.scale.x, node.scale.y);
    if node.close {
        context.move_to(0, 0);
    }
    context.arc(0, 0, node.radius, node.start, node.end);
    if node.close {
        context.line_to(0, 0);
    }
    if node.fill {
        context.fill();
    } else {
        context.set_line_width(node.stroke.width);
        context.set_line_cap(node.stroke.cap);
        context.stroke();
    }
    proof {
        assert(context.ops@ =~= old(context).ops@ + arc_ops(*node));
    }
}

/// Replays a triangle.
fn render_triangle(context: &mut Context, node: &Triangle)
    ensures
        final(context).ops@ == old(context).ops@ + triangle_ops(*node),
{
    context.translate(0, 0);
    context.set_source_rgba(node.color);
    context.scale(node.scale.x, node.scale.y);
    context.move_to(node.vertex.a.x, node.vertex.a.y);
    context.line_to(node.vertex.b.x, node.vertex.b.y);
    context.line_to(node.vertex.c.x, node.vertex.c.y);
    context.close_path();
    if node.fill {
        context.fill();
    } else {
        context.set_line_width(node.stroke.width);
        context.set_line_cap(node.stroke.cap);
        context.stroke();
    }
    proof {
        assert(context.ops@ =~= old(context).ops@ + triangle_ops(*node));
    }
}

/// Replays the path of an ordered point list.
fn render_path(context: &mut Context, points: &Vec<Point>)
    ensures
        final(context).ops@ == old(context).ops@ + path_ops(points@),
{
    let ghost base: Seq<DrawOp> = context.ops@;
    let n = points.len();
    let mut i: usize = 0;
    proof {
        assert(path_ops(points@).subrange(0, 0) =~= Seq::<DrawOp>::empty());
        assert(base + path_ops(points@).subrange(0, 0) =~= base);
    }
    while i < n
        invariant
            n == points@.len(),
            i <= n,
            context.ops@ == base + path_ops(points@).subrange(0, i as int),
        decreases n - i,
    {
        let p = points[i];
        if i == 0 {
            context.move_to(p.x, p.y);
        } else {
            context.line_to(p.x, p.y);
        }
        proof {
            assert(path_ops(points@).subrange(0, i as int + 1) =~= path_ops(points@).subrange(
                0,
                i as int,
            ).push(path_ops(points@)[i as int]));
        }
        i = i + 1;
    }
    proof {
        assert(path_ops(points@).subrange(0, n as int) =~= path_ops(points@));
    }
}

/// Replays a polygon.
fn render_polygon(context: &mut Context, node: &Polygon)
    ensures
        final(context).ops@ == old(context).ops@ + polygon_ops(*node),
{
    context.translate(0, 0);
    context.set_source_rgba(node.color);
    context.scale(node.scale.x, node.scale.y);
    render_path(context, &node.vertex);
    context.close_path();
    if node.fill {
        context.fill();
    } else {
        context.set_line_width(node.stroke.width);
        context.set_line_cap(node.stroke.cap);
        context.stroke();
    }
    proof {
        assert(context.ops@ =~= old(context).ops@ + polygon_ops(*node));
    }
}

/// Replays a line.
fn render_line(context: &mut Context, node: &Line)
    ensures
        final(context).ops@ == old(context).ops@ + line_ops(*node),
{
    context.translate(0, 0);
    context.set_source_rgba(node.color);
    context.scale(node.scale.x, node.scale.y);
    context.set_line_width(node.stroke.width);
    context.set_line_cap(node.stroke.cap);
    render_path(context, &node.points);
    context.stroke();
    proof {
        assert(context.ops@ =~= old(context).ops@ + line_ops(*node));
    }
}

/// Replays a curve.
fn render_curve(context: &mut Context, node: &Curve)
    ensures
        final(context).ops@ == old(context).ops@ + curve_ops(*node),
{
    context.translate(0, 0);
    context.set_source_rgba(node.color);
    context.scale(node.scale.x, node.scale.y);
    context.set_line_width(node.stroke.width);
    context.set_line_cap(node.stroke.cap);
    context.curve_to(node.start.x, node.start.y, node.mid.x, node.mid.y, node.end.x, node.end.y);
    context.stroke();
    proof {
        assert(context.ops@ =~= old(context).ops@ + curve_ops(*node));
    }
}

/// Replays a text layer.
fn render_text(context: &mut Context, node: &Text)
    ensures
        final(context).ops@ == old(context).ops@ + text_ops(*node),
{
    context.translate(node.x, node.y);
    context.move_to(0, 0);
    context.set_source_rgba(node.color);
    context.scale(node.scale.x, node.scale.y);
    context.select_font_face(node.family.clone(), node.slant, node.weight);
    context.set_font_size(node.size);
    context.show_text(node.text.clone());
    context.stroke();
    proof {
        assert(context.ops@ =~= old(context).ops@ + text_ops(*node));
    }
}

} // verus!
