//! Coordinate pairs, parsed from two-number arrays of the document.

use crate::error::{res_v, NodeError, NodeErrorView};
use crate::value::Value;
use vstd::prelude::*;

verus! {

/// A coordinate pair; each coordinate is carried as IEEE-754 binary64 bits.
#[derive(Debug, Clone, Copy, PartialEq, Eq, Structural)]
pub struct Point {
    pub x: u64,
    pub y: u64,
}

impl View for Point {
    type V = Point;

    open spec fn view(&self) -> Point {
        *self
    }
}

/// The numeric bits of a document node, when it is numeric at all.
pub open spec fn spec_coord(v: Value) -> Option<u64> {
    match v {
        Value::Num(n) => Some(n.wide),
        _ => None,
    }
}

/// What a document node yields as a point: it must be a two-element
/// sequence of numbers; anything else is no point.
pub open spec fn spec_point(v: Value) -> Option<Point> {
    match v {
        Value::List(ps) => if ps@.len() == 2 {
            match (spec_coord(ps@[0]), spec_coord(ps@[1])) {
                (Some(x), Some(y)) => Some(Point { x, y }),
                _ => None,
            }
        } else {
            None
        },
        _ => None,
    }
}

/// What a sequence of document nodes yields as points: every entry must
/// be a point, and the first entry that is none fails the whole sequence
/// with `InvalidPoint`.
pub open spec fn points_spec(items: Seq<Value>) -> Result<Seq<Point>, NodeErrorView>
    decreases items.len(),
{
    if items.len() <= 0 {
        Ok(Seq::empty())
    } else {
        match spec_point(items[0]) {
            None => Err(NodeErrorView::InvalidPoint),
            Some(p) => match points_spec(items.skip(1)) {
                Ok(ps) => Ok(seq![p] + ps),
                Err(e) => Err(e),
            },
        }
    }
}

/// Reads every entry of `items` as a point, in order.
pub fn parse_points(items: &Vec<Value>) -> (r: Result<Vec<Point>, NodeError>)
    ensures
        res_v(r) == points_spec(items@),
{
    let mut acc: Vec<Point> = Vec::new();
    let n = items.len();
    let mut i: usize = 0;
    proof {
        assert(items@.skip(0) =~= items@);
        assert(acc@ + points_spec(items@)->Ok_0 =~= points_spec(items@)->Ok_0);
    }
    while i < n
        invariant
            n == items@.len(),
            i <= n,
            points_spec(items@) matches Ok(all) ==> {
                &&& points_spec(items@.skip(i as int)) matches Ok(rest)
                &&& all == acc@ + rest
            },
            points_spec(items@) matches Err(e) ==> points_spec(items@.skip(i as int))
                == Err::<Seq<Point>, NodeErrorView>(e),
        decreases n - i,
    {
        proof {
            assert(items@.skip(i as int)[0] == items@[i as int]);
            assert(items@.skip(i as int).skip(1) =~= items@.skip(i as int + 1));
        }
        match items[i].as_point() {
            Some(p) => {
                acc.push(p);
                proof {
                    if points_spec(items@) is Ok {
                        assert(acc@ + points_spec(items@.skip(i as int + 1))->Ok_0 =~= acc@.drop_last()
                            + points_spec(items@.skip(i as int))->Ok_0);
                    }
                }
            },
            None => {
                return Err(NodeError::InvalidPoint);
            },
        }
        i = i + 1;
    }
    proof {
        assert(items@.skip(n as int) =~= Seq::<Value>::empty());
        assert(acc@ + Seq::<Point>::empty() =~= acc@);
    }
    Ok(acc)
}

impl Value {
    /// Reads this node as a point: a two-element numeric array.
    pub fn as_point(&self) -> (r: Option<Point>)
        ensures
            r == spec_point(*self),
    {
        match self {
            Value::List(ps) => {
                if ps.len() == 2 {
                    let x = match &ps[0] {
                        Value::Num(n) => Some(n.wide),
                        _ => None,
                    };
                    let y = match &ps[1] {
                        Value::Num(n) => Some(n.wide),
                        _ => None,
                    };
                    match (x, y) {
                        (Some(x), Some(y)) => Some(Point { x, y }),
                        _ => None,
                    }
                } else {
                    None
                }
            },
            _ => None,
        }
    }
}

} // verus!
