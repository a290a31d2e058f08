//! Parse behavior of the polygon layer.

use claris::value::{Num, Value};
use yaml_rust::{Yaml, YamlLoader};

/// Builds a numeric scalar the way the library expects it: the integer
/// value when one was written, plus the bit patterns of both float widths.
fn num(wide: f64, whole: Option<i64>) -> Value {
    Value::Num(Num { whole, wide: wide.to_bits(), narrow: (wide as f32).to_bits() })
}

/// Converts a parsed YAML node into the library's document tree.
fn conv(y: &Yaml) -> Value {
    match y {
        Yaml::Integer(i) => num(*i as f64, Some(*i)),
        Yaml::Real(_) => match y.as_f64() {
            Some(f) => num(f, None),
            None => Value::Null,
        },
        Yaml::String(s) => Value::Text(s.clone()),
        Yaml::Boolean(b) => Value::Bool(*b),
        Yaml::Array(xs) => Value::List(xs.iter().map(conv).collect()),
        Yaml::Hash(h) => Value::Dict(h.iter().map(|(k, v)| (conv(k), conv(v))).collect()),
        _ => Value::Null,
    }
}

/// Parses a YAML document into the library's document tree.
fn doc(s: &str) -> Value {
    let docs = YamlLoader::load_from_str(s).unwrap();
    conv(&docs[0])
}


/// Parses a polygon layer, panicking with the diagnostic on failure.
fn parse(s: &str) -> claris::polygon::Polygon {
    match claris::polygon::Polygon::parse(&doc(s)) {
        Ok(x) => x,
        Err(e) => panic!("{}", e.message()),
    }
}

#[test]
fn polygon_fill_is_true() {
    let s = "
color: '#AABBCC'
fill: true
vertex:
  - [10, 20]
  - [30, 10]
  - [40, 30]
  - [10, 40]
";
    let subject = parse(s);
    assert_eq!(subject.fill, true)
}

#[test]
fn polygon_fill_is_false() {
    let s = "
color: '#AABBCC'
fill: false
vertex:
  - [10, 20]
  - [30, 10]
  - [40, 30]
  - [10, 40]
";
    let subject = parse(s);
    assert_eq!(subject.fill, false)
}

#[test]
fn polygon_fill_is_blank() {
    let s = "
color: '#AABBCC'
vertex:
  - [10, 20]
  - [30, 10]
  - [40, 30]
  - [10, 40]
";
    let subject = parse(s);
    assert_eq!(subject.fill, false)
}

#[test]
#[should_panic(expected = "'polygon' is required 'color' option")]
fn polygon_color_is_blank() {
    let s = "
vertex:
  - [10, 20]
  - [30, 10]
  - [40, 30]
  - [10, 40]
";
    parse(s);
}

#[test]
fn polygon_color_is_rgb() {
    let s = "
color: '#AABBCC'
vertex:
  - [10, 20]
  - [30, 10]
  - [40, 30]
  - [10, 40]
";
    let subject = parse(s);
    assert_eq!(subject.color.r, 170);
    assert_eq!(subject.color.g, 187);
    assert_eq!(subject.color.b, 204);
    assert_eq!(f32::from_bits(subject.color.a), 1.0);
}

#[test]
fn polygon_color_and_alpha() {
    let s = "
color: '#AABBCC'
alpha: 0.5
vertex:
  - [10, 20]
  - [30, 10]
  - [40, 30]
  - [10, 40]
";
    let subject = parse(s);
    assert_eq!(subject.color.r, 170);
    assert_eq!(subject.color.g, 187);
    assert_eq!(subject.color.b, 204);
    assert_eq!(f32::from_bits(subject.color.a), 0.5);
}

#[test]
fn polygon_stroke_is_blank() {
    let s = "
color: '#AABBCC'
vertex:
  - [10, 20]
  - [30, 10]
  - [40, 30]
  - [10, 40]
";
    let subject = parse(s);
    assert_eq!(f64::from_bits(subject.stroke.width), 1.0);
    assert_eq!(subject.stroke.cap, claris::stroke::LineCap::Butt);
}

#[test]
fn polygon_stroke_with_integer_width() {
    let s = "
color: '#AABBCC'
stroke:
  width: 2
vertex:
  - [10, 20]
  - [30, 10]
  - [40, 30]
  - [10, 40]
";
    let subject = parse(s);
    assert_eq!(f64::from_bits(subject.stroke.width), 2.0);
    assert_eq!(subject.stroke.cap, claris::stroke::LineCap::Butt);
}

#[test]
fn polygon_stroke_with_float_width() {
    let s = "
color: '#AABBCC'
stroke:
  width: 2.5
vertex:
  - [10, 20]
  - [30, 10]
  - [40, 30]
  - [10, 40]
";
    let subject = parse(s);
    assert_eq!(f64::from_bits(subject.stroke.width), 2.5);
    assert_eq!(subject.stroke.cap, claris::stroke::LineCap::Butt);
}

#[test]
fn polygon_stroke_with_cap() {
    let s = "
color: '#AABBCC'
stroke:
  cap: round
vertex:
  - [10, 20]
  - [30, 10]
  - [40, 30]
  - [10, 40]
";
    let subject = parse(s);
    assert_eq!(f64::from_bits(subject.stroke.width), 1.0);
    assert_eq!(subject.stroke.cap, claris::stroke::LineCap::Round);
}

#[test]
fn polygon_scale_is_blank() {
    let s = "
color: '#AABBCC'
vertex:
  - [10, 20]
  - [30, 10]
  - [40, 30]
  - [10, 40]
";
    let subject = parse(s);
    assert_eq!(f64::from_bits(subject.scale.x), 1.0);
    assert_eq!(f64::from_bits(subject.scale.y), 1.0);
}

#[test]
fn polygon_scale_is_not_blank() {
    let s = "
color: '#AABBCC'
scale:
  x: 2
  y: 2.5
vertex:
  - [10, 20]
  - [30, 10]
  - [40, 30]
  - [10, 40]
";
    let subject = parse(s);
    assert_eq!(f64::from_bits(subject.scale.x), 2.0);
    assert_eq!(f64::from_bits(subject.scale.y), 2.5);
}

#[test]
#[should_panic(expected = "'polygon' is required 'vertex' option")]
fn polygon_vertex_is_blank() {
    let s = "
x: 10
y: 20
width: 30
height: 40
color: '#AABBCC'
scale:
  x: 2
  y: 2.5
";
    parse(s);
}

#[test]
fn polygon_vertex_is_not_blank() {
    let s = "
x: 10
y: 20
width: 30
height: 40
color: '#AABBCC'
scale:
  x: 2
  y: 2.5
vertex:
  - [10, 20]
  - [30, 10]
  - [40, 30]
  - [10, 40]
";
    let subject = parse(s);
    assert_eq!(subject.vertex.len(), 4);
    assert_eq!(f64::from_bits(subject.vertex[0].x), 10.0);
    assert_eq!(f64::from_bits(subject.vertex[0].y), 20.0);
    assert_eq!(f64::from_bits(subject.vertex[1].x), 30.0);
    assert_eq!(f64::from_bits(subject.vertex[1].y), 10.0);
    assert_eq!(f64::from_bits(subject.vertex[2].x), 40.0);
    assert_eq!(f64::from_bits(subject.vertex[2].y), 30.0);
    assert_eq!(f64::from_bits(subject.vertex[3].x), 10.0);
    assert_eq!(f64::from_bits(subject.vertex[3].y), 40.0);
}

#[test]
#[should_panic(expected = "invalid point")]
fn polygon_vertex_is_invalid() {
    let s = "
x: 10
y: 20
width: 30
height: 40
color: '#AABBCC'
scale:
  x: 2
  y: 2.5
vertex:
  - [10]
";
    parse(s);
}
#[test]
fn single_vertex_entry_fails() {
    let s = "
color: '#AABBCC'
vertex:
  - [10, 20]
";
    match claris::polygon::Polygon::parse(&doc(s)) {
        Err(claris::error::NodeError::InvalidVertex) => (),
        r => panic!("expected an invalid vertex error, got {:?}", r),
    }
}
