//! Parse behavior of the line layer.

use claris::value::{Num, Value};
use yaml_rust::{Yaml, YamlLoader};

/// Builds a numeric scalar the way the library expects it: the integer
/// value when one was written, plus the bit patterns of both float widths.
fn num(wide: f64, whole: Option<i64>) -> Value {
    Value::Num(Num { whole, wide: wide.to_bits(), narrow: (wide as f32).to_bits() })
}

/// Converts a parsed YAML node into the library's document tree.
fn conv(y: &Yaml) -> Value {
    match y {
        Yaml::Integer(i) => num(*i as f64, Some(*i)),
        Yaml::Real(_) => match y.as_f64() {
            Some(f) => num(f, None),
            None => Value::Null,
        },
        Yaml::String(s) => Value::Text(s.clone()),
        Yaml::Boolean(b) => Value::Bool(*b),
        Yaml::Array(xs) => Value::List(xs.iter().map(conv).collect()),
        Yaml::Hash(h) => Value::Dict(h.iter().map(|(k, v)| (conv(k), conv(v))).collect()),
        _ => Value::Null,
    }
}

/// Parses a YAML document into the library's document tree.
fn doc(s: &str) -> Value {
    let docs = YamlLoader::load_from_str(s).unwrap();
    conv(&docs[0])
}


/// Parses a line layer, panicking with the diagnostic on failure.
fn parse(s: &str) -> claris::line::Line {
    match claris::line::Line::parse(&doc(s)) {
        Ok(x) => x,
        Err(e) => panic!("{}", e.message()),
    }
}

#[test]
#[should_panic(expected = "'line' is required 'color' option")]
fn line_color_is_blank() {
    let s = "---
points:
  - [10, 20]
  - [30, 10]
  - [40, 30]
  - [10, 40]
";
    parse(s);
}

#[test]
fn line_color_is_rgb() {
    let s = "---
color: '#AABBCC'
points:
  - [10, 20]
  - [30, 10]
  - [40, 30]
  - [10, 40]
";
    let subject = parse(s);
    assert_eq!(subject.color.r, 170);
    assert_eq!(subject.color.g, 187);
    assert_eq!(subject.color.b, 204);
    assert_eq!(f32::from_bits(subject.color.a), 1.0);
}

#[test]
fn line_color_and_alpha() {
    let s = "---
color: '#AABBCC'
alpha: 0.5
points:
  - [10, 20]
  - [30, 10]
  - [40, 30]
  - [10, 40]
";
    let subject = parse(s);
    assert_eq!(subject.color.r, 170);
    assert_eq!(subject.color.g, 187);
    assert_eq!(subject.color.b, 204);
    assert_eq!(f32::from_bits(subject.color.a), 0.5);
}

#[test]
fn line_stroke_is_blank() {
    let s = "---
color: '#AABBCC'
points:
  - [10, 20]
  - [30, 10]
  - [40, 30]
  - [10, 40]
";
    let subject = parse(s);
    assert_eq!(f64::from_bits(subject.stroke.width), 1.0);
    assert_eq!(subject.stroke.cap, claris::stroke::LineCap::Butt);
}

#[test]
fn line_stroke_with_integer_width() {
    let s = "---
color: '#AABBCC'
stroke:
  width: 2
points:
  - [10, 20]
  - [30, 10]
  - [40, 30]
  - [10, 40]
";
    let subject = parse(s);
    assert_eq!(f64::from_bits(subject.stroke.width), 2.0);
    assert_eq!(subject.stroke.cap, claris::stroke::LineCap::Butt);
}

#[test]
fn line_stroke_with_float_width() {
    let s = "---
color: '#AABBCC'
stroke:
  width: 2.5
points:
  - [10, 20]
  - [30, 10]
  - [40, 30]
  - [10, 40]
";
    let subject = parse(s);
    assert_eq!(f64::from_bits(subject.stroke.width), 2.5);
    assert_eq!(subject.stroke.cap, claris::stroke::LineCap::Butt);
}

#[test]
fn line_stroke_with_cap() {
    let s = "---
color: '#AABBCC'
stroke:
  cap: round
points:
  - [10, 20]
  - [30, 10]
  - [40, 30]
  - [10, 40]
";
    let subject = parse(s);
    assert_eq!(f64::from_bits(subject.stroke.width), 1.0);
    assert_eq!(subject.stroke.cap, claris::stroke::LineCap::Round);
}

#[test]
fn line_scale_is_blank() {
    let s = "---
color: '#AABBCC'
points:
  - [10, 20]
  - [30, 10]
  - [40, 30]
  - [10, 40]
";
    let subject = parse(s);
    assert_eq!(f64::from_bits(subject.scale.x), 1.0);
    assert_eq!(f64::from_bits(subject.scale.y), 1.0);
}

#[test]
fn line_scale_is_not_blank() {
    let s = "---
color: '#AABBCC'
scale:
  x: 2
  y: 2.5
points:
  - [10, 20]
  - [30, 10]
  - [40, 30]
  - [10, 40]
";
    let subject = parse(s);
    assert_eq!(f64::from_bits(subject.scale.x), 2.0);
    assert_eq!(f64::from_bits(subject.scale.y), 2.5);
}

#[test]
#[should_panic(expected = "'line' is required 'points' option")]
fn points_is_blank() {
    let s = "---
x: 10
y: 20
width: 30
height: 40
color: '#AABBCC'
scale:
  x: 2
  y: 2.5
";
    parse(s);
}

#[test]
fn points_is_not_blank() {
    let s = "---
x: 10
y: 20
width: 30
height: 40
color: '#AABBCC'
scale:
  x: 2
  y: 2.5
points:
  - [10, 20]
  - [30, 10]
  - [40, 30]
  - [10, 40]
";
    let subject = parse(s);
    assert_eq!(subject.points.len(), 4);
    assert_eq!(f64::from_bits(subject.points[0].x), 10.0);
    assert_eq!(f64::from_bits(subject.points[0].y), 20.0);
    assert_eq!(f64::from_bits(subject.points[1].x), 30.0);
    assert_eq!(f64::from_bits(subject.points[1].y), 10.0);
    assert_eq!(f64::from_bits(subject.points[2].x), 40.0);
    assert_eq!(f64::from_bits(subject.points[2].y), 30.0);
    assert_eq!(f64::from_bits(subject.points[3].x), 10.0);
    assert_eq!(f64::from_bits(subject.points[3].y), 40.0);
}

#[test]
#[should_panic(expected = "invalid point")]
fn points_is_invalid() {
    let s = "---
x: 10
y: 20
width: 30
height: 40
color: '#AABBCC'
scale:
  x: 2
  y: 2.5
points:
  - [10]
";
    parse(s);
}
#[test]
fn empty_points_fail() {
    let s = "---
color: '#AABBCC'
points: []
";
    match claris::line::Line::parse(&doc(s)) {
        Err(claris::error::NodeError::InvalidVertex) => (),
        r => panic!("expected an invalid vertex error, got {:?}", r),
    }
}

#[test]
fn alpha_out_of_range_is_opaque() {
    let s = "---
color: '#AABBCC'
alpha: 1.5
points:
  - [10, 20]
";
    let subject = parse(s);
    assert_eq!(f32::from_bits(subject.color.a), 1.0);
}
