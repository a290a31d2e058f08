//! Parse behavior of the curve layer.

use claris::value::{Num, Value};
use yaml_rust::{Yaml, YamlLoader};

/// Builds a numeric scalar the way the library expects it: the integer
/// value when one was written, plus the bit patterns of both float widths.
fn num(wide: f64, whole: Option<i64>) -> Value {
    Value::Num(Num { whole, wide: wide.to_bits(), narrow: (wide as f32).to_bits() })
}

/// Converts a parsed YAML node into the library's document tree.
fn conv(y: &Yaml) -> Value {
    match y {
        Yaml::Integer(i) => num(*i as f64, Some(*i)),
        Yaml::Real(_) => match y.as_f64() {
            Some(f) => num(f, None),
            None => Value::Null,
        },
        Yaml::String(s) => Value::Text(s.clone()),
        Yaml::Boolean(b) => Value::Bool(*b),
        Yaml::Array(xs) => Value::List(xs.iter().map(conv).collect()),
        Yaml::Hash(h) => Value::Dict(h.iter().map(|(k, v)| (conv(k), conv(v))).collect()),
        _ => Value::Null,
    }
}

/// Parses a YAML document into the library's document tree.
fn doc(s: &str) -> Value {
    let docs = YamlLoader::load_from_str(s).unwrap();
    conv(&docs[0])
}


/// Parses a curve layer, panicking with the diagnostic on failure.
fn parse(s: &str) -> claris::curve::Curve {
    match claris::curve::Curve::parse(&doc(s)) {
        Ok(x) => x,
        Err(e) => panic!("{}", e.message()),
    }
}

#[test]
#[should_panic(expected = "'curve' is required 'color' option")]
fn curve_color_is_blank() {
    let s = "---
start: [10, 5]
mid: [30, 40]
end: [10, 60]
";
    parse(s);
}

#[test]
fn curve_color_is_rgb() {
    let s = "---
color: '#AABBCC'
start: [10, 5]
mid: [30, 40]
end: [10, 60]
";
    let subject = parse(s);
    assert_eq!(subject.color.r, 170);
    assert_eq!(subject.color.g, 187);
    assert_eq!(subject.color.b, 204);
    assert_eq!(f32::from_bits(subject.color.a), 1.0);
}

#[test]
fn curve_color_and_alpha() {
    let s = "---
color: '#AABBCC'
alpha: 0.5
start: [10, 5]
mid: [30, 40]
end: [10, 60]
";
    let subject = parse(s);
    assert_eq!(subject.color.r, 170);
    assert_eq!(subject.color.g, 187);
    assert_eq!(subject.color.b, 204);
    assert_eq!(f32::from_bits(subject.color.a), 0.5);
}

#[test]
fn curve_stroke_is_blank() {
    let s = "---
color: '#AABBCC'
start: [10, 5]
mid: [30, 40]
end: [10, 60]
";
    let subject = parse(s);
    assert_eq!(f64::from_bits(subject.stroke.width), 1.0);
    assert_eq!(subject.stroke.cap, claris::stroke::LineCap::Butt);
}

#[test]
fn curve_stroke_with_integer_width() {
    let s = "---
color: '#AABBCC'
stroke:
  width: 2
start: [10, 5]
mid: [30, 40]
end: [10, 60]
";
    let subject = parse(s);
    assert_eq!(f64::from_bits(subject.stroke.width), 2.0);
    assert_eq!(subject.stroke.cap, claris::stroke::LineCap::Butt);
}

#[test]
fn curve_stroke_with_float_width() {
    let s = "---
color: '#AABBCC'
stroke:
  width: 2.5
start: [10, 5]
mid: [30, 40]
end: [10, 60]
";
    let subject = parse(s);
    assert_eq!(f64::from_bits(subject.stroke.width), 2.5);
    assert_eq!(subject.stroke.cap, claris::stroke::LineCap::Butt);
}

#[test]
fn curve_stroke_with_cap() {
    let s = "---
color: '#AABBCC'
stroke:
  cap: round
start: [10, 5]
mid: [30, 40]
end: [10, 60]
";
    let subject = parse(s);
    assert_eq!(f64::from_bits(subject.stroke.width), 1.0);
    assert_eq!(subject.stroke.cap, claris::stroke::LineCap::Round);
}

#[test]
fn curve_scale_is_blank() {
    let s = "---
color: '#AABBCC'
start: [10, 5]
mid: [30, 40]
end: [10, 60]
";
    let subject = parse(s);
    assert_eq!(f64::from_bits(subject.scale.x), 1.0);
    assert_eq!(f64::from_bits(subject.scale.y), 1.0);
}

#[test]
fn curve_scale_is_not_blank() {
    let s = "---
color: '#AABBCC'
scale:
  x: 2
  y: 2.5
start: [10, 5]
mid: [30, 40]
end: [10, 60]
";
    let subject = parse(s);
    assert_eq!(f64::from_bits(subject.scale.x), 2.0);
    assert_eq!(f64::from_bits(subject.scale.y), 2.5);
}

#[test]
#[should_panic(expected = "'curve' is required 'start' option")]
fn curve_start_is_blank() {
    let s = "---
color: '#AABBCC'
mid: [30, 40]
end: [10, 60]
";
    parse(s);
}

#[test]
fn curve_start_is_not_blank() {
    let s = "---
color: '#AABBCC'
start: [10, 5]
mid: [30, 40]
end: [10, 60]
";
    let subject = parse(s);
    assert_eq!(f64::from_bits(subject.start.x), 10.0);
    assert_eq!(f64::from_bits(subject.start.y), 5.0);
}

#[test]
#[should_panic(expected = "invalid point")]
fn start_is_invalid() {
    let s = "---
color: '#AABBCC'
start: [10]
mid: [30, 40]
end: [10, 60]
";
    parse(s);
}

#[test]
#[should_panic(expected = "'curve' is required 'mid' option")]
fn mid_is_blank() {
    let s = "---
color: '#AABBCC'
start: [10, 5]
end: [10, 60]
";
    parse(s);
}

#[test]
fn mid_is_not_blank() {
    let s = "---
color: '#AABBCC'
start: [10, 5]
mid: [30, 40]
end: [10, 60]
";
    let subject = parse(s);
    assert_eq!(f64::from_bits(subject.mid.x), 30.0);
    assert_eq!(f64::from_bits(subject.mid.y), 40.0);
}

#[test]
#[should_panic(expected = "invalid point")]
fn mid_is_invalid() {
    let s = "---
color: '#AABBCC'
start: [10, 5]
mid: [30]
end: [10, 60]
";
    parse(s);
}

#[test]
#[should_panic(expected = "'curve' is required 'end' option")]
fn curve_end_is_blank() {
    let s = "---
color: '#AABBCC'
start: [10, 5]
mid: [30, 40]
";
    parse(s);
}

#[test]
fn curve_end_is_not_blank() {
    let s = "---
color: '#AABBCC'
start: [10, 5]
mid: [30, 40]
end: [10, 60]
";
    let subject = parse(s);
    assert_eq!(f64::from_bits(subject.end.x), 10.0);
    assert_eq!(f64::from_bits(subject.end.y), 60.0);
}

#[test]
#[should_panic(expected = "invalid point")]
fn end_is_invalid() {
    let s = "---
color: '#AABBCC'
start: [10, 5]
mid: [30, 40]
end: [10]
";
    parse(s);
}
