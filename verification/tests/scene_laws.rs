//! Whole-scene behavior: re-parsing stability and the alpha policy seen
//! end to end.

use claris::layer::Layer;
use claris::root::Root;
use claris::value::{Num, Value};
use yaml_rust::{Yaml, YamlLoader};

/// Builds a numeric scalar the way the library expects it: the integer
/// value when one was written, plus the bit patterns of both float widths.
fn num(wide: f64, whole: Option<i64>) -> Value {
    Value::Num(Num { whole, wide: wide.to_bits(), narrow: (wide as f32).to_bits() })
}

/// Converts a parsed YAML node into the library's document tree.
fn conv(y: &Yaml) -> Value {
    match y {
        Yaml::Integer(i) => num(*i as f64, Some(*i)),
        Yaml::Real(_) => match y.as_f64() {
            Some(f) => num(f, None),
            None => Value::Null,
        },
        Yaml::String(s) => Value::Text(s.clone()),
        Yaml::Boolean(b) => Value::Bool(*b),
        Yaml::Array(xs) => Value::List(xs.iter().map(conv).collect()),
        Yaml::Hash(h) => Value::Dict(h.iter().map(|(k, v)| (conv(k), conv(v))).collect()),
        _ => Value::Null,
    }
}

/// Parses a YAML document into the library's document tree.
fn doc(s: &str) -> Value {
    let docs = YamlLoader::load_from_str(s).unwrap();
    conv(&docs[0])
}

const SCENE: &str = "---
width: 400
height: 300
color: '#102030'
layers:
  - rectangle:
      x: 10
      y: 10
      width: 200
      height: 100
      color: '#AABBCC'
      fill: true
  - text:
      x: 10.5
      y: 12.25
      text: hello
      color: '#AABBCC'
      alpha: 0.5
  - triangle:
      color: 'red'
      vertex:
        - [10, 10]
        - [30, 30]
        - [10, 60]
  - line:
      color: '#AABBCC'
      stroke:
        width: 2.5
        cap: round
      points:
        - [10, 10]
        - [30, 30]
";

#[test]
fn reparse_yields_equal_scene() {
    let d = doc(SCENE);
    let first = Root::parse(&d).unwrap();
    let second = Root::parse(&d).unwrap();
    assert_eq!(first, second);
}

#[test]
fn reparse_from_same_text_yields_equal_scene() {
    let first = Root::parse(&doc(SCENE)).unwrap();
    let second = Root::parse(&doc(SCENE)).unwrap();
    assert_eq!(first, second);
}

#[test]
fn rerender_yields_equal_operations() {
    let scene = Root::parse(&doc(SCENE)).unwrap();
    let mut a = claris::context::Context::new();
    claris::render::render_all(&mut a, &scene.layers);
    let mut b = claris::context::Context::new();
    claris::render::render_all(&mut b, &scene.layers);
    assert_eq!(a.ops, b.ops);
}

#[test]
fn alpha_override_keeps_channels() {
    let scene = Root::parse(&doc(SCENE)).unwrap();
    match &scene.layers[1] {
        Layer::Text(t) => {
            assert_eq!(t.color.r, 170);
            assert_eq!(t.color.g, 187);
            assert_eq!(t.color.b, 204);
            assert_eq!(f32::from_bits(t.color.a), 0.5);
        },
        l => panic!("expected the text layer, got {:?}", l),
    }
}

#[test]
fn background_alpha_is_forced_opaque() {
    let scene = Root::parse(&doc(SCENE)).unwrap();
    assert_eq!(scene.color.r, 0x10);
    assert_eq!(scene.color.g, 0x20);
    assert_eq!(scene.color.b, 0x30);
    assert_eq!(f32::from_bits(scene.color.a), 1.0);
}
