use vrl_assignment::parse_syslog::Clock;
use vrl_assignment::path::{Path, Segment};
use vrl_assignment::state::{Context, Runtime};
use vrl_assignment::value::{Member, Value};

fn field(name: &str) -> Segment {
    Segment::Field(name.to_string())
}

fn path(segments: Vec<Segment>) -> Path {
    Path::new(segments)
}

fn member(name: &str, value: Value) -> Member {
    Member { name: name.to_string(), value }
}

#[test]
fn write_at_the_root_replaces() {
    let mut value = Value::Integer(1);
    value.insert_by_path(&Path::root(), Value::Boolean(true));
    assert_eq!(value, Value::Boolean(true));
}

#[test]
fn write_makes_objects() {
    let mut value = Value::Integer(1);
    value.insert_by_path(&path(vec![field("a"), field("b")]), Value::Integer(2));
    assert_eq!(value, Value::Object(vec![member("a", Value::Object(vec![member("b", Value::Integer(2))]))]));
    value.insert_by_path(&path(vec![field("a"), field("c")]), Value::Null);
    assert_eq!(value.get_by_path(&path(vec![field("a"), field("b")])), Value::Integer(2));
    assert_eq!(value.get_by_path(&path(vec![field("a"), field("c")])), Value::Null);
    value.insert_by_path(&path(vec![field("a"), field("b")]), Value::Integer(3));
    assert_eq!(value.get_by_path(&path(vec![field("a"), field("b")])), Value::Integer(3));
    match value.get_by_path(&path(vec![field("a")])) {
        Value::Object(members) => assert_eq!(members.len(), 2),
        other => panic!("no object: {:?}", other),
    }
}

#[test]
fn write_grows_arrays() {
    let mut value = Value::Null;
    value.insert_by_path(&path(vec![Segment::Index(2)]), Value::Integer(7));
    assert_eq!(value, Value::Array(vec![Value::Null, Value::Null, Value::Integer(7)]));
    value.insert_by_path(&path(vec![Segment::Index(0)]), Value::Integer(5));
    assert_eq!(value, Value::Array(vec![Value::Integer(5), Value::Null, Value::Integer(7)]));
    value.insert_by_path(&path(vec![Segment::Index(-1)]), Value::Integer(8));
    assert_eq!(value, Value::Array(vec![Value::Integer(5), Value::Null, Value::Integer(8)]));
    value.insert_by_path(&path(vec![Segment::Index(-3)]), Value::Integer(4));
    assert_eq!(value, Value::Array(vec![Value::Integer(4), Value::Null, Value::Integer(8)]));
    value.insert_by_path(&path(vec![Segment::Index(-5)]), Value::Integer(1));
    assert_eq!(
        value,
        Value::Array(vec![Value::Integer(1), Value::Null, Value::Integer(4), Value::Null, Value::Integer(8)])
    );
    value.insert_by_path(&path(vec![Segment::Index(1), field("x")]), Value::Boolean(true));
    assert_eq!(value.get_by_path(&path(vec![Segment::Index(1)])), Value::Object(vec![member("x", Value::Boolean(true))]));
    let mut fresh = Value::Boolean(false);
    fresh.insert_by_path(&path(vec![Segment::Index(-2)]), Value::Integer(1));
    assert_eq!(fresh, Value::Array(vec![Value::Integer(1), Value::Null]));
}

#[test]
fn coalesce_writes_to_its_first_candidate() {
    let mut value = Value::Object(vec![member("b", Value::Integer(1))]);
    let either = Segment::Coalesce("a".to_string(), vec!["b".to_string()]);
    value.insert_by_path(&path(vec![either.clone()]), Value::Integer(2));
    assert_eq!(value.get_by_path(&path(vec![field("a")])), Value::Integer(2));
    assert_eq!(value.get_by_path(&path(vec![field("b")])), Value::Integer(1));
    assert_eq!(value.get_by_path(&path(vec![either])), Value::Integer(2));
}

#[test]
fn value_at_a_path() {
    assert_eq!(Value::Integer(1).at_path(&Path::root()), Value::Integer(1));
    assert_eq!(
        Value::Integer(1).at_path(&path(vec![field("a"), Segment::Index(1)])),
        Value::Object(vec![member("a", Value::Array(vec![Value::Null, Value::Integer(1)]))])
    );
}

#[test]
fn reading() {
    let value = Value::Object(vec![
        member("a", Value::Array(vec![Value::Integer(1), Value::Integer(2)])),
        member("a", Value::Array(vec![Value::Integer(3), Value::Integer(4), Value::Integer(5)])),
    ]);
    assert_eq!(value.get_by_path(&Path::root()), value);
    assert_eq!(value.get_by_path(&path(vec![field("a"), Segment::Index(0)])), Value::Integer(3));
    assert_eq!(value.get_by_path(&path(vec![field("a"), Segment::Index(2)])), Value::Integer(5));
    assert_eq!(value.get_by_path(&path(vec![field("a"), Segment::Index(-1)])), Value::Integer(5));
    assert_eq!(value.get_by_path(&path(vec![field("a"), Segment::Index(-3)])), Value::Integer(3));
    assert_eq!(value.get_by_path(&path(vec![field("a"), Segment::Index(3)])), Value::Null);
    assert_eq!(value.get_by_path(&path(vec![field("a"), Segment::Index(-4)])), Value::Null);
    assert_eq!(value.get_by_path(&path(vec![field("b")])), Value::Null);
    assert_eq!(value.get_by_path(&path(vec![field("a"), field("b")])), Value::Null);
    assert_eq!(value.get_by_path(&path(vec![Segment::Index(0)])), Value::Null);
    assert_eq!(Value::Integer(1).get_by_path(&path(vec![field("a"), field("b")])), Value::Null);
}

#[test]
fn copies_are_equal() {
    let value = Value::Object(vec![
        member("a", Value::Array(vec![Value::Bytes(vec![1, 2]), Value::Float(7), Value::Regex("x".to_string())])),
        member("b", Value::Timestamp(3, 4)),
        member("c", Value::Boolean(true)),
        member("d", Value::Null),
    ]);
    assert_eq!(value.clone(), value);
}

#[test]
fn variables() {
    let mut state = Runtime::new();
    let x = "x".to_string();
    assert_eq!(state.variable(&x), None);
    state.insert_variable(x.clone(), Value::Integer(1));
    assert_eq!(state.variable(&x), Some(&Value::Integer(1)));
    state.insert_variable(x.clone(), Value::Integer(2));
    assert_eq!(state.variable(&x), Some(&Value::Integer(2)));
    state.insert_by_path(x.clone(), &path(vec![field("a")]), Value::Integer(3));
    assert_eq!(state.variable(&x), Some(&Value::Object(vec![member("a", Value::Integer(3))])));
    state.insert_by_path("y".to_string(), &path(vec![Segment::Index(1)]), Value::Integer(4));
    assert_eq!(state.variable(&"y".to_string()), Some(&Value::Array(vec![Value::Null, Value::Integer(4)])));
    state.insert_by_path("z".to_string(), &Path::root(), Value::Integer(5));
    assert_eq!(state.variable(&"z".to_string()), Some(&Value::Integer(5)));
    assert_eq!(state.variable(&x), Some(&Value::Object(vec![member("a", Value::Integer(3))])));

    let clock = Clock { year: 2000, month: 1, offset_seconds: 0 };
    let ctx = Context::new(Value::Integer(9), clock);
    assert_eq!(ctx.target, Value::Integer(9));
    assert_eq!(ctx.clock, clock);
    assert_eq!(ctx.state.variable(&x), None);
}
