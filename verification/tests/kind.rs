use vrl_assignment::kind::{Element, Field, Kind};
use vrl_assignment::path::{Path, Segment};
use vrl_assignment::type_def::TypeDef;
use vrl_assignment::value::{Member, Value};

fn field(name: &str) -> Segment {
    Segment::Field(name.to_string())
}

fn path(segments: Vec<Segment>) -> Path {
    Path::new(segments)
}

fn known(name: &str, kind: Kind) -> Field {
    Field { name: name.to_string(), kind }
}

#[test]
fn containment() {
    assert!(Kind::any().contains_object());
    assert!(Kind::any().contains_array());
    assert!(Kind::object(vec![]).contains_object());
    assert!(!Kind::object(vec![]).contains_array());
    assert!(Kind::array(vec![]).contains_array());
    assert!(!Kind::array(vec![]).contains_object());
    assert!(!Kind::integer().contains_object());
    assert!(!Kind::integer().contains_array());
    assert!(Kind::integer().or_object(vec![]).contains_object());
    assert!(Kind::integer().or_array(vec![]).contains_array());
    assert!(!Kind::never().contains_object());
    assert!(Kind::bytes().or_null().contains_bytes());
    assert!(Kind::bytes().or_null().contains_null());
    assert!(!Kind::bytes().or_null().contains_integer());
    assert!(Kind::float().contains_float());
    assert!(Kind::boolean().contains_boolean());
    assert!(Kind::timestamp().contains_timestamp());
    assert!(Kind::regex().contains_regex());
}

#[test]
fn any_is_the_top() {
    assert!(Kind::any().is_any());
    assert!(!Kind::integer().is_any());
    let all = Kind::never()
        .or_bytes().or_integer().or_float().or_boolean().or_timestamp().or_regex().or_null()
        .or_object(vec![]).or_array(vec![]);
    assert!(all.is_any());
    // A union with the kind of every value is the kind of every value.
    assert!(all.clone().or_object(vec![known("a", Kind::integer())]).is_any());
    assert!(Kind::object(vec![known("a", Kind::integer())]).union(&Kind::any()).is_any());
    let narrowed = Kind::never()
        .or_bytes().or_integer().or_float().or_boolean().or_timestamp().or_regex().or_null()
        .or_object(vec![known("a", Kind::integer())]).or_array(vec![]);
    assert!(!narrowed.is_any());
    assert!(!Kind::never().or_bytes().or_integer().or_float().or_boolean().or_timestamp().or_regex().or_null().is_any());
}

#[test]
fn kinds_in_words() {
    assert_eq!(Kind::any().render(), "any");
    assert_eq!(Kind::never().render(), "never");
    assert_eq!(Kind::integer().render(), "integer");
    assert_eq!(Kind::bytes().render(), "string");
    assert_eq!(Kind::bytes().or_null().render(), "string or null");
    assert_eq!(Kind::null().or_bytes().render(), "string or null");
    assert_eq!(Kind::object(vec![]).or_array(vec![]).or_float().render(), "float or array or object");
    assert_eq!(
        Kind::array(vec![])
            .or_bytes().or_integer().or_float().or_boolean().or_timestamp().or_regex().or_null()
            .or_object(vec![known("a", Kind::null())])
            .render(),
        "string or integer or float or boolean or timestamp or regex or null or array or object"
    );
    assert_eq!(Kind::any().or_object(vec![known("a", Kind::null())]).render(), "any");
    let mut kind = Kind::integer();
    kind.add_bytes();
    kind.add_null();
    assert_eq!(kind.render(), "string or integer or null");
}

#[test]
fn exact_kinds() {
    assert!(Kind::integer().is_exact());
    assert!(Kind::object(vec![known("a", Kind::any())]).is_exact());
    assert!(!Kind::integer().or_null().is_exact());
    assert!(!Kind::never().is_exact());
    assert!(!Kind::any().is_exact());
}

#[test]
fn narrowing() {
    let inner = Kind::array(vec![
        Element { index: 0, kind: Kind::bytes() },
        Element { index: -1, kind: Kind::boolean() },
    ]);
    let kind = Kind::object(vec![known("a", Kind::integer()), known("list", inner)]);
    assert_eq!(kind.at_path(&path(vec![])).render(), "object");
    assert_eq!(kind.at_path(&path(vec![field("a")])).render(), "integer");
    assert_eq!(kind.at_path(&path(vec![field("list"), Segment::Index(0)])).render(), "string");
    assert_eq!(kind.at_path(&path(vec![field("list"), Segment::Index(-1)])).render(), "boolean");
    // What is not known may be anything.
    assert!(kind.at_path(&path(vec![field("b")])).is_any());
    assert!(kind.at_path(&path(vec![field("list"), Segment::Index(1)])).is_any());
    assert!(kind.at_path(&path(vec![field("a"), field("deep"), Segment::Index(4)])).is_any());
    assert!(kind.at_path(&path(vec![Segment::Index(0)])).is_any());
    assert!(Kind::any().at_path(&path(vec![field("a"), Segment::Index(2)])).is_any());
    assert!(Kind::integer().at_path(&path(vec![field("a")])).is_any());
    // A coalesce addresses its first candidate.
    let either = Segment::Coalesce("a".to_string(), vec!["list".to_string()]);
    assert_eq!(kind.at_path(&path(vec![either])).render(), "integer");
    let other = Segment::Coalesce("zz".to_string(), vec!["a".to_string()]);
    assert!(kind.at_path(&path(vec![other])).is_any());
    // The last entry for a field counts.
    let twice = Kind::object(vec![known("a", Kind::integer()), known("a", Kind::bytes())]);
    assert_eq!(twice.at_path(&path(vec![field("a")])).render(), "string");
}

#[test]
fn insert_then_narrow_gives_back_the_leaf() {
    let starts = [
        Kind::any(),
        Kind::never(),
        Kind::integer(),
        Kind::object(vec![known("a", Kind::integer()), known("b", Kind::array(vec![]))]),
        Kind::array(vec![Element { index: 2, kind: Kind::bytes() }, Element { index: -1, kind: Kind::null() }]),
    ];
    let paths = [
        vec![],
        vec![field("a")],
        vec![field("a"), field("b")],
        vec![field("b"), Segment::Index(3)],
        vec![Segment::Index(2)],
        vec![Segment::Index(-1), field("x")],
        vec![Segment::Coalesce("a".to_string(), vec!["c".to_string()]), Segment::Index(0)],
        vec![Segment::Coalesce("q".to_string(), vec![])],
    ];
    let leaves = [Kind::any(), Kind::bytes().or_null(), Kind::object(vec![known("z", Kind::float())])];
    for start in &starts {
        for segments in &paths {
            for leaf in &leaves {
                let at = path(segments.clone());
                let inserted = start.clone().with_type_inserted(&at, leaf.clone());
                let back = inserted.at_path(&at);
                assert_eq!(back.render(), leaf.render());
                assert_eq!(back.is_any(), leaf.is_any());
                assert_eq!(
                    back.at_path(&path(vec![field("z")])).render(),
                    leaf.at_path(&path(vec![field("z")])).render()
                );
            }
        }
    }
}

#[test]
fn insertion_makes_the_containers() {
    let kind = Kind::integer().with_type_inserted(&path(vec![field("a"), Segment::Index(1)]), Kind::bytes());
    assert_eq!(kind.render(), "object");
    assert_eq!(kind.at_path(&path(vec![field("a")])).render(), "array");
    // The other fields of an object stay known.
    let object = Kind::object(vec![known("a", Kind::integer()), known("b", Kind::boolean())]);
    let kind = object.with_type_inserted(&path(vec![field("a")]), Kind::bytes());
    assert_eq!(kind.at_path(&path(vec![field("a")])).render(), "string");
    assert_eq!(kind.at_path(&path(vec![field("b")])).render(), "boolean");
    // Of a value that may be no object, the write may make a new object:
    // the shapes beside the object are gone, and so is what was known.
    let mixed = Kind::integer().or_object(vec![known("b", Kind::boolean())]);
    assert!(mixed.at_path(&path(vec![field("b")])).is_any());
    let kind = mixed.with_type_inserted(&path(vec![field("a")]), Kind::bytes());
    assert_eq!(kind.render(), "object");
    assert_eq!(kind.at_path(&path(vec![field("a")])).render(), "string");
    assert!(kind.at_path(&path(vec![field("b")])).is_any());
    let mixed = Kind::null().or_array(vec![Element { index: 0, kind: Kind::boolean() }]);
    assert!(mixed.at_path(&path(vec![Segment::Index(0)])).is_any());
    let kind = mixed.with_type_inserted(&path(vec![Segment::Index(1)]), Kind::bytes());
    assert_eq!(kind.render(), "array");
    assert!(kind.at_path(&path(vec![Segment::Index(0)])).is_any());
    // Of an array the elements counted from the same end stay known.
    let array = Kind::array(vec![
        Element { index: 0, kind: Kind::integer() },
        Element { index: -1, kind: Kind::boolean() },
    ]);
    let kind = array.clone().with_type_inserted(&path(vec![Segment::Index(3)]), Kind::bytes());
    assert_eq!(kind.at_path(&path(vec![Segment::Index(3)])).render(), "string");
    assert_eq!(kind.at_path(&path(vec![Segment::Index(0)])).render(), "integer");
    assert!(kind.at_path(&path(vec![Segment::Index(-1)])).is_any());
    let kind = array.with_type_inserted(&path(vec![Segment::Index(-2)]), Kind::bytes());
    assert_eq!(kind.at_path(&path(vec![Segment::Index(-2)])).render(), "string");
    assert_eq!(kind.at_path(&path(vec![Segment::Index(-1)])).render(), "boolean");
    assert!(kind.at_path(&path(vec![Segment::Index(0)])).is_any());
}

#[test]
fn type_definitions() {
    let type_def = TypeDef::integer().fallible();
    assert!(type_def.is_fallible());
    assert!(!type_def.clone().infallible().is_fallible());
    assert!(TypeDef::any().is_infallible());
    assert!(TypeDef::any().kind().is_any());
    assert_eq!(TypeDef::bytes().add_null().kind().render(), "string or null");
    assert_eq!(TypeDef::null().add_bytes().kind().render(), "string or null");
    assert_eq!(TypeDef::new(Kind::float()).kind().render(), "float");
    // At the root the new type takes the place of the old.
    let replaced = TypeDef::integer().fallible().with_type_inserted(&Path::root(), TypeDef::bytes());
    assert_eq!(replaced.kind.render(), "string");
    assert!(!replaced.fallible);
    // Below the root the result can fail where either can.
    let at = path(vec![field("a")]);
    assert!(TypeDef::integer().fallible().with_type_inserted(&at, TypeDef::bytes()).fallible);
    assert!(TypeDef::integer().with_type_inserted(&at, TypeDef::bytes().fallible()).fallible);
    let inserted = TypeDef::integer().with_type_inserted(&at, TypeDef::bytes());
    assert!(!inserted.fallible);
    assert_eq!(inserted.kind.at_path(&at).render(), "string");
}

#[test]
fn defaults() {
    assert_eq!(Value::default_for(&Kind::bytes()), Value::Bytes(vec![]));
    assert_eq!(Value::default_for(&Kind::integer()), Value::Integer(0));
    assert_eq!(Value::default_for(&Kind::float()), Value::Float(0.0f64.to_bits()));
    assert_eq!(Value::default_for(&Kind::boolean()), Value::Boolean(false));
    assert_eq!(Value::default_for(&Kind::timestamp()), Value::Timestamp(0, 0));
    assert_eq!(Value::default_for(&Kind::regex()), Value::Regex(String::new()));
    assert_eq!(Value::default_for(&Kind::array(vec![])), Value::Array(vec![]));
    assert_eq!(Value::default_for(&Kind::object(vec![known("a", Kind::integer())])), Value::Object(vec![]));
    assert_eq!(Value::default_for(&Kind::null()), Value::Null);
    assert_eq!(Value::default_for(&Kind::any()), Value::Null);
    assert_eq!(Value::default_for(&Kind::never()), Value::Null);
    assert_eq!(Value::default_for(&Kind::integer().or_null()), Value::Null);
    assert_eq!(TypeDef::integer().default_value(), Value::Integer(0));
}

#[test]
fn kinds_of_values() {
    assert_eq!(Value::Bytes(vec![1]).kind().render(), "string");
    assert_eq!(Value::Integer(1).kind().render(), "integer");
    assert_eq!(Value::Float(1.5f64.to_bits()).kind().render(), "float");
    assert_eq!(Value::Boolean(true).kind().render(), "boolean");
    assert_eq!(Value::Timestamp(1, 2).kind().render(), "timestamp");
    assert_eq!(Value::Regex("a+".to_string()).kind().render(), "regex");
    assert_eq!(Value::Null.kind().render(), "null");
    let array = Value::Array(vec![Value::Null, Value::Integer(1)]);
    assert_eq!(array.kind().render(), "array");
    assert_eq!(array.kind().at_path(&path(vec![Segment::Index(0)])).render(), "null");
    assert_eq!(array.kind().at_path(&path(vec![Segment::Index(1)])).render(), "integer");
    assert!(array.kind().at_path(&path(vec![Segment::Index(2)])).is_any());
    assert!(array.kind().at_path(&path(vec![Segment::Index(-1)])).is_any());
    let object = Value::Object(vec![
        Member { name: "a".to_string(), value: Value::Null },
        Member { name: "b".to_string(), value: Value::Array(vec![Value::Bytes(vec![])]) },
        Member { name: "a".to_string(), value: Value::Boolean(true) },
    ]);
    assert_eq!(object.kind().render(), "object");
    assert_eq!(object.kind().at_path(&path(vec![field("a")])).render(), "boolean");
    assert_eq!(object.kind().at_path(&path(vec![field("b"), Segment::Index(0)])).render(), "string");
    assert!(object.kind().at_path(&path(vec![field("c")])).is_any());
}

#[test]
fn unions() {
    let left = Kind::object(vec![
        known("a", Kind::integer()),
        known("b", Kind::bytes()),
        known("c", Kind::array(vec![Element { index: 0, kind: Kind::null() }, Element { index: 1, kind: Kind::null() }])),
    ]);
    let right = Kind::object(vec![
        known("a", Kind::bytes()),
        known("c", Kind::array(vec![Element { index: 1, kind: Kind::boolean() }, Element { index: 2, kind: Kind::null() }])),
        known("d", Kind::bytes()),
    ]);
    let both = left.union(&right);
    assert_eq!(both.render(), "object");
    // What both know is known, with the union of the kinds.
    assert_eq!(both.at_path(&path(vec![field("a")])).render(), "string or integer");
    assert_eq!(both.at_path(&path(vec![field("c")])).render(), "array");
    assert_eq!(both.at_path(&path(vec![field("c"), Segment::Index(1)])).render(), "boolean or null");
    // What only one knows is not.
    assert!(both.at_path(&path(vec![field("b")])).is_any());
    assert!(both.at_path(&path(vec![field("d")])).is_any());
    assert!(both.at_path(&path(vec![field("c"), Segment::Index(0)])).is_any());
    assert!(both.at_path(&path(vec![field("c"), Segment::Index(2)])).is_any());
    // A kind that holds no object leaves what is known of objects.
    let plain = left.union(&Kind::never());
    assert_eq!(plain.at_path(&path(vec![field("a")])).render(), "integer");
    let plain = Kind::never().union(&left);
    assert_eq!(plain.at_path(&path(vec![field("b")])).render(), "string");
    // The union of a kind with itself knows what the kind knows.
    let same = left.union(&left);
    assert_eq!(same.at_path(&path(vec![field("a")])).render(), "integer");
    assert_eq!(same.at_path(&path(vec![field("c"), Segment::Index(0)])).render(), "null");
    // The shapes of both.
    assert_eq!(Kind::integer().union(&Kind::bytes().or_null()).render(), "string or integer or null");
    assert_eq!(left.union(&Kind::integer()).render(), "integer or object");
    assert_eq!(Kind::object(vec![known("a", Kind::integer())]).or_object(vec![known("a", Kind::null())])
        .at_path(&path(vec![field("a")])).render(), "integer or null");
}
