use vrl_assignment::assignment::{Assignment, Target, Variant};
use vrl_assignment::error::{Container, ErrorVariant};
use vrl_assignment::ast::{AssignmentTarget, Node, Query, QueryTarget};
use vrl_assignment::diagnostic::Note;
use vrl_assignment::expr::Expr;
use vrl_assignment::kind::{Field, Kind};
use vrl_assignment::path::{Path, Segment};
use vrl_assignment::span::Span;
use vrl_assignment::parse_syslog::Clock;
use vrl_assignment::state::{Context, ExternalEnv, LocalEnv};
use vrl_assignment::type_def::{Details, TypeDef};
use vrl_assignment::value::{Member, Value};

fn field(name: &str) -> Segment {
    Segment::Field(name.to_string())
}

fn clock() -> Clock {
    Clock { year: 2022, month: 7, offset_seconds: 0 }
}

/// An expression that can fail: reading the record's `message` as a syslog
/// message.
fn may_fail() -> Expr {
    Expr::ParseSyslog(Box::new(Expr::Query(Path::new(vec![field("message")]))))
}

/// `ok, err = expr` with the first target at the start of the source, a
/// comma and a space between the targets, and one space on each side of the
/// equals sign.
fn infallible(ok: AssignmentTarget, ok_len: usize, err: AssignmentTarget, err_len: usize, expr: Expr, expr_len: usize) -> Node<Variant<Node<AssignmentTarget>, Node<Expr>>> {
    let err_start = ok_len + 2;
    let expr_start = err_start + err_len + 3;
    Node::new(
        Span::new(0, expr_start + expr_len),
        Variant::Infallible {
            ok: Node::new(Span::new(0, ok_len), ok),
            err: Node::new(Span::new(err_start, err_start + err_len), err),
            expr: Box::new(Node::new(Span::new(expr_start, expr_start + expr_len), expr)),
            default: Value::Null,
        },
    )
}

fn variable(ident: &str) -> AssignmentTarget {
    AssignmentTarget::Internal(ident.to_string(), None)
}

fn two() -> Expr {
    Expr::Literal(Value::Integer(2), "2".to_string())
}

/// `target = expr` with the target at the start of the source and one space
/// on each side of the equals sign.
fn single(target: AssignmentTarget, target_len: usize, expr: Expr, expr_len: usize) -> Node<Variant<Node<AssignmentTarget>, Node<Expr>>> {
    let expr_start = target_len + 3;
    Node::new(
        Span::new(0, expr_start + expr_len),
        Variant::Single {
            target: Node::new(Span::new(0, target_len), target),
            expr: Box::new(Node::new(Span::new(expr_start, expr_start + expr_len), expr)),
        },
    )
}

fn integer_variable(ident: &str) -> LocalEnv {
    let mut local = LocalEnv::new();
    local.insert_variable(
        ident.to_string(),
        Details { type_def: TypeDef::integer(), value: None },
    );
    local
}

#[test]
fn field_of_integer_variable_is_refused() {
    let mut local = integer_variable("v");
    let mut external = ExternalEnv::new_with_kind(Kind::any());
    let target = AssignmentTarget::Internal("v".to_string(), Some(Path::new(vec![field("b")])));
    let error = Assignment::new(single(target, 3, two(), 1), &mut local, &mut external, false).unwrap_err();
    assert_eq!(error.code(), 642);
    match &error.variant {
        ErrorVariant::InvalidParentPathSegment { variant, parent_kind, parent_str, remainder_str, rhs_expr, parent_span, segment_span } => {
            assert_eq!(*variant, Container::Object);
            assert_eq!(variant.name(), "object");
            assert_eq!(parent_kind.render(), "integer");
            assert_eq!(parent_str, "v");
            assert_eq!(remainder_str, ".b");
            assert_eq!(rhs_expr, "2");
            assert_eq!(*segment_span, Span::new(2, 3));
            assert_eq!(*parent_span, Span::new(0, 1));
        }
        other => panic!("unexpected error {:?}", other),
    }
    assert_eq!(error.expr_span, Span::new(6, 7));
    assert_eq!(error.assignment_span, Span::new(0, 5));
}

#[test]
fn index_of_integer_variable_is_refused() {
    let mut local = integer_variable("v");
    let mut external = ExternalEnv::new_with_kind(Kind::any());
    let target = AssignmentTarget::Internal("v".to_string(), Some(Path::new(vec![Segment::Index(3)])));
    let error = Assignment::new(single(target, 4, two(), 1), &mut local, &mut external, false).unwrap_err();
    match &error.variant {
        ErrorVariant::InvalidParentPathSegment { variant, parent_kind, parent_str, remainder_str, segment_span, parent_span, .. } => {
            assert_eq!(variant.name(), "array");
            assert_eq!(parent_kind.render(), "integer");
            assert_eq!(parent_str, "v");
            assert_eq!(remainder_str, "[3]");
            assert_eq!(*segment_span, Span::new(1, 4));
            assert_eq!(*parent_span, Span::new(0, 1));
        }
        other => panic!("unexpected error {:?}", other),
    }
    let labels = error.labels();
    assert_eq!(labels[0].message, "indexing into a non-array type is unsupported");
    assert!(labels[0].primary);
    assert_eq!(labels[1].message, "this path resolves to a value of type integer");
    assert_eq!(
        error.notes(),
        vec![
            Note::Hint("change parent value to array, before assignment".to_string()),
            Note::Basic("v = []".to_string()),
            Note::Basic("v[3] = 2".to_string()),
            Note::SeeErrorDocs,
        ]
    );
}

#[test]
fn single_noop_is_refused() {
    let mut local = LocalEnv::new();
    let mut external = ExternalEnv::new_with_kind(Kind::any());
    let one = Expr::Literal(Value::Integer(1), "1".to_string());
    let error = Assignment::new(single(AssignmentTarget::Noop, 1, one, 1), &mut local, &mut external, false).unwrap_err();
    assert!(matches!(error.variant, ErrorVariant::UnnecessaryNoop(span) if span == Span::new(0, 1)));
    assert_eq!(error.code(), 640);
    assert_eq!(error.message(), "unnecessary no-op assignment");
    assert_eq!(error.labels().len(), 3);
    assert!(error.notes().is_empty());
}

#[test]
fn field_of_integer_field_of_record_is_refused_with_remedy() {
    let mut local = LocalEnv::new();
    let record = Kind::object(vec![Field { name: "a".to_string(), kind: Kind::integer() }]);
    let mut external = ExternalEnv::new_with_kind(record);
    let target = AssignmentTarget::External(Some(Path::new(vec![field("a"), field("b")])));
    let error = Assignment::new(single(target, 4, two(), 1), &mut local, &mut external, false).unwrap_err();
    assert_eq!(error.message(), "parent path segment rejects this mutation");
    match &error.variant {
        ErrorVariant::InvalidParentPathSegment { variant, parent_kind, parent_str, remainder_str, segment_span, parent_span, .. } => {
            assert_eq!(*variant, Container::Object);
            assert_eq!(parent_kind.render(), "integer");
            assert_eq!(parent_str, ".a");
            assert_eq!(remainder_str, ".b");
            assert_eq!(*segment_span, Span::new(3, 4));
            assert_eq!(*parent_span, Span::new(0, 2));
        }
        other => panic!("unexpected error {:?}", other),
    }
    assert_eq!(
        error.notes(),
        vec![
            Note::Hint("change parent value to object, before assignment".to_string()),
            Note::Basic(".a = {}".to_string()),
            Note::Basic(".a.b = 2".to_string()),
            Note::SeeErrorDocs,
        ]
    );
    let labels = error.labels();
    assert_eq!(labels[0].message, "querying a field of a non-object type is unsupported");
    assert_eq!(labels[0].span, Span::new(3, 4));
    assert_eq!(labels[1].message, "this path resolves to a value of type integer");
    assert!(!labels[1].primary);
}

#[test]
fn field_of_integer_record_is_refused_at_the_root() {
    let mut local = LocalEnv::new();
    let mut external = ExternalEnv::new_with_kind(Kind::integer());
    let target = AssignmentTarget::External(Some(Path::new(vec![field("a")])));
    let error = Assignment::new(single(target, 2, two(), 1), &mut local, &mut external, false).unwrap_err();
    assert_eq!(
        error.notes(),
        vec![
            Note::Hint("change parent value to object, before assignment".to_string()),
            Note::Basic(". = {}".to_string()),
            Note::Basic(".a = 2".to_string()),
            Note::SeeErrorDocs,
        ]
    );
}

#[test]
fn read_only_region_is_refused() {
    let mut local = LocalEnv::new();
    let mut external = ExternalEnv::new_with_kind(Kind::any());
    external.set_read_only_event_path(Path::new(vec![field("meta")]));
    for path in [
        vec![field("meta")],
        vec![field("meta"), field("id")],
        vec![field("meta"), Segment::Index(0), field("x")],
        vec![],
    ] {
        let target = AssignmentTarget::External(Some(Path::new(path)));
        let error = Assignment::new(single(target, 5, two(), 1), &mut local, &mut external, false).unwrap_err();
        assert!(matches!(error.variant, ErrorVariant::ReadOnly));
        assert_eq!(error.code(), 315);
        assert_eq!(error.labels()[0].message, "mutation of read-only value");
        assert_eq!(error.labels()[0].span, Span::new(0, 7));
    }
    let target = AssignmentTarget::External(Some(Path::new(vec![field("other")])));
    assert!(Assignment::new(single(target, 6, two(), 1), &mut local, &mut external, false).is_ok());
    assert!(external.is_read_only_event_path(&Path::new(vec![field("meta"), field("id")])));
    assert!(!external.is_read_only_event_path(&Path::new(vec![field("metadata")])));
}

#[test]
fn fallible_marker_refuses_single_assignment() {
    let mut local = LocalEnv::new();
    let mut external = ExternalEnv::new_with_kind(Kind::any());
    for target in [
        AssignmentTarget::Noop,
        AssignmentTarget::Internal("x".to_string(), None),
        AssignmentTarget::External(Some(Path::new(vec![field("a"), Segment::Index(1)]))),
    ] {
        let error = Assignment::new(single(target, 1, two(), 1), &mut local, &mut external, true).unwrap_err();
        assert!(matches!(error.variant, ErrorVariant::FallibleAssignment(_, _)));
        assert_eq!(error.code(), 103);
        assert_eq!(error.notes(), vec![Note::SeeErrorDocs]);
    }
    let target = AssignmentTarget::External(Some(Path::new(vec![field("a"), Segment::Index(1)])));
    let error = Assignment::new(single(target, 5, two(), 1), &mut local, &mut external, true).unwrap_err();
    assert_eq!(error.labels()[3].message, ".a[1], err = 2");
    assert_eq!(error.message(), "unhandled fallible assignment");
}

#[test]
fn query_of_a_function_call_is_an_invalid_target() {
    let mut local = LocalEnv::new();
    let mut external = ExternalEnv::new_with_kind(Kind::any());
    let target = AssignmentTarget::Query(Query {
        target: Node::new(Span::new(0, 5), QueryTarget::FunctionCall("foo()".to_string())),
        path: Node::new(Span::new(5, 7), Path::new(vec![field("a")])),
    });
    let error = Assignment::new(single(target, 7, two(), 1), &mut local, &mut external, false).unwrap_err();
    assert!(matches!(error.variant, ErrorVariant::InvalidTarget(span) if span == Span::new(0, 7)));
    assert_eq!(error.code(), 641);
    assert_eq!(error.expr_span, Span::new(0, 7));
    assert_eq!(error.assignment_span, Span::new(0, 7));
    assert_eq!(error.labels().len(), 2);
}

#[test]
fn single_assignment_updates_what_is_known() {
    let mut local = LocalEnv::new();
    let mut external = ExternalEnv::new_with_kind(Kind::any());
    let target = AssignmentTarget::Internal("v".to_string(), Some(Path::new(vec![field("a"), Segment::Index(2)])));
    let assignment = Assignment::new(single(target, 6, two(), 1), &mut local, &mut external, false).unwrap();
    assert_eq!(assignment.render(), "v.a[2] = 2");
    let details = local.variable(&"v".to_string()).unwrap();
    assert_eq!(details.value, Some(Value::Integer(2)));
    let kind = &details.type_def.kind;
    assert_eq!(kind.render(), "object");
    assert_eq!(kind.at_path(&Path::new(vec![field("a")])).render(), "array");
    assert_eq!(kind.at_path(&Path::new(vec![field("a"), Segment::Index(2)])).render(), "integer");
    assert!(kind.at_path(&Path::new(vec![field("a"), Segment::Index(1)])).is_any());
    let targets = assignment.targets();
    assert_eq!(targets.len(), 1);
    assert!(targets[0].same(&Target::Internal("v".to_string(), Path::new(vec![field("a"), Segment::Index(2)]))));
    assert!(!targets[0].same(&Target::External(Path::new(vec![field("a"), Segment::Index(2)]))));

    // The variable is now an object, so an index into it is refused.
    let target = AssignmentTarget::Internal("v".to_string(), Some(Path::new(vec![Segment::Index(0)])));
    let error = Assignment::new(single(target, 4, two(), 1), &mut local, &mut external, false).unwrap_err();
    assert_eq!(error.code(), 642);
}

#[test]
fn single_assignment_writes_the_value() {
    let mut local = LocalEnv::new();
    let mut external = ExternalEnv::new_with_kind(Kind::any());
    let target = AssignmentTarget::External(Some(Path::new(vec![field("a"), Segment::Index(1)])));
    let assignment = Assignment::new(single(target, 5, two(), 1), &mut local, &mut external, false).unwrap();
    let mut ctx = Context::new(
        Value::Object(vec![Member { name: "b".to_string(), value: Value::Boolean(true) }]),
        clock(),
    );
    assert_eq!(assignment.resolve(&mut ctx), Ok(Value::Integer(2)));
    assert_eq!(ctx.target.get_by_path(&Path::new(vec![field("a")])), Value::Array(vec![Value::Null, Value::Integer(2)]));
    assert_eq!(ctx.target.get_by_path(&Path::new(vec![field("b")])), Value::Boolean(true));

    let target = AssignmentTarget::Internal("x".to_string(), None);
    let query = Expr::Query(Path::new(vec![field("a"), Segment::Index(-1)]));
    let assignment = Assignment::new(single(target, 1, query, 6), &mut local, &mut external, false).unwrap();
    assert_eq!(assignment.render(), "x = .a[-1]");
    assert_eq!(assignment.resolve(&mut ctx), Ok(Value::Integer(2)));
    assert_eq!(ctx.state.variable(&"x".to_string()), Some(&Value::Integer(2)));
}

#[test]
fn fallible_expression_refuses_single_assignment_whatever_the_target() {
    let mut local = integer_variable("v");
    let mut external = ExternalEnv::new_with_kind(Kind::integer());
    external.set_read_only_event_path(Path::new(vec![field("meta")]));
    for target in [
        AssignmentTarget::Noop,
        variable("x"),
        AssignmentTarget::Internal("v".to_string(), Some(Path::new(vec![field("b")]))),
        AssignmentTarget::External(Some(Path::new(vec![field("meta")]))),
        AssignmentTarget::External(Some(Path::new(vec![Segment::Index(0)]))),
        AssignmentTarget::Query(Query {
            target: Node::new(Span::new(0, 5), QueryTarget::Container("{}".to_string())),
            path: Node::new(Span::new(5, 7), Path::new(vec![field("a")])),
        }),
    ] {
        let error = Assignment::new(single(target, 1, may_fail(), 22), &mut local, &mut external, false).unwrap_err();
        match &error.variant {
            ErrorVariant::FallibleAssignment(_, expr) => assert_eq!(expr, "parse_syslog(.message)"),
            other => panic!("unexpected error {:?}", other),
        }
    }
    let error = Assignment::new(single(variable("x"), 1, may_fail(), 22), &mut local, &mut external, false).unwrap_err();
    assert_eq!(error.expr_span, Span::new(4, 26));
    assert_eq!(error.assignment_span, Span::new(0, 3));
    assert_eq!(error.labels()[3].message, "x, err = parse_syslog(.message)");
    assert!(local.variable(&"x".to_string()).is_none());
}

#[test]
fn two_noops_are_refused() {
    let mut local = LocalEnv::new();
    let mut external = ExternalEnv::new_with_kind(Kind::any());
    let node = infallible(AssignmentTarget::Noop, 1, AssignmentTarget::Noop, 1, may_fail(), 22);
    let error = Assignment::new(node, &mut local, &mut external, false).unwrap_err();
    assert!(matches!(error.variant, ErrorVariant::UnnecessaryNoop(span) if span == Span::new(0, 1)));
    assert_eq!(error.assignment_span, Span::new(0, 4));
    assert_eq!(error.expr_span, Span::new(7, 29));
}

#[test]
fn one_noop_is_permitted() {
    let mut local = LocalEnv::new();
    let mut external = ExternalEnv::new_with_kind(Kind::any());
    let node = infallible(AssignmentTarget::Noop, 1, variable("err"), 3, may_fail(), 22);
    let assignment = Assignment::new(node, &mut local, &mut external, false).unwrap();
    assert_eq!(assignment.render(), "_, err = parse_syslog(.message)");
    let targets = assignment.targets();
    assert_eq!(targets.len(), 2);
    assert!(targets[0].same(&Target::Noop));
    assert!(targets[1].same(&Target::Internal("err".to_string(), Path::root())));
    let err = local.variable(&"err".to_string()).unwrap();
    assert_eq!(err.type_def.kind.render(), "string or null");
    assert!(!err.type_def.fallible);
    assert_eq!(err.value, None);

    let node = infallible(variable("ok"), 2, AssignmentTarget::Noop, 1, may_fail(), 22);
    assert!(Assignment::new(node, &mut local, &mut external, false).is_ok());
    let ok = local.variable(&"ok".to_string()).unwrap();
    assert_eq!(ok.type_def.kind.render(), "object");
    assert!(!ok.type_def.fallible);
}

#[test]
fn infallible_expression_refuses_two_targets() {
    let mut local = LocalEnv::new();
    let mut external = ExternalEnv::new_with_kind(Kind::any());
    let node = infallible(variable("ok"), 2, variable("err"), 3, two(), 1);
    let error = Assignment::new(node, &mut local, &mut external, false).unwrap_err();
    match &error.variant {
        ErrorVariant::InfallibleAssignment(target, expr, ok_span, err_span) => {
            assert_eq!(target, "ok");
            assert_eq!(expr, "2");
            assert_eq!(*ok_span, Span::new(0, 2));
            assert_eq!(*err_span, Span::new(4, 7));
        }
        other => panic!("unexpected error {:?}", other),
    }
    assert_eq!(error.code(), 104);
    assert_eq!(error.message(), "unnecessary error assignment");
    assert_eq!(error.labels()[2].message, "use: ok = 2");
    assert_eq!(error.labels()[0].span, Span::new(4, 7));
    assert_eq!(error.notes(), vec![Note::SeeErrorDocs]);
    assert!(local.variable(&"ok".to_string()).is_none());
}

#[test]
fn second_target_is_checked_after_the_first_is_recorded() {
    let mut local = LocalEnv::new();
    let mut external = ExternalEnv::new_with_kind(Kind::any());
    // `x, x.a = ...`: after the first target `x` is an object, so `x.a` can be written.
    let second = AssignmentTarget::Internal("x".to_string(), Some(Path::new(vec![field("a")])));
    let node = infallible(variable("x"), 1, second, 3, may_fail(), 22);
    assert!(Assignment::new(node, &mut local, &mut external, false).is_ok());

    // `y, y[0] = ...`: `y` is an object, so an index into it is refused, and `y` stays recorded.
    let second = AssignmentTarget::Internal("y".to_string(), Some(Path::new(vec![Segment::Index(0)])));
    let node = infallible(variable("y"), 1, second, 4, may_fail(), 22);
    let error = Assignment::new(node, &mut local, &mut external, false).unwrap_err();
    match &error.variant {
        ErrorVariant::InvalidParentPathSegment { variant, parent_kind, segment_span, .. } => {
            assert_eq!(*variant, Container::Array);
            assert_eq!(parent_kind.render(), "object");
            assert_eq!(*segment_span, Span::new(4, 7));
        }
        other => panic!("unexpected error {:?}", other),
    }
    assert!(local.variable(&"y".to_string()).is_some());
}

#[test]
fn failure_gives_the_default_and_the_message() {
    let mut local = LocalEnv::new();
    let mut external = ExternalEnv::new_with_kind(Kind::any());
    let node = infallible(variable("ok"), 2, variable("err"), 3, may_fail(), 22);
    let assignment = Assignment::new(node, &mut local, &mut external, false).unwrap();
    let type_def = assignment.type_def(&local, &external);
    assert!(!type_def.fallible);
    assert_eq!(type_def.kind.render(), "string or object");

    let record = Value::Object(vec![Member {
        name: "message".to_string(),
        value: Value::Bytes(b"not much of a syslog message".to_vec()),
    }]);
    let mut ctx = Context::new(record, clock());
    let message = Value::Bytes(b"unable to parse input as valid syslog message".to_vec());
    assert_eq!(assignment.resolve(&mut ctx), Ok(message.clone()));
    assert_eq!(ctx.state.variable(&"ok".to_string()), Some(&Value::Object(vec![])));
    assert_eq!(ctx.state.variable(&"err".to_string()), Some(&message));

    // No text at all.
    let mut ctx = Context::new(Value::Null, clock());
    let message = Value::Bytes(b"expected string, got null".to_vec());
    assert_eq!(assignment.resolve(&mut ctx), Ok(message.clone()));
    assert_eq!(ctx.state.variable(&"ok".to_string()), Some(&Value::Object(vec![])));
    assert_eq!(ctx.state.variable(&"err".to_string()), Some(&message));
}

#[test]
fn success_gives_the_value_and_null() {
    let mut local = LocalEnv::new();
    let mut external = ExternalEnv::new_with_kind(Kind::any());
    let ok = AssignmentTarget::External(Some(Path::new(vec![field("parsed")])));
    let node = infallible(ok, 7, variable("err"), 3, may_fail(), 22);
    let assignment = Assignment::new(node, &mut local, &mut external, false).unwrap();
    let record = Value::Object(vec![Member {
        name: "message".to_string(),
        value: Value::Bytes(b"<13>1 2019-02-13T19:48:34+00:00 74794bfb6795 root 8449 - [empty] qwerty".to_vec()),
    }]);
    let mut ctx = Context::new(record, clock());
    let value = assignment.resolve(&mut ctx).unwrap();
    assert_eq!(value.get_by_path(&Path::new(vec![field("message")])), Value::Bytes(b"qwerty".to_vec()));
    assert_eq!(value.get_by_path(&Path::new(vec![field("procid")])), Value::Integer(8449));
    assert_eq!(ctx.state.variable(&"err".to_string()), Some(&Value::Null));
    assert_eq!(ctx.target.get_by_path(&Path::new(vec![field("parsed")])), value);
    assert_eq!(
        ctx.target.get_by_path(&Path::new(vec![field("parsed"), field("hostname")])),
        Value::Bytes(b"74794bfb6795".to_vec())
    );
}

#[test]
fn what_a_literal_holds_is_known() {
    let mut local = LocalEnv::new();
    let mut external = ExternalEnv::new_with_kind(Kind::any());
    let literal = Expr::Literal(
        Value::Object(vec![Member { name: "a".to_string(), value: Value::Integer(1) }]),
        "{\"a\": 1}".to_string(),
    );
    assert!(Assignment::new(single(variable("x"), 1, literal, 8), &mut local, &mut external, false).is_ok());
    // `x.a` is an integer, so a field of it is refused.
    let target = AssignmentTarget::Internal("x".to_string(), Some(Path::new(vec![field("a"), field("b")])));
    let error = Assignment::new(single(target, 5, two(), 1), &mut local, &mut external, false).unwrap_err();
    match &error.variant {
        ErrorVariant::InvalidParentPathSegment { parent_kind, parent_str, remainder_str, .. } => {
            assert_eq!(parent_kind.render(), "integer");
            assert_eq!(parent_str, "x.a");
            assert_eq!(remainder_str, ".b");
        }
        other => panic!("unexpected error {:?}", other),
    }
    assert_eq!(error.notes()[1], Note::Basic("x.a = {}".to_string()));
    assert_eq!(error.notes()[2], Note::Basic("x.a.b = 2".to_string()));
    // Of `x.c` nothing is known, so a field of it is accepted.
    let target = AssignmentTarget::Internal("x".to_string(), Some(Path::new(vec![field("c"), field("b")])));
    assert!(Assignment::new(single(target, 5, two(), 1), &mut local, &mut external, false).is_ok());
}
