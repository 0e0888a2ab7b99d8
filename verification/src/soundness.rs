//! What is statically known of a value holds of the value: the kinds that
//! the compilation records are kinds of the values that the evaluation
//! writes.

use vstd::prelude::*;
use crate::assignment::{compiled_single, AssignmentView, TargetView};
use crate::ast::{AssignmentTarget, Node};
use crate::expr::{Expr, ExprView};
use crate::kind::{lemma_union_parts, Elements, Fields, KindView};
use crate::parse_syslog::{
    message_kind, message_members, text_value, with_elements, with_text, Clock, ElementView,
    ProcessIdView, SyslogMessageView,
};
use crate::path::SegmentView;
use crate::state::ExternalEnvView;
use crate::type_def::{DetailsView, TypeDefView};
use crate::value::{offset, padded, path_reachable, ValueView};

verus! {

/// Whether the value is of the kind: it has one of the kind's shapes, and
/// where the kind is that of objects only or of arrays only, each part that
/// the kind knows is of the kind known for it, a part that is not there
/// counting as null.
pub open spec fn has_kind(value: ValueView, kind: KindView) -> bool
    decreases value,
{
    match value {
        ValueView::Bytes(_) => kind.bytes,
        ValueView::Integer(_) => kind.integer,
        ValueView::Float(_) => kind.float,
        ValueView::Boolean(_) => kind.boolean,
        ValueView::Timestamp(_, _) => kind.timestamp,
        ValueView::Regex(_) => kind.regex,
        ValueView::Null => kind.null,
        ValueView::Object(members) => kind.object is Some && (kind.is_object() ==> forall|
            name: Seq<char>,
        | #[trigger]
            kind.object->0.known.contains_key(name) ==> if members.contains_key(name) {
                has_kind(members[name], kind.object->0.known[name])
            } else {
                kind.object->0.known[name].null
            }),
        ValueView::Array(items) => kind.array is Some && (kind.is_array() ==> forall|index: int| #[trigger]
            kind.array->0.known.contains_key(index) ==> if 0 <= offset(items.len(), index) < items.len() {
                has_kind(items[offset(items.len(), index)], kind.array->0.known[index])
            } else {
                kind.array->0.known[index].null
            }),
    }
}

/// Every value is of the kind of every value.
pub proof fn lemma_any_admits(value: ValueView)
    ensures
        has_kind(value, KindView::any()),
{
}

/// Every value is of its own kind.
pub proof fn lemma_value_has_own_kind(value: ValueView)
    ensures
        has_kind(value, value.kind()),
    decreases value,
{
    match value {
        ValueView::Object(members) => {
            let known = value.kind().object->0.known;
            assert forall|name: Seq<char>| #[trigger] known.contains_key(name) implies if members.contains_key(
                name,
            ) {
                has_kind(members[name], known[name])
            } else {
                known[name].null
            } by {
                lemma_value_has_own_kind(members[name]);
            }
        },
        ValueView::Array(items) => {
            let known = value.kind().array->0.known;
            assert forall|index: int| #[trigger] known.contains_key(index) implies if 0 <= offset(
                items.len(),
                index,
            ) < items.len() {
                has_kind(items[offset(items.len(), index)], known[index])
            } else {
                known[index].null
            } by {
                lemma_value_has_own_kind(items[index]);
            }
        },
        _ => {},
    }
}

/// A value of one of two kinds is of their union.
pub proof fn lemma_union_admits(value: ValueView, ours: KindView, theirs: KindView)
    requires
        has_kind(value, ours) || has_kind(value, theirs),
    ensures
        has_kind(value, ours.union(theirs)),
    decreases value,
{
    let both = ours.union(theirs);
    lemma_union_parts(ours, theirs);
    match value {
        ValueView::Object(members) => {
            if both.is_object() {
                let known = both.object->0.known;
                assert forall|name: Seq<char>| #[trigger] known.contains_key(name) implies if members.contains_key(
                    name,
                ) {
                    has_kind(members[name], known[name])
                } else {
                    known[name].null
                } by {
                    if ours.object is Some && theirs.object is Some {
                        assert(ours.is_object() && theirs.is_object());
                        assert(ours.object->0.known.contains_key(name));
                        assert(theirs.object->0.known.contains_key(name));
                        assert(known[name] == ours.object->0.known[name].union(
                            theirs.object->0.known[name],
                        ));
                        if members.contains_key(name) {
                            lemma_union_admits(
                                members[name],
                                ours.object->0.known[name],
                                theirs.object->0.known[name],
                            );
                        }
                    } else if ours.object is Some {
                        assert(ours.is_object());
                        assert(theirs.shapes() == 0);
                        assert(ours.object->0.known.contains_key(name));
                        if members.contains_key(name) {
                            assert(both.object->0.known[name] == ours.object->0.known[name]);
                        }
                    } else {
                        assert(theirs.is_object());
                        assert(ours.shapes() == 0);
                        assert(theirs.object->0.known.contains_key(name));
                    }
                }
            }
        },
        ValueView::Array(items) => {
            if both.is_array() {
                let known = both.array->0.known;
                assert forall|index: int| #[trigger] known.contains_key(index) implies if 0
                    <= offset(items.len(), index) < items.len() {
                    has_kind(items[offset(items.len(), index)], known[index])
                } else {
                    known[index].null
                } by {
                    if ours.array is Some && theirs.array is Some {
                        assert(ours.is_array() && theirs.is_array());
                        assert(ours.array->0.known.contains_key(index));
                        assert(theirs.array->0.known.contains_key(index));
                        assert(known[index] == ours.array->0.known[index].union(
                            theirs.array->0.known[index],
                        ));
                        if 0 <= offset(items.len(), index) < items.len() {
                            lemma_union_admits(
                                items[offset(items.len(), index)],
                                ours.array->0.known[index],
                                theirs.array->0.known[index],
                            );
                        }
                    } else if ours.array is Some {
                        assert(ours.is_array());
                        assert(theirs.shapes() == 0);
                        assert(ours.array->0.known.contains_key(index));
                    } else {
                        assert(theirs.is_array());
                        assert(ours.shapes() == 0);
                        assert(theirs.array->0.known.contains_key(index));
                    }
                }
            }
        },
        _ => {},
    }
}

/// The part of a value that a segment addresses is of the kind that is
/// known of that part.
pub proof fn lemma_part_has_kind(value: ValueView, kind: KindView, segment: SegmentView)
    requires
        has_kind(value, kind),
    ensures
        has_kind(value.part(segment), kind.step(segment)),
{
    lemma_any_admits(value.part(segment));
    match segment {
        SegmentView::Index(index) => {
            if kind.is_array() && kind.array->0.known.contains_key(index) {
                assert(value is Array);
            }
        },
        _ => {
            let name = segment.name();
            if kind.is_object() && kind.object->0.known.contains_key(name) {
                assert(value is Object);
            }
        },
    }
}

/// The part of a value that a path addresses is of the kind that narrowing
/// gives for the path.
pub proof fn lemma_fetched_has_kind(value: ValueView, kind: KindView, path: Seq<SegmentView>)
    requires
        has_kind(value, kind),
    ensures
        has_kind(value.fetched(path), kind.at_path(path)),
    decreases path.len(),
{
    if path.len() > 0 {
        lemma_part_has_kind(value, kind, path[0]);
        lemma_fetched_has_kind(value.part(path[0]), kind.step(path[0]), path.skip(1));
    }
}

/// The item at a position of the padded items is the item that was at the
/// position before, or null where there was none.
proof fn lemma_padded_item(items: Seq<ValueView>, index: int, other: int)
    requires
        (other < 0) == (index < 0),
    ensures
        0 <= offset(padded(items, index).len(), index) < padded(items, index).len(),
        0 <= offset(items.len(), other) < items.len() ==> 0 <= offset(
            padded(items, index).len(),
            other,
        ) < padded(items, index).len(),
        0 <= offset(padded(items, index).len(), other) < padded(items, index).len() ==> padded(
            items,
            index,
        )[offset(padded(items, index).len(), other)] == if 0 <= offset(items.len(), other)
            < items.len() {
            items[offset(items.len(), other)]
        } else {
            ValueView::Null
        },
        other != index ==> offset(padded(items, index).len(), other) != offset(
            padded(items, index).len(),
            index,
        ),
{
}

/// A value after a part of it has been replaced at a position is of the
/// kind that records the kind of the part and keeps what is known of the
/// positions counted from the same end.
proof fn lemma_item_replaced_has_kind(
    value: ValueView,
    kind: KindView,
    index: int,
    part: ValueView,
    part_kind: KindView,
)
    requires
        has_kind(value, kind),
        has_kind(part, part_kind),
    ensures
        has_kind(
            ValueView::Array(
                padded(value.items(), index).update(
                    offset(padded(value.items(), index).len(), index),
                    part,
                ),
            ),
            KindView::array_of(kind.known_elements(index).insert(index, part_kind)),
        ),
{
    let before = value.items();
    let items = padded(before, index);
    let at = offset(items.len(), index);
    let after = items.update(at, part);
    let known = kind.known_elements(index).insert(index, part_kind);
    let after_kind = KindView::array_of(known);
    lemma_padded_item(before, index, index);
    assert(after_kind.is_array());
    assert forall|other: int| #[trigger] known.contains_key(other) implies if 0 <= offset(
        after.len(),
        other,
    ) < after.len() {
        has_kind(after[offset(after.len(), other)], known[other])
    } else {
        known[other].null
    } by {
        if other != index {
            assert(kind.is_array());
            assert(kind.array->0.known.contains_key(other));
            assert(value is Array);
            lemma_padded_item(before, index, other);
        }
    }
}

/// A value after a member of it has been replaced is of the kind that
/// records the kind of the member and keeps what is known of the others.
proof fn lemma_member_replaced_has_kind(
    value: ValueView,
    kind: KindView,
    name: Seq<char>,
    part: ValueView,
    part_kind: KindView,
)
    requires
        has_kind(value, kind),
        has_kind(part, part_kind),
    ensures
        has_kind(
            ValueView::Object(value.members().insert(name, part)),
            KindView::object_of(kind.known_fields().insert(name, part_kind)),
        ),
{
    let members = value.members().insert(name, part);
    let known = kind.known_fields().insert(name, part_kind);
    let after_kind = KindView::object_of(known);
    assert(after_kind.is_object());
    assert forall|other: Seq<char>| #[trigger] known.contains_key(other) implies if members.contains_key(
        other,
    ) {
        has_kind(members[other], known[other])
    } else {
        known[other].null
    } by {
        if other != name {
            assert(kind.is_object());
            assert(kind.object->0.known.contains_key(other));
            assert(value is Object);
        }
    }
}

/// A value after a write is of the kind that the insertion of the written
/// value's kind gives.
pub proof fn lemma_inserted_has_kind(
    value: ValueView,
    kind: KindView,
    path: Seq<SegmentView>,
    written: ValueView,
    written_kind: KindView,
)
    requires
        has_kind(value, kind),
        has_kind(written, written_kind),
    ensures
        has_kind(value.inserted(path, written), kind.with_inserted(path, written_kind)),
    decreases path.len(),
{
    if path.len() > 0 {
        let segment = path[0];
        let rest = path.skip(1);
        lemma_part_has_kind(value, kind, segment);
        match segment {
            SegmentView::Index(index) => {
                let items = padded(value.items(), index);
                let at = offset(items.len(), index);
                lemma_padded_item(value.items(), index, index);
                assert(items[at] == value.part(segment));
                lemma_inserted_has_kind(
                    items[at],
                    kind.element(index),
                    rest,
                    written,
                    written_kind,
                );
                lemma_item_replaced_has_kind(
                    value,
                    kind,
                    index,
                    items[at].inserted(rest, written),
                    kind.element(index).with_inserted(rest, written_kind),
                );
            },
            _ => {
                let name = segment.name();
                lemma_inserted_has_kind(
                    value.member(name),
                    kind.field(name),
                    rest,
                    written,
                    written_kind,
                );
                lemma_member_replaced_has_kind(
                    value,
                    kind,
                    name,
                    value.member(name).inserted(rest, written),
                    kind.field(name).with_inserted(rest, written_kind),
                );
            },
        }
    }
}

/// A value after a write that this machine can carry out is of the kind
/// that the insertion of the written value's kind gives.
pub proof fn lemma_written_has_kind(
    value: ValueView,
    kind: KindView,
    path: Seq<SegmentView>,
    written: ValueView,
    written_kind: KindView,
)
    requires
        has_kind(value, kind),
        has_kind(written, written_kind),
        path_reachable(path),
    ensures
        has_kind(value.written(path, written), kind.with_inserted(path, written_kind)),
{
    lemma_inserted_has_kind(value, kind, path, written, written_kind);
}

/// Whether the variables are of the types that are known of them: each
/// variable that is set is known; and each variable that is known is of its
/// kind, or is known to be null where it is not set.
pub open spec fn variables_have_kinds(
    variables: Map<Seq<char>, ValueView>,
    local: Map<Seq<char>, DetailsView>,
) -> bool {
    &&& forall|ident: Seq<char>| #[trigger]
        variables.contains_key(ident) ==> local.contains_key(ident)
    &&& forall|ident: Seq<char>| #[trigger]
        local.contains_key(ident) ==> if variables.contains_key(ident) {
            has_kind(variables[ident], local[ident].type_def.kind)
        } else {
            local[ident].type_def.kind.null
        }
}

/// An assignment keeps the variables and the record of the kinds that are
/// known of them: where they were of those kinds before, and the value
/// written is of the kind of the assigned type, they are of the kinds
/// recorded for the target after the write.
pub proof fn lemma_assignment_keeps_kinds(
    target: TargetView,
    local: Map<Seq<char>, DetailsView>,
    external: ExternalEnvView,
    variables: Map<Seq<char>, ValueView>,
    record: ValueView,
    type_def: TypeDefView,
    constant: Option<ValueView>,
    value: ValueView,
)
    requires
        variables_have_kinds(variables, local),
        has_kind(record, external.target.type_def.kind),
        has_kind(value, type_def.kind),
        path_reachable(target.path()),
    ensures
        variables_have_kinds(
            target.variables_after(variables, value),
            target.local_after(local, type_def, constant),
        ),
        has_kind(
            target.record_after(record, value),
            target.external_after(external, type_def, constant).target.type_def.kind,
        ),
{
    match target {
        TargetView::Noop => {},
        TargetView::Internal(ident, path) => {
            let stored = if variables.contains_key(ident) {
                variables[ident]
            } else {
                ValueView::Null
            };
            let known = if local.contains_key(ident) {
                local[ident].type_def.kind
            } else {
                KindView { null: true, ..KindView::never() }
            };
            assert(has_kind(stored, known)) by {
                if variables.contains_key(ident) {
                    assert(local.contains_key(ident));
                }
            }
            lemma_written_has_kind(stored, known, path, value, type_def.kind);
            let after = target.variables_after(variables, value);
            let after_local = target.local_after(local, type_def, constant);
            assert forall|other: Seq<char>| #[trigger] after_local.contains_key(other) implies if after.contains_key(
                other,
            ) {
                has_kind(after[other], after_local[other].type_def.kind)
            } else {
                after_local[other].type_def.kind.null
            } by {
                if other != ident {
                    assert(local.contains_key(other));
                }
            }
        },
        TargetView::External(path) => {
            lemma_written_has_kind(
                record,
                external.target.type_def.kind,
                path,
                value,
                type_def.kind,
            );
        },
    }
}

/// Whether a name is that of a part of a message that comes before its
/// structured data.
pub open spec fn is_header_name(name: Seq<char>) -> bool {
    ||| name == "message"@
    ||| name == "hostname"@
    ||| name == "severity"@
    ||| name == "facility"@
    ||| name == "appname"@
    ||| name == "msgid"@
    ||| name == "timestamp"@
    ||| name == "procid"@
    ||| name == "version"@
}

/// Whether no element of the structured data goes by the name of a part of
/// the message that comes before it.
pub open spec fn ids_are_free(elements: Seq<ElementView>) -> bool {
    forall|i: int| 0 <= i < elements.len() ==> !is_header_name((#[trigger] elements[i]).id)
}

/// The names of the parts of a message differ from each other.
proof fn lemma_header_names_differ()
    ensures
        "message"@.len() == 7 && "message"@[0] == 'm',
        "hostname"@.len() == 8 && "hostname"@[0] == 'h',
        "severity"@.len() == 8 && "severity"@[0] == 's',
        "facility"@.len() == 8 && "facility"@[0] == 'f',
        "appname"@.len() == 7 && "appname"@[0] == 'a',
        "msgid"@.len() == 5,
        "timestamp"@.len() == 9,
        "procid"@.len() == 6,
        "version"@.len() == 7 && "version"@[0] == 'v',
{
    reveal_strlit("message");
    reveal_strlit("hostname");
    reveal_strlit("severity");
    reveal_strlit("facility");
    reveal_strlit("appname");
    reveal_strlit("msgid");
    reveal_strlit("timestamp");
    reveal_strlit("procid");
    reveal_strlit("version");
}

/// Adding the elements leaves a member as it is that none of them goes by
/// the name of.
proof fn lemma_elements_leave(
    members: Map<Seq<char>, ValueView>,
    elements: Seq<ElementView>,
    name: Seq<char>,
)
    requires
        forall|i: int| 0 <= i < elements.len() ==> (#[trigger] elements[i]).id != name,
    ensures
        with_elements(members, elements).contains_key(name) == members.contains_key(name),
        members.contains_key(name) ==> with_elements(members, elements)[name] == members[name],
    decreases elements.len(),
{
    if elements.len() > 0 {
        let front = elements.drop_last();
        assert forall|i: int| 0 <= i < front.len() implies (#[trigger] front[i]).id != name by {
            assert(front[i] == elements[i]);
        }
        assert(elements.last() == elements[elements.len() - 1]);
        lemma_elements_leave(members, front, name);
    }
}

/// The object that a message is read into is of the kind that is known of
/// such objects, where no element of the structured data goes by the name of
/// a part of the message that comes before it.
pub proof fn lemma_message_has_kind(message: SyslogMessageView)
    requires
        ids_are_free(message.structured_data),
    ensures
        has_kind(ValueView::Object(message_members(message)), message_kind()),
{
    lemma_header_names_differ();
    let header = message.header;
    let m0 = Map::<Seq<char>, ValueView>::empty().insert("message"@, text_value(header.msg));
    let m1 = with_text(m0, "hostname"@, header.hostname);
    let m2 = with_text(m1, "severity"@, header.severity);
    let m3 = with_text(m2, "facility"@, header.facility);
    let m4 = match header.version {
        Some(version) => m3.insert("version"@, ValueView::Integer(version as int)),
        None => m3,
    };
    let m5 = with_text(m4, "appname"@, header.appname);
    let m6 = with_text(m5, "msgid"@, header.msgid);
    let m7 = match header.timestamp {
        Some(at) => m6.insert("timestamp"@, ValueView::Timestamp(at.0 as int, at.1 as int)),
        None => m6,
    };
    let m8 = match header.procid {
        Some(ProcessIdView::Pid(pid)) => m7.insert("procid"@, ValueView::Integer(pid)),
        Some(ProcessIdView::Name(name)) => m7.insert("procid"@, text_value(name)),
        None => m7,
    };
    let members = message_members(message);
    assert(members == with_elements(m8, message.structured_data));
    let known = message_kind().object->0.known;
    assert(message_kind().is_object());
    assert forall|name: Seq<char>| #[trigger] known.contains_key(name) implies if members.contains_key(
        name,
    ) {
        has_kind(members[name], known[name])
    } else {
        known[name].null
    } by {
        assert(is_header_name(name));
        assert forall|i: int| 0 <= i < message.structured_data.len() implies (
        #[trigger] message.structured_data[i]).id != name by {}
        lemma_elements_leave(m8, message.structured_data, name);
        if m8.contains_key(name) {
            assert(has_kind(m8[name], known[name]));
        } else {
            assert(known[name].null);
        }
    }
}

/// What evaluating an expression gives is of the kind of the expression's
/// type, and a failure comes only where the type says that the expression
/// can fail, where the variables and the record are of the kinds that are
/// known of them. Of the reading of a syslog message this says when it
/// fails; of what kind the object is that it gives is said of
/// messages.
pub proof fn lemma_outcome_has_kind(
    expr: ExprView,
    local: Map<Seq<char>, DetailsView>,
    external: ExternalEnvView,
    record: ValueView,
    variables: Map<Seq<char>, ValueView>,
    clock: Clock,
)
    requires
        variables_have_kinds(variables, local),
        has_kind(record, external.target.type_def.kind),
    ensures
        match expr.outcome(record, variables, clock) {
            Ok(value) => expr is ParseSyslog || has_kind(value, expr.type_def(local, external).kind),
            Err(_) => expr.type_def(local, external).fallible,
        },
{
    match expr {
        ExprView::Literal(value, _) => {
            lemma_value_has_own_kind(value);
        },
        ExprView::Variable(ident) => {
            if variables.contains_key(ident) {
                assert(local.contains_key(ident));
            }
        },
        ExprView::Query(path) => {
            lemma_fetched_has_kind(record, external.target.type_def.kind, path);
        },
        ExprView::ParseSyslog(_) => {},
    }
}

/// The target of an assignment to one target; the placeholder for one to
/// two.
pub open spec fn single_target(assignment: AssignmentView) -> TargetView {
    match assignment {
        AssignmentView::Single { target, .. } => target,
        _ => TargetView::Noop,
    }
}

/// An assignment `target = expr` that was compiled keeps the variables and
/// the record of the kinds that are known of them: where they are of the
/// kinds known before the assignment when it is evaluated, and this machine
/// can carry out the write, they are of the kinds known after the assignment
/// afterwards.
pub proof fn lemma_single_keeps_kinds(
    target: Node<AssignmentTarget>,
    expr: Node<Expr>,
    local: Map<Seq<char>, DetailsView>,
    external: ExternalEnvView,
    fallible_rhs: bool,
    record: ValueView,
    variables: Map<Seq<char>, ValueView>,
    clock: Clock,
)
    requires
        compiled_single(target, expr, local, external, fallible_rhs).result is Ok,
        path_reachable(
            single_target(
                compiled_single(target, expr, local, external, fallible_rhs).result->Ok_0,
            ).path(),
        ),
        variables_have_kinds(variables, local),
        has_kind(record, external.target.type_def.kind),
    ensures
        ({
            let compiled = compiled_single(target, expr, local, external, fallible_rhs);
            let evaluated = compiled.result->Ok_0.evaluated(record, variables, clock);
            &&& evaluated.result is Ok
            &&& variables_have_kinds(evaluated.variables, compiled.local)
            &&& has_kind(evaluated.record, compiled.external.target.type_def.kind)
        }),
{
    let compiled = compiled_single(target, expr, local, external, fallible_rhs);
    let type_def = expr.node@.type_def(local, external);
    lemma_outcome_has_kind(expr.node@, local, external, record, variables, clock);
    let value = expr.node@.outcome(record, variables, clock)->Ok_0;
    lemma_assignment_keeps_kinds(
        single_target(compiled.result->Ok_0),
        local,
        external,
        variables,
        record,
        type_def,
        expr.node@.constant(),
        value,
    );
}

} // verus!
