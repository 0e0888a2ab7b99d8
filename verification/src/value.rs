//! The values that a program computes and writes.

use vstd::prelude::*;
use crate::entries::{
    entries_map, lemma_entries_absent, lemma_entries_found, lemma_entries_replace, none_after,
};
use crate::kind::{
    elements_view, fields_view, lemma_elements_push, lemma_fields_push, Element, Elements, Field,
    Fields, Kind, KindView,
};
use crate::path::{Path, Segment, SegmentView};

verus! {

/// The mathematical model of a [`Value`].
pub ghost enum ValueView {
    Bytes(Seq<u8>),
    Integer(int),
    /// A floating-point number, by the bits of its binary64 form.
    Float(u64),
    Boolean(bool),
    Object(Map<Seq<char>, ValueView>),
    Array(Seq<ValueView>),
    /// A point in time: whole seconds since the epoch and the nanoseconds
    /// after them.
    Timestamp(int, int),
    Regex(Seq<char>),
    Null,
}

/// `count` nulls.
pub open spec fn nulls(count: nat) -> Seq<ValueView> {
    Seq::new(count, |i: int| ValueView::Null)
}

/// Whether an array of this machine can have the position `index`.
pub open spec fn reachable(index: int) -> bool {
    -(usize::MAX as int) <= index < usize::MAX as int
}

/// Whether a write through `path` can be carried out on this machine.
pub open spec fn path_reachable(path: Seq<SegmentView>) -> bool {
    forall|i: int| 0 <= i < path.len() && (#[trigger] path[i]) is Index ==> reachable(path[i].position())
}

/// The items of an array made long enough to have the position `index`:
/// nulls are added at the end for a position counted from the start, at the
/// start for one counted from the end.
pub open spec fn padded(items: Seq<ValueView>, index: int) -> Seq<ValueView> {
    if index >= 0 {
        if index < items.len() {
            items
        } else {
            items + nulls((index + 1 - items.len()) as nat)
        }
    } else {
        if -index <= items.len() {
            items
        } else {
            nulls((-index - items.len()) as nat) + items
        }
    }
}

/// Where the position `index` lies in an array of `len` items that has it.
pub open spec fn offset(len: nat, index: int) -> int {
    if index >= 0 {
        index
    } else {
        len + index
    }
}

impl ValueView {
    /// The members of an object; none of any other value.
    pub open spec fn members(self) -> Map<Seq<char>, ValueView> {
        match self {
            ValueView::Object(members) => members,
            _ => Map::empty(),
        }
    }

    /// The items of an array; none of any other value.
    pub open spec fn items(self) -> Seq<ValueView> {
        match self {
            ValueView::Array(items) => items,
            _ => Seq::empty(),
        }
    }

    /// The member of the given name, null where there is none.
    pub open spec fn member(self, name: Seq<char>) -> ValueView {
        if self.members().contains_key(name) {
            self.members()[name]
        } else {
            ValueView::Null
        }
    }

    /// The part that one segment addresses: the member or the item, and null
    /// where there is none.
    pub open spec fn part(self, segment: SegmentView) -> ValueView {
        match segment {
            SegmentView::Index(index) => {
                let at = offset(self.items().len(), index);
                if 0 <= at < self.items().len() {
                    self.items()[at]
                } else {
                    ValueView::Null
                }
            },
            _ => self.member(segment.name()),
        }
    }

    /// The part that `path` addresses, and null where there is none.
    pub open spec fn fetched(self, path: Seq<SegmentView>) -> ValueView
        decreases path.len(),
    {
        if path.len() == 0 {
            self
        } else {
            self.part(path[0]).fetched(path.skip(1))
        }
    }

    /// The value after `value` has been written at `path`. Along the path a
    /// value that is no object where a field is addressed gives way to an
    /// object, one that is no array where a position is addressed to an
    /// array, and an array grows to have the position.
    pub open spec fn inserted(self, path: Seq<SegmentView>, value: ValueView) -> ValueView
        decreases path.len(),
    {
        if path.len() == 0 {
            value
        } else {
            match path[0] {
                SegmentView::Index(index) => {
                    let items = padded(self.items(), index);
                    let at = offset(items.len(), index);
                    ValueView::Array(
                        items.update(at, items[at].inserted(path.skip(1), value)),
                    )
                },
                _ => {
                    let name = path[0].name();
                    ValueView::Object(
                        self.members().insert(
                            name,
                            self.member(name).inserted(path.skip(1), value),
                        ),
                    )
                },
            }
        }
    }

    /// The value after a write of `value` at `path` as this machine carries
    /// it out: a write that cannot be carried out is dropped.
    pub open spec fn written(self, path: Seq<SegmentView>, value: ValueView) -> ValueView {
        if path_reachable(path) {
            self.inserted(path, value)
        } else {
            self
        }
    }

    /// The value that stands in for a failed computation of a value of the
    /// given kind: the empty value of the one shape that the kind allows, and
    /// null where it allows several or none.
    pub open spec fn default_of(kind: KindView) -> ValueView {
        if kind == (KindView { bytes: true, ..KindView::never() }) {
            ValueView::Bytes(Seq::empty())
        } else if kind == (KindView { integer: true, ..KindView::never() }) {
            ValueView::Integer(0)
        } else if kind == (KindView { float: true, ..KindView::never() }) {
            ValueView::Float(0)
        } else if kind == (KindView { boolean: true, ..KindView::never() }) {
            ValueView::Boolean(false)
        } else if kind == (KindView { timestamp: true, ..KindView::never() }) {
            ValueView::Timestamp(0, 0)
        } else if kind == (KindView { regex: true, ..KindView::never() }) {
            ValueView::Regex(Seq::empty())
        } else if kind.array is Some && kind == (KindView { array: kind.array, ..KindView::never() }) {
            ValueView::Array(Seq::empty())
        } else if kind.object is Some && kind == (KindView {
            object: kind.object,
            ..KindView::never()
        }) {
            ValueView::Object(Map::empty())
        } else {
            ValueView::Null
        }
    }

    /// The kind of exactly this value: its shape, and of an object or an
    /// array the kind of each member or item, the items by their positions
    /// from the start, as far as a path can give them.
    pub open spec fn kind(self) -> KindView
        decreases self,
    {
        match self {
            ValueView::Bytes(_) => KindView { bytes: true, ..KindView::never() },
            ValueView::Integer(_) => KindView { integer: true, ..KindView::never() },
            ValueView::Float(_) => KindView { float: true, ..KindView::never() },
            ValueView::Boolean(_) => KindView { boolean: true, ..KindView::never() },
            ValueView::Object(members) => KindView::object_of(
                Map::new(
                    |name: Seq<char>| members.contains_key(name),
                    |name: Seq<char>|
                        if members.contains_key(name) {
                            members[name].kind()
                        } else {
                            KindView::never()
                        },
                ),
            ),
            ValueView::Array(items) => KindView::array_of(
                Map::new(
                    |index: int| 0 <= index < items.len() && index <= i64::MAX,
                    |index: int|
                        if 0 <= index < items.len() {
                            items[index].kind()
                        } else {
                            KindView::never()
                        },
                ),
            ),
            ValueView::Timestamp(_, _) => KindView { timestamp: true, ..KindView::never() },
            ValueView::Regex(_) => KindView { regex: true, ..KindView::never() },
            ValueView::Null => KindView { null: true, ..KindView::never() },
        }
    }
}

/// One member of an object.
#[derive(Debug, PartialEq, Eq)]
pub struct Member {
    pub name: String,
    pub value: Value,
}

/// A value. Where several members of an object have one name, the last of
/// them counts.
#[derive(Debug, PartialEq, Eq)]
pub enum Value {
    Bytes(Vec<u8>),
    Integer(i64),
    /// A floating-point number, held by the bits of its binary64 form.
    Float(u64),
    Boolean(bool),
    Object(Vec<Member>),
    Array(Vec<Value>),
    /// A point in time: whole seconds since the epoch and the nanoseconds
    /// after them.
    Timestamp(i64, u32),
    Regex(String),
    Null,
}

/// The map that a sequence of members stands for.
pub open spec fn members_view(members: Seq<Member>) -> Map<Seq<char>, ValueView>
    decreases members,
{
    if members.len() == 0 {
        Map::empty()
    } else {
        members_view(members.drop_last()).insert(members.last().name@, members.last().value@)
    }
}

/// The models of a sequence of values.
pub open spec fn items_view(items: Seq<Value>) -> Seq<ValueView>
    decreases items,
{
    if items.len() == 0 {
        Seq::empty()
    } else {
        items_view(items.drop_last()).push(items.last()@)
    }
}

impl View for Value {
    type V = ValueView;

    open spec fn view(&self) -> ValueView
        decreases self,
    {
        match self {
            Value::Bytes(bytes) => ValueView::Bytes(bytes@),
            Value::Integer(i) => ValueView::Integer(*i as int),
            Value::Float(bits) => ValueView::Float(*bits),
            Value::Boolean(b) => ValueView::Boolean(*b),
            Value::Object(members) => ValueView::Object(members_view(members@)),
            Value::Array(items) => ValueView::Array(items_view(items@)),
            Value::Timestamp(seconds, nanos) => ValueView::Timestamp(*seconds as int, *nanos as int),
            Value::Regex(pattern) => ValueView::Regex(pattern@),
            Value::Null => ValueView::Null,
        }
    }
}

/// The model of a sequence of values has the model of each value in place.
pub proof fn lemma_items_view(items: Seq<Value>)
    ensures
        items_view(items).len() == items.len(),
        forall|i: int| 0 <= i < items.len() ==> (#[trigger] items_view(items)[i]) == items[i]@,
    decreases items.len(),
{
    if items.len() > 0 {
        lemma_items_view(items.drop_last());
        let front = items_view(items.drop_last());
        assert(items_view(items) == front.push(items.last()@));
        assert forall|i: int| 0 <= i < items.len() implies (#[trigger] items_view(items)[i])
            == items[i]@ by {
            if i < items.len() - 1 {
                assert(front[i] == items.drop_last()[i]@);
            }
        }
    } else {
        assert(items_view(items) == Seq::<ValueView>::empty());
    }
}

/// The model of a sequence of values is the sequence of their models.
pub proof fn lemma_items_view_is(items: Seq<Value>, models: Seq<ValueView>)
    requires
        models.len() == items.len(),
        forall|i: int| 0 <= i < items.len() ==> (#[trigger] models[i]) == items[i]@,
    ensures
        items_view(items) == models,
{
    lemma_items_view(items);
    assert(items_view(items) =~= models);
}

/// The members as key-value pairs.
pub open spec fn member_entries(members: Seq<Member>) -> Seq<(Seq<char>, ValueView)> {
    Seq::new(members.len(), |i: int| (members[i].name@, members[i].value@))
}

pub proof fn lemma_members_are_entries(members: Seq<Member>)
    ensures
        members_view(members) == entries_map(member_entries(members)),
    decreases members.len(),
{
    if members.len() > 0 {
        lemma_members_are_entries(members.drop_last());
        assert(member_entries(members).drop_last() =~= member_entries(members.drop_last()));
    }
}

/// Appending a member sets its name in the map.
pub proof fn lemma_members_push(members: Seq<Member>, member: Member)
    ensures
        members_view(members.push(member)) == members_view(members).insert(
            member.name@,
            member.value@,
        ),
{
    assert(members.push(member).drop_last() =~= members);
}

/// Null has no parts.
pub proof fn lemma_null_fetched(path: Seq<SegmentView>)
    ensures
        ValueView::Null.fetched(path) == ValueView::Null,
    decreases path.len(),
{
    if path.len() > 0 {
        assert(ValueView::Null.part(path[0]) == ValueView::Null);
        lemma_null_fetched(path.skip(1));
    }
}

/// The position of the member that counts for `name`, if there is one.
fn find_member(members: &Vec<Member>, name: &String) -> (found: Option<usize>)
    ensures
        match found {
            Some(i) => {
                &&& i < members.len()
                &&& members[i as int].name@ == name@
                &&& members_view(members@).contains_key(name@)
                &&& members_view(members@)[name@] == members[i as int].value@
            },
            None => !members_view(members@).contains_key(name@),
        },
{
    let mut i: usize = members.len();
    while i > 0
        invariant
            i <= members.len(),
            none_after(member_entries(members@), i - 1, name@),
        decreases i,
    {
        i -= 1;
        if members[i].name == *name {
            proof {
                lemma_members_are_entries(members@);
                lemma_entries_found(member_entries(members@), i as int);
            }
            return Some(i);
        }
    }
    proof {
        lemma_members_are_entries(members@);
        lemma_entries_absent(member_entries(members@), name@);
    }
    None
}

fn clone_members(members: &Vec<Member>) -> (res: Vec<Member>)
    ensures
        members_view(res@) == members_view(members@),
    decreases members,
{
    let mut out: Vec<Member> = Vec::new();
    let mut i: usize = 0;
    while i < members.len()
        invariant
            i <= members.len(),
            members_view(out@) == members_view(members@.subrange(0, i as int)),
        decreases members.len() - i,
    {
        let member = Member { name: members[i].name.clone(), value: members[i].value.clone() };
        proof {
            lemma_members_push(out@, member);
            lemma_members_push(members@.subrange(0, i as int), members@[i as int]);
            assert(members@.subrange(0, i as int).push(members@[i as int])
                =~= members@.subrange(0, i + 1));
        }
        out.push(member);
        i += 1;
    }
    proof {
        assert(members@.subrange(0, members.len() as int) =~= members@);
    }
    out
}

fn clone_items(items: &Vec<Value>) -> (res: Vec<Value>)
    ensures
        items_view(res@) == items_view(items@),
    decreases items,
{
    let mut out: Vec<Value> = Vec::new();
    let mut i: usize = 0;
    while i < items.len()
        invariant
            i <= items.len(),
            out@.len() == i,
            forall|j: int| 0 <= j < i ==> out@[j]@ == items@[j]@,
        decreases items.len() - i,
    {
        let item = items[i].clone();
        out.push(item);
        i += 1;
    }
    proof {
        lemma_items_view(out@);
        lemma_items_view(items@);
        assert(items_view(out@) =~= items_view(items@));
    }
    out
}

fn clone_bytes(bytes: &Vec<u8>) -> (res: Vec<u8>)
    ensures
        res@ == bytes@,
{
    let mut out: Vec<u8> = Vec::new();
    let mut i: usize = 0;
    while i < bytes.len()
        invariant
            i <= bytes.len(),
            out@ == bytes@.subrange(0, i as int),
        decreases bytes.len() - i,
    {
        out.push(bytes[i]);
        assert(out@ =~= bytes@.subrange(0, i + 1));
        i += 1;
    }
    assert(out@ =~= bytes@);
    out
}

impl Clone for Value {
    fn clone(&self) -> (res: Value)
        ensures
            res@ == self@,
        decreases self,
    {
        match self {
            Value::Bytes(bytes) => Value::Bytes(clone_bytes(bytes)),
            Value::Integer(i) => Value::Integer(*i),
            Value::Float(bits) => Value::Float(*bits),
            Value::Boolean(b) => Value::Boolean(*b),
            Value::Object(members) => Value::Object(clone_members(members)),
            Value::Array(items) => Value::Array(clone_items(items)),
            Value::Timestamp(seconds, nanos) => Value::Timestamp(*seconds, *nanos),
            Value::Regex(pattern) => Value::Regex(pattern.clone()),
            Value::Null => Value::Null,
        }
    }
}

/// Whether a write through the segments from `from` on can be carried out.
fn reachable_from(path: &Path, from: usize) -> (yes: bool)
    requires
        from <= path@.len(),
    ensures
        yes == path_reachable(path@.skip(from as int)),
{
    let mut i: usize = from;
    while i < path.segments.len()
        invariant
            from <= i <= path.segments.len(),
            forall|j: int|
                from <= j < i && (#[trigger] path@[j]) is Index ==> reachable(path@[j].position()),
        decreases path.segments.len() - i,
    {
        match &path.segments[i] {
            Segment::Index(index) => {
                let fits = if *index >= 0 {
                    (*index as u64) < usize::MAX as u64
                } else {
                    (-(*index + 1)) as u64 <= (usize::MAX - 1) as u64
                };
                if !fits {
                    proof {
                        let tail = path@.skip(from as int);
                        assert(tail[i - from] == path@[i as int]);
                    }
                    return false;
                }
            },
            _ => {},
        }
        i += 1;
    }
    proof {
        let tail = path@.skip(from as int);
        assert forall|j: int| 0 <= j < tail.len() && (#[trigger] tail[j]) is Index implies reachable(
            tail[j].position(),
        ) by {
            assert(tail[j] == path@[j + from]);
        }
    }
    true
}

/// A vector of `count` nulls.
fn null_items(count: usize) -> (items: Vec<Value>)
    ensures
        items_view(items@) == nulls(count as nat),
{
    let mut items: Vec<Value> = Vec::new();
    let mut i: usize = 0;
    while i < count
        invariant
            i <= count,
            items@.len() == i,
            forall|j: int| 0 <= j < i ==> items@[j]@ == ValueView::Null,
        decreases count - i,
    {
        items.push(Value::Null);
        i += 1;
    }
    proof {
        lemma_items_view_is(items@, nulls(count as nat));
    }
    items
}

/// Makes the items long enough to have the position `index`, and says where
/// that position lies.
fn grow(items: Vec<Value>, index: i64) -> (res: (Vec<Value>, usize))
    requires
        reachable(index as int),
    ensures
        items_view(res.0@) == padded(items_view(items@), index as int),
        res.1 == offset(res.0@.len() as nat, index as int),
        res.1 < res.0@.len(),
{
    let ghost before = items@;
    proof {
        lemma_items_view(before);
    }
    if index >= 0 {
        let at: usize = index as usize;
        let mut items = items;
        while items.len() <= at
            invariant
                at < usize::MAX,
                items@.len() >= before.len(),
                items@.len() == before.len() || items@.len() <= at + 1,
                forall|j: int| 0 <= j < before.len() ==> items@[j] == before[j],
                forall|j: int| before.len() <= j < items@.len() ==> items@[j]@ == ValueView::Null,
            decreases at + 1 - items.len(),
        {
            items.push(Value::Null);
        }
        proof {
            lemma_items_view_is(items@, padded(items_view(before), index as int));
        }
        (items, at)
    } else {
        let count: usize = ((-(index + 1)) as u64 + 1) as usize;
        if count > items.len() {
            let mut items = items;
            let mut front = null_items(count - items.len());
            proof {
                lemma_items_view(front@);
                lemma_items_view_is(front@ + before, padded(items_view(before), index as int));
            }
            front.append(&mut items);
            (front, 0)
        } else {
            let at = items.len() - count;
            (items, at)
        }
    }
}

/// The kinds of the members of an object.
fn member_kinds(members: &Vec<Member>) -> (fields: Vec<Field>)
    ensures
        fields_view(fields@) == ValueView::Object(members_view(members@)).kind().object->0.known,
    decreases members,
{
    let mut fields: Vec<Field> = Vec::new();
    let mut i: usize = 0;
    proof {
        assert(fields_view(fields@) =~= ValueView::Object(
            members_view(members@.take(0)),
        ).kind().object->0.known);
    }
    while i < members.len()
        invariant
            i <= members.len(),
            fields_view(fields@) == ValueView::Object(
                members_view(members@.take(i as int)),
            ).kind().object->0.known,
        decreases members.len() - i,
    {
        let field = Field { name: members[i].name.clone(), kind: members[i].value.kind() };
        proof {
            lemma_fields_push(fields@, field);
            lemma_members_push(members@.take(i as int), members@[i as int]);
            assert(members@.take(i as int).push(members@[i as int]) =~= members@.take(i + 1));
            assert(fields_view(fields@.push(field)) =~= ValueView::Object(
                members_view(members@.take(i + 1)),
            ).kind().object->0.known);
        }
        fields.push(field);
        i += 1;
    }
    proof {
        assert(members@.take(members.len() as int) =~= members@);
    }
    fields
}

/// The kinds of the items of an array, by their positions from the start.
fn item_kinds(items: &Vec<Value>) -> (elements: Vec<Element>)
    ensures
        elements_view(elements@) == ValueView::Array(items_view(items@)).kind().array->0.known,
    decreases items,
{
    let mut elements: Vec<Element> = Vec::new();
    let mut i: usize = 0;
    proof {
        lemma_items_view(items@);
        assert(elements_view(elements@) =~= ValueView::Array(
            items_view(items@).take(0),
        ).kind().array->0.known);
    }
    while i < items.len() && i as u64 <= i64::MAX as u64
        invariant
            i <= items.len(),
            i <= i64::MAX + 1,
            items_view(items@).len() == items.len(),
            forall|j: int| 0 <= j < items.len() ==> (#[trigger] items_view(items@)[j]) == items[j]@,
            elements_view(elements@) == ValueView::Array(
                items_view(items@).take(i as int),
            ).kind().array->0.known,
        decreases items.len() - i,
    {
        let element = Element { index: i as i64, kind: items[i].kind() };
        proof {
            lemma_elements_push(elements@, element);
            assert(elements_view(elements@.push(element)) =~= ValueView::Array(
                items_view(items@).take(i + 1),
            ).kind().array->0.known);
        }
        elements.push(element);
        i += 1;
    }
    proof {
        let all = items_view(items@);
        let taken = ValueView::Array(all.take(i as int)).kind().array->0.known;
        let whole = ValueView::Array(all).kind().array->0.known;
        assert forall|index: int| taken.contains_key(index) == whole.contains_key(index) by {}
        assert forall|index: int| #[trigger] taken.contains_key(index) implies taken[index]
            == whole[index] by {
            assert(all.take(i as int)[index] == all[index]);
        }
        assert(taken =~= whole);
    }
    elements
}

impl Value {
    /// The kind of exactly this value.
    pub fn kind(&self) -> (kind: Kind)
        ensures
            kind@ == self@.kind(),
        decreases self,
    {
        match self {
            Value::Bytes(_) => Kind::bytes(),
            Value::Integer(_) => Kind::integer(),
            Value::Float(_) => Kind::float(),
            Value::Boolean(_) => Kind::boolean(),
            Value::Object(members) => Kind::object(member_kinds(members)),
            Value::Array(items) => Kind::array(item_kinds(items)),
            Value::Timestamp(_, _) => Kind::timestamp(),
            Value::Regex(_) => Kind::regex(),
            Value::Null => Kind::null(),
        }
    }

    /// The value that stands in for a failed computation of a value of the
    /// given kind.
    pub fn default_for(kind: &Kind) -> (value: Value)
        ensures
            value@ == ValueView::default_of(kind@),
    {
        if !kind.is_exact() {
            Value::Null
        } else if kind.contains_bytes() {
            Value::Bytes(Vec::new())
        } else if kind.contains_integer() {
            Value::Integer(0)
        } else if kind.contains_float() {
            Value::Float(0)
        } else if kind.contains_boolean() {
            Value::Boolean(false)
        } else if kind.contains_timestamp() {
            Value::Timestamp(0, 0)
        } else if kind.contains_regex() {
            Value::Regex(String::new())
        } else if kind.contains_array() {
            let items: Vec<Value> = Vec::new();
            assert(items_view(items@) =~= Seq::<ValueView>::empty());
            Value::Array(items)
        } else if kind.contains_object() {
            Value::Object(Vec::new())
        } else {
            Value::Null
        }
    }

    /// The part that `segment` addresses, if there is one.
    fn part_ref(&self, segment: &Segment) -> (part: Option<&Value>)
        ensures
            match part {
                Some(value) => value@ == self@.part(segment@),
                None => self@.part(segment@) == ValueView::Null,
            },
    {
        match segment {
            Segment::Index(index) => match self {
                Value::Array(items) => {
                    proof {
                        lemma_items_view(items@);
                    }
                    if *index >= 0 {
                        if (*index as u64) < items.len() as u64 {
                            Some(&items[*index as usize])
                        } else {
                            None
                        }
                    } else {
                        let back: u64 = (-(*index + 1)) as u64 + 1;
                        if back <= items.len() as u64 {
                            Some(&items[items.len() - back as usize])
                        } else {
                            None
                        }
                    }
                },
                _ => None,
            },
            Segment::Field(name) => self.member_ref(name),
            Segment::Coalesce(first, _) => self.member_ref(first),
        }
    }

    /// The member of the given name, if there is one.
    fn member_ref(&self, name: &String) -> (part: Option<&Value>)
        ensures
            match part {
                Some(value) => value@ == self@.member(name@),
                None => self@.member(name@) == ValueView::Null,
            },
    {
        match self {
            Value::Object(members) => match find_member(members, name) {
                Some(i) => Some(&members[i].value),
                None => None,
            },
            _ => None,
        }
    }

    /// The part that `path` addresses, and null where there is none.
    pub fn get_by_path(&self, path: &Path) -> (value: Value)
        ensures
            value@ == self@.fetched(path@),
    {
        let mut current: &Value = self;
        let mut i: usize = 0;
        proof {
            assert(path@.skip(0) =~= path@);
        }
        while i < path.segments.len()
            invariant
                i <= path.segments.len(),
                current@.fetched(path@.skip(i as int)) == self@.fetched(path@),
            decreases path.segments.len() - i,
        {
            proof {
                assert(path@.skip(i as int)[0] == path.segments[i as int]@);
                assert(path@.skip(i as int).skip(1) =~= path@.skip(i + 1));
            }
            match current.part_ref(&path.segments[i]) {
                Some(part) => {
                    current = part;
                },
                None => {
                    proof {
                        lemma_null_fetched(path@.skip(i + 1));
                    }
                    return Value::Null;
                },
            }
            i += 1;
        }
        current.clone()
    }

    /// Writes `value` at `path`, making and growing the containers along the
    /// path as the write needs them. A write at a position that no array of
    /// this machine can have is dropped.
    pub fn insert_by_path(&mut self, path: &Path, value: Value)
        ensures
            final(self)@ == old(self)@.written(path@, value@),
    {
        if reachable_from(path, 0) {
            let mut whole = Value::Null;
            std::mem::swap(self, &mut whole);
            *self = whole.inserted_from(path, 0, value);
            proof {
                assert(path@.skip(0) =~= path@);
            }
        } else {
            proof {
                assert(path@.skip(0) =~= path@);
            }
        }
    }

    /// The value that holds `self` at `path` and nothing else but the nulls
    /// that fill up its arrays.
    pub fn at_path(self, path: &Path) -> (value: Value)
        ensures
            value@ == ValueView::Null.written(path@, self@),
    {
        let mut whole = Value::Null;
        whole.insert_by_path(path, self);
        whole
    }

    fn inserted_from(self, path: &Path, from: usize, value: Value) -> (res: Value)
        requires
            from <= path.segments.len(),
            path_reachable(path@.skip(from as int)),
        ensures
            res@ == self@.inserted(path@.skip(from as int), value@),
        decreases path.segments.len() - from,
    {
        if from == path.segments.len() {
            return value;
        }
        let ghost rest = path@.skip(from as int);
        proof {
            assert(rest[0] == path.segments[from as int]@);
            assert(rest.skip(1) =~= path@.skip(from + 1));
            assert forall|j: int| 0 <= j < rest.skip(1).len() && (#[trigger] rest.skip(
                1,
            )[j]) is Index implies reachable(rest.skip(1)[j].position()) by {
                assert(rest.skip(1)[j] == rest[j + 1]);
            }
        }
        match &path.segments[from] {
            Segment::Index(index) => self.insert_item(*index, path, from, value),
            Segment::Field(name) => self.insert_member(name, path, from, value),
            Segment::Coalesce(first, _) => self.insert_member(first, path, from, value),
        }
    }

    fn insert_item(self, index: i64, path: &Path, from: usize, value: Value) -> (res: Value)
        requires
            from < path.segments.len(),
            path.segments[from as int]@ == SegmentView::Index(index as int),
            reachable(index as int),
            path_reachable(path@.skip(from + 1)),
        ensures
            res@ == self@.inserted(path@.skip(from as int), value@),
        decreases path.segments.len() - from, 0int,
    {
        let ghost rest = path@.skip(from as int);
        proof {
            assert(rest[0] == path.segments[from as int]@);
            assert(rest.skip(1) =~= path@.skip(from + 1));
        }
        let items = match self {
            Value::Array(items) => items,
            _ => {
                let items: Vec<Value> = Vec::new();
                assert(items_view(items@) =~= Seq::<ValueView>::empty());
                items
            },
        };
        let (mut items, at) = grow(items, index);
        let ghost grown = items@;
        let known = items.remove(at);
        let part = known.inserted_from(path, from + 1, value);
        proof {
            lemma_items_view(grown);
            lemma_items_view(grown.remove(at as int).insert(at as int, part));
            assert(items_view(grown.remove(at as int).insert(at as int, part)) =~= items_view(
                grown,
            ).update(at as int, part@));
        }
        items.insert(at, part);
        Value::Array(items)
    }

    fn insert_member(self, name: &String, path: &Path, from: usize, value: Value) -> (res: Value)
        requires
            from < path.segments.len(),
            path.segments[from as int]@.is_named(),
            path.segments[from as int]@.name() == name@,
            path_reachable(path@.skip(from + 1)),
        ensures
            res@ == self@.inserted(path@.skip(from as int), value@),
        decreases path.segments.len() - from, 0int,
    {
        let ghost rest = path@.skip(from as int);
        proof {
            assert(rest[0] == path.segments[from as int]@);
            assert(rest.skip(1) =~= path@.skip(from + 1));
        }
        let mut members = match self {
            Value::Object(members) => members,
            _ => Vec::new(),
        };
        let ghost known = members@;
        match find_member(&members, name) {
            Some(i) => {
                let found = members.remove(i);
                let part = found.value.inserted_from(path, from + 1, value);
                let member = Member { name: name.clone(), value: part };
                proof {
                    lemma_members_are_entries(known);
                    lemma_members_are_entries(known.remove(i as int).push(member));
                    lemma_entries_replace(member_entries(known), i as int, part@);
                    assert(member_entries(known.remove(i as int).push(member)) =~= member_entries(
                        known,
                    ).remove(i as int).push((name@, part@)));
                }
                members.push(member);
            },
            None => {
                let part = Value::Null.inserted_from(path, from + 1, value);
                let member = Member { name: name.clone(), value: part };
                proof {
                    lemma_members_push(known, member);
                }
                members.push(member);
            },
        }
        Value::Object(members)
    }
}

} // verus!
