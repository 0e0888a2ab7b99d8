//! The lattice of value shapes.

use vstd::prelude::*;
use crate::entries::{
    entries_map, lemma_entries_absent, lemma_entries_found, lemma_entries_replace, none_after,
};
use crate::path::{Path, Segment, SegmentView};

verus! {

/// The mathematical model of a [`Kind`]: which scalar shapes a value may
/// take, and, where it may be an object or an array, what is known of its
/// fields or elements. A field or element that the maps do not hold is
/// unconstrained.
pub ghost struct KindView {
    pub bytes: bool,
    pub integer: bool,
    pub float: bool,
    pub boolean: bool,
    pub timestamp: bool,
    pub regex: bool,
    pub null: bool,
    pub object: Option<Fields>,
    pub array: Option<Elements>,
}

/// What is known of the fields of an object: the kinds of those that are
/// known.
pub ghost struct Fields {
    pub known: Map<Seq<char>, KindView>,
}

/// What is known of the elements of an array: the kinds of those that are
/// known, by their positions.
pub ghost struct Elements {
    pub known: Map<int, KindView>,
}

impl KindView {
    /// The top of the lattice: every shape, nothing known of any part.
    pub open spec fn any() -> KindView {
        KindView {
            bytes: true,
            integer: true,
            float: true,
            boolean: true,
            timestamp: true,
            regex: true,
            null: true,
            object: Some(Fields { known: Map::empty() }),
            array: Some(Elements { known: Map::empty() }),
        }
    }

    /// The bottom of the lattice: no shape at all.
    pub open spec fn never() -> KindView {
        KindView {
            bytes: false,
            integer: false,
            float: false,
            boolean: false,
            timestamp: false,
            regex: false,
            null: false,
            object: None,
            array: None,
        }
    }

    /// The kind of the objects of which the given fields are known.
    pub open spec fn object_of(known: Map<Seq<char>, KindView>) -> KindView {
        KindView { object: Some(Fields { known }), ..KindView::never() }
    }

    /// The kind of the arrays of which the given elements are known.
    pub open spec fn array_of(known: Map<int, KindView>) -> KindView {
        KindView { array: Some(Elements { known }), ..KindView::never() }
    }

    /// The number of shapes that a value of this kind may take.
    pub open spec fn shapes(self) -> nat {
        let count = |present: bool| if present { 1nat } else { 0nat };
        count(self.bytes) + count(self.integer) + count(self.float) + count(self.boolean) + count(
            self.timestamp,
        ) + count(self.regex) + count(self.null) + count(self.object is Some) + count(
            self.array is Some,
        )
    }

    /// The kind in words: `any` for the kind of every value, `never` for
    /// that of none, and else the names of its shapes with `or` between them.
    pub open spec fn text(self) -> Seq<char> {
        if self == KindView::any() {
            "any"@
        } else if self.shapes() == 0 {
            "never"@
        } else {
            or_text(
                or_text(
                    or_text(
                        or_text(
                            or_text(
                                or_text(
                                    or_text(
                                        or_text(
                                            or_text(Seq::empty(), self.bytes, "string"@),
                                            self.integer,
                                            "integer"@,
                                        ),
                                        self.float,
                                        "float"@,
                                    ),
                                    self.boolean,
                                    "boolean"@,
                                ),
                                self.timestamp,
                                "timestamp"@,
                            ),
                            self.regex,
                            "regex"@,
                        ),
                        self.null,
                        "null"@,
                    ),
                    self.array is Some,
                    "array"@,
                ),
                self.object is Some,
                "object"@,
            )
        }
    }

    pub open spec fn contains_object(self) -> bool {
        self.object is Some
    }

    pub open spec fn contains_array(self) -> bool {
        self.array is Some
    }

    /// The least that is known of a value that is of this kind or of the
    /// other: each shape that either has, and of objects and of arrays the
    /// parts that both know, each with the union of the two kinds known for
    /// it.
    pub open spec fn union(self, other: KindView) -> KindView
        decreases self,
    {
        KindView {
            bytes: self.bytes || other.bytes,
            integer: self.integer || other.integer,
            float: self.float || other.float,
            boolean: self.boolean || other.boolean,
            timestamp: self.timestamp || other.timestamp,
            regex: self.regex || other.regex,
            null: self.null || other.null,
            object: match self.object {
                Some(ours) => match other.object {
                    Some(theirs) => Some(
                        Fields {
                            known: Map::new(
                                |name: Seq<char>|
                                    ours.known.contains_key(name) && theirs.known.contains_key(
                                        name,
                                    ),
                                |name: Seq<char>|
                                    if ours.known.contains_key(name) {
                                        ours.known[name].union(theirs.known[name])
                                    } else {
                                        KindView::never()
                                    },
                            ),
                        },
                    ),
                    None => Some(ours),
                },
                None => other.object,
            },
            array: match self.array {
                Some(ours) => match other.array {
                    Some(theirs) => Some(
                        Elements {
                            known: Map::new(
                                |index: int|
                                    ours.known.contains_key(index) && theirs.known.contains_key(
                                        index,
                                    ),
                                |index: int|
                                    if ours.known.contains_key(index) {
                                        ours.known[index].union(theirs.known[index])
                                    } else {
                                        KindView::never()
                                    },
                            ),
                        },
                    ),
                    None => Some(ours),
                },
                None => other.array,
            },
        }
    }

    /// Whether a value of this kind is an object for sure.
    pub open spec fn is_object(self) -> bool {
        self.object is Some && self.shapes() == 1
    }

    /// Whether a value of this kind is an array for sure.
    pub open spec fn is_array(self) -> bool {
        self.array is Some && self.shapes() == 1
    }

    /// What is known of the named field of a value of this kind: the kind of
    /// the field where the value is an object for sure and the field is
    /// known, and else nothing.
    pub open spec fn field(self, name: Seq<char>) -> KindView {
        if self.is_object() && self.object->0.known.contains_key(name) {
            self.object->0.known[name]
        } else {
            KindView::any()
        }
    }

    /// What is known of the element at the given position: the kind of the
    /// element where the value is an array for sure and the element is
    /// known, and else nothing.
    pub open spec fn element(self, index: int) -> KindView {
        if self.is_array() && self.array->0.known.contains_key(index) {
            self.array->0.known[index]
        } else {
            KindView::any()
        }
    }

    /// What is known of the part that one segment addresses.
    pub open spec fn step(self, segment: SegmentView) -> KindView {
        match segment {
            SegmentView::Index(i) => self.element(i),
            _ => self.field(segment.name()),
        }
    }

    /// The kind of the part that `path` addresses: the narrowing of this kind
    /// through the segments in turn.
    pub open spec fn at_path(self, path: Seq<SegmentView>) -> KindView
        decreases path.len(),
    {
        if path.len() == 0 {
            self
        } else {
            self.step(path[0]).at_path(path.skip(1))
        }
    }

    /// The fields that stay known when a field is written: the known fields
    /// of a value that is an object for sure, and else none, as the write
    /// makes a new object of any other value.
    pub open spec fn known_fields(self) -> Map<Seq<char>, KindView> {
        if self.is_object() {
            self.object->0.known
        } else {
            Map::empty()
        }
    }

    /// The elements that stay known when the element at `index` is written:
    /// of a value that is an array for sure, the known elements whose
    /// positions count from the same end as `index`, as the write may move
    /// the others; and else none.
    pub open spec fn known_elements(self, index: int) -> Map<int, KindView> {
        if self.is_array() {
            self.array->0.known.restrict(Set::new(|i: int| (i < 0) == (index < 0)))
        } else {
            Map::empty()
        }
    }

    /// The kind after a value of kind `leaf` has been written at `path`. The
    /// containers along the path are what the write makes of them: an object
    /// or an array and nothing else, with the part written to replaced.
    pub open spec fn with_inserted(self, path: Seq<SegmentView>, leaf: KindView) -> KindView
        decreases path.len(),
    {
        if path.len() == 0 {
            leaf
        } else {
            let part = self.step(path[0]).with_inserted(path.skip(1), leaf);
            match path[0] {
                SegmentView::Index(i) => KindView::array_of(
                    self.known_elements(i).insert(i, part),
                ),
                _ => KindView::object_of(self.known_fields().insert(path[0].name(), part)),
            }
        }
    }
}

/// The text `so_far` with `name` added behind an `or`, where the shape is
/// present.
pub open spec fn or_text(so_far: Seq<char>, present: bool, name: Seq<char>) -> Seq<char> {
    if !present {
        so_far
    } else if so_far.len() == 0 {
        name
    } else {
        so_far + " or "@ + name
    }
}

fn push_shape(out: &mut String, present: bool, name: &str)
    ensures
        final(out)@ == or_text(old(out)@, present, name@),
{
    if present {
        if out.as_str().is_empty() {
            out.append(name);
            assert(final(out)@ =~= name@);
        } else {
            out.append(" or ");
            out.append(name);
        }
    }
}

/// What is known of one field of an object.
#[derive(Debug)]
pub struct Field {
    pub name: String,
    pub kind: Kind,
}

/// What is known of one element of an array.
#[derive(Debug)]
pub struct Element {
    pub index: i64,
    pub kind: Kind,
}

/// The possible shapes of a value.
///
/// Where several entries of `object` name one field, or several entries of
/// `array` one position, the last of them counts.
#[derive(Debug)]
pub struct Kind {
    bytes: bool,
    integer: bool,
    float: bool,
    boolean: bool,
    timestamp: bool,
    regex: bool,
    null: bool,
    object: Option<Vec<Field>>,
    array: Option<Vec<Element>>,
}

/// The map that a sequence of field entries stands for.
pub open spec fn fields_view(fields: Seq<Field>) -> Map<Seq<char>, KindView>
    decreases fields,
{
    if fields.len() == 0 {
        Map::empty()
    } else {
        fields_view(fields.drop_last()).insert(fields.last().name@, fields.last().kind@)
    }
}

/// The map that a sequence of element entries stands for.
pub open spec fn elements_view(elements: Seq<Element>) -> Map<int, KindView>
    decreases elements,
{
    if elements.len() == 0 {
        Map::empty()
    } else {
        elements_view(elements.drop_last()).insert(
            elements.last().index as int,
            elements.last().kind@,
        )
    }
}

impl View for Kind {
    type V = KindView;

    closed spec fn view(&self) -> KindView
        decreases self,
    {
        KindView {
            bytes: self.bytes,
            integer: self.integer,
            float: self.float,
            boolean: self.boolean,
            timestamp: self.timestamp,
            regex: self.regex,
            null: self.null,
            object: match self.object {
                Some(fields) => Some(Fields { known: fields_view(fields@) }),
                None => None,
            },
            array: match self.array {
                Some(elements) => Some(Elements { known: elements_view(elements@) }),
                None => None,
            },
        }
    }
}

/// Appending an entry sets its field in the map.
pub proof fn lemma_fields_push(fields: Seq<Field>, field: Field)
    ensures
        fields_view(fields.push(field)) == fields_view(fields).insert(field.name@, field.kind@),
{
    assert(fields.push(field).drop_last() =~= fields);
}

/// Appending an entry sets its position in the map.
pub proof fn lemma_elements_push(elements: Seq<Element>, element: Element)
    ensures
        elements_view(elements.push(element)) == elements_view(elements).insert(
            element.index as int,
            element.kind@,
        ),
{
    assert(elements.push(element).drop_last() =~= elements);
}

fn clone_fields(fields: &Vec<Field>) -> (res: Vec<Field>)
    ensures
        fields_view(res@) == fields_view(fields@),
    decreases fields,
{
    let mut out: Vec<Field> = Vec::new();
    let mut i: usize = 0;
    while i < fields.len()
        invariant
            i <= fields.len(),
            fields_view(out@) == fields_view(fields@.subrange(0, i as int)),
        decreases fields.len() - i,
    {
        let field = Field { name: fields[i].name.clone(), kind: fields[i].kind.clone() };
        proof {
            lemma_fields_push(out@, field);
            lemma_fields_push(fields@.subrange(0, i as int), fields@[i as int]);
            assert(fields@.subrange(0, i as int).push(fields@[i as int]) =~= fields@.subrange(
                0,
                i + 1,
            ));
        }
        out.push(field);
        i += 1;
    }
    proof {
        assert(fields@.subrange(0, fields.len() as int) =~= fields@);
    }
    out
}

fn clone_elements(elements: &Vec<Element>) -> (res: Vec<Element>)
    ensures
        elements_view(res@) == elements_view(elements@),
    decreases elements,
{
    let mut out: Vec<Element> = Vec::new();
    let mut i: usize = 0;
    while i < elements.len()
        invariant
            i <= elements.len(),
            elements_view(out@) == elements_view(elements@.subrange(0, i as int)),
        decreases elements.len() - i,
    {
        let element = Element { index: elements[i].index, kind: elements[i].kind.clone() };
        proof {
            lemma_elements_push(out@, element);
            lemma_elements_push(elements@.subrange(0, i as int), elements@[i as int]);
            assert(elements@.subrange(0, i as int).push(elements@[i as int])
                =~= elements@.subrange(0, i + 1));
        }
        out.push(element);
        i += 1;
    }
    proof {
        assert(elements@.subrange(0, elements.len() as int) =~= elements@);
    }
    out
}

impl Clone for Kind {
    fn clone(&self) -> (res: Kind)
        ensures
            res@ == self@,
        decreases self,
    {
        Kind {
            bytes: self.bytes,
            integer: self.integer,
            float: self.float,
            boolean: self.boolean,
            timestamp: self.timestamp,
            regex: self.regex,
            null: self.null,
            object: match &self.object {
                Some(fields) => Some(clone_fields(fields)),
                None => None,
            },
            array: match &self.array {
                Some(elements) => Some(clone_elements(elements)),
                None => None,
            },
        }
    }
}

/// The field entries as key-value pairs.
pub open spec fn field_entries(fields: Seq<Field>) -> Seq<(Seq<char>, KindView)> {
    Seq::new(fields.len(), |i: int| (fields[i].name@, fields[i].kind@))
}

/// The element entries as key-value pairs.
pub open spec fn element_entries(elements: Seq<Element>) -> Seq<(int, KindView)> {
    Seq::new(elements.len(), |i: int| (elements[i].index as int, elements[i].kind@))
}

pub proof fn lemma_fields_are_entries(fields: Seq<Field>)
    ensures
        fields_view(fields) == entries_map(field_entries(fields)),
    decreases fields.len(),
{
    if fields.len() > 0 {
        lemma_fields_are_entries(fields.drop_last());
        assert(field_entries(fields).drop_last() =~= field_entries(fields.drop_last()));
    }
}

pub proof fn lemma_elements_are_entries(elements: Seq<Element>)
    ensures
        elements_view(elements) == entries_map(element_entries(elements)),
    decreases elements.len(),
{
    if elements.len() > 0 {
        lemma_elements_are_entries(elements.drop_last());
        assert(element_entries(elements).drop_last() =~= element_entries(elements.drop_last()));
    }
}

/// The position of the entry that counts for `name`, if there is one.
fn find_field(fields: &Vec<Field>, name: &String) -> (found: Option<usize>)
    ensures
        match found {
            Some(i) => i < fields.len() && fields[i as int].name@ == name@ && fields_view(
                fields@,
            ).contains_key(name@) && fields_view(fields@)[name@] == fields[i as int].kind@,
            None => !fields_view(fields@).contains_key(name@),
        },
{
    let mut i: usize = fields.len();
    while i > 0
        invariant
            i <= fields.len(),
            none_after(field_entries(fields@), i - 1, name@),
        decreases i,
    {
        i -= 1;
        if fields[i].name == *name {
            proof {
                lemma_fields_are_entries(fields@);
                lemma_entries_found(field_entries(fields@), i as int);
            }
            return Some(i);
        }
    }
    proof {
        lemma_fields_are_entries(fields@);
        lemma_entries_absent(field_entries(fields@), name@);
    }
    None
}

/// The position of the entry that counts for `index`, if there is one.
fn find_element(elements: &Vec<Element>, index: i64) -> (found: Option<usize>)
    ensures
        match found {
            Some(i) => i < elements.len() && elements[i as int].index == index && elements_view(
                elements@,
            ).contains_key(index as int) && elements_view(elements@)[index as int]
                == elements[i as int].kind@,
            None => !elements_view(elements@).contains_key(index as int),
        },
{
    let mut i: usize = elements.len();
    while i > 0
        invariant
            i <= elements.len(),
            none_after(element_entries(elements@), i - 1, index as int),
        decreases i,
    {
        i -= 1;
        if elements[i].index == index {
            proof {
                lemma_elements_are_entries(elements@);
                lemma_entries_found(element_entries(elements@), i as int);
            }
            return Some(i);
        }
    }
    proof {
        lemma_elements_are_entries(elements@);
        lemma_entries_absent(element_entries(elements@), index as int);
    }
    None
}

/// Nothing is known of any part of a value of any shape.
pub proof fn lemma_any_at_path(path: Seq<SegmentView>)
    ensures
        KindView::any().at_path(path) == KindView::any(),
    decreases path.len(),
{
    if path.len() > 0 {
        assert(KindView::any().step(path[0]) == KindView::any());
        lemma_any_at_path(path.skip(1));
    }
}

/// The entries whose positions count from the same end as `index`.
fn same_end(elements: &Vec<Element>, index: i64) -> (kept: Vec<Element>)
    ensures
        elements_view(kept@) == elements_view(elements@).restrict(
            Set::new(|i: int| (i < 0) == (index < 0)),
        ),
{
    let ghost side = Set::new(|i: int| (i < 0) == (index < 0));
    let mut kept: Vec<Element> = Vec::new();
    let mut j: usize = 0;
    proof {
        assert(elements_view(kept@) =~= elements_view(elements@.subrange(0, 0)).restrict(side));
    }
    while j < elements.len()
        invariant
            j <= elements.len(),
            side == Set::new(|i: int| (i < 0) == (index < 0)),
            elements_view(kept@) == elements_view(elements@.subrange(0, j as int)).restrict(side),
        decreases elements.len() - j,
    {
        let ghost before = elements@.subrange(0, j as int);
        proof {
            lemma_elements_push(before, elements@[j as int]);
            assert(before.push(elements@[j as int]) =~= elements@.subrange(0, j + 1));
        }
        if (elements[j].index < 0) == (index < 0) {
            let element = Element { index: elements[j].index, kind: elements[j].kind.clone() };
            proof {
                lemma_elements_push(kept@, element);
                assert(elements_view(kept@).insert(element.index as int, element.kind@)
                    =~= elements_view(elements@.subrange(0, j + 1)).restrict(side));
            }
            kept.push(element);
        } else {
            proof {
                assert(elements_view(kept@) =~= elements_view(
                    elements@.subrange(0, j + 1),
                ).restrict(side));
            }
        }
        j += 1;
    }
    proof {
        assert(elements@.subrange(0, elements.len() as int) =~= elements@);
    }
    kept
}

/// The parts that both maps know, each with the union of the two kinds
/// known for it.
pub open spec fn known_in_both<K>(ours: Map<K, KindView>, theirs: Map<K, KindView>) -> Map<
    K,
    KindView,
> {
    Map::new(
        |key: K| ours.contains_key(key) && theirs.contains_key(key),
        |key: K| ours[key].union(theirs[key]),
    )
}

/// The fields that both sequences of entries know, each with the union of
/// the two kinds known for it.
fn union_fields(ours: &Vec<Field>, theirs: &Vec<Field>) -> (fields: Vec<Field>)
    ensures
        fields_view(fields@) == known_in_both(fields_view(ours@), fields_view(theirs@)),
    decreases ours,
{
    let mut fields: Vec<Field> = Vec::new();
    let mut i: usize = 0;
    proof {
        assert(fields_view(fields@) =~= known_in_both(
            fields_view(ours@.take(0)),
            fields_view(theirs@),
        ));
    }
    while i < ours.len()
        invariant
            i <= ours.len(),
            fields_view(fields@) == known_in_both(
                fields_view(ours@.take(i as int)),
                fields_view(theirs@),
            ),
        decreases ours.len() - i,
    {
        proof {
            lemma_fields_push(ours@.take(i as int), ours@[i as int]);
            assert(ours@.take(i as int).push(ours@[i as int]) =~= ours@.take(i + 1));
        }
        match find_field(theirs, &ours[i].name) {
            Some(j) => {
                let field = Field {
                    name: ours[i].name.clone(),
                    kind: ours[i].kind.union(&theirs[j].kind),
                };
                proof {
                    lemma_fields_push(fields@, field);
                    assert(fields_view(fields@.push(field)) =~= known_in_both(
                        fields_view(ours@.take(i + 1)),
                        fields_view(theirs@),
                    ));
                }
                fields.push(field);
            },
            None => {
                proof {
                    assert(fields_view(fields@) =~= known_in_both(
                        fields_view(ours@.take(i + 1)),
                        fields_view(theirs@),
                    ));
                }
            },
        }
        i += 1;
    }
    proof {
        assert(ours@.take(ours.len() as int) =~= ours@);
    }
    fields
}

/// The elements that both sequences of entries know, each with the union of
/// the two kinds known for it.
fn union_elements(ours: &Vec<Element>, theirs: &Vec<Element>) -> (elements: Vec<Element>)
    ensures
        elements_view(elements@) == known_in_both(elements_view(ours@), elements_view(theirs@)),
    decreases ours,
{
    let mut elements: Vec<Element> = Vec::new();
    let mut i: usize = 0;
    proof {
        assert(elements_view(elements@) =~= known_in_both(
            elements_view(ours@.take(0)),
            elements_view(theirs@),
        ));
    }
    while i < ours.len()
        invariant
            i <= ours.len(),
            elements_view(elements@) == known_in_both(
                elements_view(ours@.take(i as int)),
                elements_view(theirs@),
            ),
        decreases ours.len() - i,
    {
        proof {
            lemma_elements_push(ours@.take(i as int), ours@[i as int]);
            assert(ours@.take(i as int).push(ours@[i as int]) =~= ours@.take(i + 1));
        }
        match find_element(theirs, ours[i].index) {
            Some(j) => {
                let element = Element {
                    index: ours[i].index,
                    kind: ours[i].kind.union(&theirs[j].kind),
                };
                proof {
                    lemma_elements_push(elements@, element);
                    assert(elements_view(elements@.push(element)) =~= known_in_both(
                        elements_view(ours@.take(i + 1)),
                        elements_view(theirs@),
                    ));
                }
                elements.push(element);
            },
            None => {
                proof {
                    assert(elements_view(elements@) =~= known_in_both(
                        elements_view(ours@.take(i + 1)),
                        elements_view(theirs@),
                    ));
                }
            },
        }
        i += 1;
    }
    proof {
        assert(ours@.take(ours.len() as int) =~= ours@);
    }
    elements
}

/// The model of entries of fields that may be missing.
pub open spec fn fields_model(fields: Option<Vec<Field>>) -> Option<Fields> {
    match fields {
        Some(fields) => Some(Fields { known: fields_view(fields@) }),
        None => None,
    }
}

/// The model of entries of elements that may be missing.
pub open spec fn elements_model(elements: Option<Vec<Element>>) -> Option<Elements> {
    match elements {
        Some(elements) => Some(Elements { known: elements_view(elements@) }),
        None => None,
    }
}

/// What a union knows of the fields of objects: what the one kind knows where
/// the other has no objects, and else what both know.
pub open spec fn fields_union(ours: Option<Fields>, theirs: Option<Fields>) -> Option<Fields> {
    match ours {
        Some(ours) => match theirs {
            Some(theirs) => Some(Fields { known: known_in_both(ours.known, theirs.known) }),
            None => Some(ours),
        },
        None => theirs,
    }
}

/// What a union knows of the elements of arrays: what the one kind knows
/// where the other has no arrays, and else what both know.
pub open spec fn elements_union(ours: Option<Elements>, theirs: Option<Elements>) -> Option<
    Elements,
> {
    match ours {
        Some(ours) => match theirs {
            Some(theirs) => Some(Elements { known: known_in_both(ours.known, theirs.known) }),
            None => Some(ours),
        },
        None => theirs,
    }
}

/// A union knows of objects and of arrays what both kinds know.
pub proof fn lemma_union_parts(ours: KindView, theirs: KindView)
    ensures
        ours.union(theirs).object == fields_union(ours.object, theirs.object),
        ours.union(theirs).array == elements_union(ours.array, theirs.array),
{
    if ours.object is Some && theirs.object is Some {
        assert(ours.union(theirs).object->0.known =~= known_in_both(
            ours.object->0.known,
            theirs.object->0.known,
        ));
    }
    if ours.array is Some && theirs.array is Some {
        assert(ours.union(theirs).array->0.known =~= known_in_both(
            ours.array->0.known,
            theirs.array->0.known,
        ));
    }
}

fn union_object(ours: &Option<Vec<Field>>, theirs: &Option<Vec<Field>>) -> (fields: Option<
    Vec<Field>,
>)
    ensures
        fields_model(fields) == fields_union(fields_model(*ours), fields_model(*theirs)),
    decreases ours,
{
    match ours {
        Some(ours) => match theirs {
            Some(theirs) => Some(union_fields(ours, theirs)),
            None => Some(clone_fields(ours)),
        },
        None => match theirs {
            Some(theirs) => Some(clone_fields(theirs)),
            None => None,
        },
    }
}

fn union_array(ours: &Option<Vec<Element>>, theirs: &Option<Vec<Element>>) -> (elements: Option<
    Vec<Element>,
>)
    ensures
        elements_model(elements) == elements_union(elements_model(*ours), elements_model(*theirs)),
    decreases ours,
{
    match ours {
        Some(ours) => match theirs {
            Some(theirs) => Some(union_elements(ours, theirs)),
            None => Some(clone_elements(ours)),
        },
        None => match theirs {
            Some(theirs) => Some(clone_elements(theirs)),
            None => None,
        },
    }
}

impl Kind {
    /// The least that is known of a value that is of this kind or of the
    /// other.
    pub fn union(&self, other: &Kind) -> (kind: Kind)
        ensures
            kind@ == self@.union(other@),
        decreases self,
    {
        let object = union_object(&self.object, &other.object);
        let array = union_array(&self.array, &other.array);
        proof {
            lemma_union_parts(self@, other@);
            assert(self@.object == fields_model(self.object));
            assert(other@.object == fields_model(other.object));
            assert(self@.array == elements_model(self.array));
            assert(other@.array == elements_model(other.array));
        }
        let kind = Kind {
            bytes: self.bytes || other.bytes,
            integer: self.integer || other.integer,
            float: self.float || other.float,
            boolean: self.boolean || other.boolean,
            timestamp: self.timestamp || other.timestamp,
            regex: self.regex || other.regex,
            null: self.null || other.null,
            object,
            array,
        };
        proof {
            assert(kind@.object == fields_model(kind.object));
            assert(kind@.array == elements_model(kind.array));
        }
        kind
    }

    /// The kind of no value at all, to which shapes are added.
    pub fn never() -> (kind: Kind)
        ensures
            kind@ == KindView::never(),
    {
        Kind {
            bytes: false,
            integer: false,
            float: false,
            boolean: false,
            timestamp: false,
            regex: false,
            null: false,
            object: None,
            array: None,
        }
    }

    /// The kind of every value.
    pub fn any() -> (kind: Kind)
        ensures
            kind@ == KindView::any(),
    {
        Kind {
            bytes: true,
            integer: true,
            float: true,
            boolean: true,
            timestamp: true,
            regex: true,
            null: true,
            object: Some(Vec::new()),
            array: Some(Vec::new()),
        }
    }

    pub fn bytes() -> (kind: Kind)
        ensures
            kind@ == (KindView { bytes: true, ..KindView::never() }),
    {
        Kind::never().or_bytes()
    }

    pub fn integer() -> (kind: Kind)
        ensures
            kind@ == (KindView { integer: true, ..KindView::never() }),
    {
        Kind::never().or_integer()
    }

    pub fn float() -> (kind: Kind)
        ensures
            kind@ == (KindView { float: true, ..KindView::never() }),
    {
        Kind::never().or_float()
    }

    pub fn boolean() -> (kind: Kind)
        ensures
            kind@ == (KindView { boolean: true, ..KindView::never() }),
    {
        Kind::never().or_boolean()
    }

    pub fn timestamp() -> (kind: Kind)
        ensures
            kind@ == (KindView { timestamp: true, ..KindView::never() }),
    {
        Kind::never().or_timestamp()
    }

    pub fn regex() -> (kind: Kind)
        ensures
            kind@ == (KindView { regex: true, ..KindView::never() }),
    {
        Kind::never().or_regex()
    }

    pub fn null() -> (kind: Kind)
        ensures
            kind@ == (KindView { null: true, ..KindView::never() }),
    {
        Kind::never().or_null()
    }

    /// The kind of objects of which the given fields are known.
    pub fn object(fields: Vec<Field>) -> (kind: Kind)
        ensures
            kind@ == KindView::object_of(fields_view(fields@)),
    {
        let mut kind = Kind::never();
        kind.object = Some(fields);
        kind
    }

    /// The kind of arrays of which the given elements are known.
    pub fn array(elements: Vec<Element>) -> (kind: Kind)
        ensures
            kind@ == KindView::array_of(elements_view(elements@)),
    {
        let mut kind = Kind::never();
        kind.array = Some(elements);
        kind
    }

    pub fn or_bytes(self) -> (kind: Kind)
        ensures
            kind@ == (KindView { bytes: true, ..self@ }),
    {
        let mut kind = self;
        kind.bytes = true;
        kind
    }

    pub fn or_integer(self) -> (kind: Kind)
        ensures
            kind@ == (KindView { integer: true, ..self@ }),
    {
        let mut kind = self;
        kind.integer = true;
        kind
    }

    pub fn or_float(self) -> (kind: Kind)
        ensures
            kind@ == (KindView { float: true, ..self@ }),
    {
        let mut kind = self;
        kind.float = true;
        kind
    }

    pub fn or_boolean(self) -> (kind: Kind)
        ensures
            kind@ == (KindView { boolean: true, ..self@ }),
    {
        let mut kind = self;
        kind.boolean = true;
        kind
    }

    pub fn or_timestamp(self) -> (kind: Kind)
        ensures
            kind@ == (KindView { timestamp: true, ..self@ }),
    {
        let mut kind = self;
        kind.timestamp = true;
        kind
    }

    pub fn or_regex(self) -> (kind: Kind)
        ensures
            kind@ == (KindView { regex: true, ..self@ }),
    {
        let mut kind = self;
        kind.regex = true;
        kind
    }

    pub fn or_null(self) -> (kind: Kind)
        ensures
            kind@ == (KindView { null: true, ..self@ }),
    {
        let mut kind = self;
        kind.null = true;
        kind
    }

    /// This kind or that of the objects of which the given fields are known.
    pub fn or_object(self, fields: Vec<Field>) -> (kind: Kind)
        ensures
            kind@ == self@.union(KindView::object_of(fields_view(fields@))),
    {
        self.union(&Kind::object(fields))
    }

    /// This kind or that of the arrays of which the given elements are known.
    pub fn or_array(self, elements: Vec<Element>) -> (kind: Kind)
        ensures
            kind@ == self@.union(KindView::array_of(elements_view(elements@))),
    {
        self.union(&Kind::array(elements))
    }

    pub fn add_bytes(&mut self)
        ensures
            final(self)@ == (KindView { bytes: true, ..old(self)@ }),
    {
        self.bytes = true;
    }

    pub fn add_null(&mut self)
        ensures
            final(self)@ == (KindView { null: true, ..old(self)@ }),
    {
        self.null = true;
    }

    pub fn contains_bytes(&self) -> (yes: bool)
        ensures
            yes == self@.bytes,
    {
        self.bytes
    }

    pub fn contains_integer(&self) -> (yes: bool)
        ensures
            yes == self@.integer,
    {
        self.integer
    }

    pub fn contains_float(&self) -> (yes: bool)
        ensures
            yes == self@.float,
    {
        self.float
    }

    pub fn contains_boolean(&self) -> (yes: bool)
        ensures
            yes == self@.boolean,
    {
        self.boolean
    }

    pub fn contains_timestamp(&self) -> (yes: bool)
        ensures
            yes == self@.timestamp,
    {
        self.timestamp
    }

    pub fn contains_regex(&self) -> (yes: bool)
        ensures
            yes == self@.regex,
    {
        self.regex
    }

    pub fn contains_null(&self) -> (yes: bool)
        ensures
            yes == self@.null,
    {
        self.null
    }

    /// Whether a value of this kind could be an object.
    pub fn contains_object(&self) -> (yes: bool)
        ensures
            yes == self@.contains_object(),
    {
        self.object.is_some()
    }

    /// Whether a value of this kind could be an array.
    pub fn contains_array(&self) -> (yes: bool)
        ensures
            yes == self@.contains_array(),
    {
        self.array.is_some()
    }

    /// The kind in words.
    pub fn render(&self) -> (text: String)
        ensures
            text@ == self@.text(),
    {
        if self.is_any() {
            return String::from_str("any");
        }
        let mut out = String::new();
        push_shape(&mut out, self.bytes, "string");
        push_shape(&mut out, self.integer, "integer");
        push_shape(&mut out, self.float, "float");
        push_shape(&mut out, self.boolean, "boolean");
        push_shape(&mut out, self.timestamp, "timestamp");
        push_shape(&mut out, self.regex, "regex");
        push_shape(&mut out, self.null, "null");
        push_shape(&mut out, self.array.is_some(), "array");
        push_shape(&mut out, self.object.is_some(), "object");
        if !(self.bytes || self.integer || self.float || self.boolean || self.timestamp
            || self.regex || self.null || self.array.is_some() || self.object.is_some()) {
            return String::from_str("never");
        }
        out
    }

    /// Whether a value of this kind can take one shape only.
    pub fn is_exact(&self) -> (yes: bool)
        ensures
            yes == (self@.shapes() == 1),
    {
        let mut count: u8 = 0;
        if self.bytes {
            count += 1;
        }
        if self.integer {
            count += 1;
        }
        if self.float {
            count += 1;
        }
        if self.boolean {
            count += 1;
        }
        if self.timestamp {
            count += 1;
        }
        if self.regex {
            count += 1;
        }
        if self.null {
            count += 1;
        }
        if self.object.is_some() {
            count += 1;
        }
        if self.array.is_some() {
            count += 1;
        }
        count == 1
    }

    /// Whether this is the kind of every value.
    pub fn is_any(&self) -> (yes: bool)
        ensures
            yes == (self@ == KindView::any()),
    {
        let open_object = match &self.object {
            Some(fields) => {
                proof {
                    if fields.len() > 0 {
                        lemma_fields_push(fields@.drop_last(), fields@.last());
                        assert(fields@.drop_last().push(fields@.last()) =~= fields@);
                        assert(fields_view(fields@).contains_key(fields@.last().name@));
                    }
                }
                fields.len() == 0
            },
            None => false,
        };
        let open_array = match &self.array {
            Some(elements) => {
                proof {
                    if elements.len() > 0 {
                        lemma_elements_push(elements@.drop_last(), elements@.last());
                        assert(elements@.drop_last().push(elements@.last()) =~= elements@);
                        assert(elements_view(elements@).contains_key(
                            elements@.last().index as int,
                        ));
                    }
                }
                elements.len() == 0
            },
            None => false,
        };
        self.bytes && self.integer && self.float && self.boolean && self.timestamp && self.regex
            && self.null && open_object && open_array
    }

    /// What is known of the part that `segment` addresses, where anything is.
    fn step_ref(&self, segment: &Segment) -> (part: Option<&Kind>)
        ensures
            match part {
                Some(kind) => kind@ == self@.step(segment@),
                None => self@.step(segment@) == KindView::any(),
            },
    {
        if !self.is_exact() {
            return None;
        }
        match segment {
            Segment::Index(index) => match &self.array {
                Some(elements) => match find_element(elements, *index) {
                    Some(i) => Some(&elements[i].kind),
                    None => None,
                },
                None => None,
            },
            Segment::Field(name) => self.field_ref(name),
            Segment::Coalesce(first, _) => self.field_ref(first),
        }
    }

    /// What is known of the named field of an object, where anything is.
    fn field_ref(&self, name: &String) -> (part: Option<&Kind>)
        requires
            self@.shapes() == 1,
        ensures
            match part {
                Some(kind) => kind@ == self@.field(name@),
                None => self@.field(name@) == KindView::any(),
            },
    {
        match &self.object {
            Some(fields) => match find_field(fields, name) {
                Some(i) => Some(&fields[i].kind),
                None => None,
            },
            None => None,
        }
    }

    /// The kind of the part of a value of this kind that `path` addresses.
    /// Where nothing is known of that part, it is the kind of every value.
    pub fn at_path(&self, path: &Path) -> (kind: Kind)
        ensures
            kind@ == self@.at_path(path@),
    {
        let mut current: &Kind = self;
        let mut i: usize = 0;
        proof {
            assert(path@.skip(0) =~= path@);
        }
        while i < path.segments.len()
            invariant
                i <= path.segments.len(),
                current@.at_path(path@.skip(i as int)) == self@.at_path(path@),
            decreases path.segments.len() - i,
        {
            proof {
                assert(path@.skip(i as int)[0] == path.segments[i as int]@);
                assert(path@.skip(i as int).skip(1) =~= path@.skip(i + 1));
            }
            match current.step_ref(&path.segments[i]) {
                Some(part) => {
                    current = part;
                },
                None => {
                    proof {
                        lemma_any_at_path(path@.skip(i + 1));
                    }
                    return Kind::any();
                },
            }
            i += 1;
        }
        current.clone()
    }

    /// The kind of a value of this kind after a value of kind `leaf` has been
    /// written at `path`.
    pub fn with_type_inserted(self, path: &Path, leaf: Kind) -> (kind: Kind)
        ensures
            kind@ == self@.with_inserted(path@, leaf@),
    {
        proof {
            assert(path@.skip(0) =~= path@);
        }
        self.insert_from(path, 0, leaf)
    }

    fn insert_from(self, path: &Path, from: usize, leaf: Kind) -> (kind: Kind)
        requires
            from <= path.segments.len(),
        ensures
            kind@ == self@.with_inserted(path@.skip(from as int), leaf@),
        decreases path.segments.len() - from,
    {
        if from == path.segments.len() {
            return leaf;
        }
        let ghost rest = path@.skip(from as int);
        proof {
            assert(rest[0] == path.segments[from as int]@);
            assert(rest.skip(1) =~= path@.skip(from + 1));
        }
        match &path.segments[from] {
            Segment::Index(index) => {
                let exact = self.is_exact();
                let mut elements = match &self.array {
                    Some(elements) if exact => same_end(elements, *index),
                    _ => Vec::new(),
                };
                let ghost kept = elements@;
                match find_element(&elements, *index) {
                    Some(i) => {
                        let known = elements.remove(i);
                        let part = known.kind.insert_from(path, from + 1, leaf);
                        let element = Element { index: *index, kind: part };
                        proof {
                            lemma_elements_are_entries(kept);
                            lemma_elements_are_entries(kept.remove(i as int).push(element));
                            lemma_entries_replace(element_entries(kept), i as int, part@);
                            assert(element_entries(kept.remove(i as int).push(element))
                                =~= element_entries(kept).remove(i as int).push(
                                (*index as int, part@),
                            ));
                        }
                        elements.push(element);
                    },
                    None => {
                        let part = Kind::any().insert_from(path, from + 1, leaf);
                        let element = Element { index: *index, kind: part };
                        proof {
                            lemma_elements_push(kept, element);
                        }
                        elements.push(element);
                    },
                }
                Kind::array(elements)
            },
            Segment::Field(name) => self.insert_field(name, path, from, leaf),
            Segment::Coalesce(first, _) => self.insert_field(first, path, from, leaf),
        }
    }

    fn insert_field(self, name: &String, path: &Path, from: usize, leaf: Kind) -> (kind: Kind)
        requires
            from < path.segments.len(),
            path.segments[from as int]@.is_named(),
            path.segments[from as int]@.name() == name@,
        ensures
            kind@ == self@.with_inserted(path@.skip(from as int), leaf@),
        decreases path.segments.len() - from, 0int,
    {
        let ghost rest = path@.skip(from as int);
        proof {
            assert(rest[0] == path.segments[from as int]@);
            assert(rest.skip(1) =~= path@.skip(from + 1));
        }
        let mut fields = if self.is_exact() {
            match self.object {
                Some(fields) => fields,
                None => Vec::new(),
            }
        } else {
            Vec::new()
        };
        let ghost known = fields@;
        match find_field(&fields, name) {
            Some(i) => {
                let found = fields.remove(i);
                let part = found.kind.insert_from(path, from + 1, leaf);
                let field = Field { name: name.clone(), kind: part };
                proof {
                    lemma_fields_are_entries(known);
                    lemma_fields_are_entries(known.remove(i as int).push(field));
                    lemma_entries_replace(field_entries(known), i as int, part@);
                    assert(field_entries(known.remove(i as int).push(field)) =~= field_entries(
                        known,
                    ).remove(i as int).push((name@, part@)));
                }
                fields.push(field);
            },
            None => {
                let part = Kind::any().insert_from(path, from + 1, leaf);
                let field = Field { name: name.clone(), kind: part };
                proof {
                    lemma_fields_push(known, field);
                }
                fields.push(field);
            },
        }
        Kind::object(fields)
    }
}

/// Narrowing at a path gives back what was last written there.
pub proof fn lemma_insert_then_narrow(kind: KindView, path: Seq<SegmentView>, leaf: KindView)
    ensures
        kind.with_inserted(path, leaf).at_path(path) == leaf,
    decreases path.len(),
{
    if path.len() > 0 {
        lemma_insert_then_narrow(kind.step(path[0]), path.skip(1), leaf);
    }
}

} // verus!
