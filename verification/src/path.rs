//! Paths that address into nested objects and arrays.

use vstd::prelude::*;
use crate::text::{push_signed_decimal, signed_decimal};

verus! {

/// One step of a path.
#[derive(Debug, PartialEq, Eq, Hash)]
pub enum Segment {
    /// A named field of an object.
    Field(String),
    /// A choice among fields of an object: the first candidate, then the
    /// alternatives after it. A coalesce addresses its first candidate.
    Coalesce(String, Vec<String>),
    /// A position in an array; negative positions count from the end.
    Index(i64),
}

/// The mathematical model of a [`Segment`].
pub ghost enum SegmentView {
    Field(Seq<char>),
    Coalesce(Seq<char>, Seq<Seq<char>>),
    Index(int),
}

impl SegmentView {
    /// Whether the segment addresses into an object (as opposed to an array).
    pub open spec fn is_named(self) -> bool {
        !(self is Index)
    }

    /// The field that a named segment addresses.
    pub open spec fn name(self) -> Seq<char> {
        match self {
            SegmentView::Field(name) => name,
            SegmentView::Coalesce(first, _) => first,
            SegmentView::Index(_) => Seq::empty(),
        }
    }

    /// The position that an index segment addresses.
    pub open spec fn position(self) -> int {
        match self {
            SegmentView::Index(i) => i,
            _ => 0,
        }
    }

    /// The segment as it is written in a program: a field by its name, a
    /// coalesce as its candidates between round brackets, an index between
    /// square brackets.
    pub open spec fn text(self) -> Seq<char> {
        match self {
            SegmentView::Field(name) => name,
            SegmentView::Coalesce(first, others) => seq!['('] + first + alternatives_text(others)
                + seq![')'],
            SegmentView::Index(i) => seq!['['] + signed_decimal(i) + seq![']'],
        }
    }

    /// The segment as it is written behind what it addresses into: a named
    /// segment after a dot, an index as it is.
    pub open spec fn continuation(self) -> Seq<char> {
        if self.is_named() {
            seq!['.'] + self.text()
        } else {
            self.text()
        }
    }
}

/// The alternatives of a coalesce as written: each behind a bar.
pub open spec fn alternatives_text(names: Seq<Seq<char>>) -> Seq<char>
    decreases names.len(),
{
    if names.len() == 0 {
        Seq::empty()
    } else {
        alternatives_text(names.drop_last()) + seq![' ', '|', ' '] + names.last()
    }
}

/// The segments as written behind what they address into.
pub open spec fn continuation_text(path: Seq<SegmentView>) -> Seq<char>
    decreases path.len(),
{
    if path.len() == 0 {
        Seq::empty()
    } else {
        continuation_text(path.drop_last()) + path.last().continuation()
    }
}

/// The path as written on its own: no dot before the first segment.
pub open spec fn path_text(path: Seq<SegmentView>) -> Seq<char> {
    if path.len() == 0 {
        Seq::empty()
    } else {
        path[0].text() + continuation_text(path.skip(1))
    }
}

/// The views of a sequence of names.
pub open spec fn names_view(names: Seq<String>) -> Seq<Seq<char>> {
    names.map_values(|name: String| name@)
}

impl View for Segment {
    type V = SegmentView;

    open spec fn view(&self) -> SegmentView {
        match self {
            Segment::Field(name) => SegmentView::Field(name@),
            Segment::Coalesce(first, others) => SegmentView::Coalesce(first@, names_view(others@)),
            Segment::Index(i) => SegmentView::Index(*i as int),
        }
    }
}

/// The views of a sequence of segments.
pub open spec fn segments_view(segments: Seq<Segment>) -> Seq<SegmentView> {
    segments.map_values(|segment: Segment| segment@)
}

/// An ordered sequence of segments; the empty sequence is the root.
#[derive(Debug, PartialEq, Eq, Hash)]
pub struct Path {
    pub segments: Vec<Segment>,
}

impl View for Path {
    type V = Seq<SegmentView>;

    open spec fn view(&self) -> Seq<SegmentView> {
        segments_view(self.segments@)
    }
}

fn clone_names(names: &Vec<String>) -> (res: Vec<String>)
    ensures
        names_view(res@) == names_view(names@),
{
    let mut out: Vec<String> = Vec::new();
    let mut i: usize = 0;
    while i < names.len()
        invariant
            i <= names.len(),
            out@.len() == i,
            forall|j: int| 0 <= j < i ==> out@[j]@ == names@[j]@,
        decreases names.len() - i,
    {
        let name = names[i].clone();
        out.push(name);
        i += 1;
    }
    proof {
        assert(names_view(out@) =~= names_view(names@));
    }
    out
}

impl Clone for Segment {
    fn clone(&self) -> (res: Segment)
        ensures
            res@ == self@,
    {
        match self {
            Segment::Field(name) => Segment::Field(name.clone()),
            Segment::Coalesce(first, others) => Segment::Coalesce(
                first.clone(),
                clone_names(others),
            ),
            Segment::Index(i) => Segment::Index(*i),
        }
    }
}

fn same_names(left: &Vec<String>, right: &Vec<String>) -> (same: bool)
    ensures
        same == (names_view(left@) == names_view(right@)),
{
    if left.len() != right.len() {
        return false;
    }
    let mut i: usize = 0;
    while i < left.len()
        invariant
            i <= left.len() == right.len(),
            forall|j: int| 0 <= j < i ==> left@[j]@ == right@[j]@,
        decreases left.len() - i,
    {
        if left[i] != right[i] {
            proof {
                assert(names_view(left@)[i as int] == left@[i as int]@);
                assert(names_view(right@)[i as int] == right@[i as int]@);
            }
            return false;
        }
        i += 1;
    }
    proof {
        assert(names_view(left@) =~= names_view(right@));
    }
    true
}

impl Segment {
    /// Whether the two segments are the same.
    pub fn same(&self, other: &Segment) -> (same: bool)
        ensures
            same == (self@ == other@),
    {
        match self {
            Segment::Field(left) => match other {
                Segment::Field(right) => *left == *right,
                _ => false,
            },
            Segment::Coalesce(left, left_others) => match other {
                Segment::Coalesce(right, right_others) => *left == *right && same_names(
                    left_others,
                    right_others,
                ),
                _ => false,
            },
            Segment::Index(left) => match other {
                Segment::Index(right) => *left == *right,
                _ => false,
            },
        }
    }

    /// Appends the segment as it is written in a program.
    pub fn push_text(&self, out: &mut String)
        ensures
            final(out)@ == old(out)@ + self@.text(),
    {
        proof {
            reveal_strlit("(");
            reveal_strlit(")");
            reveal_strlit("[");
            reveal_strlit("]");
            reveal_strlit(" | ");
        }
        match self {
            Segment::Field(name) => {
                out.append(name.as_str());
            },
            Segment::Coalesce(first, others) => {
                out.append("(");
                out.append(first.as_str());
                let ghost start = out@;
                let mut i: usize = 0;
                while i < others.len()
                    invariant
                        i <= others.len(),
                        out@ == start + alternatives_text(
                            names_view(others@).subrange(0, i as int),
                        ),
                    decreases others.len() - i,
                {
                    proof {
                        assert(names_view(others@).subrange(0, i + 1).drop_last() =~= names_view(
                            others@,
                        ).subrange(0, i as int));
                        reveal_strlit(" | ");
                        assert(" | "@ =~= seq![' ', '|', ' ']);
                    }
                    out.append(" | ");
                    out.append(others[i].as_str());
                    i += 1;
                    assert(out@ =~= start + alternatives_text(
                        names_view(others@).subrange(0, i as int),
                    ));
                }
                proof {
                    assert(names_view(others@).subrange(0, others.len() as int) =~= names_view(
                        others@,
                    ));
                }
                out.append(")");
                assert(final(out)@ =~= old(out)@ + self@.text());
            },
            Segment::Index(i) => {
                out.append("[");
                push_signed_decimal(out, *i);
                out.append("]");
                assert(final(out)@ =~= old(out)@ + self@.text());
            },
        }
    }

    /// The segment as it is written in a program.
    pub fn render(&self) -> (text: String)
        ensures
            text@ == self@.text(),
    {
        let mut out = String::new();
        self.push_text(&mut out);
        assert(out@ =~= self@.text());
        out
    }

    /// Whether the segment addresses into an object.
    pub fn is_named(&self) -> (yes: bool)
        ensures
            yes == self@.is_named(),
    {
        match self {
            Segment::Index(_) => false,
            _ => true,
        }
    }
}

impl Clone for Path {
    fn clone(&self) -> (res: Path)
        ensures
            res@ == self@,
    {
        let res = self.prefix(self.segments.len());
        proof {
            assert(self@.take(self@.len() as int) =~= self@);
        }
        res
    }
}

impl Path {
    /// The empty path, which addresses the whole value.
    pub fn root() -> (path: Path)
        ensures
            path@ == Seq::<SegmentView>::empty(),
    {
        let path = Path { segments: Vec::new() };
        assert(path@ =~= Seq::<SegmentView>::empty());
        path
    }

    /// The path of the given segments.
    pub fn new(segments: Vec<Segment>) -> (path: Path)
        ensures
            path@ == segments_view(segments@),
    {
        Path { segments }
    }

    pub fn is_root(&self) -> (yes: bool)
        ensures
            yes == (self@.len() == 0),
    {
        self.segments.len() == 0
    }

    pub fn len(&self) -> (len: usize)
        ensures
            len == self@.len(),
    {
        self.segments.len()
    }

    /// Adds a segment at the end.
    pub fn push_back(&mut self, segment: Segment)
        ensures
            final(self)@ == old(self)@.push(segment@),
    {
        self.segments.push(segment);
        assert(final(self)@ =~= old(self)@.push(segment@));
    }

    /// Takes the last segment off, if there is one.
    pub fn pop_back(&mut self) -> (last: Option<Segment>)
        ensures
            match last {
                Some(segment) => {
                    &&& old(self)@.len() > 0
                    &&& segment@ == old(self)@.last()
                    &&& final(self)@ == old(self)@.drop_last()
                },
                None => old(self)@.len() == 0 && final(self)@ == old(self)@,
            },
    {
        let last = self.segments.pop();
        proof {
            if last is Some {
                assert(final(self)@ =~= old(self)@.drop_last());
            }
        }
        last
    }

    /// Whether this path begins with the segments of `prefix`.
    pub fn starts_with(&self, prefix: &Path) -> (yes: bool)
        ensures
            yes == prefix@.is_prefix_of(self@),
    {
        if prefix.segments.len() > self.segments.len() {
            return false;
        }
        let mut i: usize = 0;
        while i < prefix.segments.len()
            invariant
                i <= prefix.segments.len() <= self.segments.len(),
                forall|j: int| 0 <= j < i ==> self@[j] == prefix@[j],
            decreases prefix.segments.len() - i,
        {
            if !self.segments[i].same(&prefix.segments[i]) {
                proof {
                    assert(self@.subrange(0, prefix@.len() as int)[i as int] == self@[i as int]);
                }
                return false;
            }
            i += 1;
        }
        proof {
            assert(prefix@ =~= self@.subrange(0, prefix@.len() as int));
        }
        true
    }

    /// The path of the first `len` segments.
    pub fn prefix(&self, len: usize) -> (path: Path)
        requires
            len <= self@.len(),
        ensures
            path@ == self@.take(len as int),
    {
        let mut segments: Vec<Segment> = Vec::new();
        let mut i: usize = 0;
        while i < len
            invariant
                i <= len <= self.segments.len(),
                segments@.len() == i,
                forall|j: int| 0 <= j < i ==> segments@[j]@ == self.segments@[j]@,
            decreases len - i,
        {
            let segment = self.segments[i].clone();
            segments.push(segment);
            i += 1;
        }
        proof {
            assert(segments_view(segments@) =~= self@.take(len as int));
        }
        Path { segments }
    }

    /// Appends the segments from `from` on as written behind what they
    /// address into.
    pub fn push_continuation(&self, from: usize, out: &mut String)
        requires
            from <= self@.len(),
        ensures
            final(out)@ == old(out)@ + continuation_text(self@.skip(from as int)),
    {
        proof {
            reveal_strlit(".");
        }
        let mut i: usize = from;
        let ghost tail = self@.skip(from as int);
        while i < self.segments.len()
            invariant
                from <= i <= self.segments.len(),
                tail == self@.skip(from as int),
                out@ == old(out)@ + continuation_text(tail.take(i - from)),
            decreases self.segments.len() - i,
        {
            proof {
                assert(tail.take(i + 1 - from).drop_last() =~= tail.take(i - from));
                assert(tail.take(i + 1 - from).last() == self.segments[i as int]@);
                reveal_strlit(".");
                assert("."@ =~= seq!['.']);
            }
            if self.segments[i].is_named() {
                out.append(".");
            }
            self.segments[i].push_text(out);
            i += 1;
            assert(out@ =~= old(out)@ + continuation_text(tail.take(i - from)));
        }
        proof {
            assert(tail.take(self.segments.len() - from) =~= tail);
        }
    }

    /// The path as written on its own.
    pub fn render(&self) -> (text: String)
        ensures
            text@ == path_text(self@),
    {
        let mut out = String::new();
        if self.segments.len() > 0 {
            self.segments[0].push_text(&mut out);
            self.push_continuation(1, &mut out);
        }
        assert(out@ =~= path_text(self@));
        out
    }
}

} // verus!
