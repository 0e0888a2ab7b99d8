//! The parsed form of an assignment, as the compilation takes it in.

use vstd::prelude::*;
use crate::path::{continuation_text, path_text, Path, SegmentView};
use crate::span::Span;

verus! {

/// A part of the program together with the place where it was read.
#[derive(Debug)]
pub struct Node<T> {
    pub span: Span,
    pub node: T,
}

impl<T> Node<T> {
    pub fn new(span: Span, node: T) -> (res: Node<T>)
        ensures
            res.span == span,
            res.node == node,
    {
        Node { span, node }
    }

    pub fn span(&self) -> (span: Span)
        ensures
            span == self.span,
    {
        self.span
    }

    pub fn start(&self) -> (start: usize)
        ensures
            start == self.span.start,
    {
        self.span.start
    }

    pub fn end(&self) -> (end: usize)
        ensures
            end == self.span.end,
    {
        self.span.end
    }

    pub fn inner(&self) -> (node: &T)
        ensures
            *node == self.node,
    {
        &self.node
    }

    pub fn into_inner(self) -> (node: T)
        ensures
            node == self.node,
    {
        self.node
    }

    pub fn take(self) -> (parts: (Span, T))
        ensures
            parts == (self.span, self.node),
    {
        (self.span, self.node)
    }
}

/// What a query reads from.
#[derive(Debug)]
pub enum QueryTarget {
    /// A variable.
    Internal(String),
    /// The record.
    External,
    /// The result of a function call, kept as it was written.
    FunctionCall(String),
    /// An object or array written out in the program, kept as it was written.
    Container(String),
}

/// A path into what a query target gives.
#[derive(Debug)]
pub struct Query {
    pub target: Node<QueryTarget>,
    pub path: Node<Path>,
}

/// The left-hand side of an assignment as it was parsed.
#[derive(Debug)]
pub enum AssignmentTarget {
    /// The placeholder `_`.
    Noop,
    Query(Query),
    /// A variable, with a path into it where one was written.
    Internal(String, Option<Path>),
    /// The record, with a path into it where one was written.
    External(Option<Path>),
}

/// A path that may have been left out, which then is the root.
pub open spec fn path_or_root(path: Option<Path>) -> Seq<SegmentView> {
    match path {
        Some(path) => path@,
        None => Seq::empty(),
    }
}

impl QueryTarget {
    /// The target as it is written in a program.
    pub open spec fn text(self) -> Seq<char> {
        match self {
            QueryTarget::Internal(ident) => ident@,
            QueryTarget::External => seq!['.'],
            QueryTarget::FunctionCall(written) => written@,
            QueryTarget::Container(written) => written@,
        }
    }
}

impl AssignmentTarget {
    /// The target as it is written in a program.
    pub open spec fn text(self) -> Seq<char> {
        match self {
            AssignmentTarget::Noop => seq!['_'],
            AssignmentTarget::Query(query) => match query.target.node {
                QueryTarget::External => seq!['.'] + path_text(query.path.node@),
                target => target.text() + continuation_text(query.path.node@),
            },
            AssignmentTarget::Internal(ident, path) => ident@ + continuation_text(
                path_or_root(path),
            ),
            AssignmentTarget::External(path) => seq!['.'] + path_text(path_or_root(path)),
        }
    }

    /// Whether this is the placeholder.
    pub fn is_noop(&self) -> (yes: bool)
        ensures
            yes == (self is Noop),
    {
        match self {
            AssignmentTarget::Noop => true,
            _ => false,
        }
    }

    /// The target as it is written in a program.
    pub fn render(&self) -> (text: String)
        ensures
            text@ == self.text(),
    {
        proof {
            reveal_strlit("_");
            reveal_strlit(".");
        }
        let mut out = String::new();
        match self {
            AssignmentTarget::Noop => {
                out.append("_");
            },
            AssignmentTarget::Query(query) => match &query.target.node {
                QueryTarget::External => {
                    out.append(".");
                    let path = query.path.node.render();
                    out.append(path.as_str());
                },
                QueryTarget::Internal(ident) => {
                    out.append(ident.as_str());
                    query.path.node.push_continuation(0, &mut out);
                    assert(query.path.node@.skip(0) =~= query.path.node@);
                },
                QueryTarget::FunctionCall(written) => {
                    out.append(written.as_str());
                    query.path.node.push_continuation(0, &mut out);
                    assert(query.path.node@.skip(0) =~= query.path.node@);
                },
                QueryTarget::Container(written) => {
                    out.append(written.as_str());
                    query.path.node.push_continuation(0, &mut out);
                    assert(query.path.node@.skip(0) =~= query.path.node@);
                },
            },
            AssignmentTarget::Internal(ident, path) => {
                out.append(ident.as_str());
                match path {
                    Some(path) => {
                        path.push_continuation(0, &mut out);
                        assert(path@.skip(0) =~= path@);
                    },
                    None => {},
                }
            },
            AssignmentTarget::External(path) => {
                out.append(".");
                match path {
                    Some(path) => {
                        let path = path.render();
                        out.append(path.as_str());
                    },
                    None => {},
                }
            },
        }
        assert(out@ =~= self.text());
        out
    }
}

} // verus!
