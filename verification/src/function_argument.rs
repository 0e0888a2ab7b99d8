//! The arguments of a function call.

use vstd::prelude::*;
use crate::ast::Node;
use crate::expr::Expr;
use crate::span::Span;

verus! {

/// The bit of a parameter's kind that stands for bytes.
pub const BYTES: u16 = 1;

/// A parameter that a function declares.
#[derive(Clone, Copy, Debug, PartialEq, Eq)]
pub struct Parameter {
    /// The name by which an argument can be given.
    pub keyword: &'static str,
    /// The kinds of value that the parameter accepts, one bit for each.
    pub kind: u16,
    /// Whether a call has to give the argument.
    pub required: bool,
}

/// An argument as it was written in a call: the expression, the keyword if
/// one was written, and the parameter that it was matched with, if it has
/// been matched.
#[derive(Debug)]
pub struct FunctionArgument {
    ident: Option<Node<String>>,
    parameter: Option<Parameter>,
    expr: Node<Expr>,
}

impl FunctionArgument {
    /// The keyword node, if a keyword was written.
    pub closed spec fn ident(&self) -> Option<Node<String>> {
        self.ident
    }

    /// The parameter that the argument has been matched with, if any.
    pub closed spec fn matched(&self) -> Option<Parameter> {
        self.parameter
    }

    /// The expression node.
    pub closed spec fn node(&self) -> Node<Expr> {
        self.expr
    }

    /// An argument that has not been matched with a parameter yet.
    pub fn new(ident: Option<Node<String>>, expr: Node<Expr>) -> (argument: FunctionArgument)
        ensures
            argument.ident() == ident,
            argument.matched() is None,
            argument.node() == expr,
    {
        FunctionArgument { ident, parameter: None, expr }
    }

    /// The keyword, if one was written.
    pub fn keyword(&self) -> (keyword: Option<&str>)
        ensures
            match keyword {
                Some(keyword) => self.ident() is Some && keyword@ == self.ident()->0.node@,
                None => self.ident() is None,
            },
    {
        match &self.ident {
            Some(node) => Some(node.inner().as_str()),
            None => None,
        }
    }

    /// The place of the keyword, if one was written.
    pub fn keyword_span(&self) -> (span: Option<Span>)
        ensures
            match span {
                Some(span) => self.ident() is Some && span == self.ident()->0.span,
                None => self.ident() is None,
            },
    {
        match &self.ident {
            Some(node) => Some(node.span()),
            None => None,
        }
    }

    /// The parameter that the argument has been matched with, if any.
    pub fn parameter(&self) -> (parameter: Option<Parameter>)
        ensures
            parameter == self.matched(),
    {
        self.parameter
    }

    /// The expression.
    pub fn expr(&self) -> (expr: &Expr)
        ensures
            *expr == self.node().node,
    {
        self.expr.inner()
    }

    /// The place of the expression.
    pub fn expr_span(&self) -> (span: Span)
        ensures
            span == self.node().span,
    {
        self.expr.span()
    }

    /// The expression node.
    pub fn as_node(&self) -> (node: &Node<Expr>)
        ensures
            *node == self.node(),
    {
        &self.expr
    }

    /// The argument as it is written in a program: its expression.
    pub fn render(&self) -> (text: String)
        ensures
            text@ == self.node().node@.text(),
    {
        self.expr.inner().render()
    }

    /// The expression, taken out of the argument.
    pub fn into_inner(self) -> (expr: Expr)
        ensures
            expr == self.node().node,
    {
        self.expr.into_inner()
    }
}

/// Whether the argument can stand for the parameter `keyword` when it is
/// the first to be asked: it is given under that keyword.
pub open spec fn is_keyword(argument: FunctionArgument, keyword: Seq<char>) -> bool {
    argument.ident() is Some && argument.ident()->0.node@ == keyword
}

/// Whether `position` is that of the argument that stands for the parameter
/// `keyword`: the first that is given under the keyword, and where there is
/// none, the first that is given without a keyword.
pub open spec fn is_required(
    arguments: Seq<FunctionArgument>,
    keyword: Seq<char>,
    position: int,
) -> bool {
    &&& 0 <= position < arguments.len()
    &&& {
        ||| {
            &&& is_keyword(arguments[position], keyword)
            &&& forall|j: int| 0 <= j < position ==> !is_keyword(#[trigger] arguments[j], keyword)
        }
        ||| {
            &&& arguments[position].ident() is None
            &&& forall|j: int|
                0 <= j < arguments.len() ==> !is_keyword(#[trigger] arguments[j], keyword)
            &&& forall|j: int| 0 <= j < position ==> (#[trigger] arguments[j]).ident() is Some
        }
    }
}

/// The position of the argument that stands for the parameter `keyword`,
/// if the call gives one.
pub fn required(arguments: &Vec<FunctionArgument>, keyword: &str) -> (position: Option<usize>)
    ensures
        match position {
            Some(i) => is_required(arguments@, keyword@, i as int),
            None => forall|j: int|
                0 <= j < arguments.len() ==> (#[trigger] arguments[j]).ident() is Some
                    && !is_keyword(arguments[j], keyword@),
        },
{
    let wanted = String::from_str(keyword);
    let mut i: usize = 0;
    while i < arguments.len()
        invariant
            i <= arguments.len(),
            wanted@ == keyword@,
            forall|j: int| 0 <= j < i ==> !is_keyword(#[trigger] arguments[j], keyword@),
        decreases arguments.len() - i,
    {
        let named = match arguments[i].keyword() {
            Some(given) => String::from_str(given) == wanted,
            None => false,
        };
        if named {
            return Some(i);
        }
        i += 1;
    }
    let mut i: usize = 0;
    while i < arguments.len()
        invariant
            i <= arguments.len(),
            forall|j: int|
                0 <= j < arguments.len() ==> !is_keyword(#[trigger] arguments[j], keyword@),
            forall|j: int| 0 <= j < i ==> (#[trigger] arguments[j]).ident() is Some,
        decreases arguments.len() - i,
    {
        if arguments[i].keyword().is_none() {
            return Some(i);
        }
        i += 1;
    }
    None
}

} // verus!
