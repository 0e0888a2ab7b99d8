//! The expressions that can stand on the right-hand side of an assignment.

use vstd::prelude::*;
use crate::kind::KindView;
use crate::parse_syslog::{inner_kind, message_kind, parse_syslog, parsed, Clock};
use crate::path::{path_text, Path, SegmentView};
use crate::state::{Context, ExternalEnv, ExternalEnvView, LocalEnv};
use crate::type_def::{DetailsView, TypeDef, TypeDefView};
use crate::value::{Value, ValueView};

verus! {

/// The mathematical model of an [`Expr`].
pub ghost enum ExprView {
    Literal(ValueView, Seq<char>),
    Variable(Seq<char>),
    Query(Seq<SegmentView>),
    ParseSyslog(Box<ExprView>),
}

impl ExprView {
    /// The type of the expression where the variables and the record are
    /// known as given.
    pub open spec fn type_def(
        self,
        local: Map<Seq<char>, DetailsView>,
        external: ExternalEnvView,
    ) -> TypeDefView {
        match self {
            ExprView::ParseSyslog(_) => TypeDefView { kind: message_kind(), fallible: true },
            ExprView::Literal(value, _) => TypeDefView { kind: value.kind(), fallible: false },
            ExprView::Variable(ident) => if local.contains_key(ident) {
                local[ident].type_def
            } else {
                TypeDefView { kind: KindView { null: true, ..KindView::never() }, fallible: false }
            },
            ExprView::Query(path) => TypeDefView {
                kind: external.target.type_def.kind.at_path(path),
                fallible: false,
            },
        }
    }

    /// The value of the expression, where the program text fixes it.
    pub open spec fn constant(self) -> Option<ValueView> {
        match self {
            ExprView::Literal(value, _) => Some(value),
            _ => None,
        }
    }

    /// The expression as it is written in a program.
    pub open spec fn text(self) -> Seq<char>
        decreases self,
    {
        match self {
            ExprView::Literal(_, source) => source,
            ExprView::Variable(ident) => ident,
            ExprView::Query(path) => seq!['.'] + path_text(path),
            ExprView::ParseSyslog(value) => "parse_syslog("@ + value.text() + ")"@,
        }
    }

    /// What evaluating the expression gives on the given record and
    /// variables, at the given time: a value, or the message of a failure.
    pub open spec fn outcome(
        self,
        target: ValueView,
        variables: Map<Seq<char>, ValueView>,
        clock: Clock,
    ) -> Result<ValueView, Seq<char>>
        decreases self,
    {
        match self {
            ExprView::ParseSyslog(value) => match value.outcome(target, variables, clock) {
                Ok(value) => parsed(value, clock),
                Err(message) => Err(message),
            },
            ExprView::Literal(value, _) => Ok(value),
            ExprView::Variable(ident) => Ok(
                if variables.contains_key(ident) {
                    variables[ident]
                } else {
                    ValueView::Null
                },
            ),
            ExprView::Query(path) => Ok(target.fetched(path)),
        }
    }
}

/// An expression.
#[derive(Debug)]
pub enum Expr {
    /// A value written out in the program, with the text that it was written
    /// as.
    Literal(Value, String),
    /// The value of a variable; null where the variable is not set.
    Variable(String),
    /// The part of the record at a path; null where there is none.
    Query(Path),
    /// The object that the value of an expression, read as a syslog message,
    /// gives. Fails where the value is no text or the text no message.
    ParseSyslog(Box<Expr>),
}

/// The model of an expression.
pub open spec fn expr_view(expr: Expr) -> ExprView
    decreases expr,
{
    match expr {
        Expr::ParseSyslog(value) => ExprView::ParseSyslog(Box::new(expr_view(*value))),
        Expr::Literal(value, source) => ExprView::Literal(value@, source@),
        Expr::Variable(ident) => ExprView::Variable(ident@),
        Expr::Query(path) => ExprView::Query(path@),
    }
}

impl View for Expr {
    type V = ExprView;

    open spec fn view(&self) -> ExprView {
        expr_view(*self)
    }
}

impl Clone for Expr {
    fn clone(&self) -> (res: Expr)
        ensures
            res@ == self@,
        decreases self,
    {
        match self {
            Expr::ParseSyslog(value) => Expr::ParseSyslog(Box::new((**value).clone())),
            Expr::Literal(value, source) => Expr::Literal(value.clone(), source.clone()),
            Expr::Variable(ident) => Expr::Variable(ident.clone()),
            Expr::Query(path) => Expr::Query(path.clone()),
        }
    }
}

impl Expr {
    /// The type of the expression in the given environments.
    pub fn type_def(&self, local: &LocalEnv, external: &ExternalEnv) -> (type_def: TypeDef)
        ensures
            type_def@ == self@.type_def(local@, external@),
    {
        match self {
            Expr::ParseSyslog(_) => TypeDef::new(inner_kind()).fallible(),
            Expr::Literal(value, _) => TypeDef::new(value.kind()),
            Expr::Variable(ident) => match local.variable(ident) {
                Some(details) => details.type_def.clone(),
                None => TypeDef::null(),
            },
            Expr::Query(path) => TypeDef::new(external.target_kind().at_path(path)),
        }
    }

    /// The value of the expression, where the program text fixes it.
    pub fn as_value(&self) -> (value: Option<Value>)
        ensures
            match value {
                Some(value) => self@.constant() == Some(value@),
                None => self@.constant() is None,
            },
    {
        match self {
            Expr::Literal(value, _) => Some(value.clone()),
            _ => None,
        }
    }

    /// The expression as it is written in a program.
    pub fn render(&self) -> (text: String)
        ensures
            text@ == self@.text(),
        decreases self,
    {
        match self {
            Expr::ParseSyslog(value) => {
                let mut out = String::from_str("parse_syslog(");
                out.append(value.render().as_str());
                out.append(")");
                out
            },
            Expr::Literal(_, source) => source.clone(),
            Expr::Variable(ident) => ident.clone(),
            Expr::Query(path) => {
                proof {
                    reveal_strlit(".");
                }
                let mut out = String::new();
                out.append(".");
                let path = path.render();
                out.append(path.as_str());
                assert(out@ =~= self@.text());
                out
            },
        }
    }

    /// Evaluates the expression.
    pub fn resolve(&self, ctx: &Context) -> (res: Result<Value, String>)
        ensures
            match res {
                Ok(value) => self@.outcome(ctx.target@, ctx.state@, ctx.clock) == Ok::<
                    ValueView,
                    Seq<char>,
                >(value@),
                Err(message) => self@.outcome(ctx.target@, ctx.state@, ctx.clock) == Err::<
                    ValueView,
                    Seq<char>,
                >(message@),
            },
        decreases self,
    {
        match self {
            Expr::ParseSyslog(value) => match value.resolve(ctx) {
                Ok(value) => parse_syslog(&value, ctx.clock),
                Err(message) => Err(message),
            },
            Expr::Literal(value, _) => Ok(value.clone()),
            Expr::Variable(ident) => match ctx.state.variable(ident) {
                Some(value) => Ok(value.clone()),
                None => Ok(Value::Null),
            },
            Expr::Query(path) => Ok(ctx.target.get_by_path(path)),
        }
    }
}

} // verus!
