//! Assignments: their validation against what is statically known, their
//! effect on what is known, and their evaluation.

use vstd::prelude::*;
use crate::ast::{path_or_root, AssignmentTarget, Node, Query, QueryTarget};
use crate::error::{Container, Error, ErrorVariant, ErrorVariantView, ErrorView};
use crate::expr::{Expr, ExprView};
use crate::kind::{Kind, KindView};
use crate::parse_syslog::Clock;
use crate::path::{continuation_text, path_text, Path, SegmentView};
use crate::span::Span;
use crate::state::{
    touches, variable_written, Context, ExternalEnv, ExternalEnvView, LocalEnv,
};
use crate::text::byte_len;
use crate::type_def::{option_view, Details, DetailsView, TypeDef, TypeDefView};
use crate::value::{Value, ValueView};

verus! {

/// The mathematical model of a [`Target`].
pub ghost enum TargetView {
    Noop,
    Internal(Seq<char>, Seq<SegmentView>),
    External(Seq<SegmentView>),
}

impl TargetView {
    /// The path that the target addresses; the root for the placeholder.
    pub open spec fn path(self) -> Seq<SegmentView> {
        match self {
            TargetView::Noop => Seq::empty(),
            TargetView::Internal(_, path) => path,
            TargetView::External(path) => path,
        }
    }

    /// The target as it is written in a program.
    pub open spec fn text(self) -> Seq<char> {
        match self {
            TargetView::Noop => seq!['_'],
            TargetView::Internal(ident, path) => ident + continuation_text(path),
            TargetView::External(path) => seq!['.'] + path_text(path),
        }
    }

    /// What is known of the kind of the value that the target's path
    /// addresses into: the variable's kind, any kind for a variable that the
    /// program has not set, or the record's kind.
    pub open spec fn root_kind(
        self,
        local: Map<Seq<char>, DetailsView>,
        external: ExternalEnvView,
    ) -> KindView {
        match self {
            TargetView::Noop => KindView::any(),
            TargetView::Internal(ident, _) => if local.contains_key(ident) {
                local[ident].type_def.kind
            } else {
                KindView::any()
            },
            TargetView::External(_) => external.target.type_def.kind,
        }
    }

    /// The variables as they are known after a value of the given type, and
    /// with the given fixed value if any, has been assigned to the target.
    pub open spec fn local_after(
        self,
        local: Map<Seq<char>, DetailsView>,
        type_def: TypeDefView,
        value: Option<ValueView>,
    ) -> Map<Seq<char>, DetailsView> {
        match self {
            TargetView::Internal(ident, path) => {
                let known = if local.contains_key(ident) {
                    local[ident].type_def
                } else {
                    TypeDefView { kind: KindView { null: true, ..KindView::never() }, fallible: false }
                };
                local.insert(
                    ident,
                    DetailsView { type_def: known.with_inserted(path, type_def), value },
                )
            },
            _ => local,
        }
    }

    /// The record as it is known after a value of the given type, and with
    /// the given fixed value if any, has been assigned to the target.
    pub open spec fn external_after(
        self,
        external: ExternalEnvView,
        type_def: TypeDefView,
        value: Option<ValueView>,
    ) -> ExternalEnvView {
        match self {
            TargetView::External(path) => ExternalEnvView {
                target: DetailsView {
                    type_def: external.target.type_def.with_inserted(path, type_def),
                    value,
                },
                ..external
            },
            _ => external,
        }
    }

    /// The variables after `value` has been written to the target.
    pub open spec fn variables_after(
        self,
        variables: Map<Seq<char>, ValueView>,
        value: ValueView,
    ) -> Map<Seq<char>, ValueView> {
        match self {
            TargetView::Internal(ident, path) => variable_written(variables, ident, path, value),
            _ => variables,
        }
    }

    /// The record after `value` has been written to the target.
    pub open spec fn record_after(self, record: ValueView, value: ValueView) -> ValueView {
        match self {
            TargetView::External(path) => record.written(path, value),
            _ => record,
        }
    }
}

/// Where an assignment writes to.
#[derive(Debug, PartialEq, Eq, Hash)]
pub enum Target {
    /// Nowhere: the value is discarded.
    Noop,
    /// Into a variable, at a path.
    Internal(String, Path),
    /// Into the record, at a path.
    External(Path),
}

impl View for Target {
    type V = TargetView;

    open spec fn view(&self) -> TargetView {
        match self {
            Target::Noop => TargetView::Noop,
            Target::Internal(ident, path) => TargetView::Internal(ident@, path@),
            Target::External(path) => TargetView::External(path@),
        }
    }
}

impl Clone for Target {
    fn clone(&self) -> (res: Target)
        ensures
            res@ == self@,
    {
        match self {
            Target::Noop => Target::Noop,
            Target::Internal(ident, path) => Target::Internal(ident.clone(), path.clone()),
            Target::External(path) => Target::External(path.clone()),
        }
    }
}

/// What a parsed target resolves to: the target, or the refusal of a target
/// that is neither a variable nor the record.
pub open spec fn resolved_target(target: AssignmentTarget) -> Result<TargetView, ErrorView> {
    match target {
        AssignmentTarget::Noop => Ok(TargetView::Noop),
        AssignmentTarget::Query(query) => match query.target.node {
            QueryTarget::Internal(ident) => Ok(TargetView::Internal(ident@, query.path.node@)),
            QueryTarget::External => Ok(TargetView::External(query.path.node@)),
            _ => {
                let span = Span { start: query.target.span.start, end: query.path.span.end };
                Err(
                    ErrorView {
                        variant: ErrorVariantView::InvalidTarget(span),
                        expr_span: span,
                        assignment_span: span,
                    },
                )
            },
        },
        AssignmentTarget::Internal(ident, path) => Ok(
            TargetView::Internal(ident@, path_or_root(path)),
        ),
        AssignmentTarget::External(path) => Ok(TargetView::External(path_or_root(path))),
    }
}

impl Target {
    /// Resolves a parsed target.
    pub fn try_from(target: AssignmentTarget) -> (res: Result<Target, Error>)
        ensures
            match res {
                Ok(resolved) => resolved_target(target) == Ok::<TargetView, ErrorView>(resolved@),
                Err(error) => resolved_target(target) == Err::<TargetView, ErrorView>(error@),
            },
    {
        match target {
            AssignmentTarget::Noop => Ok(Target::Noop),
            AssignmentTarget::Query(query) => {
                let Query { target, path } = query;
                let (target_span, target) = target.take();
                let (path_span, path) = path.take();
                let span = Span::new(target_span.start(), path_span.end());
                match target {
                    QueryTarget::Internal(ident) => Ok(Target::Internal(ident, path)),
                    QueryTarget::External => Ok(Target::External(path)),
                    _ => Err(
                        Error {
                            variant: ErrorVariant::InvalidTarget(span),
                            expr_span: span,
                            assignment_span: span,
                        },
                    ),
                }
            },
            AssignmentTarget::Internal(ident, path) => Ok(
                Target::Internal(
                    ident,
                    match path {
                        Some(path) => path,
                        None => Path::root(),
                    },
                ),
            ),
            AssignmentTarget::External(path) => Ok(
                Target::External(
                    match path {
                        Some(path) => path,
                        None => Path::root(),
                    },
                ),
            ),
        }
    }

    /// The path that the target addresses; the root for the placeholder.
    pub fn lookup_buf(&self) -> (path: Path)
        ensures
            path@ == self@.path(),
    {
        match self {
            Target::Noop => Path::root(),
            Target::Internal(_, path) => path.clone(),
            Target::External(path) => path.clone(),
        }
    }

    /// The target as it is written in a program.
    pub fn render(&self) -> (text: String)
        ensures
            text@ == self@.text(),
    {
        proof {
            reveal_strlit("_");
            reveal_strlit(".");
        }
        let mut out = String::new();
        match self {
            Target::Noop => {
                out.append("_");
            },
            Target::Internal(ident, path) => {
                out.append(ident.as_str());
                path.push_continuation(0, &mut out);
                assert(path@.skip(0) =~= path@);
            },
            Target::External(path) => {
                out.append(".");
                let path = path.render();
                out.append(path.as_str());
            },
        }
        assert(out@ =~= self@.text());
        out
    }

    /// Whether the two targets are the same: the same variable or both the
    /// record, and the same path.
    pub fn same(&self, other: &Target) -> (same: bool)
        ensures
            same == (self@ == other@),
    {
        match self {
            Target::Noop => match other {
                Target::Noop => true,
                _ => false,
            },
            Target::Internal(ident, path) => match other {
                Target::Internal(other_ident, other_path) => {
                    proof {
                        if path@.len() == other_path@.len() && other_path@.is_prefix_of(path@) {
                            assert(path@ =~= other_path@);
                        }
                    }
                    *ident == *other_ident && path.len() == other_path.len() && path.starts_with(
                        other_path,
                    )
                },
                _ => false,
            },
            Target::External(path) => match other {
                Target::External(other_path) => {
                    proof {
                        if path@.len() == other_path@.len() && other_path@.is_prefix_of(path@) {
                            assert(path@ =~= other_path@);
                        }
                    }
                    path.len() == other_path.len() && path.starts_with(other_path)
                },
                _ => false,
            },
        }
    }

    /// Records, in what is known of the variables and of the record, that a
    /// value of the given type has been assigned to the target.
    pub fn insert_type_def(
        &self,
        local: &mut LocalEnv,
        external: &mut ExternalEnv,
        new_type_def: TypeDef,
        value: Option<Value>,
    )
        ensures
            final(local)@ == self@.local_after(old(local)@, new_type_def@, option_view(value)),
            final(external)@ == self@.external_after(
                old(external)@,
                new_type_def@,
                option_view(value),
            ),
    {
        match self {
            Target::Noop => {},
            Target::Internal(ident, path) => {
                let type_def = match local.variable(ident) {
                    None => TypeDef::null().with_type_inserted(path, new_type_def),
                    Some(details) => details.type_def.clone().with_type_inserted(
                        path,
                        new_type_def,
                    ),
                };
                local.insert_variable(ident.clone(), Details { type_def, value });
            },
            Target::External(path) => {
                let type_def = external.target().type_def.clone().with_type_inserted(
                    path,
                    new_type_def,
                );
                external.update_target(Details { type_def, value });
            },
        }
    }

    /// Writes `value` to the target.
    pub fn insert(&self, value: Value, ctx: &mut Context)
        ensures
            final(ctx).state@ == self@.variables_after(old(ctx).state@, value@),
            final(ctx).target@ == self@.record_after(old(ctx).target@, value@),
            final(ctx).clock == old(ctx).clock,
    {
        match self {
            Target::Noop => {},
            Target::Internal(ident, path) => {
                ctx.state.insert_by_path(ident.clone(), path, value);
            },
            Target::External(path) => {
                ctx.target.insert_by_path(path, value);
            },
        }
    }
}

/// The refusal of a write into a read-only region of the record, if the
/// target makes one.
pub open spec fn mutable_check(
    target: TargetView,
    external: ExternalEnvView,
    expr_span: Span,
    assignment_span: Span,
) -> Option<ErrorView> {
    match target {
        TargetView::External(path) if external.is_read_only(path) => Some(
            ErrorView { variant: ErrorVariantView::ReadOnly, expr_span, assignment_span },
        ),
        _ => None,
    }
}

/// Refuses a write into a read-only region of the record.
pub fn verify_mutable(
    target: &Target,
    external: &ExternalEnv,
    expr_span: Span,
    assignment_span: Span,
) -> (res: Result<(), Error>)
    ensures
        match res {
            Ok(_) => mutable_check(target@, external@, expr_span, assignment_span) is None,
            Err(error) => mutable_check(target@, external@, expr_span, assignment_span) == Some(
                error@,
            ),
        },
{
    match target {
        Target::External(path) => {
            if external.is_read_only_event_path(path) {
                Err(Error { variant: ErrorVariant::ReadOnly, expr_span, assignment_span })
            } else {
                Ok(())
            }
        },
        _ => Ok(()),
    }
}

/// Where a segment starts that ends where the text before it, of the given
/// place, ends: as many bytes before that end as the segment is long, and
/// not before the start of the source.
pub open spec fn segment_start(before: Span, segment: SegmentView) -> usize {
    let len = byte_len(segment.text());
    if len <= before.end {
        (before.end - len) as usize
    } else {
        0
    }
}

/// The place of a segment that ends where the text of the given place ends.
pub open spec fn segment_span(before: Span, segment: SegmentView) -> Span {
    Span { start: segment_start(before, segment), end: before.end }
}

/// The place of what is left of the text of the given place when the
/// segment at its end is taken off, together with the dot before a named
/// segment.
pub open spec fn parent_span(before: Span, segment: SegmentView) -> Span {
    let start = segment_start(before, segment);
    Span {
        start: before.start,
        end: if segment.is_named() && start > 0 {
            (start - 1) as usize
        } else {
            start
        },
    }
}

/// A segment that addresses into a value that cannot be the container it
/// needs.
pub ghost struct Rejection {
    /// The position of the segment in the path.
    pub at: int,
    pub variant: Container,
    pub parent_kind: KindView,
    pub parent_span: Span,
    pub segment_span: Span,
}

/// The container that a segment needs below it.
pub open spec fn needed(segment: SegmentView) -> Container {
    if segment.is_named() {
        Container::Object
    } else {
        Container::Array
    }
}

/// Whether a value of the given kind can be the container that the segment
/// needs below it.
pub open spec fn admits(parent: KindView, segment: SegmentView) -> bool {
    if segment.is_named() {
        parent.contains_object()
    } else {
        parent.contains_array()
    }
}

/// The last of the first `upto` segments of `path` that addresses into a
/// value which, going by `root`, cannot be the container it needs. `span` is
/// the place of those `upto` segments and what stands before them.
pub open spec fn last_rejection(
    root: KindView,
    path: Seq<SegmentView>,
    upto: nat,
    span: Span,
) -> Option<Rejection>
    decreases upto,
{
    if upto == 0 || upto > path.len() {
        None
    } else {
        let segment = path[upto - 1];
        let parent_kind = root.at_path(path.take(upto - 1));
        if admits(parent_kind, segment) {
            last_rejection(root, path, (upto - 1) as nat, parent_span(span, segment))
        } else {
            Some(
                Rejection {
                    at: upto - 1,
                    variant: needed(segment),
                    parent_kind,
                    parent_span: parent_span(span, segment),
                    segment_span: segment_span(span, segment),
                },
            )
        }
    }
}

/// The target's path up to the segment at `at`, as written.
pub open spec fn parent_text(target: TargetView, at: int) -> Seq<char> {
    match target {
        TargetView::Noop => Seq::empty(),
        TargetView::Internal(ident, path) => ident + continuation_text(path.take(at)),
        TargetView::External(path) => seq!['.'] + path_text(path.take(at)),
    }
}

/// The target's path from the segment at `at` on, as written behind the
/// text of the path before it.
pub open spec fn remainder_text(target: TargetView, at: int) -> Seq<char> {
    match target {
        TargetView::External(path) if at == 0 => path_text(path),
        _ => continuation_text(target.path().skip(at)),
    }
}

/// The refusal of a write through a path of which a segment addresses into
/// a value that cannot be the container it needs, if the target makes one.
pub open spec fn overwrite_check(
    target: TargetView,
    local: Map<Seq<char>, DetailsView>,
    external: ExternalEnvView,
    target_span: Span,
    expr_span: Span,
    assignment_span: Span,
    rhs_expr: Seq<char>,
) -> Option<ErrorView> {
    match last_rejection(
        target.root_kind(local, external),
        target.path(),
        target.path().len(),
        target_span,
    ) {
        Some(rejection) => Some(
            ErrorView {
                variant: ErrorVariantView::InvalidParentPathSegment {
                    variant: rejection.variant,
                    parent_kind: rejection.parent_kind,
                    parent_span: rejection.parent_span,
                    parent_str: parent_text(target, rejection.at),
                    segment_span: rejection.segment_span,
                    remainder_str: remainder_text(target, rejection.at),
                    rhs_expr,
                },
                expr_span,
                assignment_span,
            },
        ),
        None => None,
    }
}

/// Refuses a write through a path of which a segment addresses into a value
/// that is known not to be the container it needs: a field of what cannot be
/// an object, a position in what cannot be an array. The path is gone
/// through from its end, and the first such segment found is reported.
pub fn verify_overwriteable(
    target: &Target,
    local: &LocalEnv,
    external: &ExternalEnv,
    target_span: Span,
    expr_span: Span,
    assignment_span: Span,
    rhs_expr: &Expr,
) -> (res: Result<(), Error>)
    ensures
        match res {
            Ok(_) => overwrite_check(
                target@,
                local@,
                external@,
                target_span,
                expr_span,
                assignment_span,
                rhs_expr@.text(),
            ) is None,
            Err(error) => overwrite_check(
                target@,
                local@,
                external@,
                target_span,
                expr_span,
                assignment_span,
                rhs_expr@.text(),
            ) == Some(error@),
        },
{
    let path = target.lookup_buf();
    let root_kind = match target {
        Target::Noop => Kind::any(),
        Target::Internal(ident, _) => match local.variable(ident) {
            Some(details) => details.type_def.kind().clone(),
            None => Kind::any(),
        },
        Target::External(_) => external.target_kind().clone(),
    };
    let mut before = target_span;
    let mut upto: usize = path.len();
    while upto > 0
        invariant
            upto <= path@.len(),
            path@ == target@.path(),
            root_kind@ == target@.root_kind(local@, external@),
            last_rejection(root_kind@, path@, path@.len(), target_span) == last_rejection(
                root_kind@,
                path@,
                upto as nat,
                before,
            ),
        decreases upto,
    {
        let at: usize = upto - 1;
        let parent = path.prefix(at);
        let parent_kind = root_kind.at_path(&parent);
        let segment = &path.segments[at];
        let text = segment.render();
        let len = text.as_str().len();
        let start = if len <= before.end() {
            before.end() - len
        } else {
            0
        };
        let place = Span::new(start, before.end());
        let named = segment.is_named();
        let rest = Span::new(
            before.start(),
            if named && start > 0 {
                start - 1
            } else {
                start
            },
        );
        let valid = if named {
            parent_kind.contains_object()
        } else {
            parent_kind.contains_array()
        };
        proof {
            assert(path@[at as int] == segment@);
            assert(place == segment_span(before, segment@));
            assert(rest == parent_span(before, segment@));
        }
        if !valid {
            let variant = if named {
                Container::Object
            } else {
                Container::Array
            };
            let parent_str = render_parent(target, &parent);
            let remainder_str = render_remainder(target, &path, at);
            proof {
                assert(path@.take(at as int) == parent@);
            }
            return Err(
                Error {
                    variant: ErrorVariant::InvalidParentPathSegment {
                        variant,
                        parent_kind,
                        parent_span: rest,
                        parent_str,
                        segment_span: place,
                        remainder_str,
                        rhs_expr: rhs_expr.render(),
                    },
                    expr_span,
                    assignment_span,
                },
            );
        }
        before = rest;
        upto = at;
    }
    Ok(())
}

/// The target's path up to a segment, given as `parent`, as written.
fn render_parent(target: &Target, parent: &Path) -> (text: String)
    ensures
        text@ == match target@ {
            TargetView::Noop => Seq::<char>::empty(),
            TargetView::Internal(ident, _) => ident + continuation_text(parent@),
            TargetView::External(_) => seq!['.'] + path_text(parent@),
        },
{
    let mut out = String::new();
    match target {
        Target::Noop => {},
        Target::Internal(ident, _) => {
            out.append(ident.as_str());
            parent.push_continuation(0, &mut out);
            assert(parent@.skip(0) =~= parent@);
        },
        Target::External(_) => {
            proof {
                reveal_strlit(".");
            }
            out.append(".");
            let path = parent.render();
            out.append(path.as_str());
        },
    }
    assert(out@ =~= match target@ {
        TargetView::Noop => Seq::<char>::empty(),
        TargetView::Internal(ident, _) => ident + continuation_text(parent@),
        TargetView::External(_) => seq!['.'] + path_text(parent@),
    });
    out
}

/// The target's path from the segment at `at` on, as written behind the
/// text of the path before it.
fn render_remainder(target: &Target, path: &Path, at: usize) -> (text: String)
    requires
        path@ == target@.path(),
        at <= path@.len(),
    ensures
        text@ == remainder_text(target@, at as int),
{
    match target {
        Target::External(_) => {
            if at == 0 {
                return path.render();
            }
        },
        _ => {},
    }
    let mut out = String::new();
    path.push_continuation(at, &mut out);
    assert(out@ =~= continuation_text(path@.skip(at as int)));
    out
}

/// The two forms of an assignment, over what stands for a target and for an
/// expression.
#[derive(Debug)]
pub enum Variant<T, U> {
    /// `target = expr`
    Single { target: T, expr: Box<U> },
    /// `ok, err = expr`
    Infallible {
        ok: T,
        err: T,
        expr: Box<U>,
        /// The value that `ok` takes when the expression fails.
        default: Value,
    },
}

/// The mathematical model of an [`Assignment`].
pub ghost enum AssignmentView {
    Single { target: TargetView, expr: ExprView },
    Infallible { ok: TargetView, err: TargetView, expr: ExprView, default: ValueView },
}

/// A validated assignment.
#[derive(Debug)]
pub struct Assignment {
    variant: Variant<Target, Expr>,
}

impl View for Assignment {
    type V = AssignmentView;

    closed spec fn view(&self) -> AssignmentView {
        match self.variant {
            Variant::Single { target, expr } => AssignmentView::Single {
                target: target@,
                expr: expr@,
            },
            Variant::Infallible { ok, err, expr, default } => AssignmentView::Infallible {
                ok: ok@,
                err: err@,
                expr: expr@,
                default: default@,
            },
        }
    }
}

/// What checking a parsed target gives: the target, or the first refusal
/// among that of a target that is neither a variable nor the record, that of
/// a write into a read-only region, and that of a write through a value that
/// cannot be the container needed.
pub open spec fn checked_target(
    target: Node<AssignmentTarget>,
    local: Map<Seq<char>, DetailsView>,
    external: ExternalEnvView,
    expr_span: Span,
    mutation_span: Span,
    assignment_span: Span,
    rhs_expr: Seq<char>,
) -> Result<TargetView, ErrorView> {
    match resolved_target(target.node) {
        Err(error) => Err(error),
        Ok(resolved) => match mutable_check(resolved, external, expr_span, mutation_span) {
            Some(error) => Err(error),
            None => match overwrite_check(
                resolved,
                local,
                external,
                target.span,
                expr_span,
                assignment_span,
                rhs_expr,
            ) {
                Some(error) => Err(error),
                None => Ok(resolved),
            },
        },
    }
}

/// What a compilation gives: the assignment or its refusal, and what is
/// known of the variables and of the record afterwards.
pub ghost struct Compiled {
    pub result: Result<AssignmentView, ErrorView>,
    pub local: Map<Seq<char>, DetailsView>,
    pub external: ExternalEnvView,
}

/// The place of a single assignment up to its right-hand side.
pub open spec fn single_span(target_span: Span, expr_span: Span) -> Span {
    Span {
        start: target_span.start,
        end: if expr_span.start > 0 {
            (expr_span.start - 1) as usize
        } else {
            0
        },
    }
}

/// The type of what the second target of an assignment to two targets
/// takes: the message of a failure, or null.
pub open spec fn err_type_def() -> TypeDefView {
    TypeDefView {
        kind: KindView { bytes: true, null: true, ..KindView::never() },
        fallible: false,
    }
}

/// The compilation of `target = expr`.
pub open spec fn compiled_single(
    target: Node<AssignmentTarget>,
    expr: Node<Expr>,
    local: Map<Seq<char>, DetailsView>,
    external: ExternalEnvView,
    fallible_rhs: bool,
) -> Compiled {
    let type_def = expr.node@.type_def(local, external);
    let assignment_span = single_span(target.span, expr.span);
    let refused = |variant: ErrorVariantView|
        Compiled {
            result: Err(ErrorView { variant, expr_span: expr.span, assignment_span }),
            local,
            external,
        };
    if fallible_rhs || type_def.fallible {
        refused(ErrorVariantView::FallibleAssignment(target.node.text(), expr.node@.text()))
    } else if target.node is Noop {
        refused(ErrorVariantView::UnnecessaryNoop(target.span))
    } else {
        match checked_target(
            target,
            local,
            external,
            expr.span,
            assignment_span,
            assignment_span,
            expr.node@.text(),
        ) {
            Err(error) => Compiled { result: Err(error), local, external },
            Ok(resolved) => Compiled {
                result: Ok(AssignmentView::Single { target: resolved, expr: expr.node@ }),
                local: resolved.local_after(local, type_def, expr.node@.constant()),
                external: resolved.external_after(external, type_def, expr.node@.constant()),
            },
        }
    }
}

/// The compilation of `ok, err = expr`.
pub open spec fn compiled_infallible(
    ok: Node<AssignmentTarget>,
    err: Node<AssignmentTarget>,
    expr: Node<Expr>,
    local: Map<Seq<char>, DetailsView>,
    external: ExternalEnvView,
) -> Compiled {
    let type_def = expr.node@.type_def(local, external);
    let assignment_span = Span { start: ok.span.start, end: err.span.end };
    let refused = |variant: ErrorVariantView|
        Compiled {
            result: Err(ErrorView { variant, expr_span: expr.span, assignment_span }),
            local,
            external,
        };
    if !type_def.fallible {
        refused(
            ErrorVariantView::InfallibleAssignment(
                ok.node.text(),
                expr.node@.text(),
                ok.span,
                err.span,
            ),
        )
    } else if ok.node is Noop && err.node is Noop {
        refused(ErrorVariantView::UnnecessaryNoop(ok.span))
    } else {
        match checked_target(
            ok,
            local,
            external,
            expr.span,
            ok.span,
            assignment_span,
            expr.node@.text(),
        ) {
            Err(error) => Compiled { result: Err(error), local, external },
            Ok(ok_target) => {
                let ok_type_def = TypeDefView { fallible: false, ..type_def };
                let local = ok_target.local_after(local, ok_type_def, expr.node@.constant());
                let external = ok_target.external_after(
                    external,
                    ok_type_def,
                    expr.node@.constant(),
                );
                match checked_target(
                    err,
                    local,
                    external,
                    expr.span,
                    err.span,
                    assignment_span,
                    expr.node@.text(),
                ) {
                    Err(error) => Compiled { result: Err(error), local, external },
                    Ok(err_target) => Compiled {
                        result: Ok(
                            AssignmentView::Infallible {
                                ok: ok_target,
                                err: err_target,
                                expr: expr.node@,
                                default: ValueView::default_of(type_def.kind),
                            },
                        ),
                        local: err_target.local_after(local, err_type_def(), None),
                        external: err_target.external_after(external, err_type_def(), None),
                    },
                }
            },
        }
    }
}

/// The compilation of a parsed assignment where the variables and the
/// record are known as given. `fallible_rhs` says that the right-hand side
/// is already known to be able to fail.
pub open spec fn compiled(
    node: Node<Variant<Node<AssignmentTarget>, Node<Expr>>>,
    local: Map<Seq<char>, DetailsView>,
    external: ExternalEnvView,
    fallible_rhs: bool,
) -> Compiled {
    match node.node {
        Variant::Single { target, expr } => compiled_single(
            target,
            *expr,
            local,
            external,
            fallible_rhs,
        ),
        Variant::Infallible { ok, err, expr, default } => compiled_infallible(
            ok,
            err,
            *expr,
            local,
            external,
        ),
    }
}

/// Resolves a parsed target and checks that the assignment may write to it.
fn check_target(
    target: Node<AssignmentTarget>,
    local: &LocalEnv,
    external: &ExternalEnv,
    expr_span: Span,
    mutation_span: Span,
    assignment_span: Span,
    rhs_expr: &Expr,
) -> (res: Result<Target, Error>)
    ensures
        match res {
            Ok(resolved) => checked_target(
                target,
                local@,
                external@,
                expr_span,
                mutation_span,
                assignment_span,
                rhs_expr@.text(),
            ) == Ok::<TargetView, ErrorView>(resolved@),
            Err(error) => checked_target(
                target,
                local@,
                external@,
                expr_span,
                mutation_span,
                assignment_span,
                rhs_expr@.text(),
            ) == Err::<TargetView, ErrorView>(error@),
        },
{
    let (target_span, target) = target.take();
    let resolved = match Target::try_from(target) {
        Ok(resolved) => resolved,
        Err(error) => {
            return Err(error);
        },
    };
    match verify_mutable(&resolved, external, expr_span, mutation_span) {
        Ok(_) => {},
        Err(error) => {
            return Err(error);
        },
    }
    match verify_overwriteable(
        &resolved,
        local,
        external,
        target_span,
        expr_span,
        assignment_span,
        rhs_expr,
    ) {
        Ok(_) => {},
        Err(error) => {
            return Err(error);
        },
    }
    Ok(resolved)
}

impl Assignment {
    /// Compiles a parsed assignment: checks it against what is known of the
    /// variables and of the record, and records what it changes of that.
    ///
    /// `target = expr` is refused where the expression can fail, or is
    /// already known to (`fallible_rhs`); where the target is the
    /// placeholder; and where the target cannot be written to. `ok, err =
    /// expr` is refused where the expression cannot fail; where both targets
    /// are the placeholder; and where one of them cannot be written to.
    /// What the first target changes stays recorded when the second is
    /// refused.
    pub fn new(
        node: Node<Variant<Node<AssignmentTarget>, Node<Expr>>>,
        local: &mut LocalEnv,
        external: &mut ExternalEnv,
        fallible_rhs: bool,
    ) -> (res: Result<Assignment, Error>)
        ensures
            final(local)@ == compiled(node, old(local)@, old(external)@, fallible_rhs).local,
            final(external)@ == compiled(node, old(local)@, old(external)@, fallible_rhs).external,
            match res {
                Ok(assignment) => compiled(node, old(local)@, old(external)@, fallible_rhs).result
                    == Ok::<AssignmentView, ErrorView>(assignment@),
                Err(error) => compiled(node, old(local)@, old(external)@, fallible_rhs).result
                    == Err::<AssignmentView, ErrorView>(error@),
            },
    {
        let (_, variant) = node.take();
        match variant {
            Variant::Single { target, expr } => {
                let target_span = target.span();
                let expr_span = expr.span();
                let assignment_span = Span::new(
                    target_span.start(),
                    if expr_span.start() > 0 {
                        expr_span.start() - 1
                    } else {
                        0
                    },
                );
                let type_def = expr.inner().type_def(local, external);
                if fallible_rhs || type_def.is_fallible() {
                    return Err(
                        Error {
                            variant: ErrorVariant::FallibleAssignment(
                                target.inner().render(),
                                expr.inner().render(),
                            ),
                            expr_span,
                            assignment_span,
                        },
                    );
                }
                if target.inner().is_noop() {
                    return Err(
                        Error {
                            variant: ErrorVariant::UnnecessaryNoop(target_span),
                            expr_span,
                            assignment_span,
                        },
                    );
                }
                let expr = (*expr).into_inner();
                let target = match check_target(
                    target,
                    local,
                    external,
                    expr_span,
                    assignment_span,
                    assignment_span,
                    &expr,
                ) {
                    Ok(target) => target,
                    Err(error) => {
                        return Err(error);
                    },
                };
                let value = expr.as_value();
                target.insert_type_def(local, external, type_def, value);
                Ok(Assignment { variant: Variant::Single { target, expr: Box::new(expr) } })
            },
            Variant::Infallible { ok, err, expr, default: _ } => {
                let ok_span = ok.span();
                let err_span = err.span();
                let expr_span = expr.span();
                let assignment_span = Span::new(ok_span.start(), err_span.end());
                let type_def = expr.inner().type_def(local, external);
                if type_def.is_infallible() {
                    return Err(
                        Error {
                            variant: ErrorVariant::InfallibleAssignment(
                                ok.inner().render(),
                                expr.inner().render(),
                                ok_span,
                                err_span,
                            ),
                            expr_span,
                            assignment_span,
                        },
                    );
                }
                if ok.inner().is_noop() && err.inner().is_noop() {
                    return Err(
                        Error {
                            variant: ErrorVariant::UnnecessaryNoop(ok_span),
                            expr_span,
                            assignment_span,
                        },
                    );
                }
                let expr = (*expr).into_inner();
                let ok = match check_target(
                    ok,
                    local,
                    external,
                    expr_span,
                    ok_span,
                    assignment_span,
                    &expr,
                ) {
                    Ok(target) => target,
                    Err(error) => {
                        return Err(error);
                    },
                };
                let type_def = type_def.infallible();
                let default = type_def.default_value();
                let value = expr.as_value();
                ok.insert_type_def(local, external, type_def, value);
                let err = match check_target(
                    err,
                    local,
                    external,
                    expr_span,
                    err_span,
                    assignment_span,
                    &expr,
                ) {
                    Ok(target) => target,
                    Err(error) => {
                        return Err(error);
                    },
                };
                let type_def = TypeDef::bytes().add_null().infallible();
                err.insert_type_def(local, external, type_def, None);
                Ok(
                    Assignment {
                        variant: Variant::Infallible { ok, err, expr: Box::new(expr), default },
                    },
                )
            },
        }
    }

    /// The targets of the assignment: one, or the two of `ok, err = expr` in
    /// that order.
    pub fn targets(&self) -> (targets: Vec<Target>)
        ensures
            match self@ {
                AssignmentView::Single { target, .. } => targets@.len() == 1 && targets@[0]@
                    == target,
                AssignmentView::Infallible { ok, err, .. } => targets@.len() == 2 && targets@[0]@
                    == ok && targets@[1]@ == err,
            },
    {
        let mut targets: Vec<Target> = Vec::with_capacity(2);
        match &self.variant {
            Variant::Single { target, .. } => {
                targets.push(target.clone());
            },
            Variant::Infallible { ok, err, .. } => {
                targets.push(ok.clone());
                targets.push(err.clone());
            },
        }
        targets
    }
}

/// What an evaluation gives: the value or the message of a failure, and
/// the record and the variables afterwards.
pub ghost struct Evaluated {
    pub result: Result<ValueView, Seq<char>>,
    pub record: ValueView,
    pub variables: Map<Seq<char>, ValueView>,
}

/// The record and the variables after `value` has been written to `target`,
/// under the given result.
pub open spec fn written_to(
    target: TargetView,
    value: ValueView,
    before: Evaluated,
) -> Evaluated {
    Evaluated {
        record: target.record_after(before.record, value),
        variables: target.variables_after(before.variables, value),
        ..before
    }
}

/// The message of a failure as the value that the second target takes: the
/// bytes of its text.
pub open spec fn message_value(message: Seq<char>) -> ValueView {
    ValueView::Bytes(vstd::utf8::encode_utf8(message))
}

impl AssignmentView {
    /// The right-hand side.
    pub open spec fn expr(self) -> ExprView {
        match self {
            AssignmentView::Single { expr, .. } => expr,
            AssignmentView::Infallible { expr, .. } => expr,
        }
    }

    /// The evaluation of the assignment on the given record and variables.
    ///
    /// `target = expr` writes the value of the expression to the target and
    /// gives that value; where the expression fails nothing is written and
    /// the failure is given. `ok, err = expr` never fails: where the
    /// expression gives a value, `ok` takes it and `err` takes null; where it
    /// fails, `ok` takes the default and `err` the message; the value given
    /// is the one that the expression gave, or the message.
    pub open spec fn evaluated(
        self,
        record: ValueView,
        variables: Map<Seq<char>, ValueView>,
        clock: Clock,
    ) -> Evaluated {
        let outcome = self.expr().outcome(record, variables, clock);
        let before = Evaluated { result: outcome, record, variables };
        match self {
            AssignmentView::Single { target, .. } => match outcome {
                Ok(value) => written_to(target, value, before),
                Err(_) => before,
            },
            AssignmentView::Infallible { ok, err, default, .. } => match outcome {
                Ok(value) => written_to(err, ValueView::Null, written_to(ok, value, before)),
                Err(message) => written_to(
                    err,
                    message_value(message),
                    written_to(
                        ok,
                        default,
                        Evaluated { result: Ok(message_value(message)), ..before },
                    ),
                ),
            },
        }
    }

    /// The type of the value that the assignment gives: that of the
    /// expression for `target = expr`; for `ok, err = expr` the kind of the
    /// expression or bytes, and no failure.
    pub open spec fn type_def(
        self,
        local: Map<Seq<char>, DetailsView>,
        external: ExternalEnvView,
    ) -> TypeDefView {
        let type_def = self.expr().type_def(local, external);
        match self {
            AssignmentView::Single { .. } => type_def,
            AssignmentView::Infallible { .. } => TypeDefView {
                kind: KindView { bytes: true, ..type_def.kind },
                fallible: false,
            },
        }
    }

    /// The assignment as it is written in a program.
    pub open spec fn text(self) -> Seq<char> {
        match self {
            AssignmentView::Single { target, expr } => target.text() + " = "@ + expr.text(),
            AssignmentView::Infallible { ok, err, expr, .. } => ok.text() + ", "@ + err.text()
                + " = "@ + expr.text(),
        }
    }
}

impl Assignment {
    /// Evaluates the assignment: evaluates the right-hand side once and
    /// writes to the targets.
    pub fn resolve(&self, ctx: &mut Context) -> (res: Result<Value, String>)
        ensures
            final(ctx).clock == old(ctx).clock,
            final(ctx).target@ == self@.evaluated(
                old(ctx).target@,
                old(ctx).state@,
                old(ctx).clock,
            ).record,
            final(ctx).state@ == self@.evaluated(
                old(ctx).target@,
                old(ctx).state@,
                old(ctx).clock,
            ).variables,
            match res {
                Ok(value) => self@.evaluated(
                    old(ctx).target@,
                    old(ctx).state@,
                    old(ctx).clock,
                ).result == Ok::<ValueView, Seq<char>>(value@),
                Err(message) => self@.evaluated(
                    old(ctx).target@,
                    old(ctx).state@,
                    old(ctx).clock,
                ).result == Err::<ValueView, Seq<char>>(message@),
            },
    {
        match &self.variant {
            Variant::Single { target, expr } => {
                match expr.resolve(ctx) {
                    Ok(value) => {
                        target.insert(value.clone(), ctx);
                        Ok(value)
                    },
                    Err(message) => Err(message),
                }
            },
            Variant::Infallible { ok, err, expr, default } => {
                match expr.resolve(ctx) {
                    Ok(value) => {
                        ok.insert(value.clone(), ctx);
                        err.insert(Value::Null, ctx);
                        Ok(value)
                    },
                    Err(message) => {
                        ok.insert(default.clone(), ctx);
                        let value = Value::Bytes(message.as_str().as_bytes_vec());
                        err.insert(value.clone(), ctx);
                        Ok(value)
                    },
                }
            },
        }
    }

    /// The type of the value that the assignment gives.
    pub fn type_def(&self, local: &LocalEnv, external: &ExternalEnv) -> (type_def: TypeDef)
        ensures
            type_def@ == self@.type_def(local@, external@),
    {
        match &self.variant {
            Variant::Single { expr, .. } => expr.type_def(local, external),
            Variant::Infallible { expr, .. } => expr.type_def(local, external).add_bytes().infallible(),
        }
    }

    /// The assignment as it is written in a program.
    pub fn render(&self) -> (text: String)
        ensures
            text@ == self@.text(),
    {
        let mut out = String::new();
        match &self.variant {
            Variant::Single { target, expr } => {
                out.append(target.render().as_str());
                out.append(" = ");
                out.append(expr.render().as_str());
            },
            Variant::Infallible { ok, err, expr, .. } => {
                out.append(ok.render().as_str());
                out.append(", ");
                out.append(err.render().as_str());
                out.append(" = ");
                out.append(expr.render().as_str());
            },
        }
        assert(out@ =~= self@.text());
        out
    }
}

/// `target = expr` is refused as an unhandled fallible assignment wherever
/// the expression can fail or is already known to, whatever the target is;
/// nothing is recorded.
pub proof fn lemma_fallible_single_is_refused(
    target: Node<AssignmentTarget>,
    expr: Node<Expr>,
    local: Map<Seq<char>, DetailsView>,
    external: ExternalEnvView,
    fallible_rhs: bool,
)
    requires
        fallible_rhs || expr.node@.type_def(local, external).fallible,
    ensures
        compiled_single(target, expr, local, external, fallible_rhs).result == Err::<
            AssignmentView,
            ErrorView,
        >(
            ErrorView {
                variant: ErrorVariantView::FallibleAssignment(target.node.text(), expr.node@.text()),
                expr_span: expr.span,
                assignment_span: single_span(target.span, expr.span),
            },
        ),
        compiled_single(target, expr, local, external, fallible_rhs).local == local,
        compiled_single(target, expr, local, external, fallible_rhs).external == external,
{
}

/// `ok, err = expr` is refused as an unnecessary error assignment wherever
/// the expression cannot fail, whatever the targets are; nothing is
/// recorded.
pub proof fn lemma_infallible_pair_is_refused(
    ok: Node<AssignmentTarget>,
    err: Node<AssignmentTarget>,
    expr: Node<Expr>,
    local: Map<Seq<char>, DetailsView>,
    external: ExternalEnvView,
)
    requires
        !expr.node@.type_def(local, external).fallible,
    ensures
        compiled_infallible(ok, err, expr, local, external).result matches Err(error)
            && error.variant is InfallibleAssignment,
        compiled_infallible(ok, err, expr, local, external).local == local,
        compiled_infallible(ok, err, expr, local, external).external == external,
{
}

/// `ok, err = expr` with the placeholder for one target and a variable for
/// the other is accepted wherever the expression can fail.
pub proof fn lemma_partial_noop_is_accepted(
    ok: Node<AssignmentTarget>,
    err: Node<AssignmentTarget>,
    expr: Node<Expr>,
    ident: String,
    local: Map<Seq<char>, DetailsView>,
    external: ExternalEnvView,
)
    requires
        expr.node@.type_def(local, external).fallible,
        (ok.node is Noop && err.node == AssignmentTarget::Internal(ident, None)) || (ok.node
            == AssignmentTarget::Internal(ident, None) && err.node is Noop),
    ensures
        compiled_infallible(ok, err, expr, local, external).result is Ok,
{
}

/// A write into the record at a path that begins with a read-only region is
/// refused as a mutation of a read-only value, whatever is known of the
/// kinds along the path.
pub proof fn lemma_read_only_is_refused(
    target: Node<AssignmentTarget>,
    path: Seq<SegmentView>,
    region: int,
    local: Map<Seq<char>, DetailsView>,
    external: ExternalEnvView,
    expr_span: Span,
    mutation_span: Span,
    assignment_span: Span,
    rhs_expr: Seq<char>,
)
    requires
        resolved_target(target.node) == Ok::<TargetView, ErrorView>(TargetView::External(path)),
        0 <= region < external.read_only.len(),
        external.read_only[region].is_prefix_of(path),
    ensures
        checked_target(
            target,
            local,
            external,
            expr_span,
            mutation_span,
            assignment_span,
            rhs_expr,
        ) == Err::<TargetView, ErrorView>(
            ErrorView {
                variant: ErrorVariantView::ReadOnly,
                expr_span,
                assignment_span: mutation_span,
            },
        ),
{
    assert(touches(external.read_only[region], path));
}

/// `target = expr` into a read-only region of the record, with an
/// expression that cannot fail, is refused as a mutation of a read-only
/// value.
pub proof fn lemma_read_only_single_is_refused(
    target: Node<AssignmentTarget>,
    expr: Node<Expr>,
    path: Seq<SegmentView>,
    region: int,
    local: Map<Seq<char>, DetailsView>,
    external: ExternalEnvView,
)
    requires
        resolved_target(target.node) == Ok::<TargetView, ErrorView>(TargetView::External(path)),
        0 <= region < external.read_only.len(),
        external.read_only[region].is_prefix_of(path),
        !expr.node@.type_def(local, external).fallible,
    ensures
        compiled_single(target, expr, local, external, false).result matches Err(error)
            && error.variant is ReadOnly,
{
    let span = single_span(target.span, expr.span);
    lemma_read_only_is_refused(
        target,
        path,
        region,
        local,
        external,
        expr.span,
        span,
        span,
        expr.node@.text(),
    );
}

/// A write through a path of which every segment addresses into a value
/// that may be the container it needs is not refused for its path.
pub proof fn lemma_admitted_path_is_accepted(
    root: KindView,
    path: Seq<SegmentView>,
    upto: nat,
    span: Span,
)
    requires
        upto <= path.len(),
        forall|i: int| 0 <= i < upto ==> admits(root.at_path(path.take(i)), #[trigger] path[i]),
    ensures
        last_rejection(root, path, upto, span) is None,
    decreases upto,
{
    if upto > 0 {
        lemma_admitted_path_is_accepted(
            root,
            path,
            (upto - 1) as nat,
            parent_span(span, path[upto - 1]),
        );
    }
}

/// The segment that a write is refused for is the last of the path that
/// addresses into a value which cannot be the container it needs; it is
/// reported with that container and with what is known of the value.
pub proof fn lemma_rejection_is_last(
    root: KindView,
    path: Seq<SegmentView>,
    upto: nat,
    span: Span,
)
    requires
        upto <= path.len(),
        last_rejection(root, path, upto, span) is Some,
    ensures
        ({
            let rejection = last_rejection(root, path, upto, span)->0;
            &&& 0 <= rejection.at < upto
            &&& !admits(root.at_path(path.take(rejection.at)), path[rejection.at])
            &&& forall|i: int|
                rejection.at < i < upto ==> admits(root.at_path(path.take(i)), #[trigger] path[i])
            &&& rejection.variant == needed(path[rejection.at])
            &&& rejection.parent_kind == root.at_path(path.take(rejection.at))
        }),
    decreases upto,
{
    if upto > 0 {
        let segment = path[upto - 1];
        if admits(root.at_path(path.take(upto - 1)), segment) {
            lemma_rejection_is_last(root, path, (upto - 1) as nat, parent_span(span, segment));
        }
    }
}

/// An expression whose type says that it cannot fail gives a value.
pub proof fn lemma_infallible_expr_gives_value(
    expr: ExprView,
    local: Map<Seq<char>, DetailsView>,
    external: ExternalEnvView,
    record: ValueView,
    variables: Map<Seq<char>, ValueView>,
    clock: Clock,
)
    requires
        !expr.type_def(local, external).fallible,
    ensures
        expr.outcome(record, variables, clock) is Ok,
{
}

/// An assignment `ok, err = expr` never fails when it is evaluated: where
/// the expression gives a value, `ok` takes it and `err` takes null; where
/// the expression fails, `ok` takes the default and `err` takes the message
/// of the failure as bytes.
pub proof fn lemma_infallible_never_fails(
    ok: TargetView,
    err: TargetView,
    expr: ExprView,
    default: ValueView,
    record: ValueView,
    variables: Map<Seq<char>, ValueView>,
    clock: Clock,
)
    ensures
        ({
            let assignment = AssignmentView::Infallible { ok, err, expr, default };
            let evaluated = assignment.evaluated(record, variables, clock);
            match expr.outcome(record, variables, clock) {
                Ok(value) => {
                    &&& evaluated.result == Ok::<ValueView, Seq<char>>(value)
                    &&& evaluated.record == err.record_after(
                        ok.record_after(record, value),
                        ValueView::Null,
                    )
                    &&& evaluated.variables == err.variables_after(
                        ok.variables_after(variables, value),
                        ValueView::Null,
                    )
                },
                Err(message) => {
                    &&& evaluated.result == Ok::<ValueView, Seq<char>>(message_value(message))
                    &&& message_value(message) is Bytes
                    &&& evaluated.record == err.record_after(
                        ok.record_after(record, default),
                        message_value(message),
                    )
                    &&& evaluated.variables == err.variables_after(
                        ok.variables_after(variables, default),
                        message_value(message),
                    )
                },
            }
        }),
{
}

/// An assignment `target = expr` that was compiled never fails when it is
/// evaluated.
pub proof fn lemma_compiled_single_never_fails(
    target: Node<AssignmentTarget>,
    expr: Node<Expr>,
    local: Map<Seq<char>, DetailsView>,
    external: ExternalEnvView,
    fallible_rhs: bool,
    record: ValueView,
    variables: Map<Seq<char>, ValueView>,
    clock: Clock,
)
    requires
        compiled_single(target, expr, local, external, fallible_rhs).result is Ok,
    ensures
        compiled_single(target, expr, local, external, fallible_rhs).result->Ok_0.evaluated(
            record,
            variables,
            clock,
        ).result is Ok,
{
    lemma_infallible_expr_gives_value(expr.node@, local, external, record, variables, clock);
}

} // verus!
