//! The refusals of assignments, and how they are explained.

use vstd::prelude::*;
use crate::diagnostic::{labels_view, notes_view, Label, LabelView, Note, NoteView};
use crate::kind::{Kind, KindView};
use crate::span::Span;

verus! {

/// Which container a path segment needs below it.
#[derive(Clone, Copy, Debug, PartialEq, Eq, Structural)]
pub enum Container {
    Object,
    Array,
}

impl Container {
    /// The container's name.
    pub fn name(&self) -> (name: &'static str)
        ensures
            name@ == self.name_text(),
    {
        match self {
            Container::Object => "object",
            Container::Array => "array",
        }
    }

    /// The container's name.
    pub open spec fn name_text(self) -> Seq<char> {
        match self {
            Container::Object => "object"@,
            Container::Array => "array"@,
        }
    }

    /// The container written out empty.
    pub open spec fn empty_text(self) -> Seq<char> {
        match self {
            Container::Object => "{}"@,
            Container::Array => "[]"@,
        }
    }
}

/// The mathematical model of an [`ErrorVariant`].
pub ghost enum ErrorVariantView {
    UnnecessaryNoop(Span),
    FallibleAssignment(Seq<char>, Seq<char>),
    InfallibleAssignment(Seq<char>, Seq<char>, Span, Span),
    InvalidTarget(Span),
    ReadOnly,
    InvalidParentPathSegment {
        variant: Container,
        parent_kind: KindView,
        parent_span: Span,
        parent_str: Seq<char>,
        segment_span: Span,
        remainder_str: Seq<char>,
        rhs_expr: Seq<char>,
    },
}

/// The mathematical model of an [`Error`].
pub ghost struct ErrorView {
    pub variant: ErrorVariantView,
    pub expr_span: Span,
    pub assignment_span: Span,
}

/// Why an assignment was refused.
#[derive(Debug)]
pub enum ErrorVariant {
    /// The assignment writes nowhere; holds the place of the target.
    UnnecessaryNoop(Span),
    /// A single assignment of an expression that can fail; holds the target
    /// and the expression as written.
    FallibleAssignment(String, String),
    /// An assignment to two targets of an expression that cannot fail; holds
    /// the first target and the expression as written, and the places of the
    /// two targets.
    InfallibleAssignment(String, String, Span, Span),
    /// The target is neither a variable nor the record; holds its place.
    InvalidTarget(Span),
    /// The assignment would change a read-only region of the record.
    ReadOnly,
    /// A segment of the target's path addresses into a value that cannot be
    /// the container it needs.
    InvalidParentPathSegment {
        /// The container that the segment needs.
        variant: Container,
        /// What is known of the value that it addresses into.
        parent_kind: Kind,
        /// The place of the path up to the segment.
        parent_span: Span,
        /// The path up to the segment, as written.
        parent_str: String,
        /// The place of the segment.
        segment_span: Span,
        /// The path from the segment on, as written.
        remainder_str: String,
        /// The right-hand side, as written.
        rhs_expr: String,
    },
}

impl View for ErrorVariant {
    type V = ErrorVariantView;

    open spec fn view(&self) -> ErrorVariantView {
        match self {
            ErrorVariant::UnnecessaryNoop(span) => ErrorVariantView::UnnecessaryNoop(*span),
            ErrorVariant::FallibleAssignment(target, expr) => ErrorVariantView::FallibleAssignment(
                target@,
                expr@,
            ),
            ErrorVariant::InfallibleAssignment(
                target,
                expr,
                ok_span,
                err_span,
            ) => ErrorVariantView::InfallibleAssignment(target@, expr@, *ok_span, *err_span),
            ErrorVariant::InvalidTarget(span) => ErrorVariantView::InvalidTarget(*span),
            ErrorVariant::ReadOnly => ErrorVariantView::ReadOnly,
            ErrorVariant::InvalidParentPathSegment {
                variant,
                parent_kind,
                parent_span,
                parent_str,
                segment_span,
                remainder_str,
                rhs_expr,
            } => ErrorVariantView::InvalidParentPathSegment {
                variant: *variant,
                parent_kind: parent_kind@,
                parent_span: *parent_span,
                parent_str: parent_str@,
                segment_span: *segment_span,
                remainder_str: remainder_str@,
                rhs_expr: rhs_expr@,
            },
        }
    }
}

/// A refusal of an assignment, with the places in the source that it is
/// about.
#[derive(Debug)]
pub struct Error {
    pub variant: ErrorVariant,
    pub expr_span: Span,
    pub assignment_span: Span,
}

impl View for Error {
    type V = ErrorView;

    open spec fn view(&self) -> ErrorView {
        ErrorView {
            variant: self.variant@,
            expr_span: self.expr_span,
            assignment_span: self.assignment_span,
        }
    }
}

impl ErrorView {
    /// The number that the kind of error is known by.
    pub open spec fn code(self) -> usize {
        match self.variant {
            ErrorVariantView::UnnecessaryNoop(_) => 640,
            ErrorVariantView::FallibleAssignment(_, _) => 103,
            ErrorVariantView::InfallibleAssignment(_, _, _, _) => 104,
            ErrorVariantView::InvalidTarget(_) => 641,
            ErrorVariantView::InvalidParentPathSegment { .. } => 642,
            ErrorVariantView::ReadOnly => 315,
        }
    }

    /// The error in a few words.
    pub open spec fn message(self) -> Seq<char> {
        match self.variant {
            ErrorVariantView::UnnecessaryNoop(_) => "unnecessary no-op assignment"@,
            ErrorVariantView::FallibleAssignment(_, _) => "unhandled fallible assignment"@,
            ErrorVariantView::InfallibleAssignment(_, _, _, _) => "unnecessary error assignment"@,
            ErrorVariantView::InvalidTarget(_) => "invalid assignment target"@,
            ErrorVariantView::ReadOnly => "mutation of read-only value"@,
            ErrorVariantView::InvalidParentPathSegment {
                ..
            } => "parent path segment rejects this mutation"@,
        }
    }

    /// The remarks on the source text that explain the error.
    pub open spec fn labels(self) -> Seq<LabelView> {
        match self.variant {
            ErrorVariantView::UnnecessaryNoop(target_span) => seq![
                LabelView::primary("this no-op assignment has no effect"@, self.expr_span),
                LabelView::context("either assign to a path or variable here"@, target_span),
                LabelView::context("or remove the assignment"@, self.assignment_span),
            ],
            ErrorVariantView::FallibleAssignment(target, expr) => seq![
                LabelView::primary("this expression is fallible"@, self.expr_span),
                LabelView::context("update the expression to be infallible"@, self.expr_span),
                LabelView::context(
                    "or change this to an infallible assignment:"@,
                    self.assignment_span,
                ),
                LabelView::context(target + ", err = "@ + expr, self.assignment_span),
            ],
            ErrorVariantView::InfallibleAssignment(target, expr, ok_span, err_span) => seq![
                LabelView::primary("this error assignment is unnecessary"@, err_span),
                LabelView::context("because this expression can't fail"@, self.expr_span),
                LabelView::context("use: "@ + target + " = "@ + expr, ok_span),
            ],
            ErrorVariantView::InvalidTarget(span) => seq![
                LabelView::primary("invalid assignment target"@, span),
                LabelView::context("use one of variable or path"@, span),
            ],
            ErrorVariantView::ReadOnly => seq![
                LabelView::primary("mutation of read-only value"@, self.assignment_span),
            ],
            ErrorVariantView::InvalidParentPathSegment {
                variant,
                parent_kind,
                parent_span,
                segment_span,
                ..
            } => seq![
                LabelView::primary(
                    match variant {
                        Container::Object => "querying a field of a non-object type is unsupported"@,
                        Container::Array => "indexing into a non-array type is unsupported"@,
                    },
                    segment_span,
                ),
                LabelView::context(
                    "this path resolves to a value of type "@ + parent_kind.text(),
                    parent_span,
                ),
            ],
        }
    }

    /// The remarks below the message: for a path segment that cannot be
    /// written through, the two lines that first make the parent the
    /// container needed and then assign as before.
    pub open spec fn notes(self) -> Seq<NoteView> {
        match self.variant {
            ErrorVariantView::FallibleAssignment(_, _) => seq![NoteView::SeeErrorDocs],
            ErrorVariantView::InfallibleAssignment(_, _, _, _) => seq![NoteView::SeeErrorDocs],
            ErrorVariantView::InvalidParentPathSegment {
                variant,
                parent_str,
                remainder_str,
                rhs_expr,
                ..
            } => seq![
                NoteView::Hint(
                    "change parent value to "@ + variant.name_text() + ", before assignment"@,
                ),
                NoteView::Basic(parent_str + " = "@ + variant.empty_text()),
                NoteView::Basic(parent_str + remainder_str + " = "@ + rhs_expr),
                NoteView::SeeErrorDocs,
            ],
            _ => Seq::empty(),
        }
    }
}

impl Error {
    /// The number that the kind of error is known by.
    pub fn code(&self) -> (code: usize)
        ensures
            code == self@.code(),
    {
        match &self.variant {
            ErrorVariant::UnnecessaryNoop(_) => 640,
            ErrorVariant::FallibleAssignment(_, _) => 103,
            ErrorVariant::InfallibleAssignment(_, _, _, _) => 104,
            ErrorVariant::InvalidTarget(_) => 641,
            ErrorVariant::InvalidParentPathSegment { .. } => 642,
            ErrorVariant::ReadOnly => 315,
        }
    }

    /// The error in a few words.
    pub fn message(&self) -> (message: String)
        ensures
            message@ == self@.message(),
    {
        String::from_str(
            match &self.variant {
                ErrorVariant::UnnecessaryNoop(_) => "unnecessary no-op assignment",
                ErrorVariant::FallibleAssignment(_, _) => "unhandled fallible assignment",
                ErrorVariant::InfallibleAssignment(_, _, _, _) => "unnecessary error assignment",
                ErrorVariant::InvalidTarget(_) => "invalid assignment target",
                ErrorVariant::ReadOnly => "mutation of read-only value",
                ErrorVariant::InvalidParentPathSegment {
                    ..
                } => "parent path segment rejects this mutation",
            },
        )
    }

    /// The remarks on the source text that explain the error.
    pub fn labels(&self) -> (labels: Vec<Label>)
        ensures
            labels_view(labels@) == self@.labels(),
    {
        let mut labels: Vec<Label> = Vec::new();
        match &self.variant {
            ErrorVariant::UnnecessaryNoop(target_span) => {
                labels.push(
                    Label::primary(
                        String::from_str("this no-op assignment has no effect"),
                        self.expr_span,
                    ),
                );
                labels.push(
                    Label::context(
                        String::from_str("either assign to a path or variable here"),
                        *target_span,
                    ),
                );
                labels.push(
                    Label::context(
                        String::from_str("or remove the assignment"),
                        self.assignment_span,
                    ),
                );
            },
            ErrorVariant::FallibleAssignment(target, expr) => {
                labels.push(
                    Label::primary(String::from_str("this expression is fallible"), self.expr_span),
                );
                labels.push(
                    Label::context(
                        String::from_str("update the expression to be infallible"),
                        self.expr_span,
                    ),
                );
                labels.push(
                    Label::context(
                        String::from_str("or change this to an infallible assignment:"),
                        self.assignment_span,
                    ),
                );
                let mut rewritten = target.clone();
                rewritten.append(", err = ");
                rewritten.append(expr.as_str());
                labels.push(Label::context(rewritten, self.assignment_span));
            },
            ErrorVariant::InfallibleAssignment(target, expr, ok_span, err_span) => {
                labels.push(
                    Label::primary(
                        String::from_str("this error assignment is unnecessary"),
                        *err_span,
                    ),
                );
                labels.push(
                    Label::context(
                        String::from_str("because this expression can't fail"),
                        self.expr_span,
                    ),
                );
                let mut rewritten = String::from_str("use: ");
                rewritten.append(target.as_str());
                rewritten.append(" = ");
                rewritten.append(expr.as_str());
                labels.push(Label::context(rewritten, *ok_span));
            },
            ErrorVariant::InvalidTarget(span) => {
                labels.push(Label::primary(String::from_str("invalid assignment target"), *span));
                labels.push(
                    Label::context(String::from_str("use one of variable or path"), *span),
                );
            },
            ErrorVariant::ReadOnly => {
                labels.push(
                    Label::primary(
                        String::from_str("mutation of read-only value"),
                        self.assignment_span,
                    ),
                );
            },
            ErrorVariant::InvalidParentPathSegment {
                variant,
                parent_kind,
                parent_span,
                segment_span,
                ..
            } => {
                labels.push(
                    Label::primary(
                        String::from_str(
                            match variant {
                                Container::Object => "querying a field of a non-object type is unsupported",
                                Container::Array => "indexing into a non-array type is unsupported",
                            },
                        ),
                        *segment_span,
                    ),
                );
                let mut resolves = String::from_str("this path resolves to a value of type ");
                resolves.append(parent_kind.render().as_str());
                labels.push(Label::context(resolves, *parent_span));
            },
        }
        assert(labels_view(labels@) =~= self@.labels());
        labels
    }

    /// The remarks below the message.
    pub fn notes(&self) -> (notes: Vec<Note>)
        ensures
            notes_view(notes@) == self@.notes(),
    {
        match &self.variant {
            ErrorVariant::FallibleAssignment(_, _) => {
                let mut notes: Vec<Note> = Vec::new();
                notes.push(Note::SeeErrorDocs);
                assert(notes_view(notes@) =~= self@.notes());
                notes
            },
            ErrorVariant::InfallibleAssignment(_, _, _, _) => {
                let mut notes: Vec<Note> = Vec::new();
                notes.push(Note::SeeErrorDocs);
                assert(notes_view(notes@) =~= self@.notes());
                notes
            },
            ErrorVariant::InvalidParentPathSegment {
                variant,
                parent_str,
                remainder_str,
                rhs_expr,
                ..
            } => {
                let mut title = String::from_str("change parent value to ");
                title.append(variant.name());
                title.append(", before assignment");
                let mut first = parent_str.clone();
                first.append(" = ");
                first.append(
                    match variant {
                        Container::Object => "{}",
                        Container::Array => "[]",
                    },
                );
                let mut second = parent_str.clone();
                second.append(remainder_str.as_str());
                second.append(" = ");
                second.append(rhs_expr.as_str());
                let mut notes = Note::solution(title, first, second);
                let ghost proposed = notes@;
                notes.push(Note::SeeErrorDocs);
                assert(notes_view(notes@) =~= notes_view(proposed).push(NoteView::SeeErrorDocs));
                assert(notes_view(notes@) =~= self@.notes());
                notes
            },
            _ => {
                let notes: Vec<Note> = Vec::new();
                assert(notes_view(notes@) =~= self@.notes());
                notes
            },
        }
    }
}

} // verus!
