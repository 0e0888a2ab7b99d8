//! The parts that a diagnostic message is made of.

use vstd::prelude::*;
use crate::span::Span;

verus! {

/// A remark on a stretch of the source text.
#[derive(Debug, PartialEq, Eq)]
pub struct Label {
    pub message: String,
    /// Whether the label marks the place of the error itself, as opposed to
    /// its surroundings.
    pub primary: bool,
    pub span: Span,
}

/// The mathematical model of a [`Label`].
pub ghost struct LabelView {
    pub message: Seq<char>,
    pub primary: bool,
    pub span: Span,
}

impl View for Label {
    type V = LabelView;

    open spec fn view(&self) -> LabelView {
        LabelView { message: self.message@, primary: self.primary, span: self.span }
    }
}

/// The models of a sequence of labels.
pub open spec fn labels_view(labels: Seq<Label>) -> Seq<LabelView> {
    labels.map_values(|label: Label| label@)
}

impl LabelView {
    /// The model of a label on the place of the error itself.
    pub open spec fn primary(message: Seq<char>, span: Span) -> LabelView {
        LabelView { message, primary: true, span }
    }

    /// The model of a label on the surroundings of the error.
    pub open spec fn context(message: Seq<char>, span: Span) -> LabelView {
        LabelView { message, primary: false, span }
    }
}

impl Label {
    /// A label on the place of the error itself.
    pub fn primary(message: String, span: Span) -> (label: Label)
        ensures
            label@ == LabelView::primary(message@, span),
    {
        Label { message, primary: true, span }
    }

    /// A label on the surroundings of the error.
    pub fn context(message: String, span: Span) -> (label: Label)
        ensures
            label@ == LabelView::context(message@, span),
    {
        Label { message, primary: false, span }
    }
}

/// A remark below a diagnostic message.
#[derive(Debug, PartialEq, Eq)]
pub enum Note {
    /// What a change to the program would achieve.
    Hint(String),
    /// A line of program text to write.
    Basic(String),
    /// A pointer to the documentation of the error.
    SeeErrorDocs,
}

/// The models of a sequence of notes: for each whether it is a hint, a line,
/// or the pointer to the documentation, with its text.
pub ghost enum NoteView {
    Hint(Seq<char>),
    Basic(Seq<char>),
    SeeErrorDocs,
}

impl View for Note {
    type V = NoteView;

    open spec fn view(&self) -> NoteView {
        match self {
            Note::Hint(text) => NoteView::Hint(text@),
            Note::Basic(text) => NoteView::Basic(text@),
            Note::SeeErrorDocs => NoteView::SeeErrorDocs,
        }
    }
}

/// The models of a sequence of notes.
pub open spec fn notes_view(notes: Seq<Note>) -> Seq<NoteView> {
    notes.map_values(|note: Note| note@)
}

impl Note {
    /// The notes that propose a change: what it achieves, then the two lines
    /// to write.
    pub fn solution(title: String, first: String, second: String) -> (notes: Vec<Note>)
        ensures
            notes_view(notes@) == seq![
                NoteView::Hint(title@),
                NoteView::Basic(first@),
                NoteView::Basic(second@),
            ],
    {
        let mut notes: Vec<Note> = Vec::new();
        notes.push(Note::Hint(title));
        notes.push(Note::Basic(first));
        notes.push(Note::Basic(second));
        assert(notes_view(notes@) =~= seq![
            NoteView::Hint(title@),
            NoteView::Basic(first@),
            NoteView::Basic(second@),
        ]);
        notes
    }
}

} // verus!
