//! What is statically known of the result of an expression.

use vstd::prelude::*;
use crate::kind::{Kind, KindView};
use crate::path::{Path, SegmentView};
use crate::value::{Value, ValueView};

verus! {

/// The mathematical model of a [`TypeDef`].
pub ghost struct TypeDefView {
    pub kind: KindView,
    pub fallible: bool,
}

impl TypeDefView {
    /// The type after a value of type `other` has been written at `path`: at
    /// the root the new type takes the place of the old; below it the kind is
    /// the old one with the new one inserted, and the result can fail where
    /// either can.
    pub open spec fn with_inserted(self, path: Seq<SegmentView>, other: TypeDefView) -> TypeDefView {
        TypeDefView {
            kind: self.kind.with_inserted(path, other.kind),
            fallible: if path.len() == 0 {
                other.fallible
            } else {
                self.fallible || other.fallible
            },
        }
    }
}

/// A kind and whether computing the value can fail.
#[derive(Debug)]
pub struct TypeDef {
    pub kind: Kind,
    pub fallible: bool,
}

impl View for TypeDef {
    type V = TypeDefView;

    open spec fn view(&self) -> TypeDefView {
        TypeDefView { kind: self.kind@, fallible: self.fallible }
    }
}

impl Clone for TypeDef {
    fn clone(&self) -> (res: TypeDef)
        ensures
            res@ == self@,
    {
        TypeDef { kind: self.kind.clone(), fallible: self.fallible }
    }
}

impl TypeDef {
    /// The type of a computation that gives a value of `kind` and cannot fail.
    pub fn new(kind: Kind) -> (type_def: TypeDef)
        ensures
            type_def@ == (TypeDefView { kind: kind@, fallible: false }),
    {
        TypeDef { kind, fallible: false }
    }

    pub fn any() -> (type_def: TypeDef)
        ensures
            type_def@ == (TypeDefView { kind: KindView::any(), fallible: false }),
    {
        TypeDef::new(Kind::any())
    }

    pub fn bytes() -> (type_def: TypeDef)
        ensures
            type_def@ == (TypeDefView {
                kind: KindView { bytes: true, ..KindView::never() },
                fallible: false,
            }),
    {
        TypeDef::new(Kind::bytes())
    }

    pub fn integer() -> (type_def: TypeDef)
        ensures
            type_def@ == (TypeDefView {
                kind: KindView { integer: true, ..KindView::never() },
                fallible: false,
            }),
    {
        TypeDef::new(Kind::integer())
    }

    pub fn null() -> (type_def: TypeDef)
        ensures
            type_def@ == (TypeDefView {
                kind: KindView { null: true, ..KindView::never() },
                fallible: false,
            }),
    {
        TypeDef::new(Kind::null())
    }

    /// The same kind, of a computation that can fail.
    pub fn fallible(self) -> (type_def: TypeDef)
        ensures
            type_def@ == (TypeDefView { fallible: true, ..self@ }),
    {
        TypeDef { kind: self.kind, fallible: true }
    }

    /// The same kind, of a computation that cannot fail.
    pub fn infallible(self) -> (type_def: TypeDef)
        ensures
            type_def@ == (TypeDefView { fallible: false, ..self@ }),
    {
        TypeDef { kind: self.kind, fallible: false }
    }

    pub fn add_null(self) -> (type_def: TypeDef)
        ensures
            type_def@ == (TypeDefView { kind: KindView { null: true, ..self@.kind }, ..self@ }),
    {
        TypeDef { kind: self.kind.or_null(), fallible: self.fallible }
    }

    pub fn add_bytes(self) -> (type_def: TypeDef)
        ensures
            type_def@ == (TypeDefView { kind: KindView { bytes: true, ..self@.kind }, ..self@ }),
    {
        TypeDef { kind: self.kind.or_bytes(), fallible: self.fallible }
    }

    pub fn is_fallible(&self) -> (yes: bool)
        ensures
            yes == self@.fallible,
    {
        self.fallible
    }

    pub fn is_infallible(&self) -> (yes: bool)
        ensures
            yes == !self@.fallible,
    {
        !self.fallible
    }

    pub fn kind(&self) -> (kind: &Kind)
        ensures
            kind@ == self@.kind,
    {
        &self.kind
    }

    /// The type after a value of type `other` has been written at `path`.
    pub fn with_type_inserted(self, path: &Path, other: TypeDef) -> (type_def: TypeDef)
        ensures
            type_def@ == self@.with_inserted(path@, other@),
    {
        let fallible = if path.is_root() {
            other.fallible
        } else {
            self.fallible || other.fallible
        };
        TypeDef { kind: self.kind.with_type_inserted(path, other.kind), fallible }
    }

    /// The value that stands in for a failed computation of this type.
    pub fn default_value(&self) -> (value: Value)
        ensures
            value@ == ValueView::default_of(self@.kind),
    {
        Value::default_for(&self.kind)
    }
}

/// The model of a value that may be missing.
pub open spec fn option_view(value: Option<Value>) -> Option<ValueView> {
    match value {
        Some(value) => Some(value@),
        None => None,
    }
}

/// The mathematical model of [`Details`].
pub ghost struct DetailsView {
    pub type_def: TypeDefView,
    pub value: Option<ValueView>,
}

/// What is known of a variable or of the record: its type and, where the
/// program fixes it, its value.
#[derive(Debug)]
pub struct Details {
    pub type_def: TypeDef,
    pub value: Option<Value>,
}

impl View for Details {
    type V = DetailsView;

    open spec fn view(&self) -> DetailsView {
        DetailsView {
            type_def: self.type_def@,
            value: option_view(self.value),
        }
    }
}

impl Clone for Details {
    fn clone(&self) -> (res: Details)
        ensures
            res@ == self@,
    {
        Details {
            type_def: self.type_def.clone(),
            value: match &self.value {
                Some(value) => Some(value.clone()),
                None => None,
            },
        }
    }
}

} // verus!
