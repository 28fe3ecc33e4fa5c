//! Qualified names and type references.
//!
//! Every cross-reference between metadata objects is a name qualified by the
//! subgraph that owns it, so that equal local names of different subgraphs
//! never collide.

use crate::name_map::{Duplicate, Key};
use vstd::prelude::*;

verus! {

/// A local name together with the subgraph that owns it.
#[derive(Debug, PartialEq, Eq)]
pub struct Qualified {
    pub subgraph: String,
    pub name: String,
}

pub ghost struct QualifiedView {
    pub subgraph: Seq<char>,
    pub name: Seq<char>,
}

impl View for Qualified {
    type V = QualifiedView;

    open spec fn view(&self) -> QualifiedView {
        QualifiedView { subgraph: self.subgraph@, name: self.name@ }
    }
}

impl Qualified {
    pub fn new(subgraph: String, name: String) -> (q: Self)
        ensures
            q@ == (QualifiedView { subgraph: subgraph@, name: name@ }),
    {
        Qualified { subgraph, name }
    }
}

impl Duplicate for Qualified {
    fn duplicate(&self) -> (copy: Self) {
        Qualified { subgraph: self.subgraph.clone(), name: self.name.clone() }
    }
}

impl Key for Qualified {
    fn same_as(&self, other: &Self) -> (same: bool) {
        self.subgraph == other.subgraph && self.name == other.name
    }
}

/// The scalar types that every subgraph knows without declaring them.
#[derive(Clone, Copy, Debug, PartialEq, Eq, Structural)]
pub enum InbuiltType {
    ID,
    Int,
    Float,
    Boolean,
    String,
}

/// A type name as it is written in a declaration: not yet qualified.
#[derive(Debug, PartialEq, Eq)]
pub enum TypeName {
    Inbuilt(InbuiltType),
    Custom(String),
}

pub ghost enum TypeNameView {
    Inbuilt(InbuiltType),
    Custom(Seq<char>),
}

impl View for TypeName {
    type V = TypeNameView;

    open spec fn view(&self) -> TypeNameView {
        match self {
            TypeName::Inbuilt(t) => TypeNameView::Inbuilt(*t),
            TypeName::Custom(name) => TypeNameView::Custom(name@),
        }
    }
}

/// A type name after qualification: custom names carry their subgraph.
#[derive(Debug, PartialEq, Eq)]
pub enum QualifiedTypeName {
    Inbuilt(InbuiltType),
    Custom(Qualified),
}

pub ghost enum QualifiedTypeNameView {
    Inbuilt(InbuiltType),
    Custom(QualifiedView),
}

impl View for QualifiedTypeName {
    type V = QualifiedTypeNameView;

    open spec fn view(&self) -> QualifiedTypeNameView {
        match self {
            QualifiedTypeName::Inbuilt(t) => QualifiedTypeNameView::Inbuilt(*t),
            QualifiedTypeName::Custom(name) => QualifiedTypeNameView::Custom(name@),
        }
    }
}

impl QualifiedTypeName {
    /// Whether two type names denote the same type.
    pub fn same_as(&self, other: &Self) -> (same: bool)
        ensures
            same == (self@ == other@),
    {
        match self {
            QualifiedTypeName::Inbuilt(a) => match other {
                QualifiedTypeName::Inbuilt(b) => *a == *b,
                QualifiedTypeName::Custom(_) => false,
            },
            QualifiedTypeName::Custom(a) => match other {
                QualifiedTypeName::Inbuilt(_) => false,
                QualifiedTypeName::Custom(b) => a.same_as(b),
            },
        }
    }
}

impl Duplicate for QualifiedTypeName {
    fn duplicate(&self) -> (copy: Self) {
        match self {
            QualifiedTypeName::Inbuilt(t) => QualifiedTypeName::Inbuilt(*t),
            QualifiedTypeName::Custom(name) => QualifiedTypeName::Custom(name.duplicate()),
        }
    }
}

/// A custom name is qualified by `subgraph`; an inbuilt type stays as it is.
pub open spec fn qualify_type_name(declared: TypeNameView, subgraph: Seq<char>)
    -> QualifiedTypeNameView {
    match declared {
        TypeNameView::Inbuilt(t) => QualifiedTypeNameView::Inbuilt(t),
        TypeNameView::Custom(name) => QualifiedTypeNameView::Custom(
            QualifiedView { subgraph, name },
        ),
    }
}

/// Qualifies a declared type name in `subgraph`.
pub fn mk_qualified_type_name(declared: &TypeName, subgraph: &String) -> (qualified:
    QualifiedTypeName)
    ensures
        qualified@ == qualify_type_name(declared@, subgraph@),
{
    match declared {
        TypeName::Inbuilt(t) => QualifiedTypeName::Inbuilt(*t),
        TypeName::Custom(name) => QualifiedTypeName::Custom(
            Qualified::new(subgraph.clone(), name.clone()),
        ),
    }
}

/// Either a named type or a list of some other type.
#[derive(Debug, PartialEq, Eq)]
pub enum QualifiedBaseType {
    Named(QualifiedTypeName),
    List(Box<QualifiedTypeReference>),
}

/// The declared type of a field or of an operator's argument.
#[derive(Debug, PartialEq, Eq)]
pub struct QualifiedTypeReference {
    pub underlying_type: QualifiedBaseType,
    pub nullable: bool,
}

pub ghost enum QualifiedBaseTypeView {
    Named(QualifiedTypeNameView),
    List(Box<QualifiedTypeReferenceView>),
}

pub ghost struct QualifiedTypeReferenceView {
    pub underlying_type: QualifiedBaseTypeView,
    pub nullable: bool,
}

pub open spec fn type_reference_view(t: QualifiedTypeReference) -> QualifiedTypeReferenceView
    decreases t,
{
    QualifiedTypeReferenceView {
        underlying_type: base_type_view(t.underlying_type),
        nullable: t.nullable,
    }
}

pub open spec fn base_type_view(b: QualifiedBaseType) -> QualifiedBaseTypeView
    decreases b,
{
    match b {
        QualifiedBaseType::Named(name) => QualifiedBaseTypeView::Named(name@),
        QualifiedBaseType::List(inner) => QualifiedBaseTypeView::List(
            Box::new(type_reference_view(*inner)),
        ),
    }
}

impl View for QualifiedBaseType {
    type V = QualifiedBaseTypeView;

    open spec fn view(&self) -> QualifiedBaseTypeView {
        base_type_view(*self)
    }
}

impl View for QualifiedTypeReference {
    type V = QualifiedTypeReferenceView;

    open spec fn view(&self) -> QualifiedTypeReferenceView {
        type_reference_view(*self)
    }
}

/// The named type that is left when every list around it is taken away.
pub open spec fn underlying_type_name(t: QualifiedTypeReferenceView) -> QualifiedTypeNameView
    decreases t,
{
    match t.underlying_type {
        QualifiedBaseTypeView::Named(name) => name,
        QualifiedBaseTypeView::List(inner) => underlying_type_name(*inner),
    }
}

impl QualifiedTypeReference {
    /// Whether the type is a list.
    pub fn is_list(&self) -> (list: bool)
        ensures
            list == (self@.underlying_type is List),
    {
        match &self.underlying_type {
            QualifiedBaseType::Named(_) => false,
            QualifiedBaseType::List(_) => true,
        }
    }

    /// The named type at the bottom of the reference.
    pub fn get_underlying_type_name(&self) -> (name: &QualifiedTypeName)
        ensures
            name@ == underlying_type_name(self@),
        decreases self,
    {
        match &self.underlying_type {
            QualifiedBaseType::Named(name) => name,
            QualifiedBaseType::List(inner) => inner.get_underlying_type_name(),
        }
    }
}

impl Duplicate for QualifiedTypeReference {
    fn duplicate(&self) -> (copy: Self)
        decreases self,
    {
        let underlying_type = match &self.underlying_type {
            QualifiedBaseType::Named(name) => QualifiedBaseType::Named(name.duplicate()),
            QualifiedBaseType::List(inner) => QualifiedBaseType::List(Box::new(inner.duplicate())),
        };
        QualifiedTypeReference { underlying_type, nullable: self.nullable }
    }
}

} // verus!
