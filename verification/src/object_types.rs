//! The object types that boolean expression types are declared over.

use crate::name_map::NameMap;
use crate::names::{Qualified, QualifiedTypeReference, QualifiedTypeReferenceView};
use vstd::prelude::*;

verus! {

/// One field of an object type: its declared type and the arguments it takes.
#[derive(Debug, PartialEq, Eq)]
pub struct FieldDefinition {
    pub field_type: QualifiedTypeReference,
    pub field_arguments: NameMap<String, QualifiedTypeReference>,
}

pub ghost struct FieldDefinitionView {
    pub field_type: QualifiedTypeReferenceView,
    pub field_arguments: Map<Seq<char>, QualifiedTypeReferenceView>,
}

impl View for FieldDefinition {
    type V = FieldDefinitionView;

    open spec fn view(&self) -> FieldDefinitionView {
        FieldDefinitionView {
            field_type: self.field_type@,
            field_arguments: self.field_arguments@,
        }
    }
}

/// An object type: its fields by name.
#[derive(Debug, PartialEq, Eq)]
pub struct ObjectTypeRepresentation {
    pub fields: NameMap<String, FieldDefinition>,
}

pub ghost struct ObjectTypeRepresentationView {
    pub fields: Map<Seq<char>, FieldDefinitionView>,
}

impl View for ObjectTypeRepresentation {
    type V = ObjectTypeRepresentationView;

    open spec fn view(&self) -> ObjectTypeRepresentationView {
        ObjectTypeRepresentationView { fields: self.fields@ }
    }
}

/// Every object type, by qualified name.
pub type ObjectTypes = NameMap<Qualified, ObjectTypeRepresentation>;

} // verus!
