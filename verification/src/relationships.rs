//! The relationships of each object type.

use crate::name_map::{Duplicate, NameMap};
use crate::names::{Qualified, QualifiedView};
use crate::views::option_view;
use vstd::prelude::*;

verus! {

/// A relationship whose target could be resolved.
#[derive(Debug, PartialEq, Eq)]
pub struct RelationshipDescriptor {
    pub relationship_name: String,
    /// The subgraph of the target, where the relationship names one.
    pub target_subgraph: Option<String>,
}

pub ghost struct RelationshipDescriptorView {
    pub relationship_name: Seq<char>,
    pub target_subgraph: Option<Seq<char>>,
}

impl View for RelationshipDescriptor {
    type V = RelationshipDescriptorView;

    open spec fn view(&self) -> RelationshipDescriptorView {
        RelationshipDescriptorView {
            relationship_name: self.relationship_name@,
            target_subgraph: option_view(self.target_subgraph),
        }
    }
}

/// An entry of the relationship directory.
#[derive(Debug, PartialEq, Eq)]
pub enum Relationship {
    Relationship(RelationshipDescriptor),
    /// The target lies in a subgraph that is not known. Such an entry exists
    /// only in a directory that was built to tolerate unknown subgraphs.
    RelationshipToUnknownSubgraph,
}

pub ghost enum RelationshipView {
    Relationship(RelationshipDescriptorView),
    RelationshipToUnknownSubgraph,
}

impl View for Relationship {
    type V = RelationshipView;

    open spec fn view(&self) -> RelationshipView {
        match self {
            Relationship::Relationship(descriptor) => RelationshipView::Relationship(descriptor@),
            Relationship::RelationshipToUnknownSubgraph => {
                RelationshipView::RelationshipToUnknownSubgraph
            },
        }
    }
}

/// Why a lookup in the relationship directory failed.
#[derive(Debug, PartialEq, Eq)]
pub enum RelationshipError {
    RelationshipNotFound { object_type_name: Qualified, relationship_name: String },
}

pub ghost enum RelationshipErrorView {
    RelationshipNotFound { object_type_name: QualifiedView, relationship_name: Seq<char> },
}

impl View for RelationshipError {
    type V = RelationshipErrorView;

    open spec fn view(&self) -> RelationshipErrorView {
        match self {
            RelationshipError::RelationshipNotFound { object_type_name, relationship_name } => {
                RelationshipErrorView::RelationshipNotFound {
                    object_type_name: object_type_name@,
                    relationship_name: relationship_name@,
                }
            },
        }
    }
}

/// The relationships of every object type, by the type's qualified name and
/// then by the relationship's name.
#[derive(Debug, PartialEq, Eq)]
pub struct Relationships(pub NameMap<Qualified, NameMap<String, Relationship>>);

impl View for Relationships {
    type V = Map<QualifiedView, Map<Seq<char>, RelationshipView>>;

    open spec fn view(&self) -> Map<QualifiedView, Map<Seq<char>, RelationshipView>> {
        self.0@
    }
}

/// The entry for `relationship_name` on `object_type_name`, or the lookup error.
pub open spec fn lookup_relationship(
    directory: Map<QualifiedView, Map<Seq<char>, RelationshipView>>,
    object_type_name: QualifiedView,
    relationship_name: Seq<char>,
) -> Result<RelationshipView, RelationshipErrorView> {
    if directory.contains_key(object_type_name) && directory[object_type_name].contains_key(
        relationship_name,
    ) {
        Ok(directory[object_type_name][relationship_name])
    } else {
        Err(RelationshipErrorView::RelationshipNotFound { object_type_name, relationship_name })
    }
}

impl Relationships {
    /// Looks up a relationship of an object type.
    pub fn get(&self, object_type_name: &Qualified, relationship_name: &String) -> (found: Result<
        &Relationship,
        RelationshipError,
    >)
        ensures
            match found {
                Ok(relationship) => lookup_relationship(
                    self@,
                    object_type_name@,
                    relationship_name@,
                ) == Ok::<RelationshipView, RelationshipErrorView>(relationship@),
                Err(error) => lookup_relationship(self@, object_type_name@, relationship_name@)
                    == Err::<RelationshipView, RelationshipErrorView>(error@),
            },
    {
        match self.0.get(object_type_name) {
            Some(of_type) => match of_type.get(relationship_name) {
                Some(relationship) => { return Ok(relationship); },
                None => {},
            },
            None => {},
        }
        Err(
            RelationshipError::RelationshipNotFound {
                object_type_name: object_type_name.duplicate(),
                relationship_name: relationship_name.clone(),
            },
        )
    }
}

/// The subgraph that the target of a relationship lives in, where the
/// relationship names one.
pub fn get_target_subgraph(relationship: &RelationshipDescriptor) -> (subgraph: Option<String>)
    ensures
        option_view(subgraph) == relationship@.target_subgraph,
{
    match &relationship.target_subgraph {
        Some(subgraph) => Some(subgraph.clone()),
        None => None,
    }
}

} // verus!
