//! The comparable relationships of an object boolean expression type.
//!
//! Only the names are checked here. Whether a relationship can really be
//! filtered on is known when the models are resolved, with their sources.

use crate::helpers::lookup_raw_boolean_expression;
use crate::metadata::{RawBooleanExpressionTypeView, RawBooleanExpressionTypes};
use crate::name_map::NameMap;
use crate::names::{Qualified, QualifiedView};
use crate::relationships::{
    get_target_subgraph, lookup_relationship, Relationship, RelationshipView, Relationships,
};
use crate::resolved::{
    BooleanExpressionComparableRelationship, BooleanExpressionComparableRelationshipView,
    BooleanExpressionError, BooleanExpressionErrorView,
};
use crate::views::seq_view;
use vstd::prelude::*;

verus! {

/// What becomes of one declared comparable relationship.
pub ghost enum ComparableRelationshipOutcome {
    /// The target of the relationship lies in an unknown subgraph, which the
    /// directory tolerates: the relationship is left out, and nothing is reported.
    Omitted,
    /// The relationship is entered under its name.
    Registered(BooleanExpressionComparableRelationshipView),
    /// The declaration is wrong, and the resolution fails with this error.
    Failed(BooleanExpressionErrorView),
}

/// The boolean expression type that a declaration chooses for the target of
/// a relationship: the declared name, in the subgraph of the target where
/// the relationship names one, and in the current subgraph where it does not.
pub open spec fn target_boolean_expression_type(
    target_subgraph: Option<Seq<char>>,
    subgraph: Seq<char>,
    declared_name: Seq<char>,
) -> QualifiedView {
    QualifiedView {
        subgraph: match target_subgraph {
            Some(of_target) => of_target,
            None => subgraph,
        },
        name: declared_name,
    }
}

/// Classifies one declared comparable relationship of the boolean expression
/// type `boolean_expression_type_name`, declared in `subgraph` over the
/// object type `underlying_object_type_name`.
pub open spec fn comparable_relationship_outcome(
    declared: crate::metadata::BooleanExpressionComparableRelationshipView,
    boolean_expression_type_name: QualifiedView,
    underlying_object_type_name: QualifiedView,
    relationships: Map<QualifiedView, Map<Seq<char>, RelationshipView>>,
    subgraph: Seq<char>,
    raw_boolean_expression_types: Map<QualifiedView, RawBooleanExpressionTypeView>,
) -> ComparableRelationshipOutcome {
    match lookup_relationship(
        relationships,
        underlying_object_type_name,
        declared.relationship_name,
    ) {
        Err(error) => ComparableRelationshipOutcome::Failed(
            BooleanExpressionErrorView::RelationshipError(error),
        ),
        Ok(RelationshipView::RelationshipToUnknownSubgraph) => ComparableRelationshipOutcome::Omitted,
        Ok(RelationshipView::Relationship(relationship)) => match declared.boolean_expression_type {
            None => ComparableRelationshipOutcome::Registered(
                BooleanExpressionComparableRelationshipView {
                    relationship_name: declared.relationship_name,
                    boolean_expression_type: None,
                },
            ),
            Some(declared_name) => {
                let target = target_boolean_expression_type(
                    relationship.target_subgraph,
                    subgraph,
                    declared_name,
                );
                if raw_boolean_expression_types.contains_key(target) {
                    ComparableRelationshipOutcome::Registered(
                        BooleanExpressionComparableRelationshipView {
                            relationship_name: declared.relationship_name,
                            boolean_expression_type: Some(target),
                        },
                    )
                } else {
                    ComparableRelationshipOutcome::Failed(
                        BooleanExpressionErrorView::UnknownReferencedFilterType {
                            parent_boolean_expression: boolean_expression_type_name,
                            child_boolean_expression: target,
                        },
                    )
                }
            },
        },
    }
}

/// Classifies the declared relationships in order. The first declaration
/// that fails decides the error. Otherwise each registered relationship is
/// entered under its name, a later declaration of a name replacing an
/// earlier one.
pub open spec fn resolved_comparable_relationships(
    declared: Seq<crate::metadata::BooleanExpressionComparableRelationshipView>,
    boolean_expression_type_name: QualifiedView,
    underlying_object_type_name: QualifiedView,
    relationships: Map<QualifiedView, Map<Seq<char>, RelationshipView>>,
    subgraph: Seq<char>,
    raw_boolean_expression_types: Map<QualifiedView, RawBooleanExpressionTypeView>,
) -> Result<
    Map<Seq<char>, BooleanExpressionComparableRelationshipView>,
    BooleanExpressionErrorView,
>
    decreases declared.len(),
{
    if declared.len() == 0 {
        Ok(Map::empty())
    } else {
        match resolved_comparable_relationships(
            declared.drop_last(),
            boolean_expression_type_name,
            underlying_object_type_name,
            relationships,
            subgraph,
            raw_boolean_expression_types,
        ) {
            Err(error) => Err(error),
            Ok(before) => match comparable_relationship_outcome(
                declared.last(),
                boolean_expression_type_name,
                underlying_object_type_name,
                relationships,
                subgraph,
                raw_boolean_expression_types,
            ) {
                ComparableRelationshipOutcome::Omitted => Ok(before),
                ComparableRelationshipOutcome::Registered(relationship) => Ok(
                    before.insert(declared.last().relationship_name, relationship),
                ),
                ComparableRelationshipOutcome::Failed(error) => Err(error),
            },
        }
    }
}

/// Once a declaration has failed, the declarations after it change nothing.
pub proof fn lemma_relationship_failure_persists(
    declared: Seq<crate::metadata::BooleanExpressionComparableRelationshipView>,
    n: int,
    boolean_expression_type_name: QualifiedView,
    underlying_object_type_name: QualifiedView,
    relationships: Map<QualifiedView, Map<Seq<char>, RelationshipView>>,
    subgraph: Seq<char>,
    raw_boolean_expression_types: Map<QualifiedView, RawBooleanExpressionTypeView>,
)
    requires
        0 <= n <= declared.len(),
        resolved_comparable_relationships(
            declared.take(n),
            boolean_expression_type_name,
            underlying_object_type_name,
            relationships,
            subgraph,
            raw_boolean_expression_types,
        ) is Err,
    ensures
        resolved_comparable_relationships(
            declared,
            boolean_expression_type_name,
            underlying_object_type_name,
            relationships,
            subgraph,
            raw_boolean_expression_types,
        ) == resolved_comparable_relationships(
            declared.take(n),
            boolean_expression_type_name,
            underlying_object_type_name,
            relationships,
            subgraph,
            raw_boolean_expression_types,
        ),
    decreases declared.len() - n,
{
    if n == declared.len() {
        assert(declared.take(n) =~= declared);
    } else {
        assert(declared.take(n + 1).drop_last() =~= declared.take(n));
        lemma_relationship_failure_persists(
            declared,
            n + 1,
            boolean_expression_type_name,
            underlying_object_type_name,
            relationships,
            subgraph,
            raw_boolean_expression_types,
        );
    }
}

/// Resolves the declared comparable relationships of an object boolean
/// expression type: each must be a relationship of the underlying object
/// type, and a boolean expression type chosen for its target must be declared.
pub fn resolve_comparable_relationships(
    boolean_expression_type_name: &Qualified,
    underlying_object_type_name: &Qualified,
    comparable_relationships: &Vec<crate::metadata::BooleanExpressionComparableRelationship>,
    relationships: &Relationships,
    subgraph: &String,
    raw_boolean_expression_types: &RawBooleanExpressionTypes,
) -> (resolved: Result<
    NameMap<String, BooleanExpressionComparableRelationship>,
    BooleanExpressionError,
>)
    ensures
        match resolved {
            Ok(registered) => resolved_comparable_relationships(
                seq_view(comparable_relationships@),
                boolean_expression_type_name@,
                underlying_object_type_name@,
                relationships@,
                subgraph@,
                raw_boolean_expression_types@,
            ) == Ok::<
                Map<Seq<char>, BooleanExpressionComparableRelationshipView>,
                BooleanExpressionErrorView,
            >(registered@),
            Err(error) => resolved_comparable_relationships(
                seq_view(comparable_relationships@),
                boolean_expression_type_name@,
                underlying_object_type_name@,
                relationships@,
                subgraph@,
                raw_boolean_expression_types@,
            ) == Err::<
                Map<Seq<char>, BooleanExpressionComparableRelationshipView>,
                BooleanExpressionErrorView,
            >(error@),
        },
{
    let ghost declared = seq_view(comparable_relationships@);
    let mut resolved_relationships: NameMap<
        String,
        BooleanExpressionComparableRelationship,
    > = NameMap::new();

    let mut i: usize = 0;
    while i < comparable_relationships.len()
        invariant
            i <= comparable_relationships.len(),
            declared == seq_view(comparable_relationships@),
            resolved_comparable_relationships(
                declared.take(i as int),
                boolean_expression_type_name@,
                underlying_object_type_name@,
                relationships@,
                subgraph@,
                raw_boolean_expression_types@,
            ) == Ok::<
                Map<Seq<char>, BooleanExpressionComparableRelationshipView>,
                BooleanExpressionErrorView,
            >(resolved_relationships@),
        decreases comparable_relationships.len() - i,
    {
        let comparable_relationship = &comparable_relationships[i];
        proof {
            assert(declared.take(i + 1).drop_last() =~= declared.take(i as int));
            assert(declared.take(i + 1).last() == comparable_relationship@);
        }
        let relationship = match relationships.get(
            underlying_object_type_name,
            &comparable_relationship.relationship_name,
        ) {
            Ok(relationship) => relationship,
            Err(error) => {
                proof {
                    lemma_relationship_failure_persists(
                        declared,
                        i + 1,
                        boolean_expression_type_name@,
                        underlying_object_type_name@,
                        relationships@,
                        subgraph@,
                        raw_boolean_expression_types@,
                    );
                }
                return Err(BooleanExpressionError::RelationshipError(error));
            },
        };

        match relationship {
            Relationship::Relationship(relationship) => {
                // a boolean expression type chosen for the target has to exist
                let target_boolean_expression_type =
                    match &comparable_relationship.boolean_expression_type {
                    Some(target_boolean_expression_type_name) => {
                        let target_subgraph = match get_target_subgraph(relationship) {
                            Some(target_subgraph) => target_subgraph,
                            None => subgraph.clone(),
                        };
                        let target_boolean_expression_type = Qualified::new(
                            target_subgraph,
                            target_boolean_expression_type_name.clone(),
                        );
                        match lookup_raw_boolean_expression(
                            boolean_expression_type_name,
                            &target_boolean_expression_type,
                            raw_boolean_expression_types,
                        ) {
                            Ok(_) => {},
                            Err(error) => {
                                proof {
                                    lemma_relationship_failure_persists(
                                        declared,
                                        i + 1,
                                        boolean_expression_type_name@,
                                        underlying_object_type_name@,
                                        relationships@,
                                        subgraph@,
                                        raw_boolean_expression_types@,
                                    );
                                }
                                return Err(error);
                            },
                        }
                        Some(target_boolean_expression_type)
                    },
                    None => None,
                };

                resolved_relationships.insert(
                    comparable_relationship.relationship_name.clone(),
                    BooleanExpressionComparableRelationship {
                        relationship_name: comparable_relationship.relationship_name.clone(),
                        boolean_expression_type: target_boolean_expression_type,
                    },
                );
            },
            // the directory tolerates unknown subgraphs, and so does this
            Relationship::RelationshipToUnknownSubgraph => {},
        }
        i += 1;
    }
    proof {
        assert(declared.take(i as int) =~= declared);
    }
    Ok(resolved_relationships)
}

} // verus!
