//! Resolution of a boolean expression type over an object type.
//!
//! The steps run in a fixed order, and the first failure ends the attempt:
//! the underlying object type is looked up, the comparable fields and the
//! comparable relationships are resolved, the GraphQL descriptor is built
//! where the type has a GraphQL configuration, and the resolved type is put
//! together. Nothing is kept between two resolutions but the registry of
//! GraphQL type names.

use crate::comparable_fields::{
    resolve_comparable_fields, resolved_comparable_fields, ComparableFieldsOutput,
    ComparableFieldsOutputView,
};
use crate::comparable_relationships::{
    resolve_comparable_relationships, resolved_comparable_relationships,
};
use crate::graphql::GraphqlTypeNames;
use crate::helpers::{logical_operators_included, resolve_logical_operators};
use crate::metadata::{
    BooleanExpressionLogicalOperators, BooleanExpressionObjectOperand,
    BooleanExpressionObjectOperandView, BooleanExpressionTypeGraphQlConfiguration, Flags,
    RawBooleanExpressionTypeView, RawBooleanExpressionTypes,
};
use crate::name_map::{Duplicate, NameMap};
use crate::names::{Qualified, QualifiedView};
use crate::object_types::{ObjectTypeRepresentationView, ObjectTypes};
use crate::relationships::{RelationshipView, Relationships};
use crate::resolved::{
    BooleanExpressionComparableRelationship, BooleanExpressionComparableRelationshipView,
    BooleanExpressionError, BooleanExpressionErrorView, BooleanExpressionIssue,
    BooleanExpressionIssueView, ComparableFieldKind, ResolvedObjectBooleanExpressionType,
    ResolvedObjectBooleanExpressionTypeFields, ResolvedObjectBooleanExpressionTypeFieldsView,
    ResolvedObjectBooleanExpressionTypeView,
};
use crate::scalar_boolean_expressions::{
    ResolvedScalarBooleanExpressionTypeView, ScalarBooleanExpressionTypes,
};
use crate::views::seq_view;
use vstd::prelude::*;

verus! {

/// What is resolved of a type before its GraphQL descriptor is built.
pub ghost struct ResolvedPartsView {
    /// The qualified name of the underlying object type.
    pub object_type: QualifiedView,
    pub comparable_fields: ComparableFieldsOutputView,
    pub comparable_relationships: Map<Seq<char>, BooleanExpressionComparableRelationshipView>,
}

/// The object type named by the operand, in the subgraph of the declaration.
pub open spec fn underlying_object_type(
    operand: BooleanExpressionObjectOperandView,
    subgraph: Seq<char>,
) -> QualifiedView {
    QualifiedView { subgraph, name: operand.operand_type }
}

/// Looks up the underlying object type, then resolves the comparable fields
/// and the comparable relationships. An object type that is not known is
/// the first error; after it come the errors of the fields, and after those
/// the errors of the relationships.
pub open spec fn resolved_parts(
    boolean_expression_type_name: QualifiedView,
    operand: BooleanExpressionObjectOperandView,
    subgraph: Seq<char>,
    has_graphql: bool,
    object_types: Map<QualifiedView, ObjectTypeRepresentationView>,
    scalar_boolean_expression_types: Map<QualifiedView, ResolvedScalarBooleanExpressionTypeView>,
    raw_boolean_expression_types: Map<QualifiedView, RawBooleanExpressionTypeView>,
    relationships: Map<QualifiedView, Map<Seq<char>, RelationshipView>>,
    flags: Flags,
) -> Result<ResolvedPartsView, BooleanExpressionErrorView> {
    let object_type = underlying_object_type(operand, subgraph);
    if !object_types.contains_key(object_type) {
        Err(BooleanExpressionErrorView::UnknownUnderlyingType { object_type })
    } else {
        match resolved_comparable_fields(
            operand.comparable_fields,
            object_types[object_type],
            boolean_expression_type_name,
            subgraph,
            scalar_boolean_expression_types,
            has_graphql,
            raw_boolean_expression_types,
            flags,
        ) {
            Err(error) => Err(error),
            Ok(comparable_fields) => match resolved_comparable_relationships(
                operand.comparable_relationships,
                boolean_expression_type_name,
                object_type,
                relationships,
                subgraph,
                raw_boolean_expression_types,
            ) {
                Err(error) => Err(error),
                Ok(comparable_relationships) => Ok(
                    ResolvedPartsView { object_type, comparable_fields, comparable_relationships },
                ),
            },
        }
    }
}

/// The resolved type, put together from its parts and its GraphQL descriptor.
pub open spec fn assembled<D>(
    boolean_expression_type_name: QualifiedView,
    logical_operators: BooleanExpressionLogicalOperators,
    parts: ResolvedPartsView,
    graphql: Option<D>,
) -> ResolvedObjectBooleanExpressionTypeView<D> {
    ResolvedObjectBooleanExpressionTypeView {
        name: boolean_expression_type_name,
        include_logical_operators: logical_operators_included(logical_operators),
        fields: ResolvedObjectBooleanExpressionTypeFieldsView {
            object_fields: parts.comparable_fields.object_fields,
            scalar_fields: parts.comparable_fields.scalar_fields,
            relationship_fields: parts.comparable_relationships,
        },
        object_type: parts.object_type,
        graphql,
    }
}

/// The result of the resolution, given the parts and what the building of
/// the GraphQL descriptor came to: `None` where the type has no GraphQL
/// configuration and nothing was built. A failure to build is the failure of
/// the resolution. Otherwise the issues of the fields come with the resolved type.
pub open spec fn assembled_resolution<D>(
    boolean_expression_type_name: QualifiedView,
    logical_operators: BooleanExpressionLogicalOperators,
    parts: ResolvedPartsView,
    built: Option<Result<D, BooleanExpressionErrorView>>,
) -> Result<
    (ResolvedObjectBooleanExpressionTypeView<D>, Seq<BooleanExpressionIssueView>),
    BooleanExpressionErrorView,
> {
    match built {
        Some(Err(error)) => Err(error),
        Some(Ok(descriptor)) => Ok(
            (
                assembled(
                    boolean_expression_type_name,
                    logical_operators,
                    parts,
                    Some(descriptor),
                ),
                parts.comparable_fields.issues,
            ),
        ),
        None => Ok(
            (
                assembled(boolean_expression_type_name, logical_operators, parts, None),
                parts.comparable_fields.issues,
            ),
        ),
    }
}

/// The view of what the building of the GraphQL descriptor came to.
pub open spec fn built_view<D>(built: Option<Result<D, BooleanExpressionError>>) -> Option<
    Result<D, BooleanExpressionErrorView>,
> {
    match built {
        Some(Ok(descriptor)) => Some(Ok(descriptor)),
        Some(Err(error)) => Some(Err(error@)),
        None => None,
    }
}

/// The view of the result of a resolution.
pub open spec fn resolution_view<D>(
    resolution: Result<
        (ResolvedObjectBooleanExpressionType<D>, Vec<BooleanExpressionIssue>),
        BooleanExpressionError,
    >,
) -> Result<
    (ResolvedObjectBooleanExpressionTypeView<D>, Seq<BooleanExpressionIssueView>),
    BooleanExpressionErrorView,
> {
    match resolution {
        Ok((resolved, issues)) => Ok((resolved@, seq_view(issues@))),
        Err(error) => Err(error@),
    }
}

/// Puts the resolved type together from its resolved parts and from what
/// the building of its GraphQL descriptor came to.
pub fn assemble_object_boolean_expression_type<D>(
    boolean_expression_type_name: &Qualified,
    logical_operators: &BooleanExpressionLogicalOperators,
    object_type: Qualified,
    comparable_fields: ComparableFieldsOutput,
    comparable_relationships: NameMap<String, BooleanExpressionComparableRelationship>,
    resolved_graphql: Option<Result<D, BooleanExpressionError>>,
) -> (resolution: Result<
    (ResolvedObjectBooleanExpressionType<D>, Vec<BooleanExpressionIssue>),
    BooleanExpressionError,
>)
    ensures
        resolution_view(resolution) == assembled_resolution(
            boolean_expression_type_name@,
            *logical_operators,
            ResolvedPartsView {
                object_type: object_type@,
                comparable_fields: comparable_fields@,
                comparable_relationships: comparable_relationships@,
            },
            built_view(resolved_graphql),
        ),
{
    let graphql = match resolved_graphql {
        Some(Ok(descriptor)) => Some(descriptor),
        Some(Err(error)) => {
            return Err(error);
        },
        None => None,
    };
    let ComparableFieldsOutput { comparable_fields: _, issues, object_fields, scalar_fields } =
        comparable_fields;
    Ok(
        (
            ResolvedObjectBooleanExpressionType {
                name: boolean_expression_type_name.duplicate(),
                include_logical_operators: resolve_logical_operators(logical_operators),
                fields: ResolvedObjectBooleanExpressionTypeFields {
                    object_fields,
                    scalar_fields,
                    relationship_fields: comparable_relationships,
                },
                object_type,
                graphql,
            },
            issues,
        ),
    )
}

/// Resolves a boolean expression type over an object type.
///
/// `resolve_object_boolean_graphql` builds the GraphQL descriptor. It is
/// called once, and only where the type has a GraphQL configuration and its
/// fields and relationships have resolved. It is handed the name of the type,
/// that configuration, the registered comparable fields, the two indexes of
/// boolean expression types, `graphql_config` and the registry of GraphQL
/// type names, which it may add to.
pub fn resolve_object_boolean_expression_type<C, D, F>(
    boolean_expression_type_name: &Qualified,
    object_boolean_expression_operand: &BooleanExpressionObjectOperand,
    logical_operators: &BooleanExpressionLogicalOperators,
    subgraph: &String,
    graphql: &Option<BooleanExpressionTypeGraphQlConfiguration>,
    object_types: &ObjectTypes,
    scalar_boolean_expression_types: &ScalarBooleanExpressionTypes,
    raw_boolean_expression_types: &RawBooleanExpressionTypes,
    relationships: &Relationships,
    graphql_config: &C,
    graphql_types: &mut GraphqlTypeNames,
    flags: &Flags,
    resolve_object_boolean_graphql: F,
) -> (resolution: Result<
    (ResolvedObjectBooleanExpressionType<D>, Vec<BooleanExpressionIssue>),
    BooleanExpressionError,
>) where
    F: FnOnce(
        &Qualified,
        &BooleanExpressionTypeGraphQlConfiguration,
        &NameMap<String, (ComparableFieldKind, Qualified)>,
        &ScalarBooleanExpressionTypes,
        &RawBooleanExpressionTypes,
        &C,
        &mut GraphqlTypeNames,
    ) -> Result<D, BooleanExpressionError>,

    requires
        graphql matches Some(configuration) ==> (resolved_parts(
            boolean_expression_type_name@,
            object_boolean_expression_operand@,
            subgraph@,
            true,
            object_types@,
            scalar_boolean_expression_types@,
            raw_boolean_expression_types@,
            relationships@,
            *flags,
        ) matches Ok(parts) ==> forall|
            comparable_fields: NameMap<String, (ComparableFieldKind, Qualified)>,
            types: &mut GraphqlTypeNames,
        |
            comparable_fields@ == parts.comparable_fields.comparable_fields && *types == *old(
                graphql_types,
            ) ==> #[trigger] call_requires(
                resolve_object_boolean_graphql,
                (
                    boolean_expression_type_name,
                    &configuration,
                    &comparable_fields,
                    scalar_boolean_expression_types,
                    raw_boolean_expression_types,
                    graphql_config,
                    types,
                ),
            )),
    ensures
        !object_types@.contains_key(
            underlying_object_type(object_boolean_expression_operand@, subgraph@),
        ) ==> resolution_view(resolution) == Err::<
            (ResolvedObjectBooleanExpressionTypeView<D>, Seq<BooleanExpressionIssueView>),
            BooleanExpressionErrorView,
        >(
            BooleanExpressionErrorView::UnknownUnderlyingType {
                object_type: underlying_object_type(object_boolean_expression_operand@, subgraph@),
            },
        ),
        match resolved_parts(
            boolean_expression_type_name@,
            object_boolean_expression_operand@,
            subgraph@,
            graphql is Some,
            object_types@,
            scalar_boolean_expression_types@,
            raw_boolean_expression_types@,
            relationships@,
            *flags,
        ) {
            Err(error) => {
                &&& resolution_view(resolution) == Err::<
                    (ResolvedObjectBooleanExpressionTypeView<D>, Seq<BooleanExpressionIssueView>),
                    BooleanExpressionErrorView,
                >(error)
                &&& *final(graphql_types) == *old(graphql_types)
            },
            Ok(parts) => match *graphql {
                None => {
                    &&& resolution_view(resolution) == assembled_resolution(
                        boolean_expression_type_name@,
                        *logical_operators,
                        parts,
                        None::<Result<D, BooleanExpressionErrorView>>,
                    )
                    &&& *final(graphql_types) == *old(graphql_types)
                },
                Some(configuration) => exists|
                    comparable_fields: NameMap<String, (ComparableFieldKind, Qualified)>,
                    types: &mut GraphqlTypeNames,
                    built: Result<D, BooleanExpressionError>,
                |
                    {
                        &&& comparable_fields@ == parts.comparable_fields.comparable_fields
                        &&& *types == *old(graphql_types)
                        &&& *final(types) == *final(graphql_types)
                        &&& #[trigger] call_ensures(
                            resolve_object_boolean_graphql,
                            (
                                boolean_expression_type_name,
                                &configuration,
                                &comparable_fields,
                                scalar_boolean_expression_types,
                                raw_boolean_expression_types,
                                graphql_config,
                                types,
                            ),
                            built,
                        )
                        &&& resolution_view(resolution) == assembled_resolution(
                            boolean_expression_type_name@,
                            *logical_operators,
                            parts,
                            built_view(Some(built)),
                        )
                    },
            },
        },
{
    let qualified_object_type_name = Qualified::new(
        subgraph.clone(),
        object_boolean_expression_operand.operand_type.clone(),
    );

    // the underlying object type
    let object_type_representation = match object_types.get(&qualified_object_type_name) {
        Some(object_type_representation) => object_type_representation,
        None => {
            return Err(
                BooleanExpressionError::UnknownUnderlyingType {
                    object_type: qualified_object_type_name,
                },
            );
        },
    };

    // the comparable fields
    let comparable_fields = match resolve_comparable_fields(
        &object_boolean_expression_operand.comparable_fields,
        object_type_representation,
        boolean_expression_type_name,
        subgraph,
        scalar_boolean_expression_types,
        graphql,
        raw_boolean_expression_types,
        flags,
    ) {
        Ok(comparable_fields) => comparable_fields,
        Err(error) => {
            return Err(error);
        },
    };

    // the comparable relationships
    let comparable_relationships = match resolve_comparable_relationships(
        boolean_expression_type_name,
        &qualified_object_type_name,
        &object_boolean_expression_operand.comparable_relationships,
        relationships,
        subgraph,
        raw_boolean_expression_types,
    ) {
        Ok(comparable_relationships) => comparable_relationships,
        Err(error) => {
            return Err(error);
        },
    };

    // the GraphQL descriptor
    let resolved_graphql = match graphql {
        Some(object_boolean_graphql_config) => Some(
            resolve_object_boolean_graphql(
                boolean_expression_type_name,
                object_boolean_graphql_config,
                &comparable_fields.comparable_fields,
                scalar_boolean_expression_types,
                raw_boolean_expression_types,
                graphql_config,
                graphql_types,
            ),
        ),
        None => None,
    };

    assemble_object_boolean_expression_type(
        boolean_expression_type_name,
        logical_operators,
        qualified_object_type_name,
        comparable_fields,
        comparable_relationships,
        resolved_graphql,
    )
}

} // verus!
