//! What holds of every resolution, proved from the definitions.

use crate::comparable_fields::{
    classify_comparable_fields, comparable_field_outcome, declaration_is_consistent,
    lemma_consistent_fields_resolve, lemma_registered_fields_were_declared, object_fields_of,
    operand_field_kind, operand_underlying_type, resolved_comparable_fields, scalar_fields_of,
    ClassifiedFields, ComparableFieldOutcome, ComparableFieldsOutput,
};
use crate::comparable_relationships::{
    comparable_relationship_outcome, resolved_comparable_relationships,
    ComparableRelationshipOutcome,
};
use crate::metadata::{
    BooleanExpressionComparableFieldView, BooleanExpressionLogicalOperators,
    BooleanExpressionObjectOperandView, Flags, RawBooleanExpressionTypeView,
};
use crate::name_map::NameMap;
use crate::names::{qualify_type_name, underlying_type_name, QualifiedView};
use crate::object::{
    assembled_resolution, resolution_view, resolved_parts, underlying_object_type,
    ResolvedPartsView,
};
use crate::object_types::ObjectTypeRepresentationView;
use crate::relationships::{lookup_relationship, RelationshipView};
use crate::resolved::{
    BooleanExpressionComparableRelationship, BooleanExpressionComparableRelationshipView,
    BooleanExpressionError, BooleanExpressionErrorView, BooleanExpressionIssue,
    BooleanExpressionIssueView, ComparableFieldKind, ResolvedObjectBooleanExpressionType,
};
use crate::scalar_boolean_expressions::ResolvedScalarBooleanExpressionTypeView;
use vstd::prelude::*;

verus! {

/// The first declared field that fails decides the error of the whole list.
pub proof fn lemma_first_failing_field_decides(
    declared: Seq<BooleanExpressionComparableFieldView>,
    n: int,
    object_type: ObjectTypeRepresentationView,
    boolean_expression_type_name: QualifiedView,
    subgraph: Seq<char>,
    raw_boolean_expression_types: Map<QualifiedView, RawBooleanExpressionTypeView>,
)
    requires
        0 <= n < declared.len(),
        comparable_field_outcome(
            declared[n],
            object_type,
            boolean_expression_type_name,
            subgraph,
            raw_boolean_expression_types,
        ) is Failed,
    ensures
        classify_comparable_fields(
            declared,
            object_type,
            boolean_expression_type_name,
            subgraph,
            raw_boolean_expression_types,
        ) is Err,
        classify_comparable_fields(
            declared.take(n),
            object_type,
            boolean_expression_type_name,
            subgraph,
            raw_boolean_expression_types,
        ) is Ok ==> classify_comparable_fields(
            declared,
            object_type,
            boolean_expression_type_name,
            subgraph,
            raw_boolean_expression_types,
        ) == Err::<ClassifiedFields, BooleanExpressionErrorView>(
            comparable_field_outcome(
                declared[n],
                object_type,
                boolean_expression_type_name,
                subgraph,
                raw_boolean_expression_types,
            )->Failed_0,
        ),
{
    assert(declared.take(n + 1).drop_last() =~= declared.take(n));
    assert(declared.take(n + 1).last() == declared[n]);
    crate::comparable_fields::lemma_classify_failure_persists(
        declared,
        n + 1,
        object_type,
        boolean_expression_type_name,
        subgraph,
        raw_boolean_expression_types,
    );
}

/// A field that exists and takes no arguments, and whose boolean expression
/// type is declared over another type than the field has, fails with
/// `FieldTypeMismatch`, whatever the kind of comparison: as an object, as an
/// array, or as a scalar on a field that is no list. The resolution of a
/// list of declarations that holds such a field fails; it fails with this
/// error where no earlier declaration fails.
pub proof fn lemma_field_type_mismatch_fails(
    declared: Seq<BooleanExpressionComparableFieldView>,
    n: int,
    object_type: ObjectTypeRepresentationView,
    boolean_expression_type_name: QualifiedView,
    subgraph: Seq<char>,
    raw_boolean_expression_types: Map<QualifiedView, RawBooleanExpressionTypeView>,
)
    requires
        0 <= n < declared.len(),
        object_type.fields.contains_key(declared[n].field_name),
        object_type.fields[declared[n].field_name].field_arguments == Map::<
            Seq<char>,
            crate::names::QualifiedTypeReferenceView,
        >::empty(),
        raw_boolean_expression_types.contains_key(
            QualifiedView { subgraph, name: declared[n].boolean_expression_type },
        ),
        !(object_type.fields[declared[n].field_name].field_type.underlying_type is List
            && operand_field_kind(
            raw_boolean_expression_types[QualifiedView {
                subgraph,
                name: declared[n].boolean_expression_type,
            }].definition.operand,
            true,
        ) == ComparableFieldKind::Scalar),
        qualify_type_name(
            operand_underlying_type(
                raw_boolean_expression_types[QualifiedView {
                    subgraph,
                    name: declared[n].boolean_expression_type,
                }].definition.operand,
            ),
            subgraph,
        ) != underlying_type_name(object_type.fields[declared[n].field_name].field_type),
    ensures
        comparable_field_outcome(
            declared[n],
            object_type,
            boolean_expression_type_name,
            subgraph,
            raw_boolean_expression_types,
        ) == ComparableFieldOutcome::Failed(
            BooleanExpressionErrorView::FieldTypeMismatch {
                field_boolean_expression_type_name: QualifiedView {
                    subgraph,
                    name: declared[n].boolean_expression_type,
                },
                field_name: declared[n].field_name,
                field_type: underlying_type_name(
                    object_type.fields[declared[n].field_name].field_type,
                ),
                underlying_type: qualify_type_name(
                    operand_underlying_type(
                        raw_boolean_expression_types[QualifiedView {
                            subgraph,
                            name: declared[n].boolean_expression_type,
                        }].definition.operand,
                    ),
                    subgraph,
                ),
            },
        ),
        classify_comparable_fields(
            declared,
            object_type,
            boolean_expression_type_name,
            subgraph,
            raw_boolean_expression_types,
        ) is Err,
        classify_comparable_fields(
            declared.take(n),
            object_type,
            boolean_expression_type_name,
            subgraph,
            raw_boolean_expression_types,
        ) is Ok ==> (classify_comparable_fields(
            declared,
            object_type,
            boolean_expression_type_name,
            subgraph,
            raw_boolean_expression_types,
        ) matches Err(error) && error is FieldTypeMismatch),
{
    lemma_first_failing_field_decides(
        declared,
        n,
        object_type,
        boolean_expression_type_name,
        subgraph,
        raw_boolean_expression_types,
    );
}

/// A field that is a list, takes no arguments, and names a declared boolean
/// expression type over a scalar is dropped: it is never an error. After the
/// declarations before it have resolved, it adds exactly one issue and no field.
pub proof fn lemma_list_field_with_scalar_type_is_dropped(
    declared: Seq<BooleanExpressionComparableFieldView>,
    n: int,
    object_type: ObjectTypeRepresentationView,
    boolean_expression_type_name: QualifiedView,
    subgraph: Seq<char>,
    raw_boolean_expression_types: Map<QualifiedView, RawBooleanExpressionTypeView>,
)
    requires
        0 <= n < declared.len(),
        object_type.fields.contains_key(declared[n].field_name),
        object_type.fields[declared[n].field_name].field_arguments == Map::<
            Seq<char>,
            crate::names::QualifiedTypeReferenceView,
        >::empty(),
        raw_boolean_expression_types.contains_key(
            QualifiedView { subgraph, name: declared[n].boolean_expression_type },
        ),
        object_type.fields[declared[n].field_name].field_type.underlying_type is List,
        operand_field_kind(
            raw_boolean_expression_types[QualifiedView {
                subgraph,
                name: declared[n].boolean_expression_type,
            }].definition.operand,
            true,
        ) == ComparableFieldKind::Scalar,
    ensures
        comparable_field_outcome(
            declared[n],
            object_type,
            boolean_expression_type_name,
            subgraph,
            raw_boolean_expression_types,
        ) == ComparableFieldOutcome::Dropped(
            BooleanExpressionIssueView::BooleanExpressionArrayFieldComparedWithScalarType {
                field_name: declared[n].field_name,
                boolean_expression_type_name: QualifiedView {
                    subgraph,
                    name: declared[n].boolean_expression_type,
                },
            },
        ),
        classify_comparable_fields(
            declared.take(n),
            object_type,
            boolean_expression_type_name,
            subgraph,
            raw_boolean_expression_types,
        ) matches Ok(before) ==> classify_comparable_fields(
            declared.take(n + 1),
            object_type,
            boolean_expression_type_name,
            subgraph,
            raw_boolean_expression_types,
        ) == Ok::<ClassifiedFields, BooleanExpressionErrorView>(
            ClassifiedFields {
                comparable_fields: before.comparable_fields,
                issues: before.issues.push(
                    BooleanExpressionIssueView::BooleanExpressionArrayFieldComparedWithScalarType {
                        field_name: declared[n].field_name,
                        boolean_expression_type_name: QualifiedView {
                            subgraph,
                            name: declared[n].boolean_expression_type,
                        },
                    },
                ),
            },
        ),
{
    assert(declared.take(n + 1).drop_last() =~= declared.take(n));
    assert(declared.take(n + 1).last() == declared[n]);
}

/// A field name that no declaration registers is in none of the maps of the
/// result: not among the registered fields, and so neither among the object
/// fields nor among the scalar fields.
pub proof fn lemma_unregistered_field_is_absent(
    declared: Seq<BooleanExpressionComparableFieldView>,
    object_type: ObjectTypeRepresentationView,
    boolean_expression_type_name: QualifiedView,
    subgraph: Seq<char>,
    scalar_boolean_expression_types: Map<QualifiedView, ResolvedScalarBooleanExpressionTypeView>,
    raw_boolean_expression_types: Map<QualifiedView, RawBooleanExpressionTypeView>,
    name: Seq<char>,
)
    requires
        classify_comparable_fields(
            declared,
            object_type,
            boolean_expression_type_name,
            subgraph,
            raw_boolean_expression_types,
        ) is Ok,
        forall|i: int|
            0 <= i < declared.len() && (#[trigger] declared[i]).field_name == name
                ==> !(comparable_field_outcome(
                declared[i],
                object_type,
                boolean_expression_type_name,
                subgraph,
                raw_boolean_expression_types,
            ) is Registered),
    ensures
        ({
            let classified = classify_comparable_fields(
                declared,
                object_type,
                boolean_expression_type_name,
                subgraph,
                raw_boolean_expression_types,
            )->Ok_0;
            &&& !classified.comparable_fields.contains_key(name)
            &&& !object_fields_of(
                classified.comparable_fields,
                raw_boolean_expression_types,
            ).contains_key(name)
            &&& !scalar_fields_of(
                classified.comparable_fields,
                scalar_boolean_expression_types,
            ).contains_key(name)
        }),
{
    let classified = classify_comparable_fields(
        declared,
        object_type,
        boolean_expression_type_name,
        subgraph,
        raw_boolean_expression_types,
    )->Ok_0;
    if classified.comparable_fields.contains_key(name) {
        lemma_registered_fields_were_declared(
            declared,
            object_type,
            boolean_expression_type_name,
            subgraph,
            raw_boolean_expression_types,
            name,
        );
    }
}

/// The first declared relationship that fails decides the error of the
/// whole list.
pub proof fn lemma_first_failing_relationship_decides(
    declared: Seq<crate::metadata::BooleanExpressionComparableRelationshipView>,
    n: int,
    boolean_expression_type_name: QualifiedView,
    underlying_object_type_name: QualifiedView,
    relationships: Map<QualifiedView, Map<Seq<char>, RelationshipView>>,
    subgraph: Seq<char>,
    raw_boolean_expression_types: Map<QualifiedView, RawBooleanExpressionTypeView>,
)
    requires
        0 <= n < declared.len(),
        comparable_relationship_outcome(
            declared[n],
            boolean_expression_type_name,
            underlying_object_type_name,
            relationships,
            subgraph,
            raw_boolean_expression_types,
        ) is Failed,
    ensures
        resolved_comparable_relationships(
            declared,
            boolean_expression_type_name,
            underlying_object_type_name,
            relationships,
            subgraph,
            raw_boolean_expression_types,
        ) is Err,
        resolved_comparable_relationships(
            declared.take(n),
            boolean_expression_type_name,
            underlying_object_type_name,
            relationships,
            subgraph,
            raw_boolean_expression_types,
        ) is Ok ==> resolved_comparable_relationships(
            declared,
            boolean_expression_type_name,
            underlying_object_type_name,
            relationships,
            subgraph,
            raw_boolean_expression_types,
        ) == Err::<
            Map<Seq<char>, BooleanExpressionComparableRelationshipView>,
            BooleanExpressionErrorView,
        >(
            comparable_relationship_outcome(
                declared[n],
                boolean_expression_type_name,
                underlying_object_type_name,
                relationships,
                subgraph,
                raw_boolean_expression_types,
            )->Failed_0,
        ),
{
    assert(declared.take(n + 1).drop_last() =~= declared.take(n));
    assert(declared.take(n + 1).last() == declared[n]);
    crate::comparable_relationships::lemma_relationship_failure_persists(
        declared,
        n + 1,
        boolean_expression_type_name,
        underlying_object_type_name,
        relationships,
        subgraph,
        raw_boolean_expression_types,
    );
}

/// A declared relationship that the underlying object type does not have
/// fails with the error of the lookup. The resolution of a list of
/// declarations that holds it fails; it fails with this error where no
/// earlier declaration fails.
pub proof fn lemma_unknown_relationship_fails(
    declared: Seq<crate::metadata::BooleanExpressionComparableRelationshipView>,
    n: int,
    boolean_expression_type_name: QualifiedView,
    underlying_object_type_name: QualifiedView,
    relationships: Map<QualifiedView, Map<Seq<char>, RelationshipView>>,
    subgraph: Seq<char>,
    raw_boolean_expression_types: Map<QualifiedView, RawBooleanExpressionTypeView>,
)
    requires
        0 <= n < declared.len(),
        lookup_relationship(relationships, underlying_object_type_name, declared[n].relationship_name)
            is Err,
    ensures
        comparable_relationship_outcome(
            declared[n],
            boolean_expression_type_name,
            underlying_object_type_name,
            relationships,
            subgraph,
            raw_boolean_expression_types,
        ) == ComparableRelationshipOutcome::Failed(
            BooleanExpressionErrorView::RelationshipError(
                lookup_relationship(
                    relationships,
                    underlying_object_type_name,
                    declared[n].relationship_name,
                )->Err_0,
            ),
        ),
        resolved_comparable_relationships(
            declared,
            boolean_expression_type_name,
            underlying_object_type_name,
            relationships,
            subgraph,
            raw_boolean_expression_types,
        ) is Err,
        resolved_comparable_relationships(
            declared.take(n),
            boolean_expression_type_name,
            underlying_object_type_name,
            relationships,
            subgraph,
            raw_boolean_expression_types,
        ) is Ok ==> (resolved_comparable_relationships(
            declared,
            boolean_expression_type_name,
            underlying_object_type_name,
            relationships,
            subgraph,
            raw_boolean_expression_types,
        ) matches Err(error) && error is RelationshipError),
{
    lemma_first_failing_relationship_decides(
        declared,
        n,
        boolean_expression_type_name,
        underlying_object_type_name,
        relationships,
        subgraph,
        raw_boolean_expression_types,
    );
}

/// A declared relationship whose target lies in an unknown subgraph is left
/// out: the declarations up to and with it resolve to what the declarations
/// before it resolve to, be that relationships or an error.
pub proof fn lemma_relationship_to_unknown_subgraph_is_omitted(
    declared: Seq<crate::metadata::BooleanExpressionComparableRelationshipView>,
    n: int,
    boolean_expression_type_name: QualifiedView,
    underlying_object_type_name: QualifiedView,
    relationships: Map<QualifiedView, Map<Seq<char>, RelationshipView>>,
    subgraph: Seq<char>,
    raw_boolean_expression_types: Map<QualifiedView, RawBooleanExpressionTypeView>,
)
    requires
        0 <= n < declared.len(),
        lookup_relationship(relationships, underlying_object_type_name, declared[n].relationship_name)
            == Ok::<RelationshipView, crate::relationships::RelationshipErrorView>(
            RelationshipView::RelationshipToUnknownSubgraph,
        ),
    ensures
        comparable_relationship_outcome(
            declared[n],
            boolean_expression_type_name,
            underlying_object_type_name,
            relationships,
            subgraph,
            raw_boolean_expression_types,
        ) == ComparableRelationshipOutcome::Omitted,
        resolved_comparable_relationships(
            declared.take(n + 1),
            boolean_expression_type_name,
            underlying_object_type_name,
            relationships,
            subgraph,
            raw_boolean_expression_types,
        ) == resolved_comparable_relationships(
            declared.take(n),
            boolean_expression_type_name,
            underlying_object_type_name,
            relationships,
            subgraph,
            raw_boolean_expression_types,
        ),
{
    assert(declared.take(n + 1).drop_last() =~= declared.take(n));
    assert(declared.take(n + 1).last() == declared[n]);
}

/// An operand over an object type that is not known fails with
/// `UnknownUnderlyingType`, whatever else is declared.
pub proof fn lemma_unknown_underlying_type_fails(
    boolean_expression_type_name: QualifiedView,
    operand: BooleanExpressionObjectOperandView,
    subgraph: Seq<char>,
    has_graphql: bool,
    object_types: Map<QualifiedView, ObjectTypeRepresentationView>,
    scalar_boolean_expression_types: Map<QualifiedView, ResolvedScalarBooleanExpressionTypeView>,
    raw_boolean_expression_types: Map<QualifiedView, RawBooleanExpressionTypeView>,
    relationships: Map<QualifiedView, Map<Seq<char>, RelationshipView>>,
    flags: Flags,
)
    requires
        !object_types.contains_key(underlying_object_type(operand, subgraph)),
    ensures
        resolved_parts(
            boolean_expression_type_name,
            operand,
            subgraph,
            has_graphql,
            object_types,
            scalar_boolean_expression_types,
            raw_boolean_expression_types,
            relationships,
            flags,
        ) == Err::<ResolvedPartsView, BooleanExpressionErrorView>(
            BooleanExpressionErrorView::UnknownUnderlyingType {
                object_type: underlying_object_type(operand, subgraph),
            },
        ),
{
}

/// Where the underlying object type is known, every declared comparable
/// field is consistent, the comparable relationships resolve, and the
/// building of the GraphQL descriptor does not fail, the resolution
/// succeeds. The issues it reports are those of the fields; the
/// relationships add none.
pub proof fn lemma_consistent_type_resolves<D>(
    boolean_expression_type_name: QualifiedView,
    operand: BooleanExpressionObjectOperandView,
    logical_operators: BooleanExpressionLogicalOperators,
    subgraph: Seq<char>,
    object_types: Map<QualifiedView, ObjectTypeRepresentationView>,
    scalar_boolean_expression_types: Map<QualifiedView, ResolvedScalarBooleanExpressionTypeView>,
    raw_boolean_expression_types: Map<QualifiedView, RawBooleanExpressionTypeView>,
    relationships: Map<QualifiedView, Map<Seq<char>, RelationshipView>>,
    flags: Flags,
    built: Option<Result<D, BooleanExpressionErrorView>>,
)
    requires
        object_types.contains_key(underlying_object_type(operand, subgraph)),
        forall|i: int|
            0 <= i < operand.comparable_fields.len() ==> declaration_is_consistent(
                #[trigger] operand.comparable_fields[i],
                object_types[underlying_object_type(operand, subgraph)],
                subgraph,
                raw_boolean_expression_types,
            ),
        resolved_comparable_relationships(
            operand.comparable_relationships,
            boolean_expression_type_name,
            underlying_object_type(operand, subgraph),
            relationships,
            subgraph,
            raw_boolean_expression_types,
        ) is Ok,
        !(built matches Some(Err(_))),
    ensures
        resolved_parts(
            boolean_expression_type_name,
            operand,
            subgraph,
            built is Some,
            object_types,
            scalar_boolean_expression_types,
            raw_boolean_expression_types,
            relationships,
            flags,
        ) matches Ok(parts) && assembled_resolution(
            boolean_expression_type_name,
            logical_operators,
            parts,
            built,
        ) matches Ok(resolution) && resolution.1 == parts.comparable_fields.issues,
{
    lemma_consistent_fields_resolve(
        operand.comparable_fields,
        object_types[underlying_object_type(operand, subgraph)],
        boolean_expression_type_name,
        subgraph,
        scalar_boolean_expression_types,
        built is Some,
        raw_boolean_expression_types,
        flags,
    );
}

/// Resolving the same comparable fields twice against the same directories
/// gives the same result: whatever two runs return, their views are equal.
pub proof fn lemma_comparable_fields_resolve_the_same(
    first: Result<ComparableFieldsOutput, BooleanExpressionError>,
    second: Result<ComparableFieldsOutput, BooleanExpressionError>,
    declared: Seq<BooleanExpressionComparableFieldView>,
    object_type: ObjectTypeRepresentationView,
    boolean_expression_type_name: QualifiedView,
    subgraph: Seq<char>,
    scalar_boolean_expression_types: Map<QualifiedView, ResolvedScalarBooleanExpressionTypeView>,
    has_graphql: bool,
    raw_boolean_expression_types: Map<QualifiedView, RawBooleanExpressionTypeView>,
    flags: Flags,
)
    requires
        fields_result_is(
            first,
            resolved_comparable_fields(
                declared,
                object_type,
                boolean_expression_type_name,
                subgraph,
                scalar_boolean_expression_types,
                has_graphql,
                raw_boolean_expression_types,
                flags,
            ),
        ),
        fields_result_is(
            second,
            resolved_comparable_fields(
                declared,
                object_type,
                boolean_expression_type_name,
                subgraph,
                scalar_boolean_expression_types,
                has_graphql,
                raw_boolean_expression_types,
                flags,
            ),
        ),
    ensures
        match (first, second) {
            (Ok(a), Ok(b)) => a@ == b@,
            (Err(a), Err(b)) => a@ == b@,
            _ => false,
        },
{
}

/// What the resolution of the comparable fields promises of its result.
pub open spec fn fields_result_is(
    result: Result<ComparableFieldsOutput, BooleanExpressionError>,
    expected: Result<crate::comparable_fields::ComparableFieldsOutputView, BooleanExpressionErrorView>,
) -> bool {
    match result {
        Ok(output) => expected == Ok::<
            crate::comparable_fields::ComparableFieldsOutputView,
            BooleanExpressionErrorView,
        >(output@),
        Err(error) => expected == Err::<
            crate::comparable_fields::ComparableFieldsOutputView,
            BooleanExpressionErrorView,
        >(error@),
    }
}

/// What the resolution of the comparable relationships promises of its result.
pub open spec fn relationships_result_is(
    result: Result<NameMap<String, BooleanExpressionComparableRelationship>, BooleanExpressionError>,
    expected: Result<
        Map<Seq<char>, BooleanExpressionComparableRelationshipView>,
        BooleanExpressionErrorView,
    >,
) -> bool {
    match result {
        Ok(registered) => expected == Ok::<
            Map<Seq<char>, BooleanExpressionComparableRelationshipView>,
            BooleanExpressionErrorView,
        >(registered@),
        Err(error) => expected == Err::<
            Map<Seq<char>, BooleanExpressionComparableRelationshipView>,
            BooleanExpressionErrorView,
        >(error@),
    }
}

/// Resolving the same comparable relationships twice against the same
/// directories gives the same result.
pub proof fn lemma_comparable_relationships_resolve_the_same(
    first: Result<NameMap<String, BooleanExpressionComparableRelationship>, BooleanExpressionError>,
    second: Result<NameMap<String, BooleanExpressionComparableRelationship>, BooleanExpressionError>,
    declared: Seq<crate::metadata::BooleanExpressionComparableRelationshipView>,
    boolean_expression_type_name: QualifiedView,
    underlying_object_type_name: QualifiedView,
    relationships: Map<QualifiedView, Map<Seq<char>, RelationshipView>>,
    subgraph: Seq<char>,
    raw_boolean_expression_types: Map<QualifiedView, RawBooleanExpressionTypeView>,
)
    requires
        relationships_result_is(
            first,
            resolved_comparable_relationships(
                declared,
                boolean_expression_type_name,
                underlying_object_type_name,
                relationships,
                subgraph,
                raw_boolean_expression_types,
            ),
        ),
        relationships_result_is(
            second,
            resolved_comparable_relationships(
                declared,
                boolean_expression_type_name,
                underlying_object_type_name,
                relationships,
                subgraph,
                raw_boolean_expression_types,
            ),
        ),
    ensures
        match (first, second) {
            (Ok(a), Ok(b)) => a@ == b@,
            (Err(a), Err(b)) => a@ == b@,
            _ => false,
        },
{
}

/// Resolving the same type twice against the same directories, with the
/// building of the GraphQL descriptor coming to the same both times, gives
/// the same result: the same resolved type with the same issues, or the
/// same error.
pub proof fn lemma_resolution_is_idempotent<D>(
    first: Result<
        (ResolvedObjectBooleanExpressionType<D>, Vec<BooleanExpressionIssue>),
        BooleanExpressionError,
    >,
    second: Result<
        (ResolvedObjectBooleanExpressionType<D>, Vec<BooleanExpressionIssue>),
        BooleanExpressionError,
    >,
    boolean_expression_type_name: QualifiedView,
    logical_operators: BooleanExpressionLogicalOperators,
    parts: ResolvedPartsView,
    built: Option<Result<D, BooleanExpressionErrorView>>,
)
    requires
        resolution_view(first) == assembled_resolution(
            boolean_expression_type_name,
            logical_operators,
            parts,
            built,
        ),
        resolution_view(second) == assembled_resolution(
            boolean_expression_type_name,
            logical_operators,
            parts,
            built,
        ),
    ensures
        resolution_view(first) == resolution_view(second),
{
}

} // verus!
