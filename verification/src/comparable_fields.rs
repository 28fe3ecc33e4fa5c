//! The comparable fields of an object boolean expression type.
//!
//! Each declared field is classified on its own: it is registered with the
//! kind of comparison it takes, passed over, dropped with an issue, or it
//! fails the whole resolution. The registered fields then get their
//! comparison information from the boolean expression types they name.

use crate::helpers::lookup_raw_boolean_expression;
use crate::metadata::{
    BooleanExpressionComparableField, BooleanExpressionComparableFieldView,
    BooleanExpressionOperand, BooleanExpressionOperandView,
    BooleanExpressionTypeGraphQlConfiguration, Flags, RawBooleanExpressionTypeView,
    RawBooleanExpressionTypes,
};
use crate::name_map::{
    distinct_keys, lemma_map_of_index, lemma_map_of_take_fresh, lemma_map_of_take_next, map_of,
    Duplicate, NameMap,
};
use crate::names::{
    mk_qualified_type_name, qualify_type_name, underlying_type_name, Qualified,
    QualifiedTypeName, QualifiedTypeReferenceView, QualifiedView, TypeNameView,
};
use crate::object_types::{ObjectTypeRepresentation, ObjectTypeRepresentationView};
use crate::resolved::{
    BooleanExpressionError, BooleanExpressionErrorView, BooleanExpressionIssue,
    BooleanExpressionIssueView, ComparableFieldKind, ComparisonExpressionInfo,
    ComparisonExpressionInfoView, ObjectComparisonExpressionInfo,
    ObjectComparisonExpressionInfoView, ObjectComparisonKind, OperatorMapping,
};
use crate::scalar_boolean_expressions::{
    DataConnectorOperatorMapping, DataConnectorOperatorMappingView, IncludeIsNull,
    ResolvedScalarBooleanExpressionTypeView, ScalarBooleanExpressionTypes,
};
use crate::views::seq_view;
use vstd::prelude::*;

verus! {

/// The type that a boolean expression type with this operand is declared over.
pub open spec fn operand_underlying_type(operand: BooleanExpressionOperandView) -> TypeNameView {
    match operand {
        BooleanExpressionOperandView::Object(object) => TypeNameView::Custom(object.operand_type),
        BooleanExpressionOperandView::ObjectAggregate(name) => TypeNameView::Custom(name),
        BooleanExpressionOperandView::Scalar(name) => name,
        BooleanExpressionOperandView::ScalarAggregate(name) => name,
    }
}

/// How a field is compared by a boolean expression type with this operand:
/// as a scalar by a scalar operand, else as an array where the field is a
/// list and as an object where it is not.
pub open spec fn operand_field_kind(operand: BooleanExpressionOperandView, field_is_list: bool)
    -> ComparableFieldKind {
    match operand {
        BooleanExpressionOperandView::Object(_) | BooleanExpressionOperandView::ObjectAggregate(
            _,
        ) => if field_is_list {
            ComparableFieldKind::Array
        } else {
            ComparableFieldKind::Object
        },
        BooleanExpressionOperandView::Scalar(_) | BooleanExpressionOperandView::ScalarAggregate(
            _,
        ) => ComparableFieldKind::Scalar,
    }
}

/// What becomes of one declared comparable field.
pub ghost enum ComparableFieldOutcome {
    /// The field takes arguments: it cannot be filtered on and is passed over.
    Skipped,
    /// The field is a list and would be compared as a scalar: it is left out,
    /// and the issue says so.
    Dropped(BooleanExpressionIssueView),
    /// The field is compared, in the given kind, by the given boolean expression type.
    Registered(ComparableFieldKind, QualifiedView),
    /// The declaration is wrong, and the resolution fails with this error.
    Failed(BooleanExpressionErrorView),
}

/// Classifies one declared comparable field of the boolean expression type
/// `boolean_expression_type_name`, declared in `subgraph` over `object_type`.
pub open spec fn comparable_field_outcome(
    declared: BooleanExpressionComparableFieldView,
    object_type: ObjectTypeRepresentationView,
    boolean_expression_type_name: QualifiedView,
    subgraph: Seq<char>,
    raw_boolean_expression_types: Map<QualifiedView, RawBooleanExpressionTypeView>,
) -> ComparableFieldOutcome {
    let target = QualifiedView { subgraph, name: declared.boolean_expression_type };
    if !object_type.fields.contains_key(declared.field_name) {
        ComparableFieldOutcome::Failed(
            BooleanExpressionErrorView::UnknownComparableField {
                field_name: declared.field_name,
                object_boolean_expression_type: boolean_expression_type_name,
            },
        )
    } else if object_type.fields[declared.field_name].field_arguments != Map::<
        Seq<char>,
        QualifiedTypeReferenceView,
    >::empty() {
        ComparableFieldOutcome::Skipped
    } else if !raw_boolean_expression_types.contains_key(target) {
        ComparableFieldOutcome::Failed(
            BooleanExpressionErrorView::UnknownReferencedFilterType {
                parent_boolean_expression: boolean_expression_type_name,
                child_boolean_expression: target,
            },
        )
    } else {
        let field_type = object_type.fields[declared.field_name].field_type;
        let operand = raw_boolean_expression_types[target].definition.operand;
        let field_is_list = field_type.underlying_type is List;
        let field_kind = operand_field_kind(operand, field_is_list);
        let underlying_type = qualify_type_name(operand_underlying_type(operand), subgraph);
        if field_is_list && field_kind == ComparableFieldKind::Scalar {
            ComparableFieldOutcome::Dropped(
                BooleanExpressionIssueView::BooleanExpressionArrayFieldComparedWithScalarType {
                    field_name: declared.field_name,
                    boolean_expression_type_name: target,
                },
            )
        } else if underlying_type != underlying_type_name(field_type) {
            ComparableFieldOutcome::Failed(
                BooleanExpressionErrorView::FieldTypeMismatch {
                    field_boolean_expression_type_name: target,
                    field_name: declared.field_name,
                    field_type: underlying_type_name(field_type),
                    underlying_type,
                },
            )
        } else {
            ComparableFieldOutcome::Registered(field_kind, target)
        }
    }
}

/// The fields registered by a list of declarations, and the issues raised on the way.
pub ghost struct ClassifiedFields {
    pub comparable_fields: Map<Seq<char>, (ComparableFieldKind, QualifiedView)>,
    pub issues: Seq<BooleanExpressionIssueView>,
}

/// Classifies the declared fields in order. The first declaration that
/// fails decides the error. Otherwise each registered field is entered under
/// its name, a later declaration of a name replacing an earlier one, and the
/// issues are collected in the order of the declarations.
pub open spec fn classify_comparable_fields(
    declared: Seq<BooleanExpressionComparableFieldView>,
    object_type: ObjectTypeRepresentationView,
    boolean_expression_type_name: QualifiedView,
    subgraph: Seq<char>,
    raw_boolean_expression_types: Map<QualifiedView, RawBooleanExpressionTypeView>,
) -> Result<ClassifiedFields, BooleanExpressionErrorView>
    decreases declared.len(),
{
    if declared.len() == 0 {
        Ok(ClassifiedFields { comparable_fields: Map::empty(), issues: Seq::empty() })
    } else {
        match classify_comparable_fields(
            declared.drop_last(),
            object_type,
            boolean_expression_type_name,
            subgraph,
            raw_boolean_expression_types,
        ) {
            Err(error) => Err(error),
            Ok(before) => match comparable_field_outcome(
                declared.last(),
                object_type,
                boolean_expression_type_name,
                subgraph,
                raw_boolean_expression_types,
            ) {
                ComparableFieldOutcome::Skipped => Ok(before),
                ComparableFieldOutcome::Dropped(issue) => Ok(
                    ClassifiedFields {
                        comparable_fields: before.comparable_fields,
                        issues: before.issues.push(issue),
                    },
                ),
                ComparableFieldOutcome::Registered(field_kind, target) => Ok(
                    ClassifiedFields {
                        comparable_fields: before.comparable_fields.insert(
                            declared.last().field_name,
                            (field_kind, target),
                        ),
                        issues: before.issues,
                    },
                ),
                ComparableFieldOutcome::Failed(error) => Err(error),
            },
        }
    }
}

/// The operator names of each data connector, without the rest of what is
/// known of the connector's scalar type.
pub open spec fn operator_mappings(
    mappings: Map<QualifiedView, DataConnectorOperatorMappingView>,
) -> Map<QualifiedView, Map<Seq<char>, Seq<char>>> {
    Map::new(
        |data_connector: QualifiedView| mappings.contains_key(data_connector),
        |data_connector: QualifiedView| mappings[data_connector].operator_mapping,
    )
}

/// Whether a scalar boolean expression type has anything to compare with: an
/// operator, or the check for null.
pub open spec fn offers_comparison(scalar: ResolvedScalarBooleanExpressionTypeView) -> bool {
    scalar.comparison_operators != Map::<Seq<char>, QualifiedTypeReferenceView>::empty()
        || scalar.include_is_null == IncludeIsNull::Yes
}

/// Whether a registered field gets scalar comparison information.
pub open spec fn has_scalar_comparison(
    field: (ComparableFieldKind, QualifiedView),
    scalar_boolean_expression_types: Map<QualifiedView, ResolvedScalarBooleanExpressionTypeView>,
) -> bool {
    &&& field.0 == ComparableFieldKind::Scalar
    &&& scalar_boolean_expression_types.contains_key(field.1)
    &&& offers_comparison(scalar_boolean_expression_types[field.1])
}

/// The comparison information of a field compared by the scalar boolean
/// expression type `target`.
pub open spec fn scalar_comparison(
    target: QualifiedView,
    scalar: ResolvedScalarBooleanExpressionTypeView,
) -> ComparisonExpressionInfoView {
    ComparisonExpressionInfoView {
        object_type_name: Some(target),
        operators: scalar.comparison_operators,
        operator_mapping: operator_mappings(scalar.data_connector_operator_mappings),
    }
}

/// The scalar comparison information of the registered fields.
pub open spec fn scalar_fields_of(
    comparable_fields: Map<Seq<char>, (ComparableFieldKind, QualifiedView)>,
    scalar_boolean_expression_types: Map<QualifiedView, ResolvedScalarBooleanExpressionTypeView>,
) -> Map<Seq<char>, ComparisonExpressionInfoView> {
    Map::new(
        |name: Seq<char>|
            comparable_fields.contains_key(name) && has_scalar_comparison(
                comparable_fields[name],
                scalar_boolean_expression_types,
            ),
        |name: Seq<char>|
            scalar_comparison(
                comparable_fields[name].1,
                scalar_boolean_expression_types[comparable_fields[name].1],
            ),
    )
}

/// Whether a registered field gets object comparison information: it is
/// compared as an object or an array, by a boolean expression type whose
/// operand is an object type.
pub open spec fn has_object_comparison(
    field: (ComparableFieldKind, QualifiedView),
    raw_boolean_expression_types: Map<QualifiedView, RawBooleanExpressionTypeView>,
) -> bool {
    &&& field.0 != ComparableFieldKind::Scalar
    &&& raw_boolean_expression_types.contains_key(field.1)
    &&& raw_boolean_expression_types[field.1].definition.operand is Object
}

/// The comparison information of a field compared by the object boolean
/// expression type `field.1`, whose declaration is `raw`.
pub open spec fn object_comparison(
    field: (ComparableFieldKind, QualifiedView),
    raw: RawBooleanExpressionTypeView,
) -> ObjectComparisonExpressionInfoView {
    ObjectComparisonExpressionInfoView {
        field_kind: if field.0 == ComparableFieldKind::Array {
            ObjectComparisonKind::Array
        } else {
            ObjectComparisonKind::Object
        },
        object_type_name: field.1,
        underlying_object_type_name: QualifiedView {
            subgraph: raw.subgraph,
            name: raw.definition.operand->Object_0.operand_type,
        },
    }
}

/// The object comparison information of the registered fields.
pub open spec fn object_fields_of(
    comparable_fields: Map<Seq<char>, (ComparableFieldKind, QualifiedView)>,
    raw_boolean_expression_types: Map<QualifiedView, RawBooleanExpressionTypeView>,
) -> Map<Seq<char>, ObjectComparisonExpressionInfoView> {
    Map::new(
        |name: Seq<char>|
            comparable_fields.contains_key(name) && has_object_comparison(
                comparable_fields[name],
                raw_boolean_expression_types,
            ),
        |name: Seq<char>|
            object_comparison(
                comparable_fields[name],
                raw_boolean_expression_types[comparable_fields[name].1],
            ),
    )
}

/// The resolved comparable fields of one object boolean expression type.
#[derive(Debug, PartialEq, Eq)]
pub struct ComparableFieldsOutput {
    /// Each registered field with its kind and the boolean expression type that compares it.
    pub comparable_fields: NameMap<String, (ComparableFieldKind, Qualified)>,
    pub object_fields: NameMap<String, ObjectComparisonExpressionInfo>,
    pub scalar_fields: NameMap<String, ComparisonExpressionInfo>,
    pub issues: Vec<BooleanExpressionIssue>,
}

pub ghost struct ComparableFieldsOutputView {
    pub comparable_fields: Map<Seq<char>, (ComparableFieldKind, QualifiedView)>,
    pub object_fields: Map<Seq<char>, ObjectComparisonExpressionInfoView>,
    pub scalar_fields: Map<Seq<char>, ComparisonExpressionInfoView>,
    pub issues: Seq<BooleanExpressionIssueView>,
}

impl View for ComparableFieldsOutput {
    type V = ComparableFieldsOutputView;

    open spec fn view(&self) -> ComparableFieldsOutputView {
        ComparableFieldsOutputView {
            comparable_fields: self.comparable_fields@,
            object_fields: self.object_fields@,
            scalar_fields: self.scalar_fields@,
            issues: seq_view(self.issues@),
        }
    }
}

/// What the resolution of the declared comparable fields yields. The
/// comparison information is filled in only where the type has a GraphQL
/// configuration or the flag asks for it; otherwise both maps stay empty.
pub open spec fn resolved_comparable_fields(
    declared: Seq<BooleanExpressionComparableFieldView>,
    object_type: ObjectTypeRepresentationView,
    boolean_expression_type_name: QualifiedView,
    subgraph: Seq<char>,
    scalar_boolean_expression_types: Map<QualifiedView, ResolvedScalarBooleanExpressionTypeView>,
    has_graphql: bool,
    raw_boolean_expression_types: Map<QualifiedView, RawBooleanExpressionTypeView>,
    flags: Flags,
) -> Result<ComparableFieldsOutputView, BooleanExpressionErrorView> {
    match classify_comparable_fields(
        declared,
        object_type,
        boolean_expression_type_name,
        subgraph,
        raw_boolean_expression_types,
    ) {
        Err(error) => Err(error),
        Ok(classified) => {
            let with_comparisons = has_graphql
                || flags.allow_boolean_expression_fields_without_graphql;
            Ok(
                ComparableFieldsOutputView {
                    comparable_fields: classified.comparable_fields,
                    object_fields: if with_comparisons {
                        object_fields_of(classified.comparable_fields, raw_boolean_expression_types)
                    } else {
                        Map::empty()
                    },
                    scalar_fields: if with_comparisons {
                        scalar_fields_of(
                            classified.comparable_fields,
                            scalar_boolean_expression_types,
                        )
                    } else {
                        Map::empty()
                    },
                    issues: classified.issues,
                },
            )
        },
    }
}

/// A declared comparable field is consistent with the object type and with
/// the declared boolean expression types: the field exists, and unless it
/// takes arguments, the boolean expression type it names is declared and is
/// declared over the field's own type. A list that a scalar boolean
/// expression type would compare is not held to that last demand.
pub open spec fn declaration_is_consistent(
    declared: BooleanExpressionComparableFieldView,
    object_type: ObjectTypeRepresentationView,
    subgraph: Seq<char>,
    raw_boolean_expression_types: Map<QualifiedView, RawBooleanExpressionTypeView>,
) -> bool {
    let target = QualifiedView { subgraph, name: declared.boolean_expression_type };
    &&& object_type.fields.contains_key(declared.field_name)
    &&& object_type.fields[declared.field_name].field_arguments == Map::<
        Seq<char>,
        QualifiedTypeReferenceView,
    >::empty() ==> {
        &&& raw_boolean_expression_types.contains_key(target)
        &&& {
            let field_type = object_type.fields[declared.field_name].field_type;
            let operand = raw_boolean_expression_types[target].definition.operand;
            ||| field_type.underlying_type is List && operand_field_kind(operand, true)
                == ComparableFieldKind::Scalar
            ||| qualify_type_name(operand_underlying_type(operand), subgraph)
                == underlying_type_name(field_type)
        }
    }
}

/// A declaration fails exactly when it is not consistent.
pub proof fn lemma_consistent_declaration_does_not_fail(
    declared: BooleanExpressionComparableFieldView,
    object_type: ObjectTypeRepresentationView,
    boolean_expression_type_name: QualifiedView,
    subgraph: Seq<char>,
    raw_boolean_expression_types: Map<QualifiedView, RawBooleanExpressionTypeView>,
)
    ensures
        declaration_is_consistent(declared, object_type, subgraph, raw_boolean_expression_types)
            <==> !(comparable_field_outcome(
            declared,
            object_type,
            boolean_expression_type_name,
            subgraph,
            raw_boolean_expression_types,
        ) is Failed),
{
}

/// Where every declared comparable field is consistent, the resolution of
/// the fields succeeds.
pub proof fn lemma_consistent_fields_resolve(
    declared: Seq<BooleanExpressionComparableFieldView>,
    object_type: ObjectTypeRepresentationView,
    boolean_expression_type_name: QualifiedView,
    subgraph: Seq<char>,
    scalar_boolean_expression_types: Map<QualifiedView, ResolvedScalarBooleanExpressionTypeView>,
    has_graphql: bool,
    raw_boolean_expression_types: Map<QualifiedView, RawBooleanExpressionTypeView>,
    flags: Flags,
)
    requires
        forall|i: int|
            0 <= i < declared.len() ==> declaration_is_consistent(
                #[trigger] declared[i],
                object_type,
                subgraph,
                raw_boolean_expression_types,
            ),
    ensures
        classify_comparable_fields(
            declared,
            object_type,
            boolean_expression_type_name,
            subgraph,
            raw_boolean_expression_types,
        ) is Ok,
        resolved_comparable_fields(
            declared,
            object_type,
            boolean_expression_type_name,
            subgraph,
            scalar_boolean_expression_types,
            has_graphql,
            raw_boolean_expression_types,
            flags,
        ) is Ok,
    decreases declared.len(),
{
    if declared.len() > 0 {
        let front = declared.drop_last();
        assert forall|i: int| 0 <= i < front.len() implies declaration_is_consistent(
            #[trigger] front[i],
            object_type,
            subgraph,
            raw_boolean_expression_types,
        ) by {
            assert(front[i] == declared[i]);
        }
        lemma_consistent_fields_resolve(
            front,
            object_type,
            boolean_expression_type_name,
            subgraph,
            scalar_boolean_expression_types,
            has_graphql,
            raw_boolean_expression_types,
            flags,
        );
        assert(declaration_is_consistent(
            declared[declared.len() - 1],
            object_type,
            subgraph,
            raw_boolean_expression_types,
        ));
    }
}

/// Every registered field was declared: some declaration of its name was
/// classified as registered, with the kind and the boolean expression type
/// that the field is entered with. So the field exists on the object type
/// and takes no arguments.
pub proof fn lemma_registered_fields_were_declared(
    declared: Seq<BooleanExpressionComparableFieldView>,
    object_type: ObjectTypeRepresentationView,
    boolean_expression_type_name: QualifiedView,
    subgraph: Seq<char>,
    raw_boolean_expression_types: Map<QualifiedView, RawBooleanExpressionTypeView>,
    name: Seq<char>,
)
    requires
        classify_comparable_fields(
            declared,
            object_type,
            boolean_expression_type_name,
            subgraph,
            raw_boolean_expression_types,
        ) matches Ok(classified) && classified.comparable_fields.contains_key(name),
    ensures
        exists|i: int|
            0 <= i < declared.len() && (#[trigger] declared[i]).field_name == name
                && comparable_field_outcome(
                declared[i],
                object_type,
                boolean_expression_type_name,
                subgraph,
                raw_boolean_expression_types,
            ) == ComparableFieldOutcome::Registered(
                classify_comparable_fields(
                    declared,
                    object_type,
                    boolean_expression_type_name,
                    subgraph,
                    raw_boolean_expression_types,
                )->Ok_0.comparable_fields[name].0,
                classify_comparable_fields(
                    declared,
                    object_type,
                    boolean_expression_type_name,
                    subgraph,
                    raw_boolean_expression_types,
                )->Ok_0.comparable_fields[name].1,
            ),
        object_type.fields.contains_key(name),
        object_type.fields[name].field_arguments == Map::<
            Seq<char>,
            QualifiedTypeReferenceView,
        >::empty(),
    decreases declared.len(),
{
    let front = declared.drop_last();
    let last = declared[declared.len() - 1];
    let before = classify_comparable_fields(
        front,
        object_type,
        boolean_expression_type_name,
        subgraph,
        raw_boolean_expression_types,
    )->Ok_0;
    let outcome = comparable_field_outcome(
        last,
        object_type,
        boolean_expression_type_name,
        subgraph,
        raw_boolean_expression_types,
    );
    if outcome is Registered && last.field_name == name {
        assert(declared[declared.len() - 1].field_name == name);
    } else {
        assert(before.comparable_fields.contains_key(name));
        lemma_registered_fields_were_declared(
            front,
            object_type,
            boolean_expression_type_name,
            subgraph,
            raw_boolean_expression_types,
            name,
        );
        let i = choose|i: int|
            0 <= i < front.len() && (#[trigger] front[i]).field_name == name
                && comparable_field_outcome(
                front[i],
                object_type,
                boolean_expression_type_name,
                subgraph,
                raw_boolean_expression_types,
            ) == ComparableFieldOutcome::Registered(
                before.comparable_fields[name].0,
                before.comparable_fields[name].1,
            );
        assert(declared[i] == front[i]);
    }
}

/// Every field with comparison information is a registered field.
pub proof fn lemma_compared_fields_are_registered(
    comparable_fields: Map<Seq<char>, (ComparableFieldKind, QualifiedView)>,
    scalar_boolean_expression_types: Map<QualifiedView, ResolvedScalarBooleanExpressionTypeView>,
    raw_boolean_expression_types: Map<QualifiedView, RawBooleanExpressionTypeView>,
    name: Seq<char>,
)
    ensures
        scalar_fields_of(comparable_fields, scalar_boolean_expression_types).contains_key(name)
            ==> comparable_fields.contains_key(name) && comparable_fields[name].0
            == ComparableFieldKind::Scalar,
        object_fields_of(comparable_fields, raw_boolean_expression_types).contains_key(name)
            ==> comparable_fields.contains_key(name) && comparable_fields[name].0
            != ComparableFieldKind::Scalar,
        !(scalar_fields_of(comparable_fields, scalar_boolean_expression_types).contains_key(name)
            && object_fields_of(comparable_fields, raw_boolean_expression_types).contains_key(
            name,
        )),
{
}

/// The field `name` is one of the declared fields, exists on the object
/// type and takes no arguments.
pub open spec fn is_declared_without_arguments(
    name: Seq<char>,
    declared: Seq<BooleanExpressionComparableFieldView>,
    object_type: ObjectTypeRepresentationView,
) -> bool {
    &&& exists|i: int| 0 <= i < declared.len() && (#[trigger] declared[i]).field_name == name
    &&& object_type.fields.contains_key(name)
    &&& object_type.fields[name].field_arguments == Map::<
        Seq<char>,
        QualifiedTypeReferenceView,
    >::empty()
}

/// The outcome of classifying one declared comparable field.
#[derive(Debug, PartialEq, Eq)]
pub enum ComparableFieldClassification {
    Skipped,
    Dropped(BooleanExpressionIssue),
    Registered(ComparableFieldKind, Qualified),
    Failed(BooleanExpressionError),
}

impl View for ComparableFieldClassification {
    type V = ComparableFieldOutcome;

    open spec fn view(&self) -> ComparableFieldOutcome {
        match self {
            ComparableFieldClassification::Skipped => ComparableFieldOutcome::Skipped,
            ComparableFieldClassification::Dropped(issue) => ComparableFieldOutcome::Dropped(
                issue@,
            ),
            ComparableFieldClassification::Registered(field_kind, target) => {
                ComparableFieldOutcome::Registered(*field_kind, target@)
            },
            ComparableFieldClassification::Failed(error) => ComparableFieldOutcome::Failed(error@),
        }
    }
}

/// Classifies one declared comparable field: checks that the field exists
/// and takes no arguments, finds the boolean expression type it names, and
/// holds the type that this one is declared over against the field's own.
pub fn classify_comparable_field(
    comparable_field: &BooleanExpressionComparableField,
    object_type_representation: &ObjectTypeRepresentation,
    boolean_expression_type_name: &Qualified,
    subgraph: &String,
    raw_boolean_expression_types: &RawBooleanExpressionTypes,
) -> (outcome: ComparableFieldClassification)
    ensures
        outcome@ == comparable_field_outcome(
            comparable_field@,
            object_type_representation@,
            boolean_expression_type_name@,
            subgraph@,
            raw_boolean_expression_types@,
        ),
{
    let field = match object_type_representation.fields.get(&comparable_field.field_name) {
        Some(field) => field,
        None => {
            return ComparableFieldClassification::Failed(
                BooleanExpressionError::UnknownComparableField {
                    field_name: comparable_field.field_name.clone(),
                    object_boolean_expression_type: boolean_expression_type_name.duplicate(),
                },
            );
        },
    };

    // a field that takes arguments cannot be filtered on
    if !field.field_arguments.is_empty() {
        return ComparableFieldClassification::Skipped;
    }
    let field_boolean_expression_type_name = Qualified::new(
        subgraph.clone(),
        comparable_field.boolean_expression_type.clone(),
    );

    let raw_boolean_expression_type = match lookup_raw_boolean_expression(
        boolean_expression_type_name,
        &field_boolean_expression_type_name,
        raw_boolean_expression_types,
    ) {
        Ok(raw) => raw,
        Err(error) => {
            return ComparableFieldClassification::Failed(error);
        },
    };

    let field_type = field.field_type.get_underlying_type_name();
    let field_is_list = field.field_type.is_list();

    // the kind of comparison, and the type underlying the boolean expression
    let (field_kind, qualified_boolean_expression_type) =
        match &raw_boolean_expression_type.definition.operand {
        BooleanExpressionOperand::Object(operand) => (
            if field_is_list {
                ComparableFieldKind::Array
            } else {
                ComparableFieldKind::Object
            },
            QualifiedTypeName::Custom(Qualified::new(subgraph.clone(), operand.operand_type.clone())),
        ),
        BooleanExpressionOperand::ObjectAggregate(operand) => (
            if field_is_list {
                ComparableFieldKind::Array
            } else {
                ComparableFieldKind::Object
            },
            QualifiedTypeName::Custom(Qualified::new(subgraph.clone(), operand.operand_type.clone())),
        ),
        BooleanExpressionOperand::Scalar(operand) => (
            ComparableFieldKind::Scalar,
            mk_qualified_type_name(&operand.operand_type, subgraph),
        ),
        BooleanExpressionOperand::ScalarAggregate(operand) => (
            ComparableFieldKind::Scalar,
            mk_qualified_type_name(&operand.operand_type, subgraph),
        ),
    };

    if field_is_list && field_kind == ComparableFieldKind::Scalar {
        return ComparableFieldClassification::Dropped(
            BooleanExpressionIssue::BooleanExpressionArrayFieldComparedWithScalarType {
                field_name: comparable_field.field_name.clone(),
                boolean_expression_type_name: field_boolean_expression_type_name,
            },
        );
    }
    // the two types must be the same

    if !qualified_boolean_expression_type.same_as(field_type) {
        return ComparableFieldClassification::Failed(
            BooleanExpressionError::FieldTypeMismatch {
                field_boolean_expression_type_name,
                field_name: comparable_field.field_name.clone(),
                field_type: field_type.duplicate(),
                underlying_type: qualified_boolean_expression_type,
            },
        );
    }
    ComparableFieldClassification::Registered(field_kind, field_boolean_expression_type_name)
}

/// Once a declaration has failed, the declarations after it change nothing.
pub proof fn lemma_classify_failure_persists(
    declared: Seq<BooleanExpressionComparableFieldView>,
    n: int,
    object_type: ObjectTypeRepresentationView,
    boolean_expression_type_name: QualifiedView,
    subgraph: Seq<char>,
    raw_boolean_expression_types: Map<QualifiedView, RawBooleanExpressionTypeView>,
)
    requires
        0 <= n <= declared.len(),
        classify_comparable_fields(
            declared.take(n),
            object_type,
            boolean_expression_type_name,
            subgraph,
            raw_boolean_expression_types,
        ) is Err,
    ensures
        classify_comparable_fields(
            declared,
            object_type,
            boolean_expression_type_name,
            subgraph,
            raw_boolean_expression_types,
        ) == classify_comparable_fields(
            declared.take(n),
            object_type,
            boolean_expression_type_name,
            subgraph,
            raw_boolean_expression_types,
        ),
    decreases declared.len() - n,
{
    if n == declared.len() {
        assert(declared.take(n) =~= declared);
    } else {
        assert(declared.take(n + 1).drop_last() =~= declared.take(n));
        lemma_classify_failure_persists(
            declared,
            n + 1,
            object_type,
            boolean_expression_type_name,
            subgraph,
            raw_boolean_expression_types,
        );
    }
}

/// Every registered field names a boolean expression type that is declared.
pub proof fn lemma_registered_targets_are_declared(
    declared: Seq<BooleanExpressionComparableFieldView>,
    object_type: ObjectTypeRepresentationView,
    boolean_expression_type_name: QualifiedView,
    subgraph: Seq<char>,
    raw_boolean_expression_types: Map<QualifiedView, RawBooleanExpressionTypeView>,
)
    ensures
        classify_comparable_fields(
            declared,
            object_type,
            boolean_expression_type_name,
            subgraph,
            raw_boolean_expression_types,
        ) matches Ok(classified) ==> forall|name: Seq<char>| #[trigger]
            classified.comparable_fields.contains_key(name)
                ==> raw_boolean_expression_types.contains_key(classified.comparable_fields[name].1),
    decreases declared.len(),
{
    if declared.len() > 0 {
        lemma_registered_targets_are_declared(
            declared.drop_last(),
            object_type,
            boolean_expression_type_name,
            subgraph,
            raw_boolean_expression_types,
        );
    }
}

/// Registering one more field adds its scalar comparison, if it has one.
pub proof fn lemma_scalar_fields_insert(
    comparable_fields: Map<Seq<char>, (ComparableFieldKind, QualifiedView)>,
    name: Seq<char>,
    field: (ComparableFieldKind, QualifiedView),
    scalar_boolean_expression_types: Map<QualifiedView, ResolvedScalarBooleanExpressionTypeView>,
)
    requires
        !comparable_fields.contains_key(name),
    ensures
        scalar_fields_of(comparable_fields.insert(name, field), scalar_boolean_expression_types)
            == if has_scalar_comparison(field, scalar_boolean_expression_types) {
            scalar_fields_of(comparable_fields, scalar_boolean_expression_types).insert(
                name,
                scalar_comparison(field.1, scalar_boolean_expression_types[field.1]),
            )
        } else {
            scalar_fields_of(comparable_fields, scalar_boolean_expression_types)
        },
{
    let after = scalar_fields_of(
        comparable_fields.insert(name, field),
        scalar_boolean_expression_types,
    );
    let before = scalar_fields_of(comparable_fields, scalar_boolean_expression_types);
    if has_scalar_comparison(field, scalar_boolean_expression_types) {
        assert(after =~= before.insert(
            name,
            scalar_comparison(field.1, scalar_boolean_expression_types[field.1]),
        ));
    } else {
        assert(after =~= before);
    }
}

/// Registering one more field adds its object comparison, if it has one.
pub proof fn lemma_object_fields_insert(
    comparable_fields: Map<Seq<char>, (ComparableFieldKind, QualifiedView)>,
    name: Seq<char>,
    field: (ComparableFieldKind, QualifiedView),
    raw_boolean_expression_types: Map<QualifiedView, RawBooleanExpressionTypeView>,
)
    requires
        !comparable_fields.contains_key(name),
    ensures
        object_fields_of(comparable_fields.insert(name, field), raw_boolean_expression_types)
            == if has_object_comparison(field, raw_boolean_expression_types) {
            object_fields_of(comparable_fields, raw_boolean_expression_types).insert(
                name,
                object_comparison(field, raw_boolean_expression_types[field.1]),
            )
        } else {
            object_fields_of(comparable_fields, raw_boolean_expression_types)
        },
{
    let after = object_fields_of(
        comparable_fields.insert(name, field),
        raw_boolean_expression_types,
    );
    let before = object_fields_of(comparable_fields, raw_boolean_expression_types);
    if has_object_comparison(field, raw_boolean_expression_types) {
        assert(after =~= before.insert(
            name,
            object_comparison(field, raw_boolean_expression_types[field.1]),
        ));
    } else {
        assert(after =~= before);
    }
}

/// Keeps, for each data connector, the names that it gives to the operators.
pub fn resolve_operator_mapping_for_scalar_type(
    data_connector_operator_mappings: &NameMap<Qualified, DataConnectorOperatorMapping>,
) -> (operator_mapping: NameMap<Qualified, OperatorMapping>)
    ensures
        operator_mapping@ == operator_mappings(data_connector_operator_mappings@),
{
    let mut operator_mapping: NameMap<Qualified, OperatorMapping> = NameMap::new();
    let ghost entries = data_connector_operator_mappings.entries();
    let n = data_connector_operator_mappings.len();
    let mut i: usize = 0;
    assert(operator_mapping@ =~= operator_mappings(map_of(entries.take(0))));
    while i < n
        invariant
            i <= n,
            n == entries.len(),
            entries == data_connector_operator_mappings.entries(),
            distinct_keys(entries),
            operator_mapping@ == operator_mappings(map_of(entries.take(i as int))),
        decreases n - i,
    {
        if let Some((data_connector_name, data_connector_operator_mapping)) =
            data_connector_operator_mappings.get_index(i) {
            proof {
                lemma_map_of_take_next(entries, i as int);
                assert(operator_mappings(map_of(entries.take(i + 1))) =~= operator_mappings(
                    map_of(entries.take(i as int)),
                ).insert(entries[i as int].0, entries[i as int].1.operator_mapping));
            }
            operator_mapping.insert(
                data_connector_name.duplicate(),
                OperatorMapping(data_connector_operator_mapping.operator_mapping.duplicate()),
            );
        }
        i += 1;
    }
    proof {
        assert(entries.take(i as int) =~= entries);
    }
    operator_mapping
}

/// Resolves the declared comparable fields of an object boolean expression
/// type: classifies each of them, and then gathers the comparison
/// information of the registered ones.
pub fn resolve_comparable_fields(
    comparable_fields: &Vec<BooleanExpressionComparableField>,
    object_type_representation: &ObjectTypeRepresentation,
    boolean_expression_type_name: &Qualified,
    subgraph: &String,
    scalar_boolean_expression_types: &ScalarBooleanExpressionTypes,
    graphql: &Option<BooleanExpressionTypeGraphQlConfiguration>,
    raw_boolean_expression_types: &RawBooleanExpressionTypes,
    flags: &Flags,
) -> (resolved: Result<ComparableFieldsOutput, BooleanExpressionError>)
    ensures
        match resolved {
            Ok(output) => resolved_comparable_fields(
                seq_view(comparable_fields@),
                object_type_representation@,
                boolean_expression_type_name@,
                subgraph@,
                scalar_boolean_expression_types@,
                graphql is Some,
                raw_boolean_expression_types@,
                *flags,
            ) == Ok::<ComparableFieldsOutputView, BooleanExpressionErrorView>(output@),
            Err(error) => resolved_comparable_fields(
                seq_view(comparable_fields@),
                object_type_representation@,
                boolean_expression_type_name@,
                subgraph@,
                scalar_boolean_expression_types@,
                graphql is Some,
                raw_boolean_expression_types@,
                *flags,
            ) == Err::<ComparableFieldsOutputView, BooleanExpressionErrorView>(error@),
        },
        (forall|i: int|
            0 <= i < comparable_fields@.len() ==> declaration_is_consistent(
                #[trigger] seq_view(comparable_fields@)[i],
                object_type_representation@,
                subgraph@,
                raw_boolean_expression_types@,
            )) ==> resolved is Ok,
        resolved matches Ok(output) ==> {
            &&& forall|name: Seq<char>| #[trigger]
                output.comparable_fields@.contains_key(name) ==> is_declared_without_arguments(
                    name,
                    seq_view(comparable_fields@),
                    object_type_representation@,
                )
            &&& forall|name: Seq<char>| #[trigger]
                output.object_fields@.contains_key(name) ==> is_declared_without_arguments(
                    name,
                    seq_view(comparable_fields@),
                    object_type_representation@,
                )
            &&& forall|name: Seq<char>| #[trigger]
                output.scalar_fields@.contains_key(name) ==> is_declared_without_arguments(
                    name,
                    seq_view(comparable_fields@),
                    object_type_representation@,
                )
        },
{
    let ghost declared = seq_view(comparable_fields@);
    let mut resolved_comparable_fields: NameMap<String, (ComparableFieldKind, Qualified)> =
        NameMap::new();
    let mut issues: Vec<BooleanExpressionIssue> = Vec::new();
    let mut object_fields: NameMap<String, ObjectComparisonExpressionInfo> = NameMap::new();
    let mut scalar_fields: NameMap<String, ComparisonExpressionInfo> = NameMap::new();

    // classify the declarations in order
    let mut i: usize = 0;
    assert(seq_view(issues@) =~= Seq::<BooleanExpressionIssueView>::empty());
    while i < comparable_fields.len()
        invariant
            i <= comparable_fields.len(),
            declared == seq_view(comparable_fields@),
            classify_comparable_fields(
                declared.take(i as int),
                object_type_representation@,
                boolean_expression_type_name@,
                subgraph@,
                raw_boolean_expression_types@,
            ) == Ok::<ClassifiedFields, BooleanExpressionErrorView>(
                ClassifiedFields {
                    comparable_fields: resolved_comparable_fields@,
                    issues: seq_view(issues@),
                },
            ),
        decreases comparable_fields.len() - i,
    {
        let comparable_field = &comparable_fields[i];
        proof {
            assert(declared.take(i + 1).drop_last() =~= declared.take(i as int));
            assert(declared.take(i + 1).last() == comparable_field@);
        }
        match classify_comparable_field(
            comparable_field,
            object_type_representation,
            boolean_expression_type_name,
            subgraph,
            raw_boolean_expression_types,
        ) {
            ComparableFieldClassification::Skipped => {},
            ComparableFieldClassification::Dropped(issue) => {
                let ghost before = seq_view(issues@);
                issues.push(issue);
                assert(seq_view(issues@) =~= before.push(issue@));
            },
            ComparableFieldClassification::Registered(field_kind, target) => {
                resolved_comparable_fields.insert(
                    comparable_field.field_name.clone(),
                    (field_kind, target),
                );
            },
            ComparableFieldClassification::Failed(error) => {
                proof {
                    lemma_classify_failure_persists(
                        declared,
                        i + 1,
                        object_type_representation@,
                        boolean_expression_type_name@,
                        subgraph@,
                        raw_boolean_expression_types@,
                    );
                    lemma_consistent_declaration_does_not_fail(
                        declared[i as int],
                        object_type_representation@,
                        boolean_expression_type_name@,
                        subgraph@,
                        raw_boolean_expression_types@,
                    );
                }
                return Err(error);
            },
        }
        i += 1;
    }
    proof {
        assert(declared.take(i as int) =~= declared);
        lemma_registered_targets_are_declared(
            declared,
            object_type_representation@,
            boolean_expression_type_name@,
            subgraph@,
            raw_boolean_expression_types@,
        );
    }

    // filling in the comparisons of a type without GraphQL configuration
    // would change what older metadata resolves to, so the flag has to allow it
    if graphql.is_some() || flags.allow_boolean_expression_fields_without_graphql {
        let ghost entries = resolved_comparable_fields.entries();
        let n = resolved_comparable_fields.len();
        let mut j: usize = 0;
        assert(scalar_fields@ =~= scalar_fields_of(
            map_of(entries.take(0)),
            scalar_boolean_expression_types@,
        ));
        assert(object_fields@ =~= object_fields_of(
            map_of(entries.take(0)),
            raw_boolean_expression_types@,
        ));
        while j < n
            invariant
                j <= n,
                n == entries.len(),
                entries == resolved_comparable_fields.entries(),
                distinct_keys(entries),
                forall|name: Seq<char>| #[trigger]
                    resolved_comparable_fields@.contains_key(name)
                        ==> raw_boolean_expression_types@.contains_key(
                        resolved_comparable_fields@[name].1,
                    ),
                scalar_fields@ == scalar_fields_of(
                    map_of(entries.take(j as int)),
                    scalar_boolean_expression_types@,
                ),
                object_fields@ == object_fields_of(
                    map_of(entries.take(j as int)),
                    raw_boolean_expression_types@,
                ),
            decreases n - j,
        {
            if let Some((comparable_field_name, comparable_field)) =
                resolved_comparable_fields.get_index(j) {
                let comparable_field_kind = &comparable_field.0;
                let comparable_field_type_name = &comparable_field.1;
                proof {
                    lemma_map_of_take_next(entries, j as int);
                    lemma_map_of_take_fresh(entries, j as int);
                    lemma_map_of_index(entries, j as int);
                    lemma_scalar_fields_insert(
                        map_of(entries.take(j as int)),
                        entries[j as int].0,
                        entries[j as int].1,
                        scalar_boolean_expression_types@,
                    );
                    lemma_object_fields_insert(
                        map_of(entries.take(j as int)),
                        entries[j as int].0,
                        entries[j as int].1,
                        raw_boolean_expression_types@,
                    );
                }
                match comparable_field_kind {
                    ComparableFieldKind::Scalar => {
                        if let Some(scalar_boolean_expression_type) =
                            scalar_boolean_expression_types.get(comparable_field_type_name) {
                            let operator_mapping = resolve_operator_mapping_for_scalar_type(
                                &scalar_boolean_expression_type.data_connector_operator_mappings,
                            );

                            // a field is only registered where there is something to compare with
                            if !scalar_boolean_expression_type.comparison_operators.is_empty()
                                || scalar_boolean_expression_type.include_is_null
                                == IncludeIsNull::Yes {
                                scalar_fields.insert(
                                    comparable_field_name.clone(),
                                    ComparisonExpressionInfo {
                                        object_type_name: Some(
                                            comparable_field_type_name.duplicate(),
                                        ),
                                        operators:
                                            scalar_boolean_expression_type.comparison_operators.duplicate(),
                                        operator_mapping,
                                    },
                                );
                            }
                        }
                    },
                    ComparableFieldKind::Object | ComparableFieldKind::Array => {
                        let raw_boolean_expression_type = match lookup_raw_boolean_expression(
                            boolean_expression_type_name,
                            comparable_field_type_name,
                            raw_boolean_expression_types,
                        ) {
                            Ok(raw) => raw,
                            Err(error) => {
                                // the type was found when the field was classified
                                proof {
                                    assert(resolved_comparable_fields@.contains_key(
                                        entries[j as int].0,
                                    ));
                                    assert(resolved_comparable_fields@[entries[j as int].0]
                                        == entries[j as int].1);
                                }
                                return Err(error);
                            },
                        };

                        if let BooleanExpressionOperand::Object(object_operand) =
                            &raw_boolean_expression_type.definition.operand {
                            object_fields.insert(
                                comparable_field_name.clone(),
                                ObjectComparisonExpressionInfo {
                                    field_kind: match comparable_field_kind {
                                        ComparableFieldKind::Array => ObjectComparisonKind::Array,
                                        _ => ObjectComparisonKind::Object,
                                    },
                                    object_type_name: comparable_field_type_name.duplicate(),
                                    underlying_object_type_name: Qualified::new(
                                        raw_boolean_expression_type.subgraph.clone(),
                                        object_operand.operand_type.clone(),
                                    ),
                                },
                            );
                        }
                    },
                }
            }
            j += 1;
        }
        proof {
            assert(entries.take(j as int) =~= entries);
        }
    }
    proof {
        assert forall|name: Seq<char>|
            resolved_comparable_fields@.contains_key(name) implies is_declared_without_arguments(
            name,
            declared,
            object_type_representation@,
        ) by {
            lemma_registered_fields_were_declared(
                declared,
                object_type_representation@,
                boolean_expression_type_name@,
                subgraph@,
                raw_boolean_expression_types@,
                name,
            );
        }
    }
    Ok(
        ComparableFieldsOutput {
            object_fields,
            scalar_fields,
            comparable_fields: resolved_comparable_fields,
            issues,
        },
    )
}

} // verus!
