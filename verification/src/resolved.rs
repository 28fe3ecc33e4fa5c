//! What the resolution of an object boolean expression type produces: the
//! resolved type, the advisory issues, and the errors.

use crate::graphql::{GraphqlConfigError, GraphqlConfigErrorView};
use crate::name_map::NameMap;
use crate::names::{
    Qualified, QualifiedTypeName, QualifiedTypeNameView, QualifiedTypeReference,
    QualifiedTypeReferenceView, QualifiedView,
};
use crate::relationships::{RelationshipError, RelationshipErrorView};
use crate::views::option_view;
use vstd::prelude::*;

verus! {

/// What a comparable field is compared as.
#[derive(Clone, Copy, Debug, PartialEq, Eq, Structural)]
pub enum ComparableFieldKind {
    Scalar,
    Object,
    Array,
}

impl View for ComparableFieldKind {
    type V = ComparableFieldKind;

    open spec fn view(&self) -> ComparableFieldKind {
        *self
    }
}

/// What a field that is compared by an object boolean expression type is
/// compared as.
#[derive(Clone, Copy, Debug, PartialEq, Eq, Structural)]
pub enum ObjectComparisonKind {
    Object,
    Array,
}

/// How a field of object type, or a list of them, is compared.
#[derive(Debug, PartialEq, Eq)]
pub struct ObjectComparisonExpressionInfo {
    pub field_kind: ObjectComparisonKind,
    /// The boolean expression type that compares the field.
    pub object_type_name: Qualified,
    /// The object type that this boolean expression type is declared over.
    pub underlying_object_type_name: Qualified,
}

pub ghost struct ObjectComparisonExpressionInfoView {
    pub field_kind: ObjectComparisonKind,
    pub object_type_name: QualifiedView,
    pub underlying_object_type_name: QualifiedView,
}

impl View for ObjectComparisonExpressionInfo {
    type V = ObjectComparisonExpressionInfoView;

    open spec fn view(&self) -> ObjectComparisonExpressionInfoView {
        ObjectComparisonExpressionInfoView {
            field_kind: self.field_kind,
            object_type_name: self.object_type_name@,
            underlying_object_type_name: self.underlying_object_type_name@,
        }
    }
}

/// The name that an operator has on `mapping`'s data connector: the name
/// that the connector declares for it, else the operator's own name.
pub open spec fn mapped_operator_name(mapping: Map<Seq<char>, Seq<char>>, operator: Seq<char>)
    -> Seq<char> {
    if mapping.contains_key(operator) {
        mapping[operator]
    } else {
        operator
    }
}

/// The operator names of one data connector, where they differ from the
/// names that the boolean expression type uses.
#[derive(Debug, PartialEq, Eq)]
pub struct OperatorMapping(pub NameMap<String, String>);

impl View for OperatorMapping {
    type V = Map<Seq<char>, Seq<char>>;

    open spec fn view(&self) -> Map<Seq<char>, Seq<char>> {
        self.0@
    }
}

impl OperatorMapping {
    /// The data connector's name for `operator`.
    pub fn get(&self, operator: &String) -> (name: String)
        ensures
            name@ == mapped_operator_name(self@, operator@),
    {
        match self.0.get(operator) {
            Some(name) => name.clone(),
            None => operator.clone(),
        }
    }
}

/// How a field of scalar type is compared.
#[derive(Debug, PartialEq, Eq)]
pub struct ComparisonExpressionInfo {
    /// The boolean expression type that compares the field.
    pub object_type_name: Option<Qualified>,
    /// The operators on offer, each with the type of its argument.
    pub operators: NameMap<String, QualifiedTypeReference>,
    /// The operator names of each data connector.
    pub operator_mapping: NameMap<Qualified, OperatorMapping>,
}

pub ghost struct ComparisonExpressionInfoView {
    pub object_type_name: Option<QualifiedView>,
    pub operators: Map<Seq<char>, QualifiedTypeReferenceView>,
    pub operator_mapping: Map<QualifiedView, Map<Seq<char>, Seq<char>>>,
}

impl View for ComparisonExpressionInfo {
    type V = ComparisonExpressionInfoView;

    open spec fn view(&self) -> ComparisonExpressionInfoView {
        ComparisonExpressionInfoView {
            object_type_name: option_view(self.object_type_name),
            operators: self.operators@,
            operator_mapping: self.operator_mapping@,
        }
    }
}

/// A relationship that may be used in a filter, with the boolean expression
/// type to use at its target where the declaration chose one.
#[derive(Debug, PartialEq, Eq)]
pub struct BooleanExpressionComparableRelationship {
    pub relationship_name: String,
    pub boolean_expression_type: Option<Qualified>,
}

pub ghost struct BooleanExpressionComparableRelationshipView {
    pub relationship_name: Seq<char>,
    pub boolean_expression_type: Option<QualifiedView>,
}

impl View for BooleanExpressionComparableRelationship {
    type V = BooleanExpressionComparableRelationshipView;

    open spec fn view(&self) -> BooleanExpressionComparableRelationshipView {
        BooleanExpressionComparableRelationshipView {
            relationship_name: self.relationship_name@,
            boolean_expression_type: option_view(self.boolean_expression_type),
        }
    }
}

/// The fields of a resolved object boolean expression type, by field name.
#[derive(Debug, PartialEq, Eq)]
pub struct ResolvedObjectBooleanExpressionTypeFields {
    pub object_fields: NameMap<String, ObjectComparisonExpressionInfo>,
    pub scalar_fields: NameMap<String, ComparisonExpressionInfo>,
    pub relationship_fields: NameMap<String, BooleanExpressionComparableRelationship>,
}

pub ghost struct ResolvedObjectBooleanExpressionTypeFieldsView {
    pub object_fields: Map<Seq<char>, ObjectComparisonExpressionInfoView>,
    pub scalar_fields: Map<Seq<char>, ComparisonExpressionInfoView>,
    pub relationship_fields: Map<Seq<char>, BooleanExpressionComparableRelationshipView>,
}

impl View for ResolvedObjectBooleanExpressionTypeFields {
    type V = ResolvedObjectBooleanExpressionTypeFieldsView;

    open spec fn view(&self) -> ResolvedObjectBooleanExpressionTypeFieldsView {
        ResolvedObjectBooleanExpressionTypeFieldsView {
            object_fields: self.object_fields@,
            scalar_fields: self.scalar_fields@,
            relationship_fields: self.relationship_fields@,
        }
    }
}

/// Whether `_and`, `_or` and `_not` are part of a resolved type.
#[derive(Clone, Copy, Debug, PartialEq, Eq, Structural)]
pub enum IncludeLogicalOperators {
    Yes,
    No,
}

/// A resolved boolean expression type over an object type. `D` is the
/// GraphQL descriptor, which this library carries and does not look into.
#[derive(Debug, PartialEq, Eq)]
pub struct ResolvedObjectBooleanExpressionType<D> {
    pub name: Qualified,
    pub include_logical_operators: IncludeLogicalOperators,
    pub fields: ResolvedObjectBooleanExpressionTypeFields,
    pub object_type: Qualified,
    pub graphql: Option<D>,
}

pub ghost struct ResolvedObjectBooleanExpressionTypeView<D> {
    pub name: QualifiedView,
    pub include_logical_operators: IncludeLogicalOperators,
    pub fields: ResolvedObjectBooleanExpressionTypeFieldsView,
    pub object_type: QualifiedView,
    pub graphql: Option<D>,
}

impl<D> View for ResolvedObjectBooleanExpressionType<D> {
    type V = ResolvedObjectBooleanExpressionTypeView<D>;

    open spec fn view(&self) -> ResolvedObjectBooleanExpressionTypeView<D> {
        ResolvedObjectBooleanExpressionTypeView {
            name: self.name@,
            include_logical_operators: self.include_logical_operators,
            fields: self.fields@,
            object_type: self.object_type@,
            graphql: self.graphql,
        }
    }
}

/// Advice to the author of the metadata. An issue never stops resolution.
#[derive(Debug, PartialEq, Eq)]
pub enum BooleanExpressionIssue {
    /// A field whose type is a list is compared by a scalar boolean
    /// expression type. The field is left out of the resolved type.
    BooleanExpressionArrayFieldComparedWithScalarType {
        field_name: String,
        boolean_expression_type_name: Qualified,
    },
}

pub ghost enum BooleanExpressionIssueView {
    BooleanExpressionArrayFieldComparedWithScalarType {
        field_name: Seq<char>,
        boolean_expression_type_name: QualifiedView,
    },
}

impl View for BooleanExpressionIssue {
    type V = BooleanExpressionIssueView;

    open spec fn view(&self) -> BooleanExpressionIssueView {
        match self {
            BooleanExpressionIssue::BooleanExpressionArrayFieldComparedWithScalarType {
                field_name,
                boolean_expression_type_name,
            } => BooleanExpressionIssueView::BooleanExpressionArrayFieldComparedWithScalarType {
                field_name: field_name@,
                boolean_expression_type_name: boolean_expression_type_name@,
            },
        }
    }
}

/// Why an object boolean expression type could not be resolved.
#[derive(Debug, PartialEq, Eq)]
pub enum BooleanExpressionError {
    /// The operand's object type is not known.
    UnknownUnderlyingType { object_type: Qualified },
    /// A comparable field is not a field of the operand's object type.
    UnknownComparableField { field_name: String, object_boolean_expression_type: Qualified },
    /// A comparable field or relationship names a boolean expression type
    /// that nobody declares.
    UnknownReferencedFilterType {
        parent_boolean_expression: Qualified,
        child_boolean_expression: Qualified,
    },
    /// The boolean expression type chosen for a field is declared over
    /// another type than the field has.
    FieldTypeMismatch {
        field_boolean_expression_type_name: Qualified,
        field_name: String,
        field_type: QualifiedTypeName,
        underlying_type: QualifiedTypeName,
    },
    /// The lookup of a comparable relationship failed.
    RelationshipError(RelationshipError),
    /// The GraphQL descriptor could not be built.
    GraphqlConfigError(GraphqlConfigError),
}

pub ghost enum BooleanExpressionErrorView {
    UnknownUnderlyingType { object_type: QualifiedView },
    UnknownComparableField { field_name: Seq<char>, object_boolean_expression_type: QualifiedView },
    UnknownReferencedFilterType {
        parent_boolean_expression: QualifiedView,
        child_boolean_expression: QualifiedView,
    },
    FieldTypeMismatch {
        field_boolean_expression_type_name: QualifiedView,
        field_name: Seq<char>,
        field_type: QualifiedTypeNameView,
        underlying_type: QualifiedTypeNameView,
    },
    RelationshipError(RelationshipErrorView),
    GraphqlConfigError(GraphqlConfigErrorView),
}

impl View for BooleanExpressionError {
    type V = BooleanExpressionErrorView;

    open spec fn view(&self) -> BooleanExpressionErrorView {
        match self {
            BooleanExpressionError::UnknownUnderlyingType { object_type } => {
                BooleanExpressionErrorView::UnknownUnderlyingType { object_type: object_type@ }
            },
            BooleanExpressionError::UnknownComparableField {
                field_name,
                object_boolean_expression_type,
            } => BooleanExpressionErrorView::UnknownComparableField {
                field_name: field_name@,
                object_boolean_expression_type: object_boolean_expression_type@,
            },
            BooleanExpressionError::UnknownReferencedFilterType {
                parent_boolean_expression,
                child_boolean_expression,
            } => BooleanExpressionErrorView::UnknownReferencedFilterType {
                parent_boolean_expression: parent_boolean_expression@,
                child_boolean_expression: child_boolean_expression@,
            },
            BooleanExpressionError::FieldTypeMismatch {
                field_boolean_expression_type_name,
                field_name,
                field_type,
                underlying_type,
            } => BooleanExpressionErrorView::FieldTypeMismatch {
                field_boolean_expression_type_name: field_boolean_expression_type_name@,
                field_name: field_name@,
                field_type: field_type@,
                underlying_type: underlying_type@,
            },
            BooleanExpressionError::RelationshipError(error) => {
                BooleanExpressionErrorView::RelationshipError(error@)
            },
            BooleanExpressionError::GraphqlConfigError(error) => {
                BooleanExpressionErrorView::GraphqlConfigError(error@)
            },
        }
    }
}

} // verus!
