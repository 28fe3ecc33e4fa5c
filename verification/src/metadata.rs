//! Boolean expression types as their authors declare them, before any name
//! in them has been resolved.

use crate::name_map::NameMap;
use crate::names::{Qualified, TypeName, TypeNameView};
use crate::views::{option_view, seq_view};
use vstd::prelude::*;

verus! {

/// A field of the operand's object type that may be compared, and the
/// boolean expression type that compares it.
#[derive(Debug, PartialEq, Eq)]
pub struct BooleanExpressionComparableField {
    pub field_name: String,
    pub boolean_expression_type: String,
}

pub ghost struct BooleanExpressionComparableFieldView {
    pub field_name: Seq<char>,
    pub boolean_expression_type: Seq<char>,
}

impl View for BooleanExpressionComparableField {
    type V = BooleanExpressionComparableFieldView;

    open spec fn view(&self) -> BooleanExpressionComparableFieldView {
        BooleanExpressionComparableFieldView {
            field_name: self.field_name@,
            boolean_expression_type: self.boolean_expression_type@,
        }
    }
}

/// A relationship of the operand's object type that may be used in a filter,
/// with the boolean expression type to use at its target, if one is chosen.
#[derive(Debug, PartialEq, Eq)]
pub struct BooleanExpressionComparableRelationship {
    pub relationship_name: String,
    pub boolean_expression_type: Option<String>,
}

pub ghost struct BooleanExpressionComparableRelationshipView {
    pub relationship_name: Seq<char>,
    pub boolean_expression_type: Option<Seq<char>>,
}

impl View for BooleanExpressionComparableRelationship {
    type V = BooleanExpressionComparableRelationshipView;

    open spec fn view(&self) -> BooleanExpressionComparableRelationshipView {
        BooleanExpressionComparableRelationshipView {
            relationship_name: self.relationship_name@,
            boolean_expression_type: option_view(self.boolean_expression_type),
        }
    }
}

/// The operand of a boolean expression type over an object type.
#[derive(Debug, PartialEq, Eq)]
pub struct BooleanExpressionObjectOperand {
    pub operand_type: String,
    pub comparable_fields: Vec<BooleanExpressionComparableField>,
    pub comparable_relationships: Vec<BooleanExpressionComparableRelationship>,
}

pub ghost struct BooleanExpressionObjectOperandView {
    pub operand_type: Seq<char>,
    pub comparable_fields: Seq<BooleanExpressionComparableFieldView>,
    pub comparable_relationships: Seq<BooleanExpressionComparableRelationshipView>,
}

impl View for BooleanExpressionObjectOperand {
    type V = BooleanExpressionObjectOperandView;

    open spec fn view(&self) -> BooleanExpressionObjectOperandView {
        BooleanExpressionObjectOperandView {
            operand_type: self.operand_type@,
            comparable_fields: seq_view(self.comparable_fields@),
            comparable_relationships: seq_view(self.comparable_relationships@),
        }
    }
}

/// The operand of a boolean expression type over the aggregates of an object type.
#[derive(Debug, PartialEq, Eq)]
pub struct BooleanExpressionObjectAggregateOperand {
    pub operand_type: String,
}

/// The operand of a boolean expression type over a scalar type.
#[derive(Debug, PartialEq, Eq)]
pub struct BooleanExpressionScalarOperand {
    pub operand_type: TypeName,
}

/// The operand of a boolean expression type over the aggregates of a scalar type.
#[derive(Debug, PartialEq, Eq)]
pub struct BooleanExpressionScalarAggregateOperand {
    pub operand_type: TypeName,
}

/// What a boolean expression type compares.
#[derive(Debug, PartialEq, Eq)]
pub enum BooleanExpressionOperand {
    Object(BooleanExpressionObjectOperand),
    ObjectAggregate(BooleanExpressionObjectAggregateOperand),
    Scalar(BooleanExpressionScalarOperand),
    ScalarAggregate(BooleanExpressionScalarAggregateOperand),
}

pub ghost enum BooleanExpressionOperandView {
    Object(BooleanExpressionObjectOperandView),
    ObjectAggregate(Seq<char>),
    Scalar(TypeNameView),
    ScalarAggregate(TypeNameView),
}

impl View for BooleanExpressionOperand {
    type V = BooleanExpressionOperandView;

    open spec fn view(&self) -> BooleanExpressionOperandView {
        match self {
            BooleanExpressionOperand::Object(operand) => BooleanExpressionOperandView::Object(
                operand@,
            ),
            BooleanExpressionOperand::ObjectAggregate(operand) => {
                BooleanExpressionOperandView::ObjectAggregate(operand.operand_type@)
            },
            BooleanExpressionOperand::Scalar(operand) => BooleanExpressionOperandView::Scalar(
                operand.operand_type@,
            ),
            BooleanExpressionOperand::ScalarAggregate(operand) => {
                BooleanExpressionOperandView::ScalarAggregate(operand.operand_type@)
            },
        }
    }
}

/// Whether `_and`, `_or` and `_not` are offered on a boolean expression type.
#[derive(Clone, Copy, Debug, PartialEq, Eq)]
pub struct BooleanExpressionLogicalOperators {
    pub enable: bool,
}

/// How a boolean expression type appears in the GraphQL schema.
#[derive(Debug, PartialEq, Eq)]
pub struct BooleanExpressionTypeGraphQlConfiguration {
    pub graphql_type_name: String,
}

/// One declared boolean expression type.
#[derive(Debug, PartialEq, Eq)]
pub struct BooleanExpressionTypeV1 {
    pub operand: BooleanExpressionOperand,
    pub logical_operators: BooleanExpressionLogicalOperators,
    pub graphql: Option<BooleanExpressionTypeGraphQlConfiguration>,
}

pub ghost struct BooleanExpressionTypeV1View {
    pub operand: BooleanExpressionOperandView,
    pub logical_operators: BooleanExpressionLogicalOperators,
    pub graphql: Option<Seq<char>>,
}

impl View for BooleanExpressionTypeV1 {
    type V = BooleanExpressionTypeV1View;

    open spec fn view(&self) -> BooleanExpressionTypeV1View {
        BooleanExpressionTypeV1View {
            operand: self.operand@,
            logical_operators: self.logical_operators,
            graphql: match self.graphql {
                Some(configuration) => Some(configuration.graphql_type_name@),
                None => None,
            },
        }
    }
}

/// A declared boolean expression type together with the subgraph that declares it.
#[derive(Debug, PartialEq, Eq)]
pub struct RawBooleanExpressionType {
    pub subgraph: String,
    pub definition: BooleanExpressionTypeV1,
}

pub ghost struct RawBooleanExpressionTypeView {
    pub subgraph: Seq<char>,
    pub definition: BooleanExpressionTypeV1View,
}

impl View for RawBooleanExpressionType {
    type V = RawBooleanExpressionTypeView;

    open spec fn view(&self) -> RawBooleanExpressionTypeView {
        RawBooleanExpressionTypeView { subgraph: self.subgraph@, definition: self.definition@ }
    }
}

/// Every declared boolean expression type, by qualified name. The index is
/// filled before any type is resolved, so a reference never has to be
/// resolved on the way: it is looked up.
pub type RawBooleanExpressionTypes = NameMap<Qualified, RawBooleanExpressionType>;

/// Switches that keep the behaviour of older metadata.
#[derive(Clone, Copy, Debug, PartialEq, Eq)]
pub struct Flags {
    /// Fill in the comparison information of the fields also where the type
    /// has no GraphQL configuration.
    pub allow_boolean_expression_fields_without_graphql: bool,
}

} // verus!
