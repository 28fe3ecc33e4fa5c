//! Boolean expression types over scalars, already resolved.

use crate::name_map::NameMap;
use crate::names::{Qualified, QualifiedTypeReference, QualifiedTypeReferenceView, QualifiedView};
use vstd::prelude::*;

verus! {

/// Whether a scalar boolean expression type offers the `_is_null` check.
#[derive(Clone, Copy, Debug, PartialEq, Eq, Structural)]
pub enum IncludeIsNull {
    Yes,
    No,
}

/// How one data connector names the operators of a scalar boolean expression type.
#[derive(Debug, PartialEq, Eq)]
pub struct DataConnectorOperatorMapping {
    pub data_connector_scalar_type: String,
    pub operator_mapping: NameMap<String, String>,
}

pub ghost struct DataConnectorOperatorMappingView {
    pub data_connector_scalar_type: Seq<char>,
    pub operator_mapping: Map<Seq<char>, Seq<char>>,
}

impl View for DataConnectorOperatorMapping {
    type V = DataConnectorOperatorMappingView;

    open spec fn view(&self) -> DataConnectorOperatorMappingView {
        DataConnectorOperatorMappingView {
            data_connector_scalar_type: self.data_connector_scalar_type@,
            operator_mapping: self.operator_mapping@,
        }
    }
}

/// A resolved boolean expression type over a scalar: its operators with the
/// type of their argument, and the operator names of each data connector.
#[derive(Debug, PartialEq, Eq)]
pub struct ResolvedScalarBooleanExpressionType {
    pub comparison_operators: NameMap<String, QualifiedTypeReference>,
    pub data_connector_operator_mappings: NameMap<Qualified, DataConnectorOperatorMapping>,
    pub include_is_null: IncludeIsNull,
}

pub ghost struct ResolvedScalarBooleanExpressionTypeView {
    pub comparison_operators: Map<Seq<char>, QualifiedTypeReferenceView>,
    pub data_connector_operator_mappings: Map<QualifiedView, DataConnectorOperatorMappingView>,
    pub include_is_null: IncludeIsNull,
}

impl View for ResolvedScalarBooleanExpressionType {
    type V = ResolvedScalarBooleanExpressionTypeView;

    open spec fn view(&self) -> ResolvedScalarBooleanExpressionTypeView {
        ResolvedScalarBooleanExpressionTypeView {
            comparison_operators: self.comparison_operators@,
            data_connector_operator_mappings: self.data_connector_operator_mappings@,
            include_is_null: self.include_is_null,
        }
    }
}

/// Every resolved scalar boolean expression type, by qualified name.
pub type ScalarBooleanExpressionTypes = NameMap<Qualified, ResolvedScalarBooleanExpressionType>;

} // verus!
