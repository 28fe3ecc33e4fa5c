//! Lookups shared by the resolution of fields and of relationships.

use crate::metadata::{
    BooleanExpressionLogicalOperators, RawBooleanExpressionType, RawBooleanExpressionTypes,
};
use crate::name_map::Duplicate;
use crate::names::Qualified;
use crate::resolved::{
    BooleanExpressionError, BooleanExpressionErrorView, IncludeLogicalOperators,
};
use vstd::prelude::*;

verus! {

/// Finds the declaration of the boolean expression type
/// `boolean_expression_name`, which `parent_boolean_expression_name` refers
/// to. Nothing is resolved on the way: a type that is not declared is an error.
pub fn lookup_raw_boolean_expression<'a>(
    parent_boolean_expression_name: &Qualified,
    boolean_expression_name: &Qualified,
    raw_boolean_expression_types: &'a RawBooleanExpressionTypes,
) -> (found: Result<&'a RawBooleanExpressionType, BooleanExpressionError>)
    ensures
        match found {
            Ok(raw) => {
                &&& raw_boolean_expression_types@.contains_key(boolean_expression_name@)
                &&& raw_boolean_expression_types@[boolean_expression_name@] == raw@
            },
            Err(error) => {
                &&& !raw_boolean_expression_types@.contains_key(boolean_expression_name@)
                &&& error@ == (BooleanExpressionErrorView::UnknownReferencedFilterType {
                    parent_boolean_expression: parent_boolean_expression_name@,
                    child_boolean_expression: boolean_expression_name@,
                })
            },
        },
{
    match raw_boolean_expression_types.get(boolean_expression_name) {
        Some(raw) => Ok(raw),
        None => Err(
            BooleanExpressionError::UnknownReferencedFilterType {
                parent_boolean_expression: parent_boolean_expression_name.duplicate(),
                child_boolean_expression: boolean_expression_name.duplicate(),
            },
        ),
    }
}

/// Whether a type with these settings includes the logical operators.
pub open spec fn logical_operators_included(logical_operators: BooleanExpressionLogicalOperators)
    -> IncludeLogicalOperators {
    if logical_operators.enable {
        IncludeLogicalOperators::Yes
    } else {
        IncludeLogicalOperators::No
    }
}

/// Turns the declared setting for the logical operators into the resolved one.
pub fn resolve_logical_operators(logical_operators: &BooleanExpressionLogicalOperators) -> (included:
    IncludeLogicalOperators)
    ensures
        included == logical_operators_included(*logical_operators),
{
    if logical_operators.enable {
        IncludeLogicalOperators::Yes
    } else {
        IncludeLogicalOperators::No
    }
}

} // verus!
