//! Resolution of boolean expression types over object types.
//!
//! A boolean expression type describes the filters that a query may put on
//! the values of a type. Its declaration names fields, relationships and
//! other boolean expression types, in its own subgraph or in another. This
//! library checks those names against the directories of what is already
//! known, and gives back the resolved type with the issues found on the way,
//! or the error that stopped it.
//!
//! [`object`] holds the resolution of one type, [`comparable_fields`] and
//! [`comparable_relationships`] its two larger steps, and [`laws`] what is
//! proved of every resolution. [`metadata`] holds the declarations,
//! [`object_types`], [`scalar_boolean_expressions`] and [`relationships`] the
//! directories, and [`resolved`] the results. [`catalog`] offers the models
//! of a subgraph as tables to a session.

pub mod catalog;
pub mod comparable_fields;
pub mod comparable_relationships;
pub mod graphql;
pub mod helpers;
pub mod laws;
pub mod metadata;
pub mod name_map;
pub mod names;
pub mod object;
pub mod object_types;
pub mod relationships;
pub mod resolved;
pub mod scalar_boolean_expressions;
pub mod views;
