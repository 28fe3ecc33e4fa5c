//! The names of the GraphQL types that resolution has handed out so far.
//!
//! One registry is shared by the resolution of all types. It is passed along
//! explicitly and refuses a name that it already holds, so that no two
//! resolved types can end up under one GraphQL name.

use vstd::prelude::*;

verus! {

/// Why a piece of GraphQL configuration could not be used.
#[derive(Debug, PartialEq, Eq)]
pub enum GraphqlConfigError {
    /// The name is already taken by another GraphQL type.
    ConflictingGraphQlType { graphql_type_name: String },
    /// The global configuration has no settings for filter inputs.
    MissingFilterInputFieldInGraphqlConfig,
}

pub ghost enum GraphqlConfigErrorView {
    ConflictingGraphQlType { graphql_type_name: Seq<char> },
    MissingFilterInputFieldInGraphqlConfig,
}

impl View for GraphqlConfigError {
    type V = GraphqlConfigErrorView;

    open spec fn view(&self) -> GraphqlConfigErrorView {
        match self {
            GraphqlConfigError::ConflictingGraphQlType { graphql_type_name } => {
                GraphqlConfigErrorView::ConflictingGraphQlType {
                    graphql_type_name: graphql_type_name@,
                }
            },
            GraphqlConfigError::MissingFilterInputFieldInGraphqlConfig => {
                GraphqlConfigErrorView::MissingFilterInputFieldInGraphqlConfig
            },
        }
    }
}

/// The set of GraphQL type names in use.
#[derive(Debug, PartialEq, Eq)]
pub struct GraphqlTypeNames {
    names: Vec<String>,
}

impl View for GraphqlTypeNames {
    type V = Set<Seq<char>>;

    closed spec fn view(&self) -> Set<Seq<char>> {
        Set::new(|name: Seq<char>| exists|i: int| 0 <= i < self.names@.len() && self.names@[i]@ == name)
    }
}

impl GraphqlTypeNames {
    /// The registry that holds no name.
    pub fn new() -> (registry: Self)
        ensures
            registry@ == Set::<Seq<char>>::empty(),
    {
        let registry = GraphqlTypeNames { names: Vec::new() };
        assert(registry@ =~= Set::<Seq<char>>::empty());
        registry
    }

    /// Whether `name` is in use.
    pub fn contains(&self, name: &String) -> (found: bool)
        ensures
            found == self@.contains(name@),
    {
        let mut i: usize = 0;
        while i < self.names.len()
            invariant
                i <= self.names.len(),
                forall|j: int| 0 <= j < i ==> (#[trigger] self.names@[j])@ != name@,
            decreases self.names.len() - i,
        {
            if self.names[i] == *name {
                return true;
            }
            i += 1;
        }
        false
    }

    /// Takes a new GraphQL type name into use. A name that is already in use
    /// is reported as a conflict, and the registry stays as it was. Where no
    /// name is given there is nothing to do.
    pub fn store_new_graphql_type(&mut self, new_graphql_type: Option<&String>) -> (stored: Result<
        (),
        GraphqlConfigError,
    >)
        ensures
            match new_graphql_type {
                None => stored is Ok && final(self)@ == old(self)@,
                Some(name) => if old(self)@.contains(name@) {
                    &&& stored matches Err(error)
                    &&& error@ == (GraphqlConfigErrorView::ConflictingGraphQlType {
                        graphql_type_name: name@,
                    })
                    &&& final(self)@ == old(self)@
                } else {
                    &&& stored is Ok
                    &&& final(self)@ == old(self)@.insert(name@)
                },
            },
    {
        match new_graphql_type {
            None => Ok(()),
            Some(name) => {
                if self.contains(name) {
                    Err(GraphqlConfigError::ConflictingGraphQlType { graphql_type_name: name.clone() })
                } else {
                    let ghost before = self.names@;
                    self.names.push(name.clone());
                    proof {
                        assert forall|other: Seq<char>| self@.contains(other) <==> old(
                            self,
                        )@.insert(name@).contains(other) by {
                            if self@.contains(other) {
                                let i = choose|i: int|
                                    0 <= i < self.names@.len() && self.names@[i]@ == other;
                                if i < before.len() {
                                    assert(before[i]@ == other);
                                }
                            }
                            if old(self)@.contains(other) {
                                let i = choose|i: int| 0 <= i < before.len() && before[i]@ == other;
                                assert(self.names@[i]@ == other);
                            }
                            if other == name@ {
                                assert(self.names@[before.len() as int]@ == other);
                            }
                        }
                        assert(self@ =~= old(self)@.insert(name@));
                    }
                    Ok(())
                }
            },
        }
    }
}

} // verus!
