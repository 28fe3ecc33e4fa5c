//! The tables that a subgraph offers to a session.
//!
//! A subgraph lists its models by table name, in the order in which they
//! were entered. What a session may see of a model depends on its role: a
//! table is handed out only for a model that the role may select from and
//! that has a source.

use crate::name_map::{map_of, Duplicate, NameMap};
use crate::names::{Qualified, QualifiedView};
use crate::views::seq_view;
use indexmap::IndexMap;
use std::sync::Arc;
use vstd::prelude::*;

verus! {

/// A model, as far as the catalog reads it.
#[derive(Debug, PartialEq, Eq)]
pub struct Model {
    pub name: Qualified,
}

/// Where the rows of a model come from.
#[derive(Debug, PartialEq, Eq)]
pub struct ModelSource {
    pub data_connector: Qualified,
    pub collection: String,
}

pub ghost struct ModelSourceView {
    pub data_connector: QualifiedView,
    pub collection: Seq<char>,
}

impl View for ModelSource {
    type V = ModelSourceView;

    open spec fn view(&self) -> ModelSourceView {
        ModelSourceView { data_connector: self.data_connector@, collection: self.collection@ }
    }
}

impl Duplicate for ModelSource {
    fn duplicate(&self) -> (copy: Self) {
        ModelSource {
            data_connector: self.data_connector.duplicate(),
            collection: self.collection.clone(),
        }
    }
}

/// What a role may select from a model.
#[derive(Debug, PartialEq, Eq)]
pub struct SelectPermission {
    /// The fields that the role may read.
    pub allowed_fields: Vec<String>,
}

impl View for SelectPermission {
    type V = Seq<Seq<char>>;

    open spec fn view(&self) -> Seq<Seq<char>> {
        seq_view(self.allowed_fields@)
    }
}

impl Duplicate for SelectPermission {
    fn duplicate(&self) -> (copy: Self) {
        let mut allowed_fields: Vec<String> = Vec::new();
        let mut i: usize = 0;
        while i < self.allowed_fields.len()
            invariant
                i <= self.allowed_fields.len(),
                allowed_fields@.len() == i,
                forall|j: int| 0 <= j < i ==> (#[trigger] allowed_fields@[j])@ == self.allowed_fields@[j]@,
            decreases self.allowed_fields.len() - i,
        {
            allowed_fields.push(self.allowed_fields[i].clone());
            i += 1;
        }
        assert(seq_view(allowed_fields@) =~= seq_view(self.allowed_fields@));
        SelectPermission { allowed_fields }
    }
}

/// A model with its source, if it has one, and the select permission of each role.
#[derive(Debug, PartialEq, Eq)]
pub struct ModelWithPermissions {
    pub model: Model,
    pub source: Option<ModelSource>,
    pub permissions: NameMap<String, SelectPermission>,
}

pub ghost struct ModelWithPermissionsView {
    pub name: QualifiedView,
    pub source: Option<ModelSourceView>,
    pub permissions: Map<Seq<char>, Seq<Seq<char>>>,
}

impl View for ModelWithPermissions {
    type V = ModelWithPermissionsView;

    open spec fn view(&self) -> ModelWithPermissionsView {
        ModelWithPermissionsView {
            name: self.model.name@,
            source: match self.source {
                Some(source) => Some(source@),
                None => None,
            },
            permissions: self.permissions@,
        }
    }
}

/// A model made ready to be queried by one role.
#[derive(Debug, PartialEq, Eq)]
pub struct Table {
    pub model: Model,
    pub source: ModelSource,
    pub permission: SelectPermission,
}

pub ghost struct TableView {
    pub name: QualifiedView,
    pub source: ModelSourceView,
    pub permission: Seq<Seq<char>>,
}

impl View for Table {
    type V = TableView;

    open spec fn view(&self) -> TableView {
        TableView { name: self.model.name@, source: self.source@, permission: self.permission@ }
    }
}

impl Table {
    /// The table of a model that takes no arguments.
    pub fn new_no_args(model: Model, source: ModelSource, permission: SelectPermission) -> (table:
        Self)
        ensures
            table@ == (TableView { name: model.name@, source: source@, permission: permission@ }),
    {
        Table { model, source, permission }
    }
}

/// Why no table can be handed out for a model that exists.
#[derive(Debug, PartialEq, Eq)]
pub enum CatalogError {
    /// The role has no select permission for the model.
    NoSelectPermission { role: String, model: Qualified },
    /// The model has no source.
    ModelSourceNotConfigured { model: Qualified },
}

pub ghost enum CatalogErrorView {
    NoSelectPermission { role: Seq<char>, model: QualifiedView },
    ModelSourceNotConfigured { model: QualifiedView },
}

impl View for CatalogError {
    type V = CatalogErrorView;

    open spec fn view(&self) -> CatalogErrorView {
        match self {
            CatalogError::NoSelectPermission { role, model } => {
                CatalogErrorView::NoSelectPermission { role: role@, model: model@ }
            },
            CatalogError::ModelSourceNotConfigured { model } => {
                CatalogErrorView::ModelSourceNotConfigured { model: model@ }
            },
        }
    }
}

/// `indexmap::IndexMap`, a hash map that keeps its entries in the order of
/// insertion. Nothing is known of a value of it but what [`table_entries`]
/// names.
#[verifier::external_type_specification]
#[verifier::external_body]
#[verifier::reject_recursive_types(K)]
#[verifier::reject_recursive_types(V)]
#[verifier::reject_recursive_types(S)]
pub struct ExIndexMap<K, V, S>(IndexMap<K, V, S>);

/// The entries of a map of tables, in their order: each table name with its model.
pub uninterp spec fn table_entries(tables: IndexMap<String, Arc<ModelWithPermissions>>) -> Seq<
    (Seq<char>, ModelWithPermissions),
>;

/// The models of a map of tables, by table name.
pub open spec fn tables_by_name(tables: IndexMap<String, Arc<ModelWithPermissions>>) -> Map<
    Seq<char>,
    ModelWithPermissions,
> {
    map_of(table_entries(tables))
}

/// `IndexMap::get`, with a `&str` for a `String` key: the value stored under
/// the key that equals `name`, or `None` where the map has no such key. The
/// map holds each key once, so the entry under a name is the one that
/// inserting the entries in order leaves there.
#[verifier::external_body]
fn tables_get<'a>(tables: &'a IndexMap<String, Arc<ModelWithPermissions>>, name: &str) -> (found:
    Option<&'a ModelWithPermissions>)
    ensures
        match found {
            Some(model) => tables_by_name(*tables).contains_key(name@) && tables_by_name(
                *tables,
            )[name@] == *model,
            None => !tables_by_name(*tables).contains_key(name@),
        },
{
    tables.get(name).map(|model| model.as_ref())
}

/// `IndexMap::contains_key`, with a `&str` for a `String` key: whether the
/// map has a key that equals `name`.
#[verifier::external_body]
fn tables_contains_key(tables: &IndexMap<String, Arc<ModelWithPermissions>>, name: &str) -> (found:
    bool)
    ensures
        found == tables_by_name(*tables).contains_key(name@),
{
    tables.contains_key(name)
}

/// `IndexMap::keys`, each key cloned: the keys of the map in the order of its entries.
#[verifier::external_body]
fn tables_keys(tables: &IndexMap<String, Arc<ModelWithPermissions>>) -> (names: Vec<String>)
    ensures
        seq_view(names@) == table_entries(*tables).map_values(
            |entry: (Seq<char>, ModelWithPermissions)| entry.0,
        ),
{
    tables.keys().cloned().collect::<Vec<_>>()
}

/// The models of a subgraph, by table name.
#[derive(Debug, PartialEq, Eq)]
pub struct Subgraph {
    pub tables: IndexMap<String, Arc<ModelWithPermissions>>,
}

/// A value as one session sees it.
#[derive(Debug, PartialEq, Eq)]
pub struct WithSession<T> {
    /// The role that the session acts as.
    pub role: String,
    pub value: T,
}

/// What a role gets when it asks for the table `name`: nothing where no
/// model is listed under the name; an error where the role may not select
/// from the model, and after that where the model has no source; else the
/// table made of the model, its source and the role's permission.
pub open spec fn table_for(
    tables: Map<Seq<char>, ModelWithPermissions>,
    role: Seq<char>,
    name: Seq<char>,
) -> Result<Option<TableView>, CatalogErrorView> {
    if !tables.contains_key(name) {
        Ok(None)
    } else {
        let model = tables[name]@;
        if !model.permissions.contains_key(role) {
            Err(CatalogErrorView::NoSelectPermission { role, model: model.name })
        } else if model.source is None {
            Err(CatalogErrorView::ModelSourceNotConfigured { model: model.name })
        } else {
            Ok(
                Some(
                    TableView {
                        name: model.name,
                        source: model.source->Some_0,
                        permission: model.permissions[role],
                    },
                ),
            )
        }
    }
}

impl WithSession<Subgraph> {
    /// The names of the tables, in the order in which they were entered.
    pub fn table_names(&self) -> (names: Vec<String>)
        ensures
            seq_view(names@) == table_entries(self.value.tables).map_values(
                |entry: (Seq<char>, ModelWithPermissions)| entry.0,
            ),
    {
        tables_keys(&self.value.tables)
    }

    /// Whether a model is listed under `name`.
    pub fn table_exist(&self, name: &str) -> (exists: bool)
        ensures
            exists == tables_by_name(self.value.tables).contains_key(name@),
    {
        tables_contains_key(&self.value.tables, name)
    }

    /// The table `name`, made ready for the role of the session.
    pub fn table(&self, name: &str) -> (found: Result<Option<Table>, CatalogError>)
        ensures
            match found {
                Ok(Some(table)) => table_for(tables_by_name(self.value.tables), self.role@, name@)
                    == Ok::<Option<TableView>, CatalogErrorView>(Some(table@)),
                Ok(None) => table_for(tables_by_name(self.value.tables), self.role@, name@) == Ok::<
                    Option<TableView>,
                    CatalogErrorView,
                >(None),
                Err(error) => table_for(tables_by_name(self.value.tables), self.role@, name@)
                    == Err::<Option<TableView>, CatalogErrorView>(error@),
            },
    {
        match tables_get(&self.value.tables, name) {
            Some(model) => {
                let permission = match model.permissions.get(&self.role) {
                    Some(permission) => permission,
                    None => {
                        return Err(
                            CatalogError::NoSelectPermission {
                                role: self.role.clone(),
                                model: model.model.name.duplicate(),
                            },
                        );
                    },
                };
                let model_source = match &model.source {
                    Some(model_source) => model_source,
                    None => {
                        return Err(
                            CatalogError::ModelSourceNotConfigured {
                                model: model.model.name.duplicate(),
                            },
                        );
                    },
                };
                let table = Table::new_no_args(
                    Model { name: model.model.name.duplicate() },
                    model_source.duplicate(),
                    permission.duplicate(),
                );
                Ok(Some(table))
            },
            None => Ok(None),
        }
    }
}

} // verus!
