use indexmap::IndexMap;
use metadata_resolve::catalog::{
    CatalogError, Model, ModelSource, ModelWithPermissions, SelectPermission, Subgraph, Table,
    WithSession,
};
use metadata_resolve::name_map::NameMap;
use metadata_resolve::names::Qualified;
use std::sync::Arc;

fn s(text: &str) -> String {
    text.to_string()
}

fn source(collection: &str) -> ModelSource {
    ModelSource {
        data_connector: Qualified::new(s("app"), s("postgres")),
        collection: s(collection),
    }
}

fn model(name: &str, source: Option<ModelSource>, roles: Vec<(&str, Vec<&str>)>) -> ModelWithPermissions {
    let mut permissions = NameMap::new();
    for (role, fields) in roles {
        permissions.insert(
            s(role),
            SelectPermission { allowed_fields: fields.into_iter().map(s).collect() },
        );
    }
    ModelWithPermissions {
        model: Model { name: Qualified::new(s("app"), s(name)) },
        source,
        permissions,
    }
}

/// `authors` for `admin` and `user`, `books` for `admin` only, `drafts`
/// without a source.
fn session(role: &str) -> WithSession<Subgraph> {
    let mut tables = IndexMap::new();
    tables.insert(
        s("authors"),
        Arc::new(model(
            "Authors",
            Some(source("author")),
            vec![("admin", vec!["id", "name"]), ("user", vec!["name"])],
        )),
    );
    tables.insert(
        s("books"),
        Arc::new(model("Books", Some(source("book")), vec![("admin", vec!["id"])])),
    );
    tables.insert(s("drafts"), Arc::new(model("Drafts", None, vec![("admin", vec![])])));
    WithSession { role: s(role), value: Subgraph { tables } }
}

#[test]
fn table_names_come_in_order() {
    assert_eq!(session("admin").table_names(), vec![s("authors"), s("books"), s("drafts")]);
    let empty = WithSession { role: s("admin"), value: Subgraph { tables: IndexMap::new() } };
    assert!(empty.table_names().is_empty());
}

#[test]
fn table_exist_goes_by_name() {
    let session = session("nobody");
    assert!(session.table_exist("authors"));
    assert!(session.table_exist("drafts"));
    assert!(!session.table_exist("Authors"));
    assert!(!session.table_exist(""));
}

#[test]
fn table_is_made_for_the_role() {
    assert_eq!(
        session("user").table("authors"),
        Ok(Some(Table {
            model: Model { name: Qualified::new(s("app"), s("Authors")) },
            source: source("author"),
            permission: SelectPermission { allowed_fields: vec![s("name")] },
        }))
    );
    let table = session("admin").table("books").unwrap().unwrap();
    assert_eq!(table.model.name, Qualified::new(s("app"), s("Books")));
    assert_eq!(table.source.collection, "book");
    assert_eq!(table.permission.allowed_fields, vec![s("id")]);
}

#[test]
fn table_that_is_not_listed_is_none() {
    assert_eq!(session("admin").table("publishers"), Ok(None));
    assert_eq!(session("nobody").table("publishers"), Ok(None));
}

#[test]
fn table_without_permission_is_an_error() {
    assert_eq!(
        session("user").table("books"),
        Err(CatalogError::NoSelectPermission {
            role: s("user"),
            model: Qualified::new(s("app"), s("Books")),
        })
    );
    // the permission is asked for before the source
    assert_eq!(
        session("user").table("drafts"),
        Err(CatalogError::NoSelectPermission {
            role: s("user"),
            model: Qualified::new(s("app"), s("Drafts")),
        })
    );
}

#[test]
fn table_without_source_is_an_error() {
    assert_eq!(
        session("admin").table("drafts"),
        Err(CatalogError::ModelSourceNotConfigured { model: Qualified::new(s("app"), s("Drafts")) })
    );
}
