use metadata_resolve::comparable_fields::{
    classify_comparable_field, resolve_comparable_fields, resolve_operator_mapping_for_scalar_type,
    ComparableFieldClassification,
};
use metadata_resolve::comparable_relationships::resolve_comparable_relationships;
use metadata_resolve::graphql::{GraphqlConfigError, GraphqlTypeNames};
use metadata_resolve::helpers::{lookup_raw_boolean_expression, resolve_logical_operators};
use metadata_resolve::metadata::{
    BooleanExpressionComparableField, BooleanExpressionComparableRelationship,
    BooleanExpressionLogicalOperators, BooleanExpressionObjectAggregateOperand,
    BooleanExpressionObjectOperand, BooleanExpressionOperand, BooleanExpressionScalarAggregateOperand,
    BooleanExpressionScalarOperand, BooleanExpressionTypeGraphQlConfiguration,
    BooleanExpressionTypeV1, Flags, RawBooleanExpressionType, RawBooleanExpressionTypes,
};
use metadata_resolve::name_map::NameMap;
use metadata_resolve::names::{
    InbuiltType, Qualified, QualifiedBaseType, QualifiedTypeName, QualifiedTypeReference, TypeName,
};
use metadata_resolve::object::{
    assemble_object_boolean_expression_type, resolve_object_boolean_expression_type,
};
use metadata_resolve::object_types::{FieldDefinition, ObjectTypeRepresentation, ObjectTypes};
use metadata_resolve::relationships::{
    Relationship, RelationshipDescriptor, RelationshipError, Relationships,
};
use metadata_resolve::resolved::{
    BooleanExpressionError, BooleanExpressionIssue, ComparableFieldKind, IncludeLogicalOperators,
    ObjectComparisonKind, ResolvedObjectBooleanExpressionType,
};
use metadata_resolve::scalar_boolean_expressions::{
    DataConnectorOperatorMapping, IncludeIsNull, ResolvedScalarBooleanExpressionType,
    ScalarBooleanExpressionTypes,
};

type Resolution =
    Result<(ResolvedObjectBooleanExpressionType<String>, Vec<BooleanExpressionIssue>), BooleanExpressionError>;

fn s(text: &str) -> String {
    text.to_string()
}

fn q(name: &str) -> Qualified {
    Qualified::new(s("app"), s(name))
}

fn named(inbuilt: InbuiltType) -> QualifiedTypeReference {
    QualifiedTypeReference {
        underlying_type: QualifiedBaseType::Named(QualifiedTypeName::Inbuilt(inbuilt)),
        nullable: false,
    }
}

fn custom(name: &str) -> QualifiedTypeReference {
    QualifiedTypeReference {
        underlying_type: QualifiedBaseType::Named(QualifiedTypeName::Custom(q(name))),
        nullable: false,
    }
}

fn list_of(inner: QualifiedTypeReference) -> QualifiedTypeReference {
    QualifiedTypeReference { underlying_type: QualifiedBaseType::List(Box::new(inner)), nullable: true }
}

fn field(field_type: QualifiedTypeReference) -> FieldDefinition {
    FieldDefinition { field_type, field_arguments: NameMap::new() }
}

fn field_with_argument(field_type: QualifiedTypeReference) -> FieldDefinition {
    let mut field_arguments = NameMap::new();
    field_arguments.insert(s("limit"), named(InbuiltType::Int));
    FieldDefinition { field_type, field_arguments }
}

/// `Author { name: String, age: Int, books: [Book], tags: [String], nickname(limit): String }`
/// and `Book { title: String }`, both in the subgraph `app`.
fn object_types() -> ObjectTypes {
    let mut author = NameMap::new();
    author.insert(s("name"), field(named(InbuiltType::String)));
    author.insert(s("age"), field(named(InbuiltType::Int)));
    author.insert(s("books"), field(list_of(custom("Book"))));
    author.insert(s("favourite"), field(custom("Book")));
    author.insert(s("tags"), field(list_of(named(InbuiltType::String))));
    author.insert(s("nickname"), field_with_argument(named(InbuiltType::String)));
    let mut book = NameMap::new();
    book.insert(s("title"), field(named(InbuiltType::String)));
    let mut types = NameMap::new();
    types.insert(q("Author"), ObjectTypeRepresentation { fields: author });
    types.insert(q("Book"), ObjectTypeRepresentation { fields: book });
    types
}

fn raw(operand: BooleanExpressionOperand) -> RawBooleanExpressionType {
    RawBooleanExpressionType {
        subgraph: s("app"),
        definition: BooleanExpressionTypeV1 {
            operand,
            logical_operators: BooleanExpressionLogicalOperators { enable: true },
            graphql: None,
        },
    }
}

fn object_operand(
    operand_type: &str,
    fields: Vec<(&str, &str)>,
    relationships: Vec<(&str, Option<&str>)>,
) -> BooleanExpressionObjectOperand {
    BooleanExpressionObjectOperand {
        operand_type: s(operand_type),
        comparable_fields: fields
            .into_iter()
            .map(|(field_name, boolean_expression_type)| BooleanExpressionComparableField {
                field_name: s(field_name),
                boolean_expression_type: s(boolean_expression_type),
            })
            .collect(),
        comparable_relationships: relationships
            .into_iter()
            .map(|(relationship_name, boolean_expression_type)| {
                BooleanExpressionComparableRelationship {
                    relationship_name: s(relationship_name),
                    boolean_expression_type: boolean_expression_type.map(s),
                }
            })
            .collect(),
    }
}

/// `StringBoolExp` and `IntBoolExp` over scalars, `BookBoolExp` over the
/// object type `Book`, `BookAggregateBoolExp` over its aggregates,
/// `TagsBoolExp` over the aggregates of `String`, and `RemoteBoolExp` in the
/// subgraph `remote`.
fn raw_types() -> RawBooleanExpressionTypes {
    let mut types = NameMap::new();
    types.insert(
        q("StringBoolExp"),
        raw(BooleanExpressionOperand::Scalar(BooleanExpressionScalarOperand {
            operand_type: TypeName::Inbuilt(InbuiltType::String),
        })),
    );
    types.insert(
        q("IntBoolExp"),
        raw(BooleanExpressionOperand::Scalar(BooleanExpressionScalarOperand {
            operand_type: TypeName::Inbuilt(InbuiltType::Int),
        })),
    );
    types.insert(
        q("BookBoolExp"),
        raw(BooleanExpressionOperand::Object(object_operand("Book", vec![], vec![]))),
    );
    types.insert(
        q("BookAggregateBoolExp"),
        raw(BooleanExpressionOperand::ObjectAggregate(BooleanExpressionObjectAggregateOperand {
            operand_type: s("Book"),
        })),
    );
    types.insert(
        q("TagsBoolExp"),
        raw(BooleanExpressionOperand::ScalarAggregate(BooleanExpressionScalarAggregateOperand {
            operand_type: TypeName::Inbuilt(InbuiltType::String),
        })),
    );
    types.insert(
        Qualified::new(s("remote"), s("RemoteBoolExp")),
        raw(BooleanExpressionOperand::Object(object_operand("Publisher", vec![], vec![]))),
    );
    types
}

fn string_bool_exp() -> ResolvedScalarBooleanExpressionType {
    let mut comparison_operators = NameMap::new();
    comparison_operators.insert(s("_eq"), named(InbuiltType::String));
    comparison_operators.insert(s("_like"), named(InbuiltType::String));
    let mut operator_mapping = NameMap::new();
    operator_mapping.insert(s("_eq"), s("equals"));
    let mut data_connector_operator_mappings = NameMap::new();
    data_connector_operator_mappings.insert(
        q("postgres"),
        DataConnectorOperatorMapping { data_connector_scalar_type: s("text"), operator_mapping },
    );
    ResolvedScalarBooleanExpressionType {
        comparison_operators,
        data_connector_operator_mappings,
        include_is_null: IncludeIsNull::No,
    }
}

/// `StringBoolExp` with two operators, `IntBoolExp` with the null check
/// only, `EmptyBoolExp` with nothing to compare with.
fn scalar_types() -> ScalarBooleanExpressionTypes {
    let mut types = NameMap::new();
    types.insert(q("StringBoolExp"), string_bool_exp());
    types.insert(
        q("IntBoolExp"),
        ResolvedScalarBooleanExpressionType {
            comparison_operators: NameMap::new(),
            data_connector_operator_mappings: NameMap::new(),
            include_is_null: IncludeIsNull::Yes,
        },
    );
    types.insert(
        q("EmptyBoolExp"),
        ResolvedScalarBooleanExpressionType {
            comparison_operators: NameMap::new(),
            data_connector_operator_mappings: NameMap::new(),
            include_is_null: IncludeIsNull::No,
        },
    );
    types
}

/// `Author.books` with no target subgraph, `Author.publisher` into the
/// subgraph `remote`, `Author.reviews` into an unknown subgraph.
fn relationships() -> Relationships {
    let mut author = NameMap::new();
    author.insert(
        s("books"),
        Relationship::Relationship(RelationshipDescriptor {
            relationship_name: s("books"),
            target_subgraph: None,
        }),
    );
    author.insert(
        s("publisher"),
        Relationship::Relationship(RelationshipDescriptor {
            relationship_name: s("publisher"),
            target_subgraph: Some(s("remote")),
        }),
    );
    author.insert(s("reviews"), Relationship::RelationshipToUnknownSubgraph);
    let mut all = NameMap::new();
    all.insert(q("Author"), author);
    Relationships(all)
}

const WITH_COMPARISONS: Flags = Flags { allow_boolean_expression_fields_without_graphql: true };
const WITHOUT_COMPARISONS: Flags = Flags { allow_boolean_expression_fields_without_graphql: false };

fn resolve_with(
    operand: &BooleanExpressionObjectOperand,
    graphql: &Option<BooleanExpressionTypeGraphQlConfiguration>,
    graphql_types: &mut GraphqlTypeNames,
    flags: &Flags,
) -> Resolution {
    resolve_object_boolean_expression_type(
        &q("AuthorBoolExp"),
        operand,
        &BooleanExpressionLogicalOperators { enable: true },
        &s("app"),
        graphql,
        &object_types(),
        &scalar_types(),
        &raw_types(),
        &relationships(),
        &(),
        graphql_types,
        flags,
        |_name: &Qualified,
         configuration: &BooleanExpressionTypeGraphQlConfiguration,
         comparable_fields: &NameMap<String, (ComparableFieldKind, Qualified)>,
         _scalars: &ScalarBooleanExpressionTypes,
         _raw: &RawBooleanExpressionTypes,
         _graphql_config: &(),
         graphql_types: &mut GraphqlTypeNames| {
            graphql_types
                .store_new_graphql_type(Some(&configuration.graphql_type_name))
                .map_err(BooleanExpressionError::GraphqlConfigError)?;
            Ok(format!("{}:{}", configuration.graphql_type_name, comparable_fields.len()))
        },
    )
}

fn resolve(operand: &BooleanExpressionObjectOperand, flags: &Flags) -> Resolution {
    resolve_with(operand, &None, &mut GraphqlTypeNames::new(), flags)
}

#[test]
fn example_scalar_and_array_fields_resolve() {
    let operand = object_operand(
        "Author",
        vec![("name", "StringBoolExp"), ("books", "BookBoolExp")],
        vec![],
    );
    let (resolved, issues) = resolve(&operand, &WITH_COMPARISONS).unwrap();
    assert!(issues.is_empty());
    assert_eq!(resolved.name, q("AuthorBoolExp"));
    assert_eq!(resolved.object_type, q("Author"));
    assert_eq!(resolved.include_logical_operators, IncludeLogicalOperators::Yes);
    assert_eq!(resolved.graphql, None);

    assert_eq!(resolved.fields.scalar_fields.len(), 1);
    let name = resolved.fields.scalar_fields.get(&s("name")).unwrap();
    assert_eq!(name.object_type_name, Some(q("StringBoolExp")));
    assert_eq!(name.operators.len(), 2);
    assert_eq!(name.operators.get(&s("_eq")), Some(&named(InbuiltType::String)));
    assert_eq!(name.operators.get(&s("_like")), Some(&named(InbuiltType::String)));
    let postgres = name.operator_mapping.get(&q("postgres")).unwrap();
    assert_eq!(postgres.get(&s("_eq")), "equals");
    assert_eq!(postgres.get(&s("_like")), "_like");

    assert_eq!(resolved.fields.object_fields.len(), 1);
    let books = resolved.fields.object_fields.get(&s("books")).unwrap();
    assert_eq!(books.field_kind, ObjectComparisonKind::Array);
    assert_eq!(books.object_type_name, q("BookBoolExp"));
    assert_eq!(books.underlying_object_type_name, q("Book"));
    assert!(resolved.fields.relationship_fields.is_empty());
}

#[test]
fn example_field_type_mismatch() {
    let operand = object_operand("Author", vec![("name", "IntBoolExp")], vec![]);
    assert_eq!(
        resolve(&operand, &WITH_COMPARISONS),
        Err(BooleanExpressionError::FieldTypeMismatch {
            field_boolean_expression_type_name: q("IntBoolExp"),
            field_name: s("name"),
            field_type: QualifiedTypeName::Inbuilt(InbuiltType::String),
            underlying_type: QualifiedTypeName::Inbuilt(InbuiltType::Int),
        })
    );
}

#[test]
fn example_array_field_with_scalar_type_is_an_issue() {
    // the scalar type is not even declared over the type of the list's items
    let operand = object_operand("Author", vec![("books", "StringBoolExp")], vec![]);
    let (resolved, issues) = resolve(&operand, &WITH_COMPARISONS).unwrap();
    assert_eq!(
        issues,
        vec![BooleanExpressionIssue::BooleanExpressionArrayFieldComparedWithScalarType {
            field_name: s("books"),
            boolean_expression_type_name: q("StringBoolExp"),
        }]
    );
    assert!(resolved.fields.object_fields.get(&s("books")).is_none());
    assert!(resolved.fields.scalar_fields.get(&s("books")).is_none());
    assert!(resolved.fields.object_fields.is_empty());
    assert!(resolved.fields.scalar_fields.is_empty());
}

#[test]
fn array_field_with_scalar_aggregate_type_is_an_issue() {
    let output = resolve_comparable_fields(
        &object_operand("Author", vec![("tags", "TagsBoolExp"), ("name", "StringBoolExp")], vec![])
            .comparable_fields,
        object_types().get(&q("Author")).unwrap(),
        &q("AuthorBoolExp"),
        &s("app"),
        &scalar_types(),
        &None,
        &raw_types(),
        &WITH_COMPARISONS,
    )
    .ok()
    .unwrap();
    assert_eq!(output.issues.len(), 1);
    assert!(!output.comparable_fields.contains_key(&s("tags")));
    assert_eq!(
        output.comparable_fields.get(&s("name")),
        Some(&(ComparableFieldKind::Scalar, q("StringBoolExp")))
    );
    assert!(output.scalar_fields.contains_key(&s("name")));
    assert!(!output.scalar_fields.contains_key(&s("tags")));
    assert!(output.object_fields.is_empty());
}

#[test]
fn consistent_definitions_resolve_and_hold_only_declared_fields() {
    let declared = vec![
        ("name", "StringBoolExp"),
        ("age", "IntBoolExp"),
        ("nickname", "NoSuchBoolExp"),
        ("favourite", "BookBoolExp"),
        ("books", "BookAggregateBoolExp"),
    ];
    let operand = object_operand("Author", declared.clone(), vec![("books", None)]);
    let author = object_types();
    let author = author.get(&q("Author")).unwrap();
    let output = resolve_comparable_fields(
        &operand.comparable_fields,
        author,
        &q("AuthorBoolExp"),
        &s("app"),
        &scalar_types(),
        &None,
        &raw_types(),
        &WITH_COMPARISONS,
    )
    .ok()
    .unwrap();
    assert!(output.issues.is_empty());
    // the field with arguments is passed over, though its type is not declared
    assert_eq!(output.comparable_fields.len(), 4);
    assert!(!output.comparable_fields.contains_key(&s("nickname")));
    for i in 0..output.comparable_fields.len() {
        let (name, _) = output.comparable_fields.get_index(i).unwrap();
        assert!(declared.iter().any(|(field_name, _)| field_name == name));
        assert!(author.fields.get(name).unwrap().field_arguments.is_empty());
    }
    assert_eq!(
        output.comparable_fields.get(&s("favourite")),
        Some(&(ComparableFieldKind::Object, q("BookBoolExp")))
    );
    assert_eq!(
        output.comparable_fields.get(&s("books")),
        Some(&(ComparableFieldKind::Array, q("BookAggregateBoolExp")))
    );
    // a type over aggregates gives no object comparison
    assert_eq!(output.object_fields.len(), 1);
    assert_eq!(
        output.object_fields.get(&s("favourite")).unwrap().field_kind,
        ObjectComparisonKind::Object
    );
    // the null check alone is enough for a scalar comparison
    assert_eq!(output.scalar_fields.len(), 2);
    let age = output.scalar_fields.get(&s("age")).unwrap();
    assert!(age.operators.is_empty());
    assert!(age.operator_mapping.is_empty());

    let (resolved, issues) = resolve(&operand, &WITH_COMPARISONS).unwrap();
    assert!(issues.is_empty());
    assert_eq!(resolved.fields.object_fields, output.object_fields);
    assert_eq!(resolved.fields.scalar_fields, output.scalar_fields);
    assert_eq!(resolved.fields.relationship_fields.len(), 1);
}

#[test]
fn unknown_underlying_type_fails() {
    let operand = object_operand(
        "Publisher",
        vec![("missing", "NoSuchBoolExp")],
        vec![("missing", None)],
    );
    let mut graphql_types = GraphqlTypeNames::new();
    let graphql =
        Some(BooleanExpressionTypeGraphQlConfiguration { graphql_type_name: s("Publisher_bool_exp") });
    assert_eq!(
        resolve_with(&operand, &graphql, &mut graphql_types, &WITH_COMPARISONS),
        Err(BooleanExpressionError::UnknownUnderlyingType { object_type: q("Publisher") })
    );
    assert!(!graphql_types.contains(&s("Publisher_bool_exp")));
}

#[test]
fn unknown_comparable_field_fails() {
    let operand = object_operand(
        "Author",
        vec![("name", "StringBoolExp"), ("email", "StringBoolExp"), ("age", "StringBoolExp")],
        vec![],
    );
    assert_eq!(
        resolve(&operand, &WITH_COMPARISONS),
        Err(BooleanExpressionError::UnknownComparableField {
            field_name: s("email"),
            object_boolean_expression_type: q("AuthorBoolExp"),
        })
    );
}

#[test]
fn unknown_referenced_filter_type_fails() {
    let operand = object_operand("Author", vec![("name", "NoSuchBoolExp")], vec![]);
    assert_eq!(
        resolve(&operand, &WITHOUT_COMPARISONS),
        Err(BooleanExpressionError::UnknownReferencedFilterType {
            parent_boolean_expression: q("AuthorBoolExp"),
            child_boolean_expression: q("NoSuchBoolExp"),
        })
    );
}

#[test]
fn field_type_mismatch_fails_for_every_kind() {
    // as a scalar
    assert!(matches!(
        resolve(&object_operand("Author", vec![("age", "StringBoolExp")], vec![]), &WITH_COMPARISONS),
        Err(BooleanExpressionError::FieldTypeMismatch { .. })
    ));
    // as an object: the type is declared over `Book`, the field is a `String`
    assert_eq!(
        resolve(&object_operand("Author", vec![("name", "BookBoolExp")], vec![]), &WITH_COMPARISONS),
        Err(BooleanExpressionError::FieldTypeMismatch {
            field_boolean_expression_type_name: q("BookBoolExp"),
            field_name: s("name"),
            field_type: QualifiedTypeName::Inbuilt(InbuiltType::String),
            underlying_type: QualifiedTypeName::Custom(q("Book")),
        })
    );
    // as an array
    assert_eq!(
        resolve(&object_operand("Author", vec![("tags", "BookBoolExp")], vec![]), &WITH_COMPARISONS),
        Err(BooleanExpressionError::FieldTypeMismatch {
            field_boolean_expression_type_name: q("BookBoolExp"),
            field_name: s("tags"),
            field_type: QualifiedTypeName::Inbuilt(InbuiltType::String),
            underlying_type: QualifiedTypeName::Custom(q("Book")),
        })
    );
}

#[test]
fn classification_of_single_fields() {
    let types = object_types();
    let author = types.get(&q("Author")).unwrap();
    let classify = |field_name: &str, boolean_expression_type: &str| {
        classify_comparable_field(
            &BooleanExpressionComparableField {
                field_name: s(field_name),
                boolean_expression_type: s(boolean_expression_type),
            },
            author,
            &q("AuthorBoolExp"),
            &s("app"),
            &raw_types(),
        )
    };
    assert_eq!(classify("nickname", "StringBoolExp"), ComparableFieldClassification::Skipped);
    assert_eq!(
        classify("name", "StringBoolExp"),
        ComparableFieldClassification::Registered(ComparableFieldKind::Scalar, q("StringBoolExp"))
    );
    assert_eq!(
        classify("books", "BookBoolExp"),
        ComparableFieldClassification::Registered(ComparableFieldKind::Array, q("BookBoolExp"))
    );
    assert_eq!(
        classify("favourite", "BookAggregateBoolExp"),
        ComparableFieldClassification::Registered(
            ComparableFieldKind::Object,
            q("BookAggregateBoolExp")
        )
    );
    assert_eq!(
        classify("tags", "StringBoolExp"),
        ComparableFieldClassification::Dropped(
            BooleanExpressionIssue::BooleanExpressionArrayFieldComparedWithScalarType {
                field_name: s("tags"),
                boolean_expression_type_name: q("StringBoolExp"),
            }
        )
    );
    assert!(matches!(
        classify("email", "StringBoolExp"),
        ComparableFieldClassification::Failed(BooleanExpressionError::UnknownComparableField { .. })
    ));
    // the type of another subgraph is not found under the current one
    assert!(matches!(
        classify("name", "RemoteBoolExp"),
        ComparableFieldClassification::Failed(
            BooleanExpressionError::UnknownReferencedFilterType { .. }
        )
    ));
}

#[test]
fn later_declaration_of_a_field_replaces_the_earlier_one() {
    let operand = object_operand(
        "Author",
        vec![("books", "BookBoolExp"), ("books", "BookAggregateBoolExp")],
        vec![],
    );
    let (resolved, issues) = resolve(&operand, &WITH_COMPARISONS).unwrap();
    assert!(issues.is_empty());
    assert!(resolved.fields.object_fields.is_empty());

    // a dropped declaration leaves an earlier registration in place
    let operand = object_operand(
        "Author",
        vec![("books", "BookBoolExp"), ("books", "StringBoolExp")],
        vec![],
    );
    let (resolved, issues) = resolve(&operand, &WITH_COMPARISONS).unwrap();
    assert_eq!(issues.len(), 1);
    assert!(resolved.fields.object_fields.contains_key(&s("books")));
}

#[test]
fn comparisons_are_filled_in_only_with_graphql_or_the_flag() {
    let operand = object_operand(
        "Author",
        vec![("name", "StringBoolExp"), ("books", "BookBoolExp")],
        vec![],
    );
    let author = object_types();
    let author = author.get(&q("Author")).unwrap();
    let run = |graphql: &Option<BooleanExpressionTypeGraphQlConfiguration>, flags: &Flags| {
        resolve_comparable_fields(
            &operand.comparable_fields,
            author,
            &q("AuthorBoolExp"),
            &s("app"),
            &scalar_types(),
            graphql,
            &raw_types(),
            flags,
        )
        .ok()
        .unwrap()
    };
    let graphql =
        Some(BooleanExpressionTypeGraphQlConfiguration { graphql_type_name: s("Author_bool_exp") });

    let bare = run(&None, &WITHOUT_COMPARISONS);
    assert_eq!(bare.comparable_fields.len(), 2);
    assert!(bare.scalar_fields.is_empty());
    assert!(bare.object_fields.is_empty());

    for output in [run(&graphql, &WITHOUT_COMPARISONS), run(&None, &WITH_COMPARISONS)] {
        assert_eq!(output.comparable_fields, bare.comparable_fields);
        assert_eq!(output.scalar_fields.len(), 1);
        assert_eq!(output.object_fields.len(), 1);
    }
}

#[test]
fn scalar_type_with_nothing_to_compare_is_left_out() {
    let mut raw_boolean_expression_types = raw_types();
    raw_boolean_expression_types.insert(
        q("EmptyBoolExp"),
        raw(BooleanExpressionOperand::Scalar(BooleanExpressionScalarOperand {
            operand_type: TypeName::Inbuilt(InbuiltType::String),
        })),
    );
    // `UnresolvedBoolExp` is declared, and missing from the scalar directory
    raw_boolean_expression_types.insert(
        q("UnresolvedBoolExp"),
        raw(BooleanExpressionOperand::Scalar(BooleanExpressionScalarOperand {
            operand_type: TypeName::Inbuilt(InbuiltType::Int),
        })),
    );
    let output = resolve_comparable_fields(
        &object_operand(
            "Author",
            vec![("name", "EmptyBoolExp"), ("age", "UnresolvedBoolExp")],
            vec![],
        )
        .comparable_fields,
        object_types().get(&q("Author")).unwrap(),
        &q("AuthorBoolExp"),
        &s("app"),
        &scalar_types(),
        &None,
        &raw_boolean_expression_types,
        &WITH_COMPARISONS,
    )
    .ok()
    .unwrap();
    assert_eq!(output.comparable_fields.len(), 2);
    assert!(output.scalar_fields.is_empty());
    assert!(output.issues.is_empty());
}

#[test]
fn operator_mapping_keeps_the_names_of_each_connector() {
    let scalar = string_bool_exp();
    let mapping = resolve_operator_mapping_for_scalar_type(&scalar.data_connector_operator_mappings);
    assert_eq!(mapping.len(), 1);
    let postgres = mapping.get(&q("postgres")).unwrap();
    assert_eq!(postgres.0.len(), 1);
    assert_eq!(postgres.0.get(&s("_eq")), Some(&s("equals")));
    assert_eq!(postgres.get(&s("_eq")), "equals");
    assert_eq!(postgres.get(&s("_gt")), "_gt");
    assert!(resolve_operator_mapping_for_scalar_type(&NameMap::new()).is_empty());
}

fn resolve_relationships(
    declared: Vec<(&str, Option<&str>)>,
) -> Result<
    NameMap<String, metadata_resolve::resolved::BooleanExpressionComparableRelationship>,
    BooleanExpressionError,
> {
    resolve_comparable_relationships(
        &q("AuthorBoolExp"),
        &q("Author"),
        &object_operand("Author", vec![], declared).comparable_relationships,
        &relationships(),
        &s("app"),
        &raw_types(),
    )
}

#[test]
fn comparable_relationships_resolve() {
    let resolved = resolve_relationships(vec![
        ("books", Some("BookBoolExp")),
        ("publisher", Some("RemoteBoolExp")),
    ])
    .unwrap();
    assert_eq!(resolved.len(), 2);
    let books = resolved.get(&s("books")).unwrap();
    assert_eq!(books.relationship_name, "books");
    assert_eq!(books.boolean_expression_type, Some(q("BookBoolExp")));
    // the chosen type is looked for in the subgraph of the target
    let publisher = resolved.get(&s("publisher")).unwrap();
    assert_eq!(
        publisher.boolean_expression_type,
        Some(Qualified::new(s("remote"), s("RemoteBoolExp")))
    );

    let resolved = resolve_relationships(vec![("publisher", None)]).unwrap();
    assert_eq!(resolved.get(&s("publisher")).unwrap().boolean_expression_type, None);
}

#[test]
fn unknown_relationship_fails() {
    let expected = Err(BooleanExpressionError::RelationshipError(
        RelationshipError::RelationshipNotFound {
            object_type_name: q("Author"),
            relationship_name: s("editor"),
        },
    ));
    assert_eq!(resolve_relationships(vec![("books", None), ("editor", None)]), expected);
    assert_eq!(
        resolve(
            &object_operand("Author", vec![("name", "StringBoolExp")], vec![("editor", None)]),
            &WITH_COMPARISONS
        )
        .map(|_| ()),
        expected.map(|_| ())
    );
    // an object type without any relationship
    assert_eq!(
        resolve_comparable_relationships(
            &q("BookBoolExp"),
            &q("Book"),
            &object_operand("Book", vec![], vec![("author", None)]).comparable_relationships,
            &relationships(),
            &s("app"),
            &raw_types(),
        ),
        Err(BooleanExpressionError::RelationshipError(RelationshipError::RelationshipNotFound {
            object_type_name: q("Book"),
            relationship_name: s("author"),
        }))
    );
}

#[test]
fn relationship_to_unknown_subgraph_is_left_out() {
    let resolved =
        resolve_relationships(vec![("reviews", Some("NoSuchBoolExp")), ("books", None)]).unwrap();
    assert_eq!(resolved.len(), 1);
    assert!(!resolved.contains_key(&s("reviews")));

    let operand = object_operand("Author", vec![], vec![("reviews", None)]);
    let (resolved, issues) = resolve(&operand, &WITH_COMPARISONS).unwrap();
    assert!(issues.is_empty());
    assert!(resolved.fields.relationship_fields.is_empty());
}

#[test]
fn relationship_with_undeclared_type_fails() {
    // `BookBoolExp` is declared in `app`, the target lives in `remote`
    assert_eq!(
        resolve_relationships(vec![("publisher", Some("BookBoolExp"))]),
        Err(BooleanExpressionError::UnknownReferencedFilterType {
            parent_boolean_expression: q("AuthorBoolExp"),
            child_boolean_expression: Qualified::new(s("remote"), s("BookBoolExp")),
        })
    );
    assert!(matches!(
        resolve_relationships(vec![("books", Some("RemoteBoolExp"))]),
        Err(BooleanExpressionError::UnknownReferencedFilterType { .. })
    ));
}

#[test]
fn errors_of_fields_come_before_errors_of_relationships() {
    let operand =
        object_operand("Author", vec![("email", "StringBoolExp")], vec![("editor", None)]);
    assert!(matches!(
        resolve(&operand, &WITH_COMPARISONS),
        Err(BooleanExpressionError::UnknownComparableField { .. })
    ));
}

#[test]
fn resolving_twice_gives_equal_results() {
    let operand = object_operand(
        "Author",
        vec![("name", "StringBoolExp"), ("books", "BookBoolExp"), ("tags", "StringBoolExp")],
        vec![("books", Some("BookBoolExp")), ("reviews", None)],
    );
    let first = resolve(&operand, &WITH_COMPARISONS);
    let second = resolve(&operand, &WITH_COMPARISONS);
    assert!(first.is_ok());
    assert_eq!(first, second);

    let failing = object_operand("Author", vec![("name", "IntBoolExp")], vec![]);
    assert_eq!(resolve(&failing, &WITH_COMPARISONS), resolve(&failing, &WITH_COMPARISONS));
}

#[test]
fn graphql_descriptor_is_built_from_the_registered_fields() {
    let operand = object_operand(
        "Author",
        vec![("name", "StringBoolExp"), ("nickname", "StringBoolExp"), ("tags", "StringBoolExp")],
        vec![],
    );
    let graphql =
        Some(BooleanExpressionTypeGraphQlConfiguration { graphql_type_name: s("Author_bool_exp") });
    let mut graphql_types = GraphqlTypeNames::new();
    let (resolved, issues) =
        resolve_with(&operand, &graphql, &mut graphql_types, &WITHOUT_COMPARISONS).unwrap();
    assert_eq!(resolved.graphql, Some(s("Author_bool_exp:1")));
    assert_eq!(issues.len(), 1);
    assert_eq!(resolved.fields.scalar_fields.len(), 1);
    assert!(graphql_types.contains(&s("Author_bool_exp")));

    // the name is taken now: building fails, and so does the resolution
    assert_eq!(
        resolve_with(&operand, &graphql, &mut graphql_types, &WITHOUT_COMPARISONS),
        Err(BooleanExpressionError::GraphqlConfigError(
            GraphqlConfigError::ConflictingGraphQlType { graphql_type_name: s("Author_bool_exp") }
        ))
    );
}

#[test]
fn graphql_descriptor_is_not_built_after_a_failure() {
    let operand = object_operand("Author", vec![("name", "IntBoolExp")], vec![]);
    let graphql =
        Some(BooleanExpressionTypeGraphQlConfiguration { graphql_type_name: s("Author_bool_exp") });
    let mut graphql_types = GraphqlTypeNames::new();
    assert!(resolve_with(&operand, &graphql, &mut graphql_types, &WITH_COMPARISONS).is_err());
    assert!(!graphql_types.contains(&s("Author_bool_exp")));

    // without a configuration nothing is built either
    let operand = object_operand("Author", vec![("name", "StringBoolExp")], vec![]);
    let (resolved, _) =
        resolve_with(&operand, &None, &mut graphql_types, &WITH_COMPARISONS).unwrap();
    assert_eq!(resolved.graphql, None);
    assert_eq!(graphql_types, GraphqlTypeNames::new());
}

#[test]
fn assembling_takes_what_the_building_came_to() {
    let parts = || {
        let output = resolve_comparable_fields(
            &object_operand("Author", vec![("tags", "StringBoolExp"), ("name", "StringBoolExp")], vec![])
                .comparable_fields,
            object_types().get(&q("Author")).unwrap(),
            &q("AuthorBoolExp"),
            &s("app"),
            &scalar_types(),
            &None,
            &raw_types(),
            &WITH_COMPARISONS,
        )
        .ok()
        .unwrap();
        (output, resolve_relationships(vec![("books", None)]).unwrap())
    };
    let disabled = BooleanExpressionLogicalOperators { enable: false };

    let (fields, relationships) = parts();
    let (resolved, issues) = assemble_object_boolean_expression_type(
        &q("AuthorBoolExp"),
        &disabled,
        q("Author"),
        fields,
        relationships,
        Some(Ok(7u32)),
    )
    .unwrap();
    assert_eq!(resolved.graphql, Some(7));
    assert_eq!(resolved.include_logical_operators, IncludeLogicalOperators::No);
    assert_eq!(resolved.name, q("AuthorBoolExp"));
    assert_eq!(resolved.object_type, q("Author"));
    assert_eq!(resolved.fields.scalar_fields.len(), 1);
    assert_eq!(resolved.fields.relationship_fields.len(), 1);
    assert_eq!(issues.len(), 1);

    let (fields, relationships) = parts();
    let (resolved, _) = assemble_object_boolean_expression_type::<u32>(
        &q("AuthorBoolExp"),
        &disabled,
        q("Author"),
        fields,
        relationships,
        None,
    )
    .unwrap();
    assert_eq!(resolved.graphql, None);

    let (fields, relationships) = parts();
    assert_eq!(
        assemble_object_boolean_expression_type::<u32>(
            &q("AuthorBoolExp"),
            &disabled,
            q("Author"),
            fields,
            relationships,
            Some(Err(BooleanExpressionError::GraphqlConfigError(
                GraphqlConfigError::MissingFilterInputFieldInGraphqlConfig
            ))),
        ),
        Err(BooleanExpressionError::GraphqlConfigError(
            GraphqlConfigError::MissingFilterInputFieldInGraphqlConfig
        ))
    );
}

#[test]
fn helper_lookups() {
    let raw_boolean_expression_types = raw_types();
    let found = lookup_raw_boolean_expression(
        &q("AuthorBoolExp"),
        &q("BookBoolExp"),
        &raw_boolean_expression_types,
    )
    .unwrap();
    assert!(matches!(found.definition.operand, BooleanExpressionOperand::Object(_)));
    assert_eq!(
        lookup_raw_boolean_expression(
            &q("AuthorBoolExp"),
            &q("RemoteBoolExp"),
            &raw_boolean_expression_types
        ),
        Err(BooleanExpressionError::UnknownReferencedFilterType {
            parent_boolean_expression: q("AuthorBoolExp"),
            child_boolean_expression: q("RemoteBoolExp"),
        })
    );
    assert_eq!(
        resolve_logical_operators(&BooleanExpressionLogicalOperators { enable: true }),
        IncludeLogicalOperators::Yes
    );
    assert_eq!(
        resolve_logical_operators(&BooleanExpressionLogicalOperators { enable: false }),
        IncludeLogicalOperators::No
    );
}
