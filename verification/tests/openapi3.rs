use kcg::codegen::CodeGen;
use kcg::lint::Context;
use kcg::lint::Lint;
use kcg::lint::Path;
use kcg::lint::Severity;
use kcg::message::KContentStorage;
use kcg::message::KEnumType;
use kcg::message::KEnumTypeCase;
use kcg::message::KNewType;
use kcg::message::KPrimType;
use kcg::message::KProdType;
use kcg::message::KProdTypeField;
use kcg::message::KSumType;
use kcg::message::KSumTypeVariant;
use kcg::message::KType;
use kcg::message::KTypeRef;
use kcg::openapi3::AdditionalProperties;
use kcg::openapi3::Components;
use kcg::openapi3::Discriminator;
use kcg::openapi3::Doc;
use kcg::openapi3::Info;
use kcg::openapi3::JsonValue;
use kcg::openapi3::Paths;
use kcg::openapi3::Reference;
use kcg::openapi3::ReferencedOrInlineSchema;
use kcg::openapi3::Schema;
use kcg::openapi3::SchemaShape;
use kcg::openapi3::StringMap;

fn schema() -> Schema {
    Schema {
        title: None,
        summary: None,
        required: None,
        enum_: None,
        type_: None,
        all_of: None,
        one_of: None,
        any_of: None,
        not: None,
        items: None,
        properties: None,
        additional_properties: Box::new(AdditionalProperties::default()),
        description: None,
        format: None,
        default: None,
        discriminator: None,
        example: None,
        deprecated: false,
    }
}

fn typed(t: &str) -> Schema {
    Schema { type_: Some(t.to_string()), ..schema() }
}

fn inline(s: Schema) -> ReferencedOrInlineSchema {
    ReferencedOrInlineSchema::Inline(s)
}

fn referenced(r: &str) -> ReferencedOrInlineSchema {
    ReferencedOrInlineSchema::Referenced(Reference { ref_: r.to_string() })
}

fn smap(entries: Vec<(&str, ReferencedOrInlineSchema)>) -> StringMap<ReferencedOrInlineSchema> {
    let mut m = StringMap::new();
    for (k, v) in entries {
        m.insert(k.to_string(), v);
    }
    m
}

fn doc_with_components(components: Option<Components>) -> Doc {
    Doc {
        openapi: "3.0.1".to_string(),
        info: Info {
            title: "Swagger Petstore".to_string(),
            description: None,
            terms_of_service: None,
            contact: None,
            license: None,
            version: Some("1.2.3".to_string()),
        },
        servers: None,
        paths: Paths {},
        components,
        security: None,
        tags: None,
        external_docs: None,
    }
}

fn doc_with_schemas(schemas: Vec<(&str, ReferencedOrInlineSchema)>) -> Doc {
    doc_with_components(Some(Components { schemas: Some(smap(schemas)) }))
}

#[test]
fn test_reading_openapi_spec() {
    let order = Schema {
        properties: Some(smap(vec![
            ("id", inline(typed("integer"))),
            ("quantity", inline(typed("integer"))),
        ])),
        ..typed("object")
    };
    let b = doc_with_schemas(vec![("Order", inline(order))]);
    assert_eq!(b.openapi, "3.0.1");
    assert_eq!(b.info.version, Some("1.2.3".to_string()));
}

#[test]
#[should_panic]
fn test_reading_lint_fail() {
    let b = doc_with_schemas(vec![("Order", inline(typed("object")))]);
    let mut x = Context::default();
    b.lint(Path::default(), &mut x);
    println!("{}", x.to_string());
    x.check().unwrap();
}

#[test]
fn test_reading_new_type_pass() {
    let b = doc_with_schemas(vec![("Order", inline(typed("string")))]);

    let mut x = Context::default();
    b.lint(Path::default(), &mut x);
    println!("{}", x.to_string());
    x.check().unwrap();

    let c = b.scan(Path::default()).unwrap();
    assert_eq!(c.types.len(), 1);
    assert_eq!(
        c.types[0],
        KType::New(KNewType {
            name: "Order".to_string(),
            origin: KTypeRef::Prim(KPrimType::String),
            comment: String::new(),
        })
    );
}

#[test]
fn test_reading_enum_type_pass() {
    let fish = Schema {
        enum_: Some(vec![
            JsonValue::Str("Whale".to_string()),
            JsonValue::Str("Shrimp".to_string()),
        ]),
        ..typed("string")
    };
    let b = doc_with_schemas(vec![("Fish", inline(fish))]);

    let mut x = Context::default();
    b.lint(Path::default(), &mut x);
    println!("{}", x.to_string());
    x.check().unwrap();

    let c = b.scan(Path::default()).unwrap();
    assert_eq!(c.types.len(), 1);
    assert_eq!(
        c.types[0],
        KType::Enum(KEnumType {
            name: "Fish".to_string(),
            cases: vec![
                KEnumTypeCase {
                    name: "Whale".to_string(),
                    comment: "".to_string(),
                },
                KEnumTypeCase {
                    name: "Shrimp".to_string(),
                    comment: "".to_string(),
                },
            ],
            comment: "".to_string(),
        })
    );
}

#[test]
fn test_reading_sum_type_pass() {
    let pet = Schema {
        one_of: Some(vec![
            referenced("#/components/schemas/Cat"),
            referenced("#/components/schemas/Dog"),
        ]),
        discriminator: Some(Discriminator {
            property_name: "type".to_string(),
            mapping: None,
        }),
        ..typed("object")
    };
    let b = doc_with_schemas(vec![
        ("Pet", inline(pet)),
        ("Cat", inline(typed("string"))),
        ("Dog", inline(typed("string"))),
    ]);

    let mut x = Context::default();
    b.lint(Path::default(), &mut x);
    println!("{}", x.to_string());
    x.check().unwrap();

    let c = b.scan(Path::default()).unwrap();
    assert_eq!(c.types.len(), 3);
    println!("{:#?}", c);
    assert_eq!(
        c.types[0],
        KType::Sum(KSumType {
            name: "Pet".to_string(),
            discriminant: "type".to_string(),
            variants: vec![
                KSumTypeVariant {
                    name: "Cat".to_string(),
                    content: KContentStorage {
                        optional: false,
                        array: false,
                        storage: KTypeRef::Def("Cat".to_string()),
                    },
                    comment: "".to_string(),
                },
                KSumTypeVariant {
                    name: "Dog".to_string(),
                    content: KContentStorage {
                        optional: false,
                        array: false,
                        storage: KTypeRef::Def("Dog".to_string()),
                    },
                    comment: "".to_string(),
                },
            ],
            comment: "".to_string(),
        })
    );
}

#[test]
fn test_reading_prod_type_pass() {
    let ship = Schema {
        required: Some(vec!["cargo".to_string(), "crews".to_string()]),
        properties: Some(smap(vec![
            ("fuel", inline(typed("boolean"))),
            ("cargo", referenced("#/components/schemas/Cargo")),
            (
                "crews",
                inline(Schema {
                    items: Some(Box::new(inline(typed("string")))),
                    ..typed("array")
                }),
            ),
        ])),
        ..typed("object")
    };
    let cargo = Schema {
        properties: Some(smap(vec![])),
        ..typed("object")
    };
    let b = doc_with_schemas(vec![("Ship", inline(ship)), ("Cargo", inline(cargo))]);

    let mut x = Context::default();
    b.lint(Path::default(), &mut x);
    println!("{}", x.to_string());
    x.check().unwrap();

    let c = b.scan(Path::default()).unwrap();
    assert_eq!(c.types.len(), 2);
    println!("{:#?}", c);
    assert_eq!(
        c.types[0],
        KType::Prod(KProdType {
            name: "Ship".to_string(),
            fields: vec![
                KProdTypeField {
                    name: "fuel".to_string(),
                    content: KContentStorage {
                        optional: true,
                        array: false,
                        storage: KTypeRef::Prim(KPrimType::Bool),
                    },
                    comment: "".to_string(),
                },
                KProdTypeField {
                    name: "cargo".to_string(),
                    content: KContentStorage {
                        optional: false,
                        array: false,
                        storage: KTypeRef::Def("Cargo".to_string()),
                    },
                    comment: "".to_string(),
                },
                KProdTypeField {
                    name: "crews".to_string(),
                    content: KContentStorage {
                        optional: false,
                        array: true,
                        storage: KTypeRef::Prim(KPrimType::String),
                    },
                    comment: "".to_string(),
                },
            ],
            comment: "".to_string(),
        })
    );
}

#[test]
fn classification_assigns_each_shape_once() {
    assert_eq!(typed("string").classify(), SchemaShape::NewType);
    assert_eq!(typed("boolean").classify(), SchemaShape::NewType);
    let en = Schema {
        enum_: Some(vec![JsonValue::Str("A".to_string())]),
        ..typed("string")
    };
    assert_eq!(en.classify(), SchemaShape::EnumType);
    let sum = Schema {
        one_of: Some(vec![referenced("#/components/schemas/Cat")]),
        ..typed("object")
    };
    assert_eq!(sum.classify(), SchemaShape::SumType);
    assert_eq!(typed("object").classify(), SchemaShape::ProdType);
    assert_eq!(schema().classify(), SchemaShape::Unsupported);
    assert_eq!(typed("whatever").classify(), SchemaShape::Unsupported);
}

#[test]
fn rejection_of_union_with_enum_gives_one_error_and_no_types() {
    let bad = Schema {
        one_of: Some(vec![referenced("#/components/schemas/Cat")]),
        enum_: Some(vec![JsonValue::Str("A".to_string())]),
        ..typed("object")
    };
    let b = doc_with_schemas(vec![("Bad", inline(bad))]);

    let mut x = Context::default();
    b.lint(Path::default(), &mut x);
    assert_eq!(x.logs.len(), 1);
    assert_eq!(x.logs[0].severity, Severity::Error);
    assert_eq!(
        x.logs[0].message,
        "unknown/unsupported schema pattern (none of new/enum/sum/prod type)"
    );
    assert!(x.check().is_err());

    assert!(b.scan(Path::default()).is_err());
}

#[test]
fn comment_composed_from_title_summary_description() {
    let order = Schema {
        title: Some("T".to_string()),
        summary: Some("S".to_string()),
        description: Some("D".to_string()),
        ..typed("string")
    };
    let b = doc_with_schemas(vec![("Order", inline(order))]);
    let c = b.scan(Path::default()).unwrap();
    assert_eq!(
        c.types[0],
        KType::New(KNewType {
            name: "Order".to_string(),
            origin: KTypeRef::Prim(KPrimType::String),
            comment: "T\n\nS\n\nD".to_string(),
        })
    );
}

#[test]
fn comment_composed_from_nothing_is_empty() {
    let b = doc_with_schemas(vec![("Order", inline(typed("string")))]);
    let c = b.scan(Path::default()).unwrap();
    assert_eq!(c.types[0].name(), "Order");
    match &c.types[0] {
        KType::New(x) => assert_eq!(x.comment, ""),
        _ => panic!("expected a new-type"),
    }
}

#[test]
fn scan_without_components_yields_empty_model() {
    let b = doc_with_components(None);
    let c = b.scan(Path::default()).unwrap();
    assert_eq!(c.types.len(), 0);
    assert_eq!(c.funcs.len(), 0);
}

#[test]
fn scan_rejects_new_type_of_non_string_form() {
    let b = doc_with_schemas(vec![("Count", inline(typed("boolean")))]);
    let e = b.scan(Path::default()).unwrap_err();
    assert_eq!(
        e,
        "openapi3::scan(components/schemas/Count): new-type must be JSON String form (we do not support non-string new-types)"
    );
}

#[test]
fn scan_rejects_non_string_enum_case() {
    let fish = Schema {
        enum_: Some(vec![
            JsonValue::Str("Whale".to_string()),
            JsonValue::Other,
        ]),
        ..typed("string")
    };
    let b = doc_with_schemas(vec![("Fish", inline(fish))]);
    let e = b.scan(Path::default()).unwrap_err();
    assert_eq!(
        e,
        "openapi3::scan(components/schemas/Fish): enum-type case must be JSON String type (no support for other types)"
    );
}

#[test]
fn scan_rejects_mixed_union_members() {
    let pet = Schema {
        one_of: Some(vec![
            referenced("#/components/schemas/Cat"),
            inline(typed("string")),
        ]),
        ..typed("object")
    };
    let b = doc_with_schemas(vec![("Pet", inline(pet))]);
    let e = b.scan(Path::default()).unwrap_err();
    assert_eq!(
        e,
        "openapi3::scan(components/schemas/Pet): subnodes of `oneOf` node must be all reference or all inline to be a KCG sum-type"
    );
}

#[test]
fn scan_rejects_record_without_properties() {
    let b = doc_with_schemas(vec![("Bare", inline(typed("object")))]);
    let e = b.scan(Path::default()).unwrap_err();
    assert_eq!(
        e,
        "openapi3::scan(components/schemas/Bare): prod-type must have `properties` property"
    );
}

#[test]
fn scan_rejects_array_property_without_items() {
    let ship = Schema {
        properties: Some(smap(vec![("crews", inline(typed("array")))])),
        ..typed("object")
    };
    let b = doc_with_schemas(vec![("Ship", inline(ship))]);
    let e = b.scan(Path::default()).unwrap_err();
    assert_eq!(
        e,
        "openapi3::scan(components/schemas/Ship/properties/crews): a JSON Array type OAS node must have a `items` property node"
    );
}

#[test]
fn scan_rejects_inline_object_property() {
    let ship = Schema {
        properties: Some(smap(vec![("nested", inline(typed("object")))])),
        ..typed("object")
    };
    let b = doc_with_schemas(vec![("Ship", inline(ship))]);
    let e = b.scan(Path::default()).unwrap_err();
    assert_eq!(
        e,
        "openapi3::scan(components/schemas/Ship/properties/nested): inline type definitions are now allowed (all types must be explicitly named)"
    );
}

#[test]
fn scan_rejects_unknown_prim_format_pairing() {
    let ship = Schema {
        properties: Some(smap(vec![(
            "weight",
            inline(Schema {
                format: Some("int8".to_string()),
                ..typed("integer")
            }),
        )])),
        ..typed("object")
    };
    let b = doc_with_schemas(vec![("Ship", inline(ship))]);
    let e = b.scan(Path::default()).unwrap_err();
    assert_eq!(
        e,
        "openapi3::scan(components/schemas/Ship/properties/weight): unknown/unsupported type/format combination for KCG primitive type"
    );
}

#[test]
fn scan_rejects_referenced_top_level_schema() {
    let b = doc_with_schemas(vec![("Alias", referenced("#/components/schemas/Real"))]);
    let e = b.scan(Path::default()).unwrap_err();
    assert_eq!(
        e,
        "openapi3::scan(components): schemas in components must be defined inline"
    );
}

#[test]
fn scan_resolves_name_based_union_member() {
    let member = Schema {
        required: Some(vec!["cat".to_string()]),
        properties: Some(smap(vec![("cat", referenced("#/components/schemas/Cat"))])),
        ..typed("object")
    };
    let pet = Schema {
        one_of: Some(vec![inline(member)]),
        ..typed("object")
    };
    let b = doc_with_schemas(vec![("Pet", inline(pet))]);
    let c = b.scan(Path::default()).unwrap();
    match &c.types[0] {
        KType::Sum(x) => {
            assert_eq!(x.variants.len(), 1);
            assert_eq!(x.variants[0].name, "cat");
            assert_eq!(
                x.variants[0].content.storage,
                KTypeRef::Def("Cat".to_string())
            );
            assert_eq!(x.discriminant, "");
        }
        _ => panic!("expected a sum-type"),
    }
}

#[test]
fn lint_reports_missing_components_and_schemas() {
    let b = doc_with_components(None);
    let mut x = Context::default();
    b.lint(Path::default(), &mut x);
    assert_eq!(x.logs.len(), 1);
    assert_eq!(x.logs[0].message, "missing required property `components`");
    assert_eq!(x.logs[0].path.to_string(), "components");

    let b2 = doc_with_components(Some(Components { schemas: None }));
    let mut x2 = Context::default();
    b2.lint(Path::default(), &mut x2);
    assert_eq!(x2.logs.len(), 1);
    assert_eq!(x2.logs[0].message, "missing required property `schemas`");
    assert_eq!(x2.logs[0].path.to_string(), "components/schemas");
}

#[test]
fn lint_reports_bad_reference_expressions() {
    let ship = Schema {
        properties: Some(smap(vec![("cargo", referenced("nope"))])),
        ..typed("object")
    };
    let b = doc_with_schemas(vec![("Ship", inline(ship))]);
    let mut x = Context::default();
    b.lint(Path::default(), &mut x);
    // Properties hold references without their own lint; top-level
    // references are linted. Use a referenced top-level entry instead.
    assert!(x.check().is_ok());

    let b2 = doc_with_schemas(vec![("Alias", referenced("bad/"))]);
    let mut x2 = Context::default();
    b2.lint(Path::default(), &mut x2);
    let msgs: Vec<&str> = x2.logs.iter().map(|l| l.message.as_str()).collect();
    assert_eq!(
        msgs,
        vec![
            "JSON Schema reference expression must starts with `#/`",
            "JSON Schema reference expression must starts with `#/`",
            "KCG supports only `#/components/schemas` prefixed reference",
        ]
    );
    assert!(x2.check().is_err());
}

#[test]
fn lint_reports_int64_property_as_unsupported() {
    let ship = Schema {
        properties: Some(smap(vec![(
            "weight",
            inline(Schema {
                format: Some("int64".to_string()),
                ..typed("integer")
            }),
        )])),
        ..typed("object")
    };
    let b = doc_with_schemas(vec![("Ship", inline(ship))]);
    let mut x = Context::default();
    b.lint(Path::default(), &mut x);
    assert_eq!(x.logs.len(), 1);
    assert_eq!(
        x.logs[0].message,
        "`int64` property is not supported due to silent precision loss in JavaScript"
    );
    assert_eq!(x.logs[0].path.to_string(), "components/Ship/weight");
}

#[test]
fn lint_requires_discriminator_on_sum_type() {
    let pet = Schema {
        one_of: Some(vec![referenced("#/components/schemas/Cat")]),
        ..typed("object")
    };
    let b = doc_with_schemas(vec![("Pet", inline(pet))]);
    let mut x = Context::default();
    b.lint(Path::default(), &mut x);
    assert_eq!(x.logs.len(), 1);
    assert_eq!(x.logs[0].message, "must be non-`nil` to make sum-type");
    assert_eq!(x.logs[0].path.to_string(), "components/Pet/discriminator");
}

#[test]
fn optionality_follows_required_list() {
    let ship = Schema {
        required: Some(vec!["b".to_string()]),
        properties: Some(smap(vec![
            ("a", inline(typed("boolean"))),
            ("b", inline(typed("boolean"))),
        ])),
        ..typed("object")
    };
    let b = doc_with_schemas(vec![("Ship", inline(ship))]);
    let c = b.scan(Path::default()).unwrap();
    match &c.types[0] {
        KType::Prod(x) => {
            assert!(x.fields[0].content.optional);
            assert!(!x.fields[1].content.optional);
        }
        _ => panic!("expected a prod-type"),
    }

    let ship2 = Schema {
        properties: Some(smap(vec![
            ("a", inline(typed("boolean"))),
            ("b", inline(typed("boolean"))),
        ])),
        ..typed("object")
    };
    let b2 = doc_with_schemas(vec![("Ship", inline(ship2))]);
    let c2 = b2.scan(Path::default()).unwrap();
    match &c2.types[0] {
        KType::Prod(x) => {
            assert!(x.fields[0].content.optional);
            assert!(x.fields[1].content.optional);
        }
        _ => panic!("expected a prod-type"),
    }
}

#[test]
fn scan_rejects_enum_of_non_string_form() {
    let count = Schema {
        enum_: Some(vec![JsonValue::Str("one".to_string())]),
        ..typed("boolean")
    };
    let b = doc_with_schemas(vec![("Count", inline(count))]);
    let e = b.scan(Path::default()).unwrap_err();
    assert_eq!(
        e,
        "openapi3::scan(components/schemas/Count): enum-type must be JSON String form (we do not support non-string new-types)"
    );
}

#[test]
fn scan_rejects_non_object_inline_union_member() {
    let pet = Schema {
        one_of: Some(vec![inline(typed("string"))]),
        ..typed("object")
    };
    let b = doc_with_schemas(vec![("Pet", inline(pet))]);
    let e = b.scan(Path::default()).unwrap_err();
    assert_eq!(
        e,
        "openapi3::scan(components/schemas/Pet): sum-type variant must be a JSON Object type in OpenAPI schema"
    );
}

#[test]
fn scan_rejects_inline_property_of_name_based_union_member() {
    let member = Schema {
        required: Some(vec!["cat".to_string()]),
        properties: Some(smap(vec![("cat", inline(typed("string")))])),
        ..typed("object")
    };
    let pet = Schema {
        one_of: Some(vec![inline(member)]),
        ..typed("object")
    };
    let b = doc_with_schemas(vec![("Pet", inline(pet))]);
    let e = b.scan(Path::default()).unwrap_err();
    assert_eq!(
        e,
        "openapi3::scan(components/schemas/Pet): name-based sum-type variant's inline property must be a reference to an explicitly named type"
    );
}

#[test]
fn scan_rejects_union_member_with_extra_properties() {
    let member = Schema {
        required: Some(vec![]),
        properties: Some(smap(vec![
            ("cat", referenced("#/components/schemas/Cat")),
            ("dog", referenced("#/components/schemas/Dog")),
        ])),
        ..typed("object")
    };
    let pet = Schema {
        one_of: Some(vec![inline(member)]),
        ..typed("object")
    };
    let b = doc_with_schemas(vec![("Pet", inline(pet))]);
    let e = b.scan(Path::default()).unwrap_err();
    assert_eq!(
        e,
        "openapi3::scan(components/schemas/Pet): name-based sum-type variant node must have 1 property"
    );
}

#[test]
fn is_prim_type_follows_declared_type() {
    assert!(typed("boolean").is_prim_type());
    assert!(typed("integer").is_prim_type());
    assert!(typed("number").is_prim_type());
    assert!(typed("string").is_prim_type());
    assert!(!typed("object").is_prim_type());
    assert!(!typed("array").is_prim_type());
    assert!(!schema().is_prim_type());
}

#[test]
fn full_pipeline_emits_document() {
    let fish = Schema {
        enum_: Some(vec![JsonValue::Str("Whale".to_string())]),
        ..typed("string")
    };
    let b = doc_with_schemas(vec![
        ("Order", inline(typed("string"))),
        ("Fish", inline(fish)),
    ]);
    let mut x = Context::default();
    b.lint(Path::default(), &mut x);
    x.check().unwrap();
    let k = b.scan(Path::default()).unwrap();
    let code = k.code();
    let expected = "use serde_derive::{Serialize, Deserialize};\n\npub type Order = String;\n\n#[derive(Serialize,Deserialize)]\n#[derive(Eq,PartialEq)]\n#[derive(Debug)]\npub enum Fish {\n    Whale,\n}\nimpl std::str::FromStr for Fish {\n    type Err = String;\n    fn from_str(s: &str) -> Result<Self, Self::Err> {\n        use Fish::*;\n        match s {\n            \"Whale\" => Ok(Whale),\n            _ => Err(\"unknown case name\".to_string()),\n        }\n    }\n}\nimpl std::string::ToString for Fish {\n    fn to_string(&self) -> String {\n        use Fish::*;\n        match self {\n            Whale => \"Whale\".to_string(),\n        }\n    }\n}\n";
    assert_eq!(code, expected);
}

#[test]
fn scan_rejects_int64_property() {
    let ship = Schema {
        properties: Some(smap(vec![(
            "weight",
            inline(Schema {
                format: Some("int64".to_string()),
                ..typed("integer")
            }),
        )])),
        ..typed("object")
    };
    let b = doc_with_schemas(vec![("Ship", inline(ship))]);
    let e = b.scan(Path::default()).unwrap_err();
    assert_eq!(
        e,
        "openapi3::scan(components/schemas/Ship/properties/weight): unknown/unsupported type/format combination for KCG primitive type"
    );
}

#[test]
fn scan_rejects_duplicate_enum_cases() {
    let fish = Schema {
        enum_: Some(vec![
            JsonValue::Str("Whale".to_string()),
            JsonValue::Str("Shrimp".to_string()),
            JsonValue::Str("Whale".to_string()),
        ]),
        ..typed("string")
    };
    let b = doc_with_schemas(vec![("Fish", inline(fish))]);
    let e = b.scan(Path::default()).unwrap_err();
    assert_eq!(
        e,
        "openapi3::scan(components/schemas/Fish): enum-type case names must be distinct"
    );
}

#[test]
fn array_of_referenced_items_resolves_to_bare_name() {
    let ship = Schema {
        properties: Some(smap(vec![(
            "pets",
            inline(Schema {
                items: Some(Box::new(referenced("#/components/schemas/Pet"))),
                ..typed("array")
            }),
        )])),
        ..typed("object")
    };
    let b = doc_with_schemas(vec![("Ship", inline(ship))]);
    let c = b.scan(Path::default()).unwrap();
    match &c.types[0] {
        KType::Prod(x) => {
            assert!(x.fields[0].content.array);
            assert_eq!(x.fields[0].content.storage, KTypeRef::Def("Pet".to_string()));
        }
        _ => panic!("expected a prod-type"),
    }
}

#[test]
fn lint_rejects_inline_object_property() {
    let ship = Schema {
        properties: Some(smap(vec![("nested", inline(typed("object")))])),
        ..typed("object")
    };
    let b = doc_with_schemas(vec![("Ship", inline(ship))]);
    let mut x = Context::default();
    b.lint(Path::default(), &mut x);
    assert_eq!(x.logs.len(), 1);
    assert_eq!(
        x.logs[0].message,
        "`type` must be set to one of `boolean`, `integer`, `number`, `array` (inline `object` definition is not supported)"
    );
    assert_eq!(x.logs[0].path.to_string(), "components/Ship/nested");
    assert!(x.check().is_err());
}

#[test]
fn lint_rejects_non_string_enum_declaration() {
    let count = Schema {
        enum_: Some(vec![JsonValue::Str("one".to_string())]),
        ..typed("integer")
    };
    let b = doc_with_schemas(vec![("Count", inline(count))]);
    let mut x = Context::default();
    b.lint(Path::default(), &mut x);
    assert_eq!(x.logs.len(), 1);
    assert_eq!(
        x.logs[0].message,
        "enum-type must declare `string` type (non-string enumerations are not supported)"
    );
    assert_eq!(x.logs[0].path.to_string(), "components/Count/type");
}

#[test]
fn lint_reports_discriminator_mapping_as_unsupported() {
    let mut mapping = kcg::openapi3::StringMap::new();
    mapping.insert("cat".to_string(), "#/components/schemas/Cat".to_string());
    let pet = Schema {
        one_of: Some(vec![referenced("#/components/schemas/Cat")]),
        discriminator: Some(Discriminator {
            property_name: "type".to_string(),
            mapping: Some(mapping),
        }),
        ..typed("object")
    };
    let b = doc_with_schemas(vec![("Pet", inline(pet))]);
    let mut x = Context::default();
    b.lint(Path::default(), &mut x);
    assert_eq!(x.logs.len(), 1);
    assert_eq!(
        x.logs[0].message,
        "property for unsupported feature has non-`nil` value"
    );
    assert_eq!(
        x.logs[0].path.to_string(),
        "components/Pet/discriminator/mapping"
    );
}

#[test]
fn comment_with_only_title_has_no_separator() {
    let order = Schema {
        title: Some("T".to_string()),
        ..typed("string")
    };
    let b = doc_with_schemas(vec![("Order", inline(order))]);
    let c = b.scan(Path::default()).unwrap();
    match &c.types[0] {
        KType::New(x) => assert_eq!(x.comment, "T"),
        _ => panic!("expected a new-type"),
    }
    let order2 = Schema {
        title: Some("T".to_string()),
        description: Some("D".to_string()),
        ..typed("string")
    };
    let b2 = doc_with_schemas(vec![("Order", inline(order2))]);
    let c2 = b2.scan(Path::default()).unwrap();
    match &c2.types[0] {
        KType::New(x) => assert_eq!(x.comment, "T\n\nD"),
        _ => panic!("expected a new-type"),
    }
}

#[test]
fn referenced_or_inline_discrimination() {
    assert!(referenced("#/components/schemas/Cat").is_referenced());
    assert!(!referenced("#/components/schemas/Cat").is_inline());
    assert!(inline(schema()).is_inline());
    assert!(!inline(schema()).is_referenced());
    match *Box::new(AdditionalProperties::default()) {
        AdditionalProperties::Bool(b) => assert!(!b),
        _ => panic!("default must be the boolean form"),
    }
}
