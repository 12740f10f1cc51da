use kcg::codegen::CodeGen;
use kcg::message::KContentStorage;
use kcg::message::KEnumType;
use kcg::message::KEnumTypeCase;
use kcg::message::KNewType;
use kcg::message::KPrimType;
use kcg::message::KProdType;
use kcg::message::KProdTypeField;
use kcg::message::KSumType;
use kcg::message::KSumTypeVariant;
use kcg::message::KType;
use kcg::message::KTypeRef;
use kcg::model::Doc1;

#[test]
fn enum_type_code() {
    let a = KType::Enum(KEnumType {
        name: "Fish".to_string(),
        cases: vec![
            KEnumTypeCase {
                name: "Whale".to_string(),
                comment: "".to_string(),
            },
            KEnumTypeCase {
                name: "Shrimp".to_string(),
                comment: "".to_string(),
            },
        ],
        comment: "".to_string(),
    });
    let b = a.code();
    let expected = "#[derive(Serialize,Deserialize)]\n#[derive(Eq,PartialEq)]\n#[derive(Debug)]\npub enum Fish {\n    Whale,\n    Shrimp,\n}\nimpl std::str::FromStr for Fish {\n    type Err = String;\n    fn from_str(s: &str) -> Result<Self, Self::Err> {\n        use Fish::*;\n        match s {\n            \"Whale\" => Ok(Whale),\n            \"Shrimp\" => Ok(Shrimp),\n            _ => Err(\"unknown case name\".to_string()),\n        }\n    }\n}\nimpl std::string::ToString for Fish {\n    fn to_string(&self) -> String {\n        use Fish::*;\n        match self {\n            Whale => \"Whale\".to_string(),\n            Shrimp => \"Shrimp\".to_string(),\n        }\n    }\n}";
    assert_eq!(b.trim(), expected.trim());
}

#[test]
fn sum_type_code() {
    let a = KType::Sum(KSumType {
        name: "Pet".to_string(),
        discriminant: "type".to_string(),
        variants: vec![
            KSumTypeVariant {
                name: "Cat".to_string(),
                content: KContentStorage {
                    optional: false,
                    array: false,
                    storage: KTypeRef::Def("Cat".to_string()),
                },
                comment: "".to_string(),
            },
            KSumTypeVariant {
                name: "Dog".to_string(),
                content: KContentStorage {
                    optional: false,
                    array: false,
                    storage: KTypeRef::Def("Dog".to_string()),
                },
                comment: "".to_string(),
            },
        ],
        comment: "".to_string(),
    });
    let b = a.code();
    let expected = "#[derive(Serialize,Deserialize)]\n#[derive(Eq,PartialEq)]\n#[derive(Debug)]\n#[serde(tag=\"type\")]\npub enum Pet {\n    Cat(Cat),\n    Dog(Dog),\n}";
    assert_eq!(b.trim(), expected.trim());
}

#[test]
fn prod_type_code() {
    let a = KType::Prod(KProdType {
        name: "Ship".to_string(),
        fields: vec![
            KProdTypeField {
                name: "fuel".to_string(),
                content: KContentStorage {
                    optional: true,
                    array: false,
                    storage: KTypeRef::Prim(KPrimType::Bool),
                },
                comment: "".to_string(),
            },
            KProdTypeField {
                name: "cargo".to_string(),
                content: KContentStorage {
                    optional: false,
                    array: false,
                    storage: KTypeRef::Def("Cargo".to_string()),
                },
                comment: "".to_string(),
            },
            KProdTypeField {
                name: "crews".to_string(),
                content: KContentStorage {
                    optional: false,
                    array: true,
                    storage: KTypeRef::Prim(KPrimType::String),
                },
                comment: "".to_string(),
            },
        ],
        comment: "".to_string(),
    });
    let b = a.code();
    let expected = "#[derive(Serialize,Deserialize)]\n#[derive(Eq,PartialEq)]\n#[derive(Debug)]\npub struct Ship {\n    pub fuel: Option<bool>,\n    pub cargo: Cargo,\n    pub crews: Vec<String>,\n}";
    assert_eq!(b.trim(), expected.trim());
}

#[test]
fn sum_type_code_without_discriminant_has_no_tag() {
    let a = KSumType {
        name: "Pet".to_string(),
        discriminant: "".to_string(),
        variants: vec![],
        comment: "".to_string(),
    };
    let b = a.code();
    assert!(!b.contains("serde(tag"));
}

#[test]
fn content_storage_compositions() {
    let base = || KTypeRef::Prim(KPrimType::I32);
    let bare = KContentStorage { optional: false, array: false, storage: base() };
    let arr = KContentStorage { optional: false, array: true, storage: base() };
    let opt = KContentStorage { optional: true, array: false, storage: base() };
    let opt_arr = KContentStorage { optional: true, array: true, storage: base() };
    assert_eq!(bare.code(), "i32");
    assert_eq!(arr.code(), "Vec<i32>");
    assert_eq!(opt.code(), "Option<i32>");
    assert_eq!(opt_arr.code(), "Option<Vec<i32>>");
}

#[test]
fn prim_type_codes() {
    assert_eq!(KPrimType::Bool.code(), "bool");
    assert_eq!(KPrimType::I32.code(), "i32");
    assert_eq!(KPrimType::I64.code(), "i64");
    assert_eq!(KPrimType::F32.code(), "f32");
    assert_eq!(KPrimType::F64.code(), "f64");
    assert_eq!(KPrimType::String.code(), "String");
}

#[test]
fn type_ref_codes() {
    assert_eq!(KTypeRef::Unit.code(), "()");
    assert_eq!(KTypeRef::Prim(KPrimType::Bool).code(), "bool");
    assert_eq!(KTypeRef::Def("Cargo".to_string()).code(), "Cargo");
    assert_eq!(KTypeRef::default(), KTypeRef::Unit);
}

#[test]
fn new_type_code_with_comment() {
    let a = KType::New(KNewType {
        name: "Order".to_string(),
        origin: KTypeRef::Prim(KPrimType::String),
        comment: "An order.\nSecond line.".to_string(),
    });
    let b = a.code();
    assert_eq!(b, "/// An order.\n/// Second line.\npub type Order = String;\n");
    let c = KProdTypeField {
        name: "order".to_string(),
        content: KContentStorage {
            optional: false,
            array: false,
            storage: KTypeRef::Def("Order".to_string()),
        },
        comment: "An order.\nSecond line.".to_string(),
    };
    assert_eq!(c.code(), "/// An order.\n/// Second line.\npub order: Order,\n");
}

#[test]
fn doc1_code_prepends_serde_imports() {
    let d = Doc1 {
        funcs: vec![],
        types: vec![KType::New(KNewType {
            name: "Order".to_string(),
            origin: KTypeRef::Prim(KPrimType::String),
            comment: "".to_string(),
        })],
    };
    assert_eq!(
        d.code(),
        "use serde_derive::{Serialize, Deserialize};\n\npub type Order = String;\n"
    );
}

#[test]
fn from_str_and_to_str_arm_codes() {
    let c = KEnumTypeCase { name: "Whale".to_string(), comment: "".to_string() };
    assert_eq!(kcg::codegen::from_str_code(&c), "\"Whale\" => Ok(Whale),");
    assert_eq!(kcg::codegen::to_str_code(&c), "Whale => \"Whale\".to_string(),");
}

#[test]
fn ktype_name_reports_shape_name() {
    let a = KType::New(KNewType {
        name: "Order".to_string(),
        origin: KTypeRef::Prim(KPrimType::String),
        comment: "".to_string(),
    });
    assert_eq!(a.name(), "Order");
    let b = KType::Prod(KProdType {
        name: "Ship".to_string(),
        fields: vec![],
        comment: "".to_string(),
    });
    assert_eq!(b.name(), "Ship");
}
