//! The intermediate type model: every named schema resolves to one of
//! four canonical shapes, each carrying a name and an optional comment.
//! All types are `K` prefixed, for "schema".

use vstd::prelude::*;

verus! {

/// One resolved type: a closed union over the four canonical shapes.
#[derive(PartialEq, Eq, Debug)]
pub enum KType {
    New(KNewType),
    Enum(KEnumType),
    Sum(KSumType),
    Prod(KProdType),
}

/// The spec-level value of a resolved type.
pub ghost enum KTypeV {
    New(KNewTypeV),
    Enum(KEnumTypeV),
    Sum(KSumTypeV),
    Prod(KProdTypeV),
}

impl KTypeV {
    /// The name the shape carries.
    pub open spec fn name(self) -> Seq<char> {
        match self {
            KTypeV::New(x) => x.name,
            KTypeV::Enum(x) => x.name,
            KTypeV::Sum(x) => x.name,
            KTypeV::Prod(x) => x.name,
        }
    }
}

impl KType {
    /// The name of the type, whatever its shape.
    pub fn name(&self) -> (r: &str)
        ensures
            r@ == self@.name(),
    {
        match self {
            KType::New(x) => x.name.as_str(),
            KType::Enum(x) => x.name.as_str(),
            KType::Sum(x) => x.name.as_str(),
            KType::Prod(x) => x.name.as_str(),
        }
    }
}

/// A transparent rename of one underlying reference.
#[derive(PartialEq, Eq, Debug)]
pub struct KNewType {
    pub name: String,
    pub origin: KTypeRef,
    pub comment: String,
}

pub ghost struct KNewTypeV {
    pub name: Seq<char>,
    pub origin: KTypeRefV,
    pub comment: Seq<char>,
}

/// Finite constant value set; code emission provides automatic
/// enum/string conversion.
#[derive(PartialEq, Eq, Debug)]
pub struct KEnumType {
    pub name: String,
    pub cases: Vec<KEnumTypeCase>,
    pub comment: String,
}

pub ghost struct KEnumTypeV {
    pub name: Seq<char>,
    pub cases: Seq<KEnumTypeCaseV>,
    pub comment: Seq<char>,
}

#[derive(PartialEq, Eq, Debug)]
pub struct KEnumTypeCase {
    pub name: String,
    pub comment: String,
}

pub ghost struct KEnumTypeCaseV {
    pub name: Seq<char>,
    pub comment: Seq<char>,
}

/// A discriminated union; each variant's payload is a reference to
/// another named type.
#[derive(PartialEq, Eq, Debug)]
pub struct KSumType {
    pub name: String,
    /// The field name the serialized form uses to tag which variant a
    /// value is; empty when the source schema named none.
    pub discriminant: String,
    pub variants: Vec<KSumTypeVariant>,
    pub comment: String,
}

pub ghost struct KSumTypeV {
    pub name: Seq<char>,
    pub discriminant: Seq<char>,
    pub variants: Seq<KSumTypeVariantV>,
    pub comment: Seq<char>,
}

#[derive(PartialEq, Eq, Debug)]
pub struct KSumTypeVariant {
    pub name: String,
    /// Type of the data stored in this sum-type variant.
    pub content: KContentStorage,
    pub comment: String,
}

pub ghost struct KSumTypeVariantV {
    pub name: Seq<char>,
    pub content: KContentStorageV,
    pub comment: Seq<char>,
}

/// A record with named fields.
#[derive(PartialEq, Eq, Debug)]
pub struct KProdType {
    pub name: String,
    pub fields: Vec<KProdTypeField>,
    pub comment: String,
}

pub ghost struct KProdTypeV {
    pub name: Seq<char>,
    pub fields: Seq<KProdTypeFieldV>,
    pub comment: Seq<char>,
}

#[derive(PartialEq, Eq, Debug)]
pub struct KProdTypeField {
    pub name: String,
    pub content: KContentStorage,
    pub comment: String,
}

pub ghost struct KProdTypeFieldV {
    pub name: Seq<char>,
    pub content: KContentStorageV,
    pub comment: Seq<char>,
}

/// A bounded composition standing in for full generics support: one
/// base reference, optionally wrapped in a sequence, optionally in an
/// optional slot.
#[derive(PartialEq, Eq, Debug)]
pub struct KContentStorage {
    pub optional: bool,
    pub array: bool,
    pub storage: KTypeRef,
}

pub ghost struct KContentStorageV {
    pub optional: bool,
    pub array: bool,
    pub storage: KTypeRefV,
}

/// A base type reference.
#[derive(PartialEq, Eq, Debug)]
pub enum KTypeRef {
    /// Unit type, implicitly defined.
    Unit,
    /// A pre-defined primitive type.
    Prim(KPrimType),
    /// Name of a defined type; must be a defined name in the schema
    /// document.
    Def(String),
}

pub ghost enum KTypeRefV {
    Unit,
    Prim(KPrimType),
    Def(Seq<char>),
}

impl Default for KTypeRef {
    fn default() -> (r: KTypeRef)
        ensures
            r == KTypeRef::Unit,
    {
        KTypeRef::Unit
    }
}

/// A simple value with no substructure.
#[derive(Clone, Copy, PartialEq, Eq, Structural, Debug)]
pub enum KPrimType {
    Bool,
    I32,
    I64,
    F32,
    F64,
    String,
}

impl View for KTypeRef {
    type V = KTypeRefV;

    open spec fn view(&self) -> KTypeRefV {
        match *self {
            KTypeRef::Unit => KTypeRefV::Unit,
            KTypeRef::Prim(p) => KTypeRefV::Prim(p),
            KTypeRef::Def(ref s) => KTypeRefV::Def(s@),
        }
    }
}

impl View for KContentStorage {
    type V = KContentStorageV;

    open spec fn view(&self) -> KContentStorageV {
        KContentStorageV { optional: self.optional, array: self.array, storage: self.storage@ }
    }
}

impl View for KNewType {
    type V = KNewTypeV;

    open spec fn view(&self) -> KNewTypeV {
        KNewTypeV { name: self.name@, origin: self.origin@, comment: self.comment@ }
    }
}

impl View for KEnumTypeCase {
    type V = KEnumTypeCaseV;

    open spec fn view(&self) -> KEnumTypeCaseV {
        KEnumTypeCaseV { name: self.name@, comment: self.comment@ }
    }
}

impl DeepView for KEnumTypeCase {
    type V = KEnumTypeCaseV;

    open spec fn deep_view(&self) -> KEnumTypeCaseV {
        self.view()
    }
}

impl View for KEnumType {
    type V = KEnumTypeV;

    open spec fn view(&self) -> KEnumTypeV {
        KEnumTypeV { name: self.name@, cases: self.cases.deep_view(), comment: self.comment@ }
    }
}

impl View for KSumTypeVariant {
    type V = KSumTypeVariantV;

    open spec fn view(&self) -> KSumTypeVariantV {
        KSumTypeVariantV { name: self.name@, content: self.content@, comment: self.comment@ }
    }
}

impl DeepView for KSumTypeVariant {
    type V = KSumTypeVariantV;

    open spec fn deep_view(&self) -> KSumTypeVariantV {
        self.view()
    }
}

impl View for KSumType {
    type V = KSumTypeV;

    open spec fn view(&self) -> KSumTypeV {
        KSumTypeV {
            name: self.name@,
            discriminant: self.discriminant@,
            variants: self.variants.deep_view(),
            comment: self.comment@,
        }
    }
}

impl View for KProdTypeField {
    type V = KProdTypeFieldV;

    open spec fn view(&self) -> KProdTypeFieldV {
        KProdTypeFieldV { name: self.name@, content: self.content@, comment: self.comment@ }
    }
}

impl DeepView for KProdTypeField {
    type V = KProdTypeFieldV;

    open spec fn deep_view(&self) -> KProdTypeFieldV {
        self.view()
    }
}

impl View for KProdType {
    type V = KProdTypeV;

    open spec fn view(&self) -> KProdTypeV {
        KProdTypeV { name: self.name@, fields: self.fields.deep_view(), comment: self.comment@ }
    }
}

impl View for KType {
    type V = KTypeV;

    open spec fn view(&self) -> KTypeV {
        match *self {
            KType::New(ref x) => KTypeV::New(x@),
            KType::Enum(ref x) => KTypeV::Enum(x@),
            KType::Sum(ref x) => KTypeV::Sum(x@),
            KType::Prod(ref x) => KTypeV::Prod(x@),
        }
    }
}

impl DeepView for KType {
    type V = KTypeV;

    open spec fn deep_view(&self) -> KTypeV {
        self.view()
    }
}

impl DeepView for KNewType {
    type V = KNewTypeV;

    open spec fn deep_view(&self) -> KNewTypeV {
        self.view()
    }
}

impl DeepView for KEnumType {
    type V = KEnumTypeV;

    open spec fn deep_view(&self) -> KEnumTypeV {
        self.view()
    }
}

impl DeepView for KSumType {
    type V = KSumTypeV;

    open spec fn deep_view(&self) -> KSumTypeV {
        self.view()
    }
}

impl DeepView for KProdType {
    type V = KProdTypeV;

    open spec fn deep_view(&self) -> KProdTypeV {
        self.view()
    }
}

impl DeepView for KContentStorage {
    type V = KContentStorageV;

    open spec fn deep_view(&self) -> KContentStorageV {
        self.view()
    }
}

impl DeepView for KTypeRef {
    type V = KTypeRefV;

    open spec fn deep_view(&self) -> KTypeRefV {
        self.view()
    }
}

impl DeepView for KPrimType {
    type V = KPrimType;

    open spec fn deep_view(&self) -> KPrimType {
        *self
    }
}

} // verus!
