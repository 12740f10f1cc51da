//! The source document model: a strict subset of an OpenAPI 3.0
//! document, already deserialized by the caller into plain values.
//! Unsupported features are carried so validation can reject them.
//! Also holds the one shape-classification rule that validation and
//! resolution share.

use vstd::prelude::*;
use crate::strutil::opt_text;
use crate::strutil::str_eq;

verus! {

/// An ordered association list keyed by strings: entries keep
/// insertion order, and inserting an existing key replaces its value
/// in place.
#[derive(PartialEq, Eq, Debug)]
pub struct StringMap<T> {
    pub entries: Vec<(String, T)>,
}

/// The keys of an entry sequence, in order.
pub open spec fn entry_keys<T>(es: Seq<(String, T)>) -> Seq<Seq<char>> {
    es.map_values(|e: (String, T)| e.0@)
}

/// Whether some entry holds the key.
pub open spec fn has_key<T>(es: Seq<(String, T)>, k: Seq<char>) -> bool {
    exists|i: int| 0 <= i < es.len() && es[i].0@ == k
}

/// Keys are pairwise distinct.
pub open spec fn distinct_keys<T>(es: Seq<(String, T)>) -> bool {
    forall|i: int, j: int| 0 <= i < j < es.len() ==> es[i].0@ != es[j].0@
}

impl<T> StringMap<T> {
    /// An empty map.
    pub fn new() -> (r: StringMap<T>)
        ensures
            r.entries@ == Seq::<(String, T)>::empty(),
    {
        let r = StringMap { entries: Vec::new() };
        proof {
            assert(r.entries@ =~= Seq::<(String, T)>::empty());
        }
        r
    }

    /// The number of entries.
    pub fn len(&self) -> (r: usize)
        ensures
            r == self.entries@.len(),
    {
        self.entries.len()
    }

    /// The key of the entry at `i`.
    pub fn key_at(&self, i: usize) -> (r: &String)
        requires
            i < self.entries@.len(),
        ensures
            r == self.entries@[i as int].0,
    {
        &self.entries[i].0
    }

    /// The value of the entry at `i`.
    pub fn value_at(&self, i: usize) -> (r: &T)
        requires
            i < self.entries@.len(),
        ensures
            r == self.entries@[i as int].1,
    {
        &self.entries[i].1
    }

    /// Whether some entry holds the key.
    pub fn contains_key(&self, k: &str) -> (r: bool)
        ensures
            r == has_key(self.entries@, k@),
    {
        let n = self.entries.len();
        let mut i: usize = 0;
        while i < n
            invariant
                0 <= i <= n,
                n == self.entries@.len(),
                forall|j: int| 0 <= j < i ==> self.entries@[j].0@ != k@,
            decreases n - i,
        {
            if str_eq(self.entries[i].0.as_str(), k) {
                return true;
            }
            i = i + 1;
        }
        false
    }

    /// Inserts at the back, or replaces the value of the first entry
    /// already holding the key, keeping that entry's position.
    pub fn insert(&mut self, key: String, value: T)
        ensures
            ({
                let o = old(self).entries@;
                let n = final(self).entries@;
                if has_key(o, key@) {
                    exists|i: int|
                        0 <= i < o.len() && o[i].0@ == key@ && (forall|j: int|
                            0 <= j < i ==> o[j].0@ != key@) && n == o.update(
                            i,
                            (o[i].0, value),
                        )
                } else {
                    n == o.push((key, value))
                }
            }),
    {
        let n = self.entries.len();
        let mut i: usize = 0;
        while i < n
            invariant
                0 <= i <= n,
                n == self.entries@.len(),
                self == old(self),
                forall|j: int| 0 <= j < i ==> self.entries@[j].0@ != key@,
            decreases n - i,
        {
            if str_eq(self.entries[i].0.as_str(), key.as_str()) {
                let ghost o = self.entries@;
                let ghost w = i as int;
                let pair = self.entries.remove(i);
                self.entries.insert(i, (pair.0, value));
                proof {
                    assert(self.entries@ =~= o.update(w, (o[w].0, value)));
                }
                return ;
            }
            i = i + 1;
        }
        self.entries.push((key, value));
    }
}

/// Inserting preserves distinctness of keys, and never disturbs the
/// order of the entries already present.
pub proof fn lemma_insert_keeps_distinct_keys<T>(
    before: Seq<(String, T)>,
    after: Seq<(String, T)>,
    key: Seq<char>,
    i: int,
)
    requires
        distinct_keys(before),
        if has_key(before, key) {
            0 <= i < before.len() && before[i].0@ == key && exists|v: T|
                after == before.update(i, (before[i].0, v))
        } else {
            exists|kv: (String, T)| kv.0@ == key && after == before.push(kv)
        },
    ensures
        distinct_keys(after),
        entry_keys(after) == if has_key(before, key) {
            entry_keys(before)
        } else {
            entry_keys(before).push(key)
        },
{
    if has_key(before, key) {
        assert(entry_keys(after) =~= entry_keys(before));
    } else {
        assert(entry_keys(after) =~= entry_keys(before).push(key));
        assert forall|a: int, b: int| 0 <= a < b < after.len() implies after[a].0@
            != after[b].0@ by {
            if b == after.len() - 1 {
                assert(!(exists|x: int| 0 <= x < before.len() && before[x].0@ == key));
                assert(before[a].0@ != key);
            }
        }
    }
}

/// A document value as far as the core reads one: a string with its
/// content, or anything else.
#[derive(PartialEq, Eq, Debug)]
pub enum JsonValue {
    Str(String),
    Other,
}

/// The document root.
#[derive(PartialEq, Eq, Debug)]
pub struct Doc {
    pub openapi: String,
    pub info: Info,
    pub servers: Option<Vec<Server>>,
    pub paths: Paths,
    pub components: Option<Components>,
    pub security: Option<Vec<SecurityRequirement>>,
    pub tags: Option<Vec<Tag>>,
    pub external_docs: Option<ExternalDocumentation>,
}

#[derive(PartialEq, Eq, Debug)]
pub struct Info {
    pub title: String,
    pub description: Option<String>,
    pub terms_of_service: Option<String>,
    pub contact: Option<Contact>,
    pub license: Option<License>,
    pub version: Option<String>,
}

#[derive(PartialEq, Eq, Debug)]
pub struct Contact {
    pub name: Option<String>,
    pub url: Option<String>,
    pub email: Option<String>,
}

#[derive(PartialEq, Eq, Debug)]
pub struct License {
    pub name: String,
    pub url: Option<String>,
}

#[derive(PartialEq, Eq, Debug)]
pub struct Server {
    pub url: String,
    pub description: Option<String>,
    pub variables: StringMap<ServerVariable>,
}

#[derive(PartialEq, Eq, Debug)]
pub struct ServerVariable {
    pub enum_: Option<Vec<String>>,
    pub default: String,
    pub description: Option<String>,
}

/// Path items are outside the supported subset; the section is carried
/// only so a whole document can be represented.
#[derive(PartialEq, Eq, Debug)]
pub struct Paths {}

#[derive(PartialEq, Eq, Debug)]
pub struct Components {
    pub schemas: Option<StringMap<ReferencedOrInlineSchema>>,
}

#[derive(PartialEq, Eq, Debug)]
pub struct SecurityRequirement {}

#[derive(PartialEq, Eq, Debug)]
pub struct Tag {}

#[derive(PartialEq, Eq, Debug)]
pub struct ExternalDocumentation {}

/// One schema node. Follows the source format strictly; any property
/// of an unsupported feature is carried and rejected by validation.
#[derive(PartialEq, Eq, Debug)]
pub struct Schema {
    pub title: Option<String>,
    pub summary: Option<String>,
    pub required: Option<Vec<String>>,
    pub enum_: Option<Vec<JsonValue>>,
    pub type_: Option<String>,
    pub all_of: Option<Vec<ReferencedOrInlineSchema>>,
    pub one_of: Option<Vec<ReferencedOrInlineSchema>>,
    pub any_of: Option<Vec<ReferencedOrInlineSchema>>,
    pub not: Option<Box<ReferencedOrInlineSchema>>,
    pub items: Option<Box<ReferencedOrInlineSchema>>,
    pub properties: Option<StringMap<ReferencedOrInlineSchema>>,
    pub additional_properties: Box<AdditionalProperties>,
    pub description: Option<String>,
    pub format: Option<String>,
    pub default: Option<JsonValue>,
    pub discriminator: Option<Discriminator>,
    pub example: Option<JsonValue>,
    pub deprecated: bool,
}

/// Informs the consumer which variant of a union a serialized value
/// represents; legal only beside a union clause.
#[derive(PartialEq, Eq, Debug)]
pub struct Discriminator {
    pub property_name: String,
    pub mapping: Option<StringMap<String>>,
}

/// A node that is either a reference to a named schema or an inline
/// schema.
#[derive(PartialEq, Eq, Debug)]
pub enum ReferencedOrInlineSchema {
    Referenced(Reference),
    Inline(Schema),
}

impl ReferencedOrInlineSchema {
    /// Whether this node is a reference.
    pub fn is_referenced(&self) -> (r: bool)
        ensures
            r == (self is Referenced),
    {
        match self {
            ReferencedOrInlineSchema::Referenced(_) => true,
            _ => false,
        }
    }

    /// Whether this node is an inline schema.
    pub fn is_inline(&self) -> (r: bool)
        ensures
            r == (self is Inline),
    {
        match self {
            ReferencedOrInlineSchema::Inline(_) => true,
            _ => false,
        }
    }
}

/// A reference expression; only local paths are supported.
#[derive(PartialEq, Eq, Debug)]
pub struct Reference {
    pub ref_: String,
}

#[derive(PartialEq, Eq, Debug)]
pub enum AdditionalProperties {
    Bool(bool),
    Referenced(Reference),
    Inline(Schema),
}

impl Default for AdditionalProperties {
    fn default() -> (r: AdditionalProperties)
        ensures
            r == AdditionalProperties::Bool(false),
    {
        AdditionalProperties::Bool(false)
    }
}

/// The declared type string of a schema; empty when absent.
pub open spec fn type_text(s: Schema) -> Seq<char> {
    opt_text(s.type_)
}

/// The declared format string of a schema; empty when absent.
pub open spec fn format_text(s: Schema) -> Seq<char> {
    opt_text(s.format)
}

impl Schema {
    /// The declared type names one of the four JSON primitive types.
    pub open spec fn is_prim_type_spec(&self) -> bool {
        match self.type_ {
            Option::Some(ref x) => x@ == "boolean"@ || x@ == "integer"@ || x@ == "number"@ || x@
                == "string"@,
            Option::None => false,
        }
    }

    /// Whether the declared type names one of the four JSON primitive
    /// types.
    pub fn is_prim_type(&self) -> (r: bool)
        ensures
            r == self.is_prim_type_spec(),
    {
        match &self.type_ {
            Option::Some(x) => {
                str_eq(x.as_str(), "boolean") || str_eq(x.as_str(), "integer") || str_eq(
                    x.as_str(),
                    "number",
                ) || str_eq(x.as_str(), "string")
            },
            Option::None => false,
        }
    }
}

/// Which of the four canonical shapes a schema node denotes, or that
/// it denotes none of them.
#[derive(Clone, Copy, PartialEq, Eq, Structural, Debug)]
pub enum SchemaShape {
    NewType,
    EnumType,
    SumType,
    ProdType,
    Unsupported,
}

/// The node declares a primitive type, no union clause, no enumerated
/// values: a rename of a primitive.
pub open spec fn matches_new_type(s: Schema) -> bool {
    s.is_prim_type_spec() && s.one_of is None && s.enum_ is None
}

/// The node declares a primitive type, no union clause, and enumerated
/// values: a closed enumeration.
pub open spec fn matches_enum_type(s: Schema) -> bool {
    s.is_prim_type_spec() && s.one_of is None && s.enum_ is Some
}

/// The node declares an object type with a union clause and no
/// enumerated values: a tagged union.
pub open spec fn matches_sum_type(s: Schema) -> bool {
    type_text(s) == "object"@ && !s.is_prim_type_spec() && s.one_of is Some && s.enum_ is None
}

/// The node declares an object type with neither union clause nor
/// enumerated values: a record.
pub open spec fn matches_prod_type(s: Schema) -> bool {
    type_text(s) == "object"@ && !s.is_prim_type_spec() && s.one_of is None && s.enum_ is None
}

impl Schema {
    /// The one shape decision validation and resolution share.
    pub open spec fn shape(&self) -> SchemaShape {
        if matches_new_type(*self) {
            SchemaShape::NewType
        } else if matches_enum_type(*self) {
            SchemaShape::EnumType
        } else if matches_sum_type(*self) {
            SchemaShape::SumType
        } else if matches_prod_type(*self) {
            SchemaShape::ProdType
        } else {
            SchemaShape::Unsupported
        }
    }

    /// Decides which canonical shape this node denotes.
    pub fn classify(&self) -> (r: SchemaShape)
        ensures
            r == self.shape(),
    {
        proof {
            reveal_strlit("object");
            assert("object"@.len() == 6);
        }
        let prim = self.is_prim_type();
        let object = match &self.type_ {
            Option::Some(x) => str_eq(x.as_str(), "object"),
            Option::None => false,
        };
        let one = match &self.one_of {
            Option::Some(_) => true,
            Option::None => false,
        };
        let en = match &self.enum_ {
            Option::Some(_) => true,
            Option::None => false,
        };
        if prim && !one && !en {
            SchemaShape::NewType
        } else if prim && !one && en {
            SchemaShape::EnumType
        } else if object && !prim && one && !en {
            SchemaShape::SumType
        } else if object && !prim && !one && !en {
            SchemaShape::ProdType
        } else {
            SchemaShape::Unsupported
        }
    }
}

/// Shape exhaustiveness: for every schema node, the four shape
/// predicates are pairwise exclusive, and classification returns the
/// shape whose predicate holds — or reports the node unsupported
/// exactly when none holds. Never zero shapes and never more than one.
pub proof fn lemma_shape_exhaustive(s: Schema)
    ensures
        matches_new_type(s) ==> !matches_enum_type(s) && !matches_sum_type(s)
            && !matches_prod_type(s),
        matches_enum_type(s) ==> !matches_new_type(s) && !matches_sum_type(s)
            && !matches_prod_type(s),
        matches_sum_type(s) ==> !matches_new_type(s) && !matches_enum_type(s)
            && !matches_prod_type(s),
        matches_prod_type(s) ==> !matches_new_type(s) && !matches_enum_type(s)
            && !matches_sum_type(s),
        s.shape() is NewType <==> matches_new_type(s),
        s.shape() is EnumType <==> matches_enum_type(s),
        s.shape() is SumType <==> matches_sum_type(s),
        s.shape() is ProdType <==> matches_prod_type(s),
        s.shape() is Unsupported <==> !matches_new_type(s) && !matches_enum_type(s)
            && !matches_sum_type(s) && !matches_prod_type(s),
{
}

} // verus!
