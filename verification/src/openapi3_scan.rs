//! Resolution of a validated source document into the intermediate
//! model: re-derives the shared shape decision per named schema and
//! builds one model entry per schema, stopping at the first node that
//! cannot be resolved.

use vstd::prelude::*;
use vstd::string::StrSliceExecFns;
use vstd::string::StringExecFns;
use crate::lint::Path;
use crate::lint::path_text;
use crate::message::KContentStorage;
use crate::message::KContentStorageV;
use crate::message::KEnumType;
use crate::message::KEnumTypeCase;
use crate::message::KEnumTypeCaseV;
use crate::message::KEnumTypeV;
use crate::message::KNewType;
use crate::message::KNewTypeV;
use crate::message::KPrimType;
use crate::message::KProdType;
use crate::message::KProdTypeField;
use crate::message::KProdTypeFieldV;
use crate::message::KProdTypeV;
use crate::message::KSumType;
use crate::message::KSumTypeV;
use crate::message::KSumTypeVariant;
use crate::message::KSumTypeVariantV;
use crate::message::KType;
use crate::message::KTypeRef;
use crate::message::KTypeRefV;
use crate::message::KTypeV;
use crate::model::Doc1;
use crate::model::Doc1V;
use crate::openapi3::Components;
use crate::openapi3::Doc;
use crate::openapi3::JsonValue;
use crate::openapi3::Reference;
use crate::openapi3::ReferencedOrInlineSchema;
use crate::openapi3::Schema;
use crate::openapi3::SchemaShape;
use crate::openapi3::has_key;
use crate::openapi3::type_text;
use crate::openapi3::format_text;
use crate::strutil::opt_str;
use crate::strutil::opt_text;
use crate::strutil::str_eq;
use crate::strutil::suffix_after_last;
use crate::strutil::tail_after_last;

verus! {

/// The spec-level value of an executable resolution result.
pub open spec fn res_view<T: DeepView>(r: Result<T, String>) -> Result<T::V, Seq<char>> {
    match r {
        Result::Ok(t) => Result::Ok(t.deep_view()),
        Result::Err(e) => Result::Err(e@),
    }
}

/// The text of a resolution error raised at a path.
pub open spec fn scan_err_v(path: Seq<Seq<char>>, msg: Seq<char>) -> Seq<char> {
    "openapi3::scan("@ + path_text(path) + "): "@ + msg
}

/// A string sequence contains the given text.
pub open spec fn contains_str(xs: Seq<String>, n: Seq<char>) -> bool {
    exists|i: int| 0 <= i < xs.len() && xs[i]@ == n
}

/// The comment of a schema node: its non-empty segments among title,
/// summary and description, in that order, with one blank line between
/// each pair of kept segments and nothing after the last.
pub open spec fn composed_comment_v(s: Schema) -> Seq<char> {
    let a = opt_text(s.title);
    let b = opt_text(s.summary);
    let c = opt_text(s.description);
    (if a.len() > 0 {
        a
    } else {
        Seq::empty()
    }) + (if b.len() > 0 && a.len() > 0 {
        "\n\n"@ + b
    } else {
        b
    }) + (if c.len() > 0 && (a.len() > 0 || b.len() > 0) {
        "\n\n"@ + c
    } else {
        c
    })
}

/// Comment composition: with non-empty title, summary and
/// description, the composed comment is exactly the title, a blank
/// line, the summary, a blank line, and the description; with all
/// three segments absent or empty, the composed comment is empty; a
/// single non-empty segment stands alone, with no separator around it.
pub proof fn lemma_comment_composition(s: Schema)
    ensures
        opt_text(s.title).len() > 0 && opt_text(s.summary).len() > 0 && opt_text(
            s.description,
        ).len() > 0 ==> composed_comment_v(s) == opt_text(s.title) + "\n\n"@ + opt_text(s.summary)
            + "\n\n"@ + opt_text(s.description),
        opt_text(s.title).len() == 0 && opt_text(s.summary).len() == 0 && opt_text(
            s.description,
        ).len() == 0 ==> composed_comment_v(s).len() == 0,
        opt_text(s.title).len() > 0 && opt_text(s.summary).len() == 0 && opt_text(
            s.description,
        ).len() == 0 ==> composed_comment_v(s) == opt_text(s.title),
{
    let a = opt_text(s.title);
    let b = opt_text(s.summary);
    let c = opt_text(s.description);
    if a.len() > 0 && b.len() > 0 && c.len() > 0 {
        assert(composed_comment_v(s) =~= a + "\n\n"@ + b + "\n\n"@ + c);
    }
    if a.len() == 0 && b.len() == 0 && c.len() == 0 {
        assert(composed_comment_v(s) =~= Seq::<char>::empty());
    }
    if a.len() > 0 && b.len() == 0 && c.len() == 0 {
        assert(composed_comment_v(s) =~= a);
    }
}

/// The primitive a type/format pairing resolves to, using the same
/// closed mapping as validation; in particular the 64-bit integer
/// format is rejected here too.
pub open spec fn scan_prim_type_v(s: Schema, path: Seq<Seq<char>>) -> Result<KPrimType, Seq<char>> {
    let t = type_text(s);
    let f = format_text(s);
    if t == "boolean"@ && f.len() == 0 {
        Result::Ok(KPrimType::Bool)
    } else if t == "integer"@ && f == "int32"@ {
        Result::Ok(KPrimType::I32)
    } else if t == "number"@ && f == "float"@ {
        Result::Ok(KPrimType::F32)
    } else if t == "number"@ && f == "double"@ {
        Result::Ok(KPrimType::F64)
    } else if t == "string"@ && f.len() == 0 {
        Result::Ok(KPrimType::String)
    } else {
        Result::Err(
            scan_err_v(path, "unknown/unsupported type/format combination for KCG primitive type"@),
        )
    }
}

/// The reference a referenced-or-inline node resolves to: the bare
/// name of the referenced type, or the inline node's primitive.
pub open spec fn roi_scan_type_ref_v(x: ReferencedOrInlineSchema, path: Seq<Seq<char>>) -> Result<
    KTypeRefV,
    Seq<char>,
> {
    match x {
        ReferencedOrInlineSchema::Referenced(r) => Result::Ok(
            KTypeRefV::Def(tail_after_last(r.ref_@, '/')),
        ),
        ReferencedOrInlineSchema::Inline(s) => match scan_prim_type_v(s, path) {
            Result::Ok(p) => Result::Ok(KTypeRefV::Prim(p)),
            Result::Err(e) => Result::Err(e),
        },
    }
}

/// The content a field's inline schema resolves to: an array
/// recursing one level into its items, a rejected inline object, or a
/// primitive.
pub open spec fn content_type_v(s: Schema, path: Seq<Seq<char>>, optional: bool) -> Result<
    KContentStorageV,
    Seq<char>,
> {
    let t = type_text(s);
    if t == "array"@ {
        match s.items {
            Option::None => Result::Err(
                scan_err_v(path, "a JSON Array type OAS node must have a `items` property node"@),
            ),
            Option::Some(b) => match roi_scan_type_ref_v(*b, path.push("items"@)) {
                Result::Ok(r) => Result::Ok(
                    KContentStorageV { optional, array: true, storage: r },
                ),
                Result::Err(e) => Result::Err(e),
            },
        }
    } else if t == "object"@ {
        Result::Err(
            scan_err_v(path, "inline type definitions are now allowed (all types must be explicitly named)"@),
        )
    } else {
        match scan_prim_type_v(s, path) {
            Result::Ok(p) => Result::Ok(
                KContentStorageV { optional, array: false, storage: KTypeRefV::Prim(p) },
            ),
            Result::Err(e) => Result::Err(e),
        }
    }
}

/// What a new-type node resolves to: its declared type must be the
/// string form, and its origin is the node's primitive.
pub open spec fn scan_new_type_v(s: Schema, path: Seq<Seq<char>>, name: Seq<char>) -> Result<
    KNewTypeV,
    Seq<char>,
> {
    if type_text(s) != "string"@ {
        Result::Err(
            scan_err_v(path, "new-type must be JSON String form (we do not support non-string new-types)"@),
        )
    } else {
        match scan_prim_type_v(s, path) {
            Result::Err(e) => Result::Err(e),
            Result::Ok(p) => Result::Ok(
                KNewTypeV {
                    name,
                    origin: KTypeRefV::Prim(p),
                    comment: composed_comment_v(s),
                },
            ),
        }
    }
}

/// Some already-collected case carries the given name.
pub open spec fn cases_have_name(cs: Seq<KEnumTypeCaseV>, n: Seq<char>) -> bool {
    exists|i: int| 0 <= i < cs.len() && cs[i].name == n
}

/// The cases an enumerated value list resolves to, in order; every
/// value must be a string, and the case names must be pairwise
/// distinct.
pub open spec fn enum_cases_v(vals: Seq<JsonValue>, path: Seq<Seq<char>>) -> Result<
    Seq<KEnumTypeCaseV>,
    Seq<char>,
>
    decreases vals.len(),
{
    if vals.len() == 0 {
        Result::Ok(Seq::empty())
    } else {
        match enum_cases_v(vals.drop_last(), path) {
            Result::Err(e) => Result::Err(e),
            Result::Ok(cs) => match vals.last() {
                JsonValue::Str(c) => {
                    if cases_have_name(cs, c@) {
                        Result::Err(scan_err_v(path, "enum-type case names must be distinct"@))
                    } else {
                        Result::Ok(cs.push(KEnumTypeCaseV { name: c@, comment: Seq::empty() }))
                    }
                },
                JsonValue::Other => Result::Err(
                    scan_err_v(path, "enum-type case must be JSON String type (no support for other types)"@),
                ),
            },
        }
    }
}

/// What an enum-type node resolves to: its declared type must be the
/// string form, and its cases are the enumerated values in order.
pub open spec fn scan_enum_type_v(s: Schema, path: Seq<Seq<char>>, name: Seq<char>) -> Result<
    KEnumTypeV,
    Seq<char>,
> {
    if type_text(s) != "string"@ {
        Result::Err(
            scan_err_v(path, "enum-type must be JSON String form (we do not support non-string new-types)"@),
        )
    } else {
        match s.enum_ {
            Option::None => Result::Ok(
                KEnumTypeV { name, cases: Seq::empty(), comment: composed_comment_v(s) },
            ),
            Option::Some(vals) => match enum_cases_v(vals@, path) {
                Result::Err(e) => Result::Err(e),
                Result::Ok(cs) => Result::Ok(
                    KEnumTypeV { name, cases: cs, comment: composed_comment_v(s) },
                ),
            },
        }
    }
}

/// Every union member is a reference.
pub open spec fn all_referenced(ss: Seq<ReferencedOrInlineSchema>) -> bool {
    forall|i: int| 0 <= i < ss.len() ==> ss[i] is Referenced
}

/// Every union member is an inline schema.
pub open spec fn all_inline(ss: Seq<ReferencedOrInlineSchema>) -> bool {
    forall|i: int| 0 <= i < ss.len() ==> ss[i] is Inline
}

/// The variant one inline, name-based union member resolves to: the
/// member is an inline object declaring exactly one property, all its
/// required names among the properties; the property's name becomes
/// the variant name, and its referenced type the variant's content.
pub open spec fn inline_variant_v(x: Schema, path: Seq<Seq<char>>) -> Result<
    KSumTypeVariantV,
    Seq<char>,
> {
    if type_text(x) != "object"@ {
        Result::Err(
            scan_err_v(path, "sum-type variant must be a JSON Object type in OpenAPI schema"@),
        )
    } else {
        match x.required {
            Option::None => Result::Err(
                scan_err_v(path, "name-based sum-type variant node's properties must be all required"@),
            ),
            Option::Some(reqs) => match x.properties {
                Option::None => Result::Err(
                    scan_err_v(path, "name-based sum-type variant node must have 1 property"@),
                ),
                Option::Some(props) => {
                    if !(forall|k: int|
                        0 <= k < reqs@.len() ==> has_key(props.entries@, reqs@[k]@)) {
                        Result::Err(
                            scan_err_v(path, "name-based sum-type variant node's properties must be all required"@),
                        )
                    } else if props.entries@.len() != 1 {
                        Result::Err(
                            scan_err_v(path, "name-based sum-type variant node must have 1 property"@),
                        )
                    } else {
                        match props.entries@[0].1 {
                            ReferencedOrInlineSchema::Inline(_) => Result::Err(
                                scan_err_v(path, "name-based sum-type variant's inline property must be a reference to an explicitly named type"@),
                            ),
                            ReferencedOrInlineSchema::Referenced(r) => Result::Ok(
                                KSumTypeVariantV {
                                    name: props.entries@[0].0@,
                                    content: KContentStorageV {
                                        optional: false,
                                        array: false,
                                        storage: KTypeRefV::Def(tail_after_last(r.ref_@, '/')),
                                    },
                                    comment: Seq::empty(),
                                },
                            ),
                        }
                    }
                },
            },
        }
    }
}

/// The variant one referenced, type-based union member resolves to:
/// the referenced type's own name names the variant.
pub open spec fn referenced_variant_v(r: Reference) -> KSumTypeVariantV {
    KSumTypeVariantV {
        name: tail_after_last(r.ref_@, '/'),
        content: KContentStorageV {
            optional: false,
            array: false,
            storage: KTypeRefV::Def(tail_after_last(r.ref_@, '/')),
        },
        comment: Seq::empty(),
    }
}

/// The variants of the union members, in order, stopping at the first
/// member that cannot be resolved.
pub open spec fn variants_fold_v(ss: Seq<ReferencedOrInlineSchema>, path: Seq<Seq<char>>) -> Result<
    Seq<KSumTypeVariantV>,
    Seq<char>,
>
    decreases ss.len(),
{
    if ss.len() == 0 {
        Result::Ok(Seq::empty())
    } else {
        match variants_fold_v(ss.drop_last(), path) {
            Result::Err(e) => Result::Err(e),
            Result::Ok(vs) => match ss.last() {
                ReferencedOrInlineSchema::Inline(x) => match inline_variant_v(x, path) {
                    Result::Err(e) => Result::Err(e),
                    Result::Ok(v) => Result::Ok(vs.push(v)),
                },
                ReferencedOrInlineSchema::Referenced(r) => Result::Ok(
                    vs.push(referenced_variant_v(r)),
                ),
            },
        }
    }
}

/// The variant list of a sum-type node: the union members must be all
/// references or all inline, and a mixed union is rejected.
pub open spec fn scan_sum_type_variants_v(s: Schema, path: Seq<Seq<char>>) -> Result<
    Seq<KSumTypeVariantV>,
    Seq<char>,
> {
    match s.one_of {
        Option::None => Result::Err(
            scan_err_v(path, "cannot scan sum-type variant from schema with no `oneOf` defined"@),
        ),
        Option::Some(subs) => {
            if !(all_referenced(subs@) || all_inline(subs@)) {
                Result::Err(
                    scan_err_v(path, "subnodes of `oneOf` node must be all reference or all inline to be a KCG sum-type"@),
                )
            } else {
                variants_fold_v(subs@, path)
            }
        },
    }
}

/// What a sum-type node resolves to: its declared type must be the
/// object form; its discriminant is the discriminator's property name,
/// empty when the node names none.
pub open spec fn scan_sum_type_v(s: Schema, path: Seq<Seq<char>>, name: Seq<char>) -> Result<
    KSumTypeV,
    Seq<char>,
> {
    if type_text(s) != "object"@ {
        Result::Err(scan_err_v(path, "sum-type must be JSON Object form"@))
    } else {
        match scan_sum_type_variants_v(s, path) {
            Result::Err(e) => Result::Err(e),
            Result::Ok(vs) => Result::Ok(
                KSumTypeV {
                    name,
                    discriminant: match s.discriminator {
                        Option::Some(d) => d.property_name@,
                        Option::None => Seq::empty(),
                    },
                    variants: vs,
                    comment: composed_comment_v(s),
                },
            ),
        }
    }
}

/// The fields of a record's properties, in order: a field is optional
/// exactly when its name is absent from the enclosing `required` list,
/// and when that list is absent entirely every field is optional.
pub open spec fn fields_fold_v(
    es: Seq<(String, ReferencedOrInlineSchema)>,
    required: Option<Vec<String>>,
    path: Seq<Seq<char>>,
) -> Result<Seq<KProdTypeFieldV>, Seq<char>>
    decreases es.len(),
{
    if es.len() == 0 {
        Result::Ok(Seq::empty())
    } else {
        match fields_fold_v(es.drop_last(), required, path) {
            Result::Err(e) => Result::Err(e),
            Result::Ok(fs) => {
                let name = es.last().0@;
                let optional = match required {
                    Option::None => true,
                    Option::Some(rs) => !contains_str(rs@, name),
                };
                let subpath = path.push("properties"@).push(name);
                match es.last().1 {
                    ReferencedOrInlineSchema::Referenced(r) => Result::Ok(
                        fs.push(
                            KProdTypeFieldV {
                                name,
                                content: KContentStorageV {
                                    optional,
                                    array: false,
                                    storage: KTypeRefV::Def(tail_after_last(r.ref_@, '/')),
                                },
                                comment: Seq::empty(),
                            },
                        ),
                    ),
                    ReferencedOrInlineSchema::Inline(x) => match content_type_v(
                        x,
                        subpath,
                        optional,
                    ) {
                        Result::Err(e) => Result::Err(e),
                        Result::Ok(c) => Result::Ok(
                            fs.push(
                                KProdTypeFieldV {
                                    name,
                                    content: c,
                                    comment: composed_comment_v(x),
                                },
                            ),
                        ),
                    },
                }
            },
        }
    }
}

/// The field list of a prod-type node; the properties section must be
/// present.
pub open spec fn prod_fields_v(s: Schema, path: Seq<Seq<char>>) -> Result<
    Seq<KProdTypeFieldV>,
    Seq<char>,
> {
    match s.properties {
        Option::None => Result::Err(scan_err_v(path, "prod-type must have `properties` property"@)),
        Option::Some(props) => fields_fold_v(props.entries@, s.required, path),
    }
}

/// What a prod-type node resolves to.
pub open spec fn scan_prod_type_v(s: Schema, path: Seq<Seq<char>>, name: Seq<char>) -> Result<
    KProdTypeV,
    Seq<char>,
> {
    match prod_fields_v(s, path) {
        Result::Err(e) => Result::Err(e),
        Result::Ok(fs) => Result::Ok(
            KProdTypeV { name, fields: fs, comment: composed_comment_v(s) },
        ),
    }
}

/// What one named schema node resolves to: the shape decision shared
/// with validation picks the resolution rule; a node of no supported
/// shape fails.
pub open spec fn schema_scan_type_v(s: Schema, path: Seq<Seq<char>>, name: Seq<char>) -> Result<
    KTypeV,
    Seq<char>,
> {
    match s.shape() {
        SchemaShape::NewType => match scan_new_type_v(s, path, name) {
            Result::Ok(x) => Result::Ok(KTypeV::New(x)),
            Result::Err(e) => Result::Err(e),
        },
        SchemaShape::EnumType => match scan_enum_type_v(s, path, name) {
            Result::Ok(x) => Result::Ok(KTypeV::Enum(x)),
            Result::Err(e) => Result::Err(e),
        },
        SchemaShape::SumType => match scan_sum_type_v(s, path, name) {
            Result::Ok(x) => Result::Ok(KTypeV::Sum(x)),
            Result::Err(e) => Result::Err(e),
        },
        SchemaShape::ProdType => match scan_prod_type_v(s, path, name) {
            Result::Ok(x) => Result::Ok(KTypeV::Prod(x)),
            Result::Err(e) => Result::Err(e),
        },
        SchemaShape::Unsupported => Result::Err(
            scan_err_v(path, "unknown/unsupported schema pattern (none of new/enum/sum/prod type)"@),
        ),
    }
}

/// The model entries of a sequence of named schema nodes, in order;
/// every node must be inline, and resolution stops at the first
/// failure.
pub open spec fn schema_entries_scan_v(
    es: Seq<(String, ReferencedOrInlineSchema)>,
    path: Seq<Seq<char>>,
) -> Result<Seq<KTypeV>, Seq<char>>
    decreases es.len(),
{
    if es.len() == 0 {
        Result::Ok(Seq::empty())
    } else {
        match schema_entries_scan_v(es.drop_last(), path) {
            Result::Err(e) => Result::Err(e),
            Result::Ok(ts) => match es.last().1 {
                ReferencedOrInlineSchema::Referenced(_) => Result::Err(
                    scan_err_v(path, "schemas in components must be defined inline"@),
                ),
                ReferencedOrInlineSchema::Inline(k) => match schema_scan_type_v(
                    k,
                    path.push("schemas"@).push(es.last().0@),
                    es.last().0@,
                ) {
                    Result::Err(e) => Result::Err(e),
                    Result::Ok(t) => Result::Ok(ts.push(t)),
                },
            },
        }
    }
}

/// The model entries of the components section; an absent schema map
/// resolves to no entries.
pub open spec fn components_scan_v(c: Components, path: Seq<Seq<char>>) -> Result<
    Seq<KTypeV>,
    Seq<char>,
> {
    match c.schemas {
        Option::None => Result::Ok(Seq::empty()),
        Option::Some(m) => schema_entries_scan_v(m.entries@, path),
    }
}

/// What a whole document resolves to: one model entry per named
/// schema, in document order, and no service descriptors.
pub open spec fn doc_scan_v(d: Doc, path: Seq<Seq<char>>) -> Result<Doc1V, Seq<char>> {
    match d.components {
        Option::None => Result::Ok(
            Doc1V { funcs: Seq::empty(), types: Seq::empty() },
        ),
        Option::Some(c) => match components_scan_v(c, path.push("components"@)) {
            Result::Err(e) => Result::Err(e),
            Result::Ok(ts) => Result::Ok(Doc1V { funcs: Seq::empty(), types: ts }),
        },
    }
}

/// Builds the text of a resolution error raised at a path.
fn err_text(path: &Path, message: &str) -> (r: String)
    ensures
        r@ == scan_err_v(path@, message@),
{
    let mut z = String::from_str("openapi3::scan(");
    let p = path.to_string();
    z.append(p.as_str());
    z.append("): ");
    z.append(message);
    proof {
        assert(z@ =~= scan_err_v(path@, message@));
    }
    z
}

/// A failed resolution at a path, with the given message.
fn err<T>(path: &Path, message: &str) -> (r: Result<T, String>)
    ensures
        r is Err,
        r->Err_0@ == scan_err_v(path@, message@),
{
    Result::Err(err_text(path, message))
}

/// Whether a list of strings contains the given text.
pub fn list_contains(xs: &Vec<String>, s: &str) -> (r: bool)
    ensures
        r == contains_str(xs@, s@),
{
    let n = xs.len();
    let mut i: usize = 0;
    while i < n
        invariant
            0 <= i <= n,
            n == xs@.len(),
            forall|j: int| 0 <= j < i ==> xs@[j]@ != s@,
        decreases n - i,
    {
        if str_eq(xs[i].as_str(), s) {
            return true;
        }
        i = i + 1;
    }
    false
}

proof fn lemma_entries_scan_err_extends(
    es: Seq<(String, ReferencedOrInlineSchema)>,
    path: Seq<Seq<char>>,
    k: int,
)
    requires
        0 <= k <= es.len(),
        schema_entries_scan_v(es.take(k), path) is Err,
    ensures
        schema_entries_scan_v(es, path) == schema_entries_scan_v(es.take(k), path),
    decreases es.len() - k,
{
    if k == es.len() {
        assert(es.take(k) =~= es);
    } else {
        let t = es.take(k + 1);
        assert(t.drop_last() =~= es.take(k));
        assert(schema_entries_scan_v(t, path) == schema_entries_scan_v(es.take(k), path));
        lemma_entries_scan_err_extends(es, path, k + 1);
    }
}

proof fn lemma_enum_cases_err_extends(vals: Seq<JsonValue>, path: Seq<Seq<char>>, k: int)
    requires
        0 <= k <= vals.len(),
        enum_cases_v(vals.take(k), path) is Err,
    ensures
        enum_cases_v(vals, path) == enum_cases_v(vals.take(k), path),
    decreases vals.len() - k,
{
    if k == vals.len() {
        assert(vals.take(k) =~= vals);
    } else {
        let t = vals.take(k + 1);
        assert(t.drop_last() =~= vals.take(k));
        assert(enum_cases_v(t, path) == enum_cases_v(vals.take(k), path));
        lemma_enum_cases_err_extends(vals, path, k + 1);
    }
}

proof fn lemma_variants_fold_err_extends(
    ss: Seq<ReferencedOrInlineSchema>,
    path: Seq<Seq<char>>,
    k: int,
)
    requires
        0 <= k <= ss.len(),
        variants_fold_v(ss.take(k), path) is Err,
    ensures
        variants_fold_v(ss, path) == variants_fold_v(ss.take(k), path),
    decreases ss.len() - k,
{
    if k == ss.len() {
        assert(ss.take(k) =~= ss);
    } else {
        let t = ss.take(k + 1);
        assert(t.drop_last() =~= ss.take(k));
        assert(variants_fold_v(t, path) == variants_fold_v(ss.take(k), path));
        lemma_variants_fold_err_extends(ss, path, k + 1);
    }
}

proof fn lemma_fields_fold_err_extends(
    es: Seq<(String, ReferencedOrInlineSchema)>,
    required: Option<Vec<String>>,
    path: Seq<Seq<char>>,
    k: int,
)
    requires
        0 <= k <= es.len(),
        fields_fold_v(es.take(k), required, path) is Err,
    ensures
        fields_fold_v(es, required, path) == fields_fold_v(es.take(k), required, path),
    decreases es.len() - k,
{
    if k == es.len() {
        assert(es.take(k) =~= es);
    } else {
        let t = es.take(k + 1);
        assert(t.drop_last() =~= es.take(k));
        assert(fields_fold_v(t, required, path) == fields_fold_v(es.take(k), required, path));
        lemma_fields_fold_err_extends(es, required, path, k + 1);
    }
}

/// Whether some collected case already carries the name.
fn cases_contain(cases: &Vec<KEnumTypeCase>, n: &str) -> (r: bool)
    ensures
        r == cases_have_name(cases.deep_view(), n@),
{
    let m = cases.len();
    let mut j: usize = 0;
    while j < m
        invariant
            0 <= j <= m,
            m == cases.deep_view().len(),
            forall|k: int| 0 <= k < j ==> cases.deep_view()[k].name != n@,
        decreases m - j,
    {
        if str_eq(cases[j].name.as_str(), n) {
            proof {
                assert(cases.deep_view()[j as int].name == n@);
            }
            return true;
        }
        j = j + 1;
    }
    false
}

impl Reference {
    /// The name of the referenced type: the suffix of the reference
    /// expression after its last slash.
    pub fn scan_referenced_type_name(&self, _path: Path) -> (r: String)
        ensures
            r@ == tail_after_last(self.ref_@, '/'),
    {
        suffix_after_last(self.ref_.as_str(), '/')
    }
}

impl ReferencedOrInlineSchema {
    fn scan_type_ref(&self, path: Path) -> (r: Result<KTypeRef, String>)
        ensures
            res_view(r) == roi_scan_type_ref_v(*self, path@),
    {
        match self {
            ReferencedOrInlineSchema::Referenced(x) => Result::Ok(
                KTypeRef::Def(x.scan_referenced_type_name(path)),
            ),
            ReferencedOrInlineSchema::Inline(x) => match x.scan_prim_type(path) {
                Result::Ok(p) => Result::Ok(KTypeRef::Prim(p)),
                Result::Err(e) => Result::Err(e),
            },
        }
    }
}

impl Schema {
    fn scan_prim_type(&self, path: Path) -> (r: Result<KPrimType, String>)
        ensures
            res_view(r) == scan_prim_type_v(*self, path@),
    {
        let t = opt_str(&self.type_);
        let f = opt_str(&self.format);
        if str_eq(t, "boolean") && f.unicode_len() == 0 {
            Result::Ok(KPrimType::Bool)
        } else if str_eq(t, "integer") && str_eq(f, "int32") {
            Result::Ok(KPrimType::I32)
        } else if str_eq(t, "number") && str_eq(f, "float") {
            Result::Ok(KPrimType::F32)
        } else if str_eq(t, "number") && str_eq(f, "double") {
            Result::Ok(KPrimType::F64)
        } else if str_eq(t, "string") && f.unicode_len() == 0 {
            Result::Ok(KPrimType::String)
        } else {
            err(&path, "unknown/unsupported type/format combination for KCG primitive type")
        }
    }

    fn scan_composed_comment(&self, _path: Path) -> (r: String)
        ensures
            r@ == composed_comment_v(*self),
    {
        let a = opt_str(&self.title);
        let b = opt_str(&self.summary);
        let c = opt_str(&self.description);
        let mut z = String::new();
        if a.unicode_len() > 0 {
            z.append(a);
        }
        if b.unicode_len() > 0 {
            if z.as_str().unicode_len() > 0 {
                z.append("\n\n");
            }
            z.append(b);
        }
        if c.unicode_len() > 0 {
            if z.as_str().unicode_len() > 0 {
                z.append("\n\n");
            }
            z.append(c);
        }
        proof {
            assert(z@ =~= composed_comment_v(*self));
        }
        z
    }

    /// Resolves a record field's content from an inline property node.
    fn scan_content_type(&self, path: Path, optional: bool) -> (r: Result<KContentStorage, String>)
        ensures
            res_view(r) == content_type_v(*self, path@, optional),
    {
        let t = opt_str(&self.type_);
        if str_eq(t, "array") {
            match &self.items {
                Option::None => err(
                    &path,
                    "a JSON Array type OAS node must have a `items` property node",
                ),
                Option::Some(b) => match b.scan_type_ref(path.appending("items")) {
                    Result::Ok(r0) => Result::Ok(
                        KContentStorage { optional, array: true, storage: r0 },
                    ),
                    Result::Err(e) => Result::Err(e),
                },
            }
        } else if str_eq(t, "object") {
            err(&path, "inline type definitions are now allowed (all types must be explicitly named)")
        } else {
            match self.scan_prim_type(path) {
                Result::Ok(p) => Result::Ok(
                    KContentStorage { optional, array: false, storage: KTypeRef::Prim(p) },
                ),
                Result::Err(e) => Result::Err(e),
            }
        }
    }

    fn scan_new_type(&self, path: Path, name: &str) -> (r: Result<KNewType, String>)
        ensures
            res_view(r) == scan_new_type_v(*self, path@, name@),
    {
        if !str_eq(opt_str(&self.type_), "string") {
            return err(
                &path,
                "new-type must be JSON String form (we do not support non-string new-types)",
            );
        }
        match self.scan_prim_type(path.clone()) {
            Result::Err(e) => Result::Err(e),
            Result::Ok(p) => Result::Ok(
                KNewType {
                    name: name.to_owned(),
                    origin: KTypeRef::Prim(p),
                    comment: self.scan_composed_comment(path),
                },
            ),
        }
    }

    #[verifier::loop_isolation(false)]
    fn scan_enum_type(&self, path: Path, name: &str) -> (r: Result<KEnumType, String>)
        ensures
            res_view(r) == scan_enum_type_v(*self, path@, name@),
    {
        if !str_eq(opt_str(&self.type_), "string") {
            return err(
                &path,
                "enum-type must be JSON String form (we do not support non-string new-types)",
            );
        }
        let mut cases: Vec<KEnumTypeCase> = Vec::new();
        proof {
            assert(cases.deep_view() =~= Seq::<KEnumTypeCaseV>::empty());
        }
        match &self.enum_ {
            Option::None => (),
            Option::Some(vals) => {
                let n = vals.len();
                let mut i: usize = 0;
                proof {
                    assert(cases.deep_view() =~= Seq::<KEnumTypeCaseV>::empty());
                    assert(vals@.take(0).len() == 0);
                }
                while i < n
                    invariant
                        0 <= i <= n,
                        n == vals@.len(),
                        enum_cases_v(vals@.take(i as int), path@) is Ok,
                        enum_cases_v(vals@.take(i as int), path@)->Ok_0 == cases.deep_view(),
                    decreases n - i,
                {
                    let ghost pre = cases.deep_view();
                    match &vals[i] {
                        JsonValue::Str(c) => {
                            if cases_contain(&cases, c.as_str()) {
                                proof {
                                    let t = vals@.take(i + 1);
                                    assert(t.drop_last() =~= vals@.take(i as int));
                                    assert(t.last() == vals@[i as int]);
                                    assert(enum_cases_v(t, path@) is Err);
                                    lemma_enum_cases_err_extends(vals@, path@, i + 1);
                                }
                                return err(&path, "enum-type case names must be distinct");
                            }
                            cases.push(KEnumTypeCase { name: c.clone(), comment: String::new() });
                            proof {
                                let t = vals@.take(i + 1);
                                assert(t.drop_last() =~= vals@.take(i as int));
                                assert(t.last() == vals@[i as int]);
                                assert(cases.deep_view() =~= pre.push(
                                    KEnumTypeCaseV { name: c@, comment: Seq::empty() },
                                ));
                            }
                        },
                        JsonValue::Other => {
                            proof {
                                let t = vals@.take(i + 1);
                                assert(t.drop_last() =~= vals@.take(i as int));
                                assert(t.last() == vals@[i as int]);
                                assert(enum_cases_v(t, path@) is Err);
                                lemma_enum_cases_err_extends(vals@, path@, i + 1);
                            }
                            return err(
                                &path,
                                "enum-type case must be JSON String type (no support for other types)",
                            );
                        },
                    }
                    i = i + 1;
                }
                proof {
                    assert(vals@.take(n as int) =~= vals@);
                }
            },
        }
        Result::Ok(
            KEnumType {
                name: name.to_owned(),
                cases,
                comment: self.scan_composed_comment(path),
            },
        )
    }

    fn scan_sum_type(&self, path: Path, name: &str) -> (r: Result<KSumType, String>)
        ensures
            res_view(r) == scan_sum_type_v(*self, path@, name@),
    {
        if !str_eq(opt_str(&self.type_), "object") {
            return err(&path, "sum-type must be JSON Object form");
        }
        match self.scan_sum_type_variants(path.clone()) {
            Result::Err(e) => Result::Err(e),
            Result::Ok(vs) => Result::Ok(
                KSumType {
                    name: name.to_owned(),
                    discriminant: match &self.discriminator {
                        Option::Some(d) => d.property_name.clone(),
                        Option::None => String::new(),
                    },
                    variants: vs,
                    comment: self.scan_composed_comment(path),
                },
            ),
        }
    }

    #[verifier::loop_isolation(false)]
    fn scan_sum_type_variants(&self, path: Path) -> (r: Result<Vec<KSumTypeVariant>, String>)
        ensures
            res_view(r) == scan_sum_type_variants_v(*self, path@),
    {
        let subschemas = match &self.one_of {
            Option::None => {
                return err(
                    &path,
                    "cannot scan sum-type variant from schema with no `oneOf` defined",
                );
            },
            Option::Some(x) => x,
        };
        let n = subschemas.len();
        let mut all_ref = true;
        let mut all_inl = true;
        let mut j: usize = 0;
        while j < n
            invariant
                0 <= j <= n,
                n == subschemas@.len(),
                all_ref == (forall|k: int| 0 <= k < j ==> subschemas@[k] is Referenced),
                all_inl == (forall|k: int| 0 <= k < j ==> subschemas@[k] is Inline),
            decreases n - j,
        {
            match &subschemas[j] {
                ReferencedOrInlineSchema::Referenced(_) => {
                    proof {
                        assert(subschemas@[j as int] is Referenced);
                    }
                    all_inl = false;
                },
                ReferencedOrInlineSchema::Inline(_) => {
                    proof {
                        assert(subschemas@[j as int] is Inline);
                    }
                    all_ref = false;
                },
            }
            j = j + 1;
        }
        proof {
            assert(all_ref == all_referenced(subschemas@));
            assert(all_inl == all_inline(subschemas@));
        }
        if !(all_ref || all_inl) {
            return err(
                &path,
                "subnodes of `oneOf` node must be all reference or all inline to be a KCG sum-type",
            );
        }
        let mut z: Vec<KSumTypeVariant> = Vec::new();
        let mut i: usize = 0;
        proof {
            assert(z.deep_view() =~= Seq::<KSumTypeVariantV>::empty());
            assert(subschemas@.take(0).len() == 0);
        }
        while i < n
            invariant
                0 <= i <= n,
                n == subschemas@.len(),
                all_referenced(subschemas@) || all_inline(subschemas@),
                variants_fold_v(subschemas@.take(i as int), path@) is Ok,
                variants_fold_v(subschemas@.take(i as int), path@)->Ok_0 == z.deep_view(),
            decreases n - i,
        {
            let ghost pre = z.deep_view();
            let ghost t = subschemas@.take(i + 1);
            proof {
                assert(t.drop_last() =~= subschemas@.take(i as int));
                assert(t.last() == subschemas@[i as int]);
            }
            match &subschemas[i] {
                ReferencedOrInlineSchema::Inline(x) => {
                    if !str_eq(opt_str(&x.type_), "object") {
                        proof {
                            assert(variants_fold_v(t, path@) is Err);
                            lemma_variants_fold_err_extends(subschemas@, path@, i + 1);
                        }
                        return err(
                            &path,
                            "sum-type variant must be a JSON Object type in OpenAPI schema",
                        );
                    }
                    let reqs = match &x.required {
                        Option::None => {
                            proof {
                                assert(variants_fold_v(t, path@) is Err);
                                lemma_variants_fold_err_extends(subschemas@, path@, i + 1);
                            }
                            return err(
                                &path,
                                "name-based sum-type variant node's properties must be all required",
                            );
                        },
                        Option::Some(rr) => rr,
                    };
                    let props = match &x.properties {
                        Option::None => {
                            proof {
                                assert(variants_fold_v(t, path@) is Err);
                                lemma_variants_fold_err_extends(subschemas@, path@, i + 1);
                            }
                            return err(
                                &path,
                                "name-based sum-type variant node must have 1 property",
                            );
                        },
                        Option::Some(pp) => pp,
                    };
                    let m = reqs.len();
                    let mut q: usize = 0;
                    while q < m
                        invariant
                            0 <= q <= m,
                            m == reqs@.len(),
                            forall|k: int| 0 <= k < q ==> has_key(props.entries@, reqs@[k]@),
                        decreases m - q,
                    {
                        if !props.contains_key(reqs[q].as_str()) {
                            proof {
                                assert(!has_key(props.entries@, reqs@[q as int]@));
                                assert(variants_fold_v(t, path@) is Err);
                                lemma_variants_fold_err_extends(subschemas@, path@, i + 1);
                            }
                            return err(
                                &path,
                                "name-based sum-type variant node's properties must be all required",
                            );
                        }
                        q = q + 1;
                    }
                    if props.len() != 1 {
                        proof {
                            assert(variants_fold_v(t, path@) is Err);
                            lemma_variants_fold_err_extends(subschemas@, path@, i + 1);
                        }
                        return err(&path, "name-based sum-type variant node must have 1 property");
                    }
                    let key0 = props.key_at(0);
                    match props.value_at(0) {
                        ReferencedOrInlineSchema::Inline(_) => {
                            proof {
                                assert(variants_fold_v(t, path@) is Err);
                                lemma_variants_fold_err_extends(subschemas@, path@, i + 1);
                            }
                            return err(
                                &path,
                                "name-based sum-type variant's inline property must be a reference to an explicitly named type",
                            );
                        },
                        ReferencedOrInlineSchema::Referenced(rf) => {
                            let subpath = path.appending("oneOf").appending(key0.as_str());
                            let nm = rf.scan_referenced_type_name(subpath);
                            z.push(
                                KSumTypeVariant {
                                    name: key0.clone(),
                                    content: KContentStorage {
                                        optional: false,
                                        array: false,
                                        storage: KTypeRef::Def(nm),
                                    },
                                    comment: String::new(),
                                },
                            );
                            proof {
                                assert(z.deep_view() =~= pre.push(inline_variant_v(*x, path@)->Ok_0));
                                assert(variants_fold_v(t, path@)->Ok_0 == z.deep_view());
                            }
                        },
                    }
                },
                ReferencedOrInlineSchema::Referenced(rf) => {
                    let subpath = path.appending("oneOf");
                    let nm = rf.scan_referenced_type_name(subpath);
                    let nm2 = nm.clone();
                    z.push(
                        KSumTypeVariant {
                            name: nm,
                            content: KContentStorage {
                                optional: false,
                                array: false,
                                storage: KTypeRef::Def(nm2),
                            },
                            comment: String::new(),
                        },
                    );
                    proof {
                        assert(z.deep_view() =~= pre.push(referenced_variant_v(*rf)));
                        assert(variants_fold_v(t, path@)->Ok_0 == z.deep_view());
                    }
                },
            }
            i = i + 1;
        }
        proof {
            assert(subschemas@.take(n as int) =~= subschemas@);
        }
        Result::Ok(z)
    }

    fn scan_prod_type(&self, path: Path, name: &str) -> (r: Result<KProdType, String>)
        ensures
            res_view(r) == scan_prod_type_v(*self, path@, name@),
    {
        match self.scan_prod_type_fields(path.clone()) {
            Result::Err(e) => Result::Err(e),
            Result::Ok(fs) => Result::Ok(
                KProdType {
                    name: name.to_owned(),
                    fields: fs,
                    comment: self.scan_composed_comment(path),
                },
            ),
        }
    }

    #[verifier::loop_isolation(false)]
    /// Resolves a record's fields from its declared properties.
    pub fn scan_prod_type_fields(&self, path: Path) -> (r: Result<Vec<KProdTypeField>, String>)
        ensures
            res_view(r) == prod_fields_v(*self, path@),
    {
        let props = match &self.properties {
            Option::None => {
                return err(&path, "prod-type must have `properties` property");
            },
            Option::Some(p) => p,
        };
        let n = props.len();
        let mut z: Vec<KProdTypeField> = Vec::new();
        let mut i: usize = 0;
        proof {
            assert(z.deep_view() =~= Seq::<KProdTypeFieldV>::empty());
            assert(props.entries@.take(0).len() == 0);
        }
        while i < n
            invariant
                0 <= i <= n,
                n == props.entries@.len(),
                props == self.properties->0,
                fields_fold_v(props.entries@.take(i as int), self.required, path@) is Ok,
                fields_fold_v(props.entries@.take(i as int), self.required, path@)->Ok_0 == z.deep_view(),
            decreases n - i,
        {
            let ghost pre = z.deep_view();
            let ghost t = props.entries@.take(i + 1);
            proof {
                assert(t.drop_last() =~= props.entries@.take(i as int));
                assert(t.last() == props.entries@[i as int]);
            }
            let name = props.key_at(i);
            let optional = match &self.required {
                Option::None => true,
                Option::Some(rs) => !list_contains(rs, name.as_str()),
            };
            let subpath = path.appending("properties").appending(name.as_str());
            match props.value_at(i) {
                ReferencedOrInlineSchema::Referenced(rf) => {
                    let nm = rf.scan_referenced_type_name(subpath);
                    z.push(
                        KProdTypeField {
                            name: name.clone(),
                            content: KContentStorage {
                                optional,
                                array: false,
                                storage: KTypeRef::Def(nm),
                            },
                            comment: String::new(),
                        },
                    );
                    proof {
                        assert(fields_fold_v(t, self.required, path@)->Ok_0 == z.deep_view()) by {
                            assert(z.deep_view() =~= pre.push(
                                fields_fold_v(t, self.required, path@)->Ok_0.last(),
                            ));
                        }
                    }
                },
                ReferencedOrInlineSchema::Inline(x) => {
                    match x.scan_content_type(subpath.clone(), optional) {
                        Result::Err(e) => {
                            proof {
                                assert(fields_fold_v(t, self.required, path@) is Err);
                                lemma_fields_fold_err_extends(
                                    props.entries@,
                                    self.required,
                                    path@,
                                    i + 1,
                                );
                            }
                            return Result::Err(e);
                        },
                        Result::Ok(c) => {
                            let ghost cv = c@;
                            z.push(
                                KProdTypeField {
                                    name: name.clone(),
                                    content: c,
                                    comment: x.scan_composed_comment(subpath),
                                },
                            );
                            proof {
                                assert(z.deep_view() =~= pre.push(
                                    KProdTypeFieldV {
                                        name: name@,
                                        content: cv,
                                        comment: composed_comment_v(*x),
                                    },
                                ));
                                assert(fields_fold_v(t, self.required, path@)->Ok_0
                                    == z.deep_view());
                            }
                        },
                    }
                },
            }
            i = i + 1;
        }
        proof {
            assert(props.entries@.take(n as int) =~= props.entries@);
        }
        Result::Ok(z)
    }

    /// Resolves one named schema node into its model entry.
    pub fn scan_type(&self, path: Path, name: &str) -> (r: Result<KType, String>)
        ensures
            res_view(r) == schema_scan_type_v(*self, path@, name@),
    {
        match self.classify() {
            SchemaShape::NewType => match self.scan_new_type(path, name) {
                Result::Ok(x) => Result::Ok(KType::New(x)),
                Result::Err(e) => Result::Err(e),
            },
            SchemaShape::EnumType => match self.scan_enum_type(path, name) {
                Result::Ok(x) => Result::Ok(KType::Enum(x)),
                Result::Err(e) => Result::Err(e),
            },
            SchemaShape::SumType => match self.scan_sum_type(path, name) {
                Result::Ok(x) => Result::Ok(KType::Sum(x)),
                Result::Err(e) => Result::Err(e),
            },
            SchemaShape::ProdType => match self.scan_prod_type(path, name) {
                Result::Ok(x) => Result::Ok(KType::Prod(x)),
                Result::Err(e) => Result::Err(e),
            },
            SchemaShape::Unsupported => err(
                &path,
                "unknown/unsupported schema pattern (none of new/enum/sum/prod type)",
            ),
        }
    }
}

impl Components {
    #[verifier::loop_isolation(false)]
    fn scan_types(&self, path: Path) -> (r: Result<Vec<KType>, String>)
        ensures
            res_view(r) == components_scan_v(*self, path@),
    {
        let mut z: Vec<KType> = Vec::new();
        proof {
            assert(z.deep_view() =~= Seq::<KTypeV>::empty());
        }
        match &self.schemas {
            Option::None => (),
            Option::Some(m) => {
                let n = m.len();
                let mut i: usize = 0;
                proof {
                    assert(m.entries@.take(0).len() == 0);
                }
                while i < n
                    invariant
                        0 <= i <= n,
                        n == m.entries@.len(),
                        schema_entries_scan_v(m.entries@.take(i as int), path@) is Ok,
                        schema_entries_scan_v(m.entries@.take(i as int), path@)->Ok_0
                            == z.deep_view(),
                    decreases n - i,
                {
                    let ghost pre = z.deep_view();
                    let ghost t = m.entries@.take(i + 1);
                    proof {
                        assert(t.drop_last() =~= m.entries@.take(i as int));
                        assert(t.last() == m.entries@[i as int]);
                    }
                    let name = m.key_at(i);
                    match m.value_at(i) {
                        ReferencedOrInlineSchema::Referenced(_) => {
                            proof {
                                assert(schema_entries_scan_v(t, path@) is Err);
                                lemma_entries_scan_err_extends(m.entries@, path@, i + 1);
                            }
                            return err(&path, "schemas in components must be defined inline");
                        },
                        ReferencedOrInlineSchema::Inline(k) => {
                            match k.scan_type(
                                path.appending("schemas").appending(name.as_str()),
                                name.as_str(),
                            ) {
                                Result::Err(e) => {
                                    proof {
                                        assert(schema_entries_scan_v(t, path@) is Err);
                                        lemma_entries_scan_err_extends(m.entries@, path@, i + 1);
                                    }
                                    return Result::Err(e);
                                },
                                Result::Ok(kt) => {
                                    let ghost ktv = kt.deep_view();
                                    z.push(kt);
                                    proof {
                                        assert(z.deep_view() =~= pre.push(ktv));
                                        assert(schema_entries_scan_v(t, path@)->Ok_0
                                            == z.deep_view());
                                    }
                                },
                            }
                        },
                    }
                    i = i + 1;
                }
                proof {
                    assert(m.entries@.take(n as int) =~= m.entries@);
                }
            },
        }
        Result::Ok(z)
    }
}

impl Doc {
    /// Resolves a validated document into the intermediate model.
    pub fn scan(&self, path: Path) -> (r: Result<Doc1, String>)
        ensures
            res_view(r) == doc_scan_v(*self, path@),
    {
        let mut k = Doc1::default();
        match &self.components {
            Option::None => (),
            Option::Some(comps) => {
                match comps.scan_types(path.appending("components")) {
                    Result::Err(e) => {
                        return Result::Err(e);
                    },
                    Result::Ok(ts) => {
                        k.types = ts;
                    },
                }
            },
        }
        Result::Ok(k)
    }
}

/// Resolution follows the shared classification: a node of no
/// supported shape fails to resolve, and a resolved entry's variant
/// is exactly the one the classification chose — never another, never
/// two.
pub proof fn lemma_resolution_follows_classification(s: Schema, path: Seq<Seq<char>>, name: Seq<char>)
    ensures
        s.shape() is Unsupported ==> schema_scan_type_v(s, path, name) is Err,
        schema_scan_type_v(s, path, name) matches Result::Ok(t) ==> ((t is New <==> s.shape()
            is NewType) && (t is Enum <==> s.shape() is EnumType) && (t is Sum <==> s.shape()
            is SumType) && (t is Prod <==> s.shape() is ProdType)),
{
}

/// A schema declaring both a union clause and enumerated values
/// matches no shape, so its resolution fails and no model entry is
/// produced for it.
pub proof fn lemma_union_with_enum_resolves_to_nothing(
    s: Schema,
    path: Seq<Seq<char>>,
    name: Seq<char>,
)
    ensures
        s.one_of is Some && s.enum_ is Some ==> schema_scan_type_v(s, path, name) is Err,
{
}

proof fn lemma_fields_fold_optionality(
    es: Seq<(String, ReferencedOrInlineSchema)>,
    required: Option<Vec<String>>,
    path: Seq<Seq<char>>,
)
    requires
        fields_fold_v(es, required, path) is Ok,
    ensures
        ({
            let fs = fields_fold_v(es, required, path)->Ok_0;
            fs.len() == es.len() && forall|i: int|
                0 <= i < es.len() ==> (#[trigger] fs[i].name == es[i].0@ && (fs[i].content.optional
                    <==> (match required {
                    Option::None => true,
                    Option::Some(rs) => !contains_str(rs@, es[i].0@),
                })))
        }),
    decreases es.len(),
{
    if es.len() > 0 {
        lemma_fields_fold_optionality(es.drop_last(), required, path);
        let fs = fields_fold_v(es, required, path)->Ok_0;
        let fsp = fields_fold_v(es.drop_last(), required, path)->Ok_0;
        assert(fs.len() == es.len());
        assert forall|i: int| 0 <= i < es.len() implies (#[trigger] fs[i].name == es[i].0@ && (
        fs[i].content.optional <==> (match required {
            Option::None => true,
            Option::Some(rs) => !contains_str(rs@, es[i].0@),
        }))) by {
            if i < es.len() - 1 {
                assert(es.drop_last()[i] == es[i]);
                assert(fs[i] == fsp[i]);
            } else {
                assert(fs[i] == fs.last());
            }
        }
    }
}

/// Optionality derivation: in a resolved record, a field is optional
/// exactly when its name is absent from the enclosing `required`
/// list; when that list is absent entirely, every field is optional.
/// Field names and order follow the declared properties one for one.
pub proof fn lemma_optionality_derivation(s: Schema, path: Seq<Seq<char>>)
    requires
        s.properties is Some,
        prod_fields_v(s, path) is Ok,
    ensures
        ({
            let es = s.properties->0.entries@;
            let fs = prod_fields_v(s, path)->Ok_0;
            fs.len() == es.len() && forall|i: int|
                0 <= i < es.len() ==> (#[trigger] fs[i].name == es[i].0@ && (fs[i].content.optional
                    <==> (match s.required {
                    Option::None => true,
                    Option::Some(rs) => !contains_str(rs@, es[i].0@),
                })))
        }),
{
    lemma_fields_fold_optionality(s.properties->0.entries@, s.required, path);
}

} // verus!
