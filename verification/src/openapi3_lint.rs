//! Validation of a source document against the supported subset:
//! decides each schema node's canonical shape and records one
//! diagnostic per violated structural constraint, visiting every
//! sibling even after a failure.

use vstd::prelude::*;
use crate::lint::Context;
use crate::lint::Lint;
use crate::lint::LogV;
use crate::lint::Path;
use crate::lint::error_log;
use crate::openapi3::Components;
use crate::openapi3::Discriminator;
use crate::openapi3::Doc;
use crate::openapi3::Reference;
use crate::openapi3::ReferencedOrInlineSchema;
use crate::openapi3::Schema;
use crate::openapi3::SchemaShape;
use crate::openapi3::format_text;
use crate::openapi3::type_text;
use crate::strutil::has_char_from;
use crate::strutil::has_char_at_or_after;
use crate::strutil::opt_str;
use crate::strutil::starts_with;
use crate::strutil::starts_with_v;
use crate::strutil::ends_with_char;
use crate::strutil::str_eq;

verus! {

/// The log a nil-guard contributes: one error when the property is
/// present.
pub open spec fn nil_guard<T>(property: Option<T>, path: Seq<Seq<char>>, msg: Seq<char>) -> Seq<
    LogV,
> {
    if property is Some {
        seq![error_log(path, msg)]
    } else {
        Seq::empty()
    }
}

/// The log a some-guard contributes: one error when the property is
/// absent.
pub open spec fn some_guard<T>(property: Option<T>, path: Seq<Seq<char>>, msg: Seq<char>) -> Seq<
    LogV,
> {
    if property is None {
        seq![error_log(path, msg)]
    } else {
        Seq::empty()
    }
}

/// The log a condition guard contributes: one error when the
/// condition fails.
pub open spec fn cond_guard(condition: bool, path: Seq<Seq<char>>, msg: Seq<char>) -> Seq<LogV> {
    if !condition {
        seq![error_log(path, msg)]
    } else {
        Seq::empty()
    }
}

impl Context {
    fn guard_nil_property_for_unsupported_feature<T>(
        &mut self,
        property: &Option<T>,
        path: Path,
        message: &'static str,
    )
        ensures
            final(self)@ == old(self)@ + nil_guard(*property, path@, message@),
    {
        let ghost o = self@;
        match property {
            Option::None => (),
            Option::Some(_) => self.error(path, message),
        }
        proof {
            assert(self@ =~= o + nil_guard(*property, path@, message@));
        }
    }

    fn guard_nil_property<T>(&mut self, property: &Option<T>, path: Path, message: &'static str)
        ensures
            final(self)@ == old(self)@ + nil_guard(*property, path@, message@),
    {
        let ghost o = self@;
        match property {
            Option::None => (),
            Option::Some(_) => self.error(path, message),
        }
        proof {
            assert(self@ =~= o + nil_guard(*property, path@, message@));
        }
    }

    fn guard_some_property<T>(&mut self, property: &Option<T>, path: Path, message: &'static str)
        ensures
            final(self)@ == old(self)@ + some_guard(*property, path@, message@),
    {
        let ghost o = self@;
        match property {
            Option::None => self.error(path, message),
            Option::Some(_) => (),
        }
        proof {
            assert(self@ =~= o + some_guard(*property, path@, message@));
        }
    }

    fn guard(&mut self, condition: bool, path: Path, message: &'static str)
        ensures
            final(self)@ == old(self)@ + cond_guard(condition, path@, message@),
    {
        let ghost o = self@;
        if !condition {
            self.error(path, message)
        }
        proof {
            assert(self@ =~= o + cond_guard(condition, path@, message@));
        }
    }
}

/// The findings for the document root: its components section, or one
/// error when that section is missing.
pub open spec fn doc_lint_v(d: Doc, path: Seq<Seq<char>>) -> Seq<LogV> {
    match d.components {
        Option::None => seq![
            error_log(path.push("components"@), "missing required property `components`"@),
        ],
        Option::Some(c) => components_lint_v(c, path.push("components"@)),
    }
}

/// The findings for the components section: every named schema's
/// findings in order, or one error when the schema map is missing.
pub open spec fn components_lint_v(c: Components, path: Seq<Seq<char>>) -> Seq<LogV> {
    match c.schemas {
        Option::None => seq![
            error_log(path.push("schemas"@), "missing required property `schemas`"@),
        ],
        Option::Some(m) => schema_entries_lint_v(m.entries@, path),
    }
}

/// The findings of a sequence of named schema nodes, in order.
pub open spec fn schema_entries_lint_v(
    es: Seq<(String, ReferencedOrInlineSchema)>,
    path: Seq<Seq<char>>,
) -> Seq<LogV>
    decreases es.len(),
{
    if es.len() == 0 {
        Seq::empty()
    } else {
        schema_entries_lint_v(es.drop_last(), path) + roi_lint_v(
            es.last().1,
            path.push(es.last().0@),
        )
    }
}

/// The findings of a referenced-or-inline node.
pub open spec fn roi_lint_v(x: ReferencedOrInlineSchema, path: Seq<Seq<char>>) -> Seq<LogV> {
    match x {
        ReferencedOrInlineSchema::Referenced(r) => reference_lint_v(r, path),
        ReferencedOrInlineSchema::Inline(s) => schema_lint_v(s, path),
    }
}

/// The findings of one schema node: guards on features outside the
/// supported subset, then the checks of whichever canonical shape the
/// node classifies as — or one error when it classifies as none.
pub open spec fn schema_lint_v(s: Schema, path: Seq<Seq<char>>) -> Seq<LogV> {
    nil_guard(s.any_of, path.push("anyOf"@), "property for unsupported feature has non-`nil` value"@)
        + nil_guard(
        s.format,
        path.push("format"@),
        "property for unsupported feature has non-`nil` value"@,
    ) + nil_guard(
        s.not,
        path.push("not"@),
        "property for unsupported feature has non-`nil` value"@,
    ) + (match s.shape() {
        SchemaShape::NewType => new_type_lint_v(s, path),
        SchemaShape::EnumType => enum_type_lint_v(s, path),
        SchemaShape::SumType => sum_type_lint_v(s, path),
        SchemaShape::ProdType => prod_type_lint_v(s, path),
        SchemaShape::Unsupported => seq![
            error_log(path, "unknown/unsupported schema pattern (none of new/enum/sum/prod type)"@),
        ],
    })
}

/// The structural checks of a new-type node.
pub open spec fn new_type_lint_v(s: Schema, path: Seq<Seq<char>>) -> Seq<LogV> {
    nil_guard(s.items, path.push("items"@), "must be `nil` to make new-type"@) + nil_guard(
        s.all_of,
        path.push("allOf"@),
        "must be `nil` to make new-type"@,
    ) + nil_guard(s.format, path.push("format"@), "must be `nil` to make new-type"@) + nil_guard(
        s.any_of,
        path.push("anyOf"@),
        "must be `nil` to make new-type"@,
    ) + nil_guard(s.properties, path.push("properties"@), "must be `nil` to make new-type"@)
}

/// The structural checks of an enum-type node: the new-type checks,
/// and the declared type must be `string` (non-string enumerations are
/// rejected).
pub open spec fn enum_type_lint_v(s: Schema, path: Seq<Seq<char>>) -> Seq<LogV> {
    nil_guard(s.items, path.push("items"@), "must be `nil` to make new-type"@) + nil_guard(
        s.all_of,
        path.push("allOf"@),
        "must be `nil` to make new-type"@,
    ) + nil_guard(s.format, path.push("format"@), "must be `nil` to make new-type"@) + nil_guard(
        s.any_of,
        path.push("anyOf"@),
        "must be `nil` to make new-type"@,
    ) + nil_guard(s.properties, path.push("properties"@), "must be `nil` to make new-type"@)
        + cond_guard(
        type_text(s) == "string"@,
        path.push("type"@),
        "enum-type must declare `string` type (non-string enumerations are not supported)"@,
    )
}

/// The structural checks of a sum-type node, including its
/// discriminator's own check when one is present.
pub open spec fn sum_type_lint_v(s: Schema, path: Seq<Seq<char>>) -> Seq<LogV> {
    nil_guard(s.items, path.push("items"@), "must be `nil` to make sum-type"@) + nil_guard(
        s.format,
        path.push("format"@),
        "must be `nil` to make sum-type"@,
    ) + nil_guard(s.any_of, path.push("anyOf"@), "must be `nil` to make sum-type"@) + nil_guard(
        s.properties,
        path.push("properties"@),
        "must be `nil` to make sum-type"@,
    ) + nil_guard(s.enum_, path.push("enum"@), "must be `nil` to make sum-type"@) + some_guard(
        s.one_of,
        path.push("oneOf"@),
        "must be non-`nil` to make sum-type"@,
    ) + some_guard(
        s.discriminator,
        path.push("discriminator"@),
        "must be non-`nil` to make sum-type"@,
    ) + (match s.discriminator {
        Option::None => Seq::empty(),
        Option::Some(det) => discriminator_lint_v(det, path.push("discriminator"@)),
    })
}

/// The check of a discriminator: its mapping is outside the supported
/// subset.
pub open spec fn discriminator_lint_v(d: Discriminator, path: Seq<Seq<char>>) -> Seq<LogV> {
    nil_guard(
        d.mapping,
        path.push("mapping"@),
        "property for unsupported feature has non-`nil` value"@,
    )
}

/// The structural checks of a prod-type node, including the check of
/// every inline property.
pub open spec fn prod_type_lint_v(s: Schema, path: Seq<Seq<char>>) -> Seq<LogV> {
    nil_guard(s.items, path.push("items"@), "must be non-`nil` to make prod-type"@) + nil_guard(
        s.format,
        path.push("format"@),
        "must be non-`nil` to make prod-type"@,
    ) + nil_guard(s.any_of, path.push("anyOf"@), "must be non-`nil` to make prod-type"@)
        + nil_guard(s.one_of, path.push("oneOf"@), "must be non-`nil` to make prod-type"@)
        + nil_guard(
        s.discriminator,
        path.push("discriminator"@),
        "must be non-`nil` to make prod-type"@,
    ) + nil_guard(s.enum_, path.push("enum"@), "must be non-`nil` to make prod-type"@)
        + some_guard(s.properties, path.push("properties"@), "must be non-`nil` to make prod-type"@)
        + (match s.properties {
        Option::None => Seq::empty(),
        Option::Some(props) => property_entries_lint_v(props.entries@, path),
    })
}

/// The findings of a record's properties, in order: inline properties
/// are checked, referenced ones are not.
pub open spec fn property_entries_lint_v(
    es: Seq<(String, ReferencedOrInlineSchema)>,
    path: Seq<Seq<char>>,
) -> Seq<LogV>
    decreases es.len(),
{
    if es.len() == 0 {
        Seq::empty()
    } else {
        property_entries_lint_v(es.drop_last(), path) + (match es.last().1 {
            ReferencedOrInlineSchema::Referenced(_) => Seq::empty(),
            ReferencedOrInlineSchema::Inline(p) => property_lint_v(p, path.push(es.last().0@)),
        })
    }
}

/// The check of one inline property: the closed list of allowed
/// type/format pairings.
pub open spec fn property_lint_v(s: Schema, path: Seq<Seq<char>>) -> Seq<LogV> {
    if s.is_prim_type_spec() {
        let t = type_text(s);
        let f = format_text(s);
        if t == "boolean"@ {
            if f.len() == 0 {
                Seq::empty()
            } else {
                seq![error_log(path, "`boolean` type property should not have `format` defined"@)]
            }
        } else if t == "integer"@ {
            if f == "int32"@ {
                Seq::empty()
            } else if f == "int64"@ {
                seq![
                    error_log(
                        path,
                        "`int64` property is not supported due to silent precision loss in JavaScript"@,
                    ),
                ]
            } else {
                seq![error_log(path, "`integer` type property must define `format` to `int32`"@)]
            }
        } else if t == "number"@ {
            if f == "float"@ || f == "double"@ {
                Seq::empty()
            } else {
                seq![
                    error_log(
                        path,
                        "`number` type property must define `format` to one of `float` or `double`"@,
                    ),
                ]
            }
        } else if t == "string"@ {
            Seq::empty()
        } else if t == "array"@ {
            Seq::empty()
        } else {
            seq![
                error_log(
                    path,
                    "`type` must be set to one of `boolean`, `integer`, `number`, `array` (inline `object` definition is not supported)"@,
                ),
            ]
        }
    } else if type_text(s) == "object"@ {
        seq![
            error_log(
                path,
                "`type` must be set to one of `boolean`, `integer`, `number`, `array` (inline `object` definition is not supported)"@,
            ),
        ]
    } else {
        Seq::empty()
    }
}

/// The checks of a reference expression: local, non-nested, under the
/// components' schema section.
pub open spec fn reference_lint_v(r: Reference, path: Seq<Seq<char>>) -> Seq<LogV> {
    cond_guard(
        starts_with_v(r.ref_@, "#/"@),
        path.push("$ref"@),
        "JSON Schema reference expression must starts with `#/`"@,
    ) + cond_guard(
        !(r.ref_@.len() > 0 && r.ref_@.last() == '/'),
        path.push("$ref"@),
        "JSON Schema reference expression must starts with `#/`"@,
    ) + cond_guard(
        starts_with_v(r.ref_@, "#/components/schemas/"@),
        path.push("$ref"@),
        "KCG supports only `#/components/schemas` prefixed reference"@,
    ) + cond_guard(
        !has_char_from(r.ref_@, '/', "#/components/schemas/"@.len() as int),
        path.push("$ref"@),
        "KCG does not support nested paths"@,
    )
}

impl Lint for Doc {
    open spec fn lint_v(&self, path: Seq<Seq<char>>) -> Seq<LogV> {
        doc_lint_v(*self, path)
    }

    /// Checks whether the document exactly fits the supported subset;
    /// results are recorded into `context`.
    fn lint(&self, path: Path, context: &mut Context) {
        let ghost o = context@;
        match &self.components {
            Option::None => context.error(
                path.appending("components"),
                "missing required property `components`",
            ),
            Option::Some(x) => x.lint(path.appending("components"), context),
        }
        proof {
            assert(context@ =~= o + doc_lint_v(*self, path@));
        }
    }
}

impl Lint for Components {
    open spec fn lint_v(&self, path: Seq<Seq<char>>) -> Seq<LogV> {
        components_lint_v(*self, path)
    }

    fn lint(&self, path: Path, context: &mut Context) {
        let ghost o = context@;
        match &self.schemas {
            Option::None => context.error(
                path.appending("schemas"),
                "missing required property `schemas`",
            ),
            Option::Some(x) => {
                let n = x.len();
                let mut i: usize = 0;
                proof {
                    assert(schema_entries_lint_v(x.entries@.take(0), path@) =~= Seq::<
                        LogV,
                    >::empty());
                    assert(context@ =~= o + schema_entries_lint_v(x.entries@.take(0), path@));
                }
                while i < n
                    invariant
                        0 <= i <= n,
                        n == x.entries@.len(),
                        context@ == o + schema_entries_lint_v(x.entries@.take(i as int), path@),
                    decreases n - i,
                {
                    let name = x.key_at(i);
                    x.value_at(i).lint(path.appending(name.as_str()), context);
                    proof {
                        let es = x.entries@;
                        let t = es.take(i + 1);
                        assert(t.drop_last() =~= es.take(i as int));
                        assert(t.last() == es[i as int]);
                        assert(context@ =~= o + schema_entries_lint_v(t, path@));
                    }
                    i = i + 1;
                }
                proof {
                    assert(x.entries@.take(n as int) =~= x.entries@);
                }
            },
        }
        proof {
            assert(context@ =~= o + components_lint_v(*self, path@));
        }
    }
}

impl Lint for ReferencedOrInlineSchema {
    open spec fn lint_v(&self, path: Seq<Seq<char>>) -> Seq<LogV> {
        roi_lint_v(*self, path)
    }

    fn lint(&self, path: Path, context: &mut Context) {
        match self {
            ReferencedOrInlineSchema::Referenced(x) => x.lint(path, context),
            ReferencedOrInlineSchema::Inline(x) => x.lint(path, context),
        }
    }
}

impl Lint for Schema {
    open spec fn lint_v(&self, path: Seq<Seq<char>>) -> Seq<LogV> {
        schema_lint_v(*self, path)
    }

    /// A schema node defines a type; only the patterns mapped to the
    /// four canonical shapes are accepted, and everything else is
    /// rejected.
    fn lint(&self, path: Path, context: &mut Context) {
        let ghost o = context@;
        context.guard_nil_property_for_unsupported_feature(
            &self.any_of,
            path.appending("anyOf"),
            "property for unsupported feature has non-`nil` value",
        );
        context.guard_nil_property_for_unsupported_feature(
            &self.format,
            path.appending("format"),
            "property for unsupported feature has non-`nil` value",
        );
        context.guard_nil_property_for_unsupported_feature(
            &self.not,
            path.appending("not"),
            "property for unsupported feature has non-`nil` value",
        );
        match self.classify() {
            SchemaShape::NewType => self.lint_new_type(path, context),
            SchemaShape::EnumType => self.lint_enum_type(path, context),
            SchemaShape::SumType => self.lint_sum_type(path, context),
            SchemaShape::ProdType => self.lint_prod_type(path, context),
            SchemaShape::Unsupported => context.error(
                path,
                "unknown/unsupported schema pattern (none of new/enum/sum/prod type)",
            ),
        }
        proof {
            assert(context@ =~= o + schema_lint_v(*self, path@));
        }
    }
}

impl Schema {
    fn lint_new_type(&self, path: Path, context: &mut Context)
        ensures
            final(context)@ == old(context)@ + new_type_lint_v(*self, path@),
    {
        let ghost o = context@;
        context.guard_nil_property(
            &self.items,
            path.appending("items"),
            "must be `nil` to make new-type",
        );
        context.guard_nil_property(
            &self.all_of,
            path.appending("allOf"),
            "must be `nil` to make new-type",
        );
        context.guard_nil_property(
            &self.format,
            path.appending("format"),
            "must be `nil` to make new-type",
        );
        context.guard_nil_property(
            &self.any_of,
            path.appending("anyOf"),
            "must be `nil` to make new-type",
        );
        context.guard_nil_property(
            &self.properties,
            path.appending("properties"),
            "must be `nil` to make new-type",
        );
        proof {
            assert(context@ =~= o + new_type_lint_v(*self, path@));
        }
    }

    fn lint_enum_type(&self, path: Path, context: &mut Context)
        ensures
            final(context)@ == old(context)@ + enum_type_lint_v(*self, path@),
    {
        let ghost o = context@;
        context.guard_nil_property(
            &self.items,
            path.appending("items"),
            "must be `nil` to make new-type",
        );
        context.guard_nil_property(
            &self.all_of,
            path.appending("allOf"),
            "must be `nil` to make new-type",
        );
        context.guard_nil_property(
            &self.format,
            path.appending("format"),
            "must be `nil` to make new-type",
        );
        context.guard_nil_property(
            &self.any_of,
            path.appending("anyOf"),
            "must be `nil` to make new-type",
        );
        context.guard_nil_property(
            &self.properties,
            path.appending("properties"),
            "must be `nil` to make new-type",
        );
        context.guard(
            str_eq(opt_str(&self.type_), "string"),
            path.appending("type"),
            "enum-type must declare `string` type (non-string enumerations are not supported)",
        );
        proof {
            assert(context@ =~= o + enum_type_lint_v(*self, path@));
        }
    }

    fn lint_sum_type(&self, path: Path, context: &mut Context)
        ensures
            final(context)@ == old(context)@ + sum_type_lint_v(*self, path@),
    {
        let ghost o = context@;
        context.guard_nil_property(
            &self.items,
            path.appending("items"),
            "must be `nil` to make sum-type",
        );
        context.guard_nil_property(
            &self.format,
            path.appending("format"),
            "must be `nil` to make sum-type",
        );
        context.guard_nil_property(
            &self.any_of,
            path.appending("anyOf"),
            "must be `nil` to make sum-type",
        );
        context.guard_nil_property(
            &self.properties,
            path.appending("properties"),
            "must be `nil` to make sum-type",
        );
        context.guard_nil_property(
            &self.enum_,
            path.appending("enum"),
            "must be `nil` to make sum-type",
        );
        context.guard_some_property(
            &self.one_of,
            path.appending("oneOf"),
            "must be non-`nil` to make sum-type",
        );
        context.guard_some_property(
            &self.discriminator,
            path.appending("discriminator"),
            "must be non-`nil` to make sum-type",
        );
        match self.discriminator.as_ref() {
            Option::None => (),
            Option::Some(det) => det.lint(path.appending("discriminator"), context),
        }
        proof {
            assert(context@ =~= o + sum_type_lint_v(*self, path@));
        }
    }

    fn lint_prod_type(&self, path: Path, context: &mut Context)
        ensures
            final(context)@ == old(context)@ + prod_type_lint_v(*self, path@),
    {
        let ghost o = context@;
        context.guard_nil_property(
            &self.items,
            path.appending("items"),
            "must be non-`nil` to make prod-type",
        );
        context.guard_nil_property(
            &self.format,
            path.appending("format"),
            "must be non-`nil` to make prod-type",
        );
        context.guard_nil_property(
            &self.any_of,
            path.appending("anyOf"),
            "must be non-`nil` to make prod-type",
        );
        context.guard_nil_property(
            &self.one_of,
            path.appending("oneOf"),
            "must be non-`nil` to make prod-type",
        );
        context.guard_nil_property(
            &self.discriminator,
            path.appending("discriminator"),
            "must be non-`nil` to make prod-type",
        );
        context.guard_nil_property(
            &self.enum_,
            path.appending("enum"),
            "must be non-`nil` to make prod-type",
        );
        context.guard_some_property(
            &self.properties,
            path.appending("properties"),
            "must be non-`nil` to make prod-type",
        );
        let ghost mid = context@;
        match &self.properties {
            Option::None => (),
            Option::Some(props) => {
                let n = props.len();
                let mut i: usize = 0;
                proof {
                    assert(property_entries_lint_v(props.entries@.take(0), path@) =~= Seq::<
                        LogV,
                    >::empty());
                    assert(context@ =~= mid + property_entries_lint_v(
                        props.entries@.take(0),
                        path@,
                    ));
                }
                while i < n
                    invariant
                        0 <= i <= n,
                        n == props.entries@.len(),
                        context@ == mid + property_entries_lint_v(
                            props.entries@.take(i as int),
                            path@,
                        ),
                    decreases n - i,
                {
                    let name = props.key_at(i);
                    match props.value_at(i) {
                        ReferencedOrInlineSchema::Referenced(_) => (),
                        ReferencedOrInlineSchema::Inline(p) => p.lint_property(
                            path.appending(name.as_str()),
                            context,
                        ),
                    }
                    proof {
                        let es = props.entries@;
                        let t = es.take(i + 1);
                        assert(t.drop_last() =~= es.take(i as int));
                        assert(t.last() == es[i as int]);
                        assert(context@ =~= mid + property_entries_lint_v(t, path@));
                    }
                    i = i + 1;
                }
                proof {
                    assert(props.entries@.take(n as int) =~= props.entries@);
                }
            },
        }
        proof {
            assert(context@ =~= o + prod_type_lint_v(*self, path@));
        }
    }

    fn lint_property(&self, path: Path, context: &mut Context)
        ensures
            final(context)@ == old(context)@ + property_lint_v(*self, path@),
    {
        let ghost o = context@;
        if self.is_prim_type() {
            let t = opt_str(&self.type_);
            let f = opt_str(&self.format);
            if str_eq(t, "boolean") {
                if f.unicode_len() == 0 {
                } else {
                    context.error(path, "`boolean` type property should not have `format` defined")
                }
            } else if str_eq(t, "integer") {
                if str_eq(f, "int32") {
                } else if str_eq(f, "int64") {
                    context.error(
                        path,
                        "`int64` property is not supported due to silent precision loss in JavaScript",
                    )
                } else {
                    context.error(path, "`integer` type property must define `format` to `int32`")
                }
            } else if str_eq(t, "number") {
                if str_eq(f, "float") || str_eq(f, "double") {
                } else {
                    context.error(
                        path,
                        "`number` type property must define `format` to one of `float` or `double`",
                    )
                }
            } else if str_eq(t, "string") {
            } else if str_eq(t, "array") {
            } else {
                context.error(
                    path,
                    "`type` must be set to one of `boolean`, `integer`, `number`, `array` (inline `object` definition is not supported)",
                )
            }
        } else if str_eq(opt_str(&self.type_), "object") {
            context.error(
                path,
                "`type` must be set to one of `boolean`, `integer`, `number`, `array` (inline `object` definition is not supported)",
            )
        }
        proof {
            assert(context@ =~= o + property_lint_v(*self, path@));
        }
    }
}

impl Lint for Discriminator {
    open spec fn lint_v(&self, path: Seq<Seq<char>>) -> Seq<LogV> {
        discriminator_lint_v(*self, path)
    }

    fn lint(&self, path: Path, context: &mut Context) {
        let ghost o = context@;
        context.guard_nil_property_for_unsupported_feature(
            &self.mapping,
            path.appending("mapping"),
            "property for unsupported feature has non-`nil` value",
        );
        proof {
            assert(context@ =~= o + discriminator_lint_v(*self, path@));
        }
    }
}

impl Lint for Reference {
    open spec fn lint_v(&self, path: Seq<Seq<char>>) -> Seq<LogV> {
        reference_lint_v(*self, path)
    }

    fn lint(&self, path: Path, context: &mut Context) {
        let ghost o = context@;
        let x = self.ref_.as_str();
        context.guard(
            starts_with(x, "#/"),
            path.appending("$ref"),
            "JSON Schema reference expression must starts with `#/`",
        );
        context.guard(
            !ends_with_char(x, '/'),
            path.appending("$ref"),
            "JSON Schema reference expression must starts with `#/`",
        );
        context.guard(
            starts_with(x, "#/components/schemas/"),
            path.appending("$ref"),
            "KCG supports only `#/components/schemas` prefixed reference",
        );
        let prefix_len = "#/components/schemas/".unicode_len();
        context.guard(
            !has_char_at_or_after(x, '/', prefix_len),
            path.appending("$ref"),
            "KCG does not support nested paths",
        );
        proof {
            assert(context@ =~= o + reference_lint_v(*self, path@));
        }
    }
}

} // verus!
