//! The code emitter: renders the intermediate model to Rust type
//! declarations, one block per type in document order, using fixed
//! templates. Enumerations get round-trip string conversions; sum
//! types get a serialization tag when the model names a discriminant.

use vstd::prelude::*;
use vstd::string::StrSliceExecFns;
use vstd::string::StringExecFns;
use crate::message::KContentStorage;
use crate::message::KEnumType;
use crate::message::KEnumTypeCase;
use crate::message::KEnumTypeCaseV;
use crate::message::KNewType;
use crate::message::KPrimType;
use crate::message::KProdType;
use crate::message::KProdTypeField;
use crate::message::KSumType;
use crate::message::KSumTypeVariant;
use crate::message::KType;
use crate::message::KTypeRef;
use crate::model::Doc1;
use crate::strutil::code_documentation;
use crate::strutil::code_documentation_v;
use crate::strutil::indent;
use crate::strutil::prefix_v;
use crate::strutil::trim;
use crate::strutil::trim_v;

verus! {

/// A model value that renders to target-language source text.
pub trait CodeGen {
    /// The text this value renders to.
    spec fn code_v(&self) -> Seq<char>;

    /// Renders this value to target-language source text.
    fn code(&self) -> (r: String)
        ensures
            r@ == self.code_v(),
    ;
}

/// The joined rendering of a list: each element's rendering trimmed,
/// with the separator between neighbours.
pub open spec fn joined_code_v<T: CodeGen>(xs: Seq<T>, sep: Seq<char>) -> Seq<char>
    decreases xs.len(),
{
    if xs.len() == 0 {
        Seq::empty()
    } else if xs.len() == 1 {
        trim_v(xs[0].code_v())
    } else {
        joined_code_v(xs.drop_last(), sep) + sep + trim_v(xs.last().code_v())
    }
}

/// The rendering of an inner list (cases, variants, fields): trimmed
/// elements, one per line.
pub open spec fn list_code_v<T: CodeGen>(xs: Seq<T>) -> Seq<char> {
    joined_code_v(xs, "\n"@)
}

/// Joins the trimmed renderings of the elements with the separator.
#[verifier::loop_isolation(false)]
fn joined_code<T: CodeGen>(xs: &Vec<T>, sep: &str) -> (r: String)
    ensures
        r@ == joined_code_v(xs@, sep@),
{
    let n = xs.len();
    let mut z = String::new();
    let mut i: usize = 0;
    proof {
        assert(joined_code_v(xs@.take(0), sep@) =~= Seq::<char>::empty());
    }
    while i < n
        invariant
            0 <= i <= n,
            z@ == joined_code_v(xs@.take(i as int), sep@),
        decreases n - i,
    {
        if i > 0 {
            z.append(sep);
        }
        let c = xs[i].code();
        let tc = trim(c.as_str());
        z.append(tc.as_str());
        proof {
            let t = xs@.take(i + 1);
            assert(t.drop_last() =~= xs@.take(i as int));
            assert(t.last() == xs@[i as int]);
            assert(z@ =~= joined_code_v(t, sep@));
        }
        i = i + 1;
    }
    proof {
        assert(xs@.take(n as int) =~= xs@);
    }
    z
}

impl<T: CodeGen> CodeGen for Vec<T> {
    open spec fn code_v(&self) -> Seq<char> {
        list_code_v(self@)
    }

    fn code(&self) -> (r: String) {
        joined_code(self, "\n")
    }
}

/// The comment block above a declaration: the doc-comment rendering
/// of the composed comment followed by a line break, omitted entirely
/// when the comment is empty.
pub open spec fn comment_block_v(c: Seq<char>) -> Seq<char> {
    if c.len() == 0 {
        Seq::empty()
    } else {
        code_documentation_v(c) + "\n"@
    }
}

/// Renders the comment block above a declaration.
fn comment_block(c: &str) -> (r: String)
    ensures
        r@ == comment_block_v(c@),
{
    if c.unicode_len() == 0 {
        String::new()
    } else {
        let mut z = code_documentation(c);
        z.append("\n");
        z
    }
}

impl CodeGen for KPrimType {
    open spec fn code_v(&self) -> Seq<char> {
        match *self {
            KPrimType::Bool => "bool"@,
            KPrimType::I32 => "i32"@,
            KPrimType::I64 => "i64"@,
            KPrimType::F32 => "f32"@,
            KPrimType::F64 => "f64"@,
            KPrimType::String => "String"@,
        }
    }

    fn code(&self) -> (r: String) {
        match self {
            KPrimType::Bool => String::from_str("bool"),
            KPrimType::I32 => String::from_str("i32"),
            KPrimType::I64 => String::from_str("i64"),
            KPrimType::F32 => String::from_str("f32"),
            KPrimType::F64 => String::from_str("f64"),
            KPrimType::String => String::from_str("String"),
        }
    }
}

impl CodeGen for KTypeRef {
    open spec fn code_v(&self) -> Seq<char> {
        match *self {
            KTypeRef::Unit => "()"@,
            KTypeRef::Prim(p) => p.code_v(),
            KTypeRef::Def(ref s) => s@,
        }
    }

    fn code(&self) -> (r: String) {
        match self {
            KTypeRef::Unit => String::from_str("()"),
            KTypeRef::Prim(p) => p.code(),
            KTypeRef::Def(s) => s.clone(),
        }
    }
}

impl CodeGen for KContentStorage {
    open spec fn code_v(&self) -> Seq<char> {
        if self.array && self.optional {
            "Option<Vec<"@ + self.storage.code_v() + ">>"@
        } else if self.array {
            "Vec<"@ + self.storage.code_v() + ">"@
        } else if self.optional {
            "Option<"@ + self.storage.code_v() + ">"@
        } else {
            self.storage.code_v()
        }
    }

    fn code(&self) -> (r: String) {
        let base = self.storage.code();
        if self.array && self.optional {
            let mut z = String::from_str("Option<Vec<");
            z.append(base.as_str());
            z.append(">>");
            proof {
                assert(z@ =~= self.code_v());
            }
            z
        } else if self.array {
            let mut z = String::from_str("Vec<");
            z.append(base.as_str());
            z.append(">");
            proof {
                assert(z@ =~= self.code_v());
            }
            z
        } else if self.optional {
            let mut z = String::from_str("Option<");
            z.append(base.as_str());
            z.append(">");
            proof {
                assert(z@ =~= self.code_v());
            }
            z
        } else {
            base
        }
    }
}

/// Content composition closure: a content storage renders as exactly
/// one of the four legal compositions over its base reference — bare,
/// sequence-of, optional-of, or optional-sequence-of. In particular a
/// sequence of optionals is never produced: the optional slot only
/// ever wraps the whole composition.
pub proof fn lemma_content_composition_closure(c: KContentStorage)
    ensures
        ({
            let base = c.storage.code_v();
            c.code_v() == (if c.array && c.optional {
                "Option<Vec<"@ + base + ">>"@
            } else if c.array {
                "Vec<"@ + base + ">"@
            } else if c.optional {
                "Option<"@ + base + ">"@
            } else {
                base
            })
        }),
{
}

impl CodeGen for KNewType {
    open spec fn code_v(&self) -> Seq<char> {
        comment_block_v(self.comment@) + "pub type "@ + self.name@ + " = "@
            + self.origin.code_v() + ";\n"@
    }

    fn code(&self) -> (r: String) {
        let mut z = comment_block(self.comment.as_str());
        z.append("pub type ");
        z.append(self.name.as_str());
        z.append(" = ");
        let o = self.origin.code();
        z.append(o.as_str());
        z.append(";\n");
        proof {
            assert(z@ =~= self.code_v());
        }
        z
    }
}

impl CodeGen for KEnumTypeCase {
    open spec fn code_v(&self) -> Seq<char> {
        self.name@ + ",\n"@
    }

    fn code(&self) -> (r: String) {
        let mut z = self.name.clone();
        z.append(",\n");
        z
    }
}

/// The text of one emitted string-to-case match arm.
pub open spec fn from_str_code_v(c: KEnumTypeCaseV) -> Seq<char> {
    "\""@ + c.name + "\" => Ok("@ + c.name + "),"@
}

/// One emitted string-to-case match arm.
pub fn from_str_code(s: &KEnumTypeCase) -> (r: String)
    ensures
        r@ == from_str_code_v(s@),
{
    let mut z = String::from_str("\"");
    z.append(s.name.as_str());
    z.append("\" => Ok(");
    z.append(s.name.as_str());
    z.append("),");
    proof {
        assert(z@ =~= from_str_code_v(s@));
    }
    z
}

/// The text of one emitted case-to-string match arm.
pub open spec fn to_str_code_v(c: KEnumTypeCaseV) -> Seq<char> {
    c.name + " => \""@ + c.name + "\".to_string(),"@
}

/// One emitted case-to-string match arm.
pub fn to_str_code(s: &KEnumTypeCase) -> (r: String)
    ensures
        r@ == to_str_code_v(s@),
{
    let mut z = s.name.clone();
    z.append(" => \"");
    z.append(s.name.as_str());
    z.append("\".to_string(),");
    proof {
        assert(z@ =~= to_str_code_v(s@));
    }
    z
}

/// The emitted match arms of the string-to-case conversion, one line
/// per case in declaration order.
pub open spec fn from_str_cases_v(cs: Seq<KEnumTypeCaseV>) -> Seq<char>
    decreases cs.len(),
{
    if cs.len() == 0 {
        Seq::empty()
    } else if cs.len() == 1 {
        from_str_code_v(cs[0])
    } else {
        from_str_cases_v(cs.drop_last()) + "\n"@ + from_str_code_v(cs.last())
    }
}

/// The emitted match arms of the case-to-string conversion, one line
/// per case in declaration order.
pub open spec fn to_str_cases_v(cs: Seq<KEnumTypeCaseV>) -> Seq<char>
    decreases cs.len(),
{
    if cs.len() == 0 {
        Seq::empty()
    } else if cs.len() == 1 {
        to_str_code_v(cs[0])
    } else {
        to_str_cases_v(cs.drop_last()) + "\n"@ + to_str_code_v(cs.last())
    }
}

#[verifier::loop_isolation(false)]
fn join_from_str_cases(cs: &Vec<KEnumTypeCase>) -> (r: String)
    ensures
        r@ == from_str_cases_v(cs.deep_view()),
{
    let n = cs.len();
    let mut z = String::new();
    let mut i: usize = 0;
    proof {
        assert(from_str_cases_v(cs.deep_view().take(0)) =~= Seq::<char>::empty());
    }
    while i < n
        invariant
            0 <= i <= n,
            z@ == from_str_cases_v(cs.deep_view().take(i as int)),
        decreases n - i,
    {
        if i > 0 {
            z.append("\n");
        }
        let line = from_str_code(&cs[i]);
        z.append(line.as_str());
        proof {
            let t = cs.deep_view().take(i + 1);
            assert(t.drop_last() =~= cs.deep_view().take(i as int));
            assert(t.last() == cs.deep_view()[i as int]);
            assert(z@ =~= from_str_cases_v(t));
        }
        i = i + 1;
    }
    proof {
        assert(cs.deep_view().take(n as int) =~= cs.deep_view());
    }
    z
}

#[verifier::loop_isolation(false)]
fn join_to_str_cases(cs: &Vec<KEnumTypeCase>) -> (r: String)
    ensures
        r@ == to_str_cases_v(cs.deep_view()),
{
    let n = cs.len();
    let mut z = String::new();
    let mut i: usize = 0;
    proof {
        assert(to_str_cases_v(cs.deep_view().take(0)) =~= Seq::<char>::empty());
    }
    while i < n
        invariant
            0 <= i <= n,
            z@ == to_str_cases_v(cs.deep_view().take(i as int)),
        decreases n - i,
    {
        if i > 0 {
            z.append("\n");
        }
        let line = to_str_code(&cs[i]);
        z.append(line.as_str());
        proof {
            let t = cs.deep_view().take(i + 1);
            assert(t.drop_last() =~= cs.deep_view().take(i as int));
            assert(t.last() == cs.deep_view()[i as int]);
            assert(z@ =~= to_str_cases_v(t));
        }
        i = i + 1;
    }
    proof {
        assert(cs.deep_view().take(n as int) =~= cs.deep_view());
    }
    z
}

/// The string-to-case lookup the emitted enumeration carries: the
/// first declared case whose name equals the string, or failure when
/// no case name matches.
pub open spec fn enum_from_string(cases: Seq<KEnumTypeCaseV>, s: Seq<char>) -> Option<Seq<char>>
    decreases cases.len(),
{
    if cases.len() == 0 {
        Option::None
    } else if cases[0].name == s {
        Option::Some(cases[0].name)
    } else {
        enum_from_string(cases.skip(1), s)
    }
}

/// The case-to-string conversion the emitted enumeration carries: a
/// case renders back as its own name.
pub open spec fn enum_to_string(case_name: Seq<char>) -> Seq<char> {
    case_name
}

/// Enum round-trip: for every string equal to some declared case
/// name, the string-to-case lookup succeeds and converting the found
/// case back to a string returns the original string; for every other
/// string the lookup fails.
pub proof fn lemma_enum_round_trip(cases: Seq<KEnumTypeCaseV>, s: Seq<char>)
    ensures
        (exists|i: int| 0 <= i < cases.len() && cases[i].name == s) ==> (enum_from_string(cases, s)
            == Option::Some(s) && enum_to_string(enum_from_string(cases, s)->0) == s),
        !(exists|i: int| 0 <= i < cases.len() && cases[i].name == s) ==> enum_from_string(cases, s)
            is None,
    decreases cases.len(),
{
    if cases.len() > 0 && cases[0].name != s {
        lemma_enum_round_trip(cases.skip(1), s);
        assert forall|i: int|
            0 <= i < cases.len() && cases[i].name == s implies (exists|j: int|
            0 <= j < cases.skip(1).len() && cases.skip(1)[j].name == s) by {
            assert(cases.skip(1)[i - 1].name == s);
        }
        if exists|j: int| 0 <= j < cases.skip(1).len() && cases.skip(1)[j].name == s {
            let j = choose|j: int| 0 <= j < cases.skip(1).len() && cases.skip(1)[j].name == s;
            assert(cases[j + 1].name == s);
        }
    }
}

impl CodeGen for KEnumType {
    open spec fn code_v(&self) -> Seq<char> {
        comment_block_v(self.comment@)
            + "#[derive(Serialize,Deserialize)]\n#[derive(Eq,PartialEq)]\n#[derive(Debug)]\npub enum "@
            + self.name@ + " {\n"@ + prefix_v(list_code_v(self.cases@), "    "@) + "\n}\nimpl std::str::FromStr for "@
            + self.name@
            + " {\n    type Err = String;\n    fn from_str(s: &str) -> Result<Self, Self::Err> {\n        use "@
            + self.name@ + "::*;\n        match s {\n"@ + prefix_v(
            prefix_v(prefix_v(from_str_cases_v(self.cases.deep_view()), "    "@), "    "@),
            "    "@,
        )
            + "\n            _ => Err(\"unknown case name\".to_string()),\n        }\n    }\n}\nimpl std::string::ToString for "@
            + self.name@ + " {\n    fn to_string(&self) -> String {\n        use "@ + self.name@
            + "::*;\n        match self {\n"@ + prefix_v(
            prefix_v(prefix_v(to_str_cases_v(self.cases.deep_view()), "    "@), "    "@),
            "    "@,
        ) + "\n        }\n    }\n}\n"@
    }

    fn code(&self) -> (r: String) {
        let mut z = comment_block(self.comment.as_str());
        z.append("#[derive(Serialize,Deserialize)]\n#[derive(Eq,PartialEq)]\n#[derive(Debug)]\npub enum ");
        z.append(self.name.as_str());
        z.append(" {\n");
        let cases_code = self.cases.code();
        let cases_block = indent(cases_code.as_str());
        z.append(cases_block.as_str());
        z.append("\n}\nimpl std::str::FromStr for ");
        z.append(self.name.as_str());
        z.append(" {\n    type Err = String;\n    fn from_str(s: &str) -> Result<Self, Self::Err> {\n        use ");
        z.append(self.name.as_str());
        z.append("::*;\n        match s {\n");
        let fsc = join_from_str_cases(&self.cases);
        let fsc1 = indent(fsc.as_str());
        let fsc2 = indent(fsc1.as_str());
        let fsc3 = indent(fsc2.as_str());
        z.append(fsc3.as_str());
        z.append("\n            _ => Err(\"unknown case name\".to_string()),\n        }\n    }\n}\nimpl std::string::ToString for ");
        z.append(self.name.as_str());
        z.append(" {\n    fn to_string(&self) -> String {\n        use ");
        z.append(self.name.as_str());
        z.append("::*;\n        match self {\n");
        let tsc = join_to_str_cases(&self.cases);
        let tsc1 = indent(tsc.as_str());
        let tsc2 = indent(tsc1.as_str());
        let tsc3 = indent(tsc2.as_str());
        z.append(tsc3.as_str());
        z.append("\n        }\n    }\n}\n");
        proof {
            assert(z@ =~= self.code_v());
        }
        z
    }
}

impl CodeGen for KSumTypeVariant {
    open spec fn code_v(&self) -> Seq<char> {
        comment_block_v(self.comment@) + self.name@ + "("@ + self.content.code_v() + "),\n"@
    }

    fn code(&self) -> (r: String) {
        let mut z = comment_block(self.comment.as_str());
        z.append(self.name.as_str());
        z.append("(");
        let c = self.content.code();
        z.append(c.as_str());
        z.append("),\n");
        proof {
            assert(z@ =~= self.code_v());
        }
        z
    }
}

impl CodeGen for KSumType {
    open spec fn code_v(&self) -> Seq<char> {
        comment_block_v(self.comment@)
            + "#[derive(Serialize,Deserialize)]\n#[derive(Eq,PartialEq)]\n#[derive(Debug)]\n"@ + (
        if self.discriminant@.len() > 0 {
            "#[serde(tag=\""@ + self.discriminant@ + "\")]\n"@
        } else {
            Seq::empty()
        }) + "pub enum "@ + self.name@ + " {\n"@ + prefix_v(list_code_v(self.variants@), "    "@)
            + "\n}\n"@
    }

    fn code(&self) -> (r: String) {
        let mut z = comment_block(self.comment.as_str());
        z.append("#[derive(Serialize,Deserialize)]\n#[derive(Eq,PartialEq)]\n#[derive(Debug)]\n");
        if self.discriminant.as_str().unicode_len() > 0 {
            z.append("#[serde(tag=\"");
            z.append(self.discriminant.as_str());
            z.append("\")]\n");
        }
        z.append("pub enum ");
        z.append(self.name.as_str());
        z.append(" {\n");
        let vs = self.variants.code();
        let vs_block = indent(vs.as_str());
        z.append(vs_block.as_str());
        z.append("\n}\n");
        proof {
            assert(z@ =~= self.code_v());
        }
        z
    }
}

impl CodeGen for KProdTypeField {
    open spec fn code_v(&self) -> Seq<char> {
        comment_block_v(self.comment@) + "pub "@ + self.name@ + ": "@ + self.content.code_v()
            + ",\n"@
    }

    fn code(&self) -> (r: String) {
        let mut z = comment_block(self.comment.as_str());
        z.append("pub ");
        z.append(self.name.as_str());
        z.append(": ");
        let c = self.content.code();
        z.append(c.as_str());
        z.append(",\n");
        proof {
            assert(z@ =~= self.code_v());
        }
        z
    }
}

impl CodeGen for KProdType {
    open spec fn code_v(&self) -> Seq<char> {
        comment_block_v(self.comment@)
            + "#[derive(Serialize,Deserialize)]\n#[derive(Eq,PartialEq)]\n#[derive(Debug)]\npub struct "@
            + self.name@ + " {\n"@ + prefix_v(list_code_v(self.fields@), "    "@) + "\n}\n"@
    }

    fn code(&self) -> (r: String) {
        let mut z = comment_block(self.comment.as_str());
        z.append("#[derive(Serialize,Deserialize)]\n#[derive(Eq,PartialEq)]\n#[derive(Debug)]\npub struct ");
        z.append(self.name.as_str());
        z.append(" {\n");
        let fs = self.fields.code();
        let fs_block = indent(fs.as_str());
        z.append(fs_block.as_str());
        z.append("\n}\n");
        proof {
            assert(z@ =~= self.code_v());
        }
        z
    }
}

impl CodeGen for KType {
    open spec fn code_v(&self) -> Seq<char> {
        match *self {
            KType::New(ref x) => x.code_v(),
            KType::Enum(ref x) => x.code_v(),
            KType::Sum(ref x) => x.code_v(),
            KType::Prod(ref x) => x.code_v(),
        }
    }

    fn code(&self) -> (r: String) {
        match self {
            KType::New(x) => x.code(),
            KType::Enum(x) => x.code(),
            KType::Sum(x) => x.code(),
            KType::Prod(x) => x.code(),
        }
    }
}

impl CodeGen for Doc1 {
    open spec fn code_v(&self) -> Seq<char> {
        "use serde_derive::{Serialize, Deserialize};\n\n"@ + joined_code_v(self.types@, "\n\n"@)
            + "\n"@
    }

    fn code(&self) -> (r: String) {
        let mut z = String::from_str("use serde_derive::{Serialize, Deserialize};\n\n");
        let ts = joined_code(&self.types, "\n\n");
        z.append(ts.as_str());
        z.append("\n");
        proof {
            assert(z@ =~= self.code_v());
        }
        z
    }
}

} // verus!
