use kcg::lint::Context;
use kcg::lint::Path;
use kcg::lint::Severity;
use kcg::openapi3::StringMap;
use kcg::strutil::code_documentation;
use kcg::strutil::indent;
use kcg::strutil::prefix;
use kcg::strutil::suffix_after_last;
use kcg::strutil::trim;

#[test]
fn path_appending_keeps_order_and_shares_nothing_visible() {
    let p = Path::default();
    assert_eq!(p.to_string(), "");
    let q = p.appending("components");
    let r = q.appending("schemas").appending("Pet");
    assert_eq!(p.to_string(), "");
    assert_eq!(q.to_string(), "components");
    assert_eq!(r.to_string(), "components/schemas/Pet");
    let s = q.appending("other");
    assert_eq!(s.to_string(), "components/other");
    assert_eq!(q.clone().to_string(), "components");
}

#[test]
fn context_records_and_renders_errors() {
    let mut x = Context::default();
    assert!(x.check().is_ok());
    x.error(Path::default().appending("components"), "missing thing");
    assert_eq!(x.logs.len(), 1);
    assert_eq!(x.logs[0].severity, Severity::Error);
    assert_eq!(x.logs[0].to_string(), "Error(components): missing thing");
    assert_eq!(x.to_string(), "- Error(components): missing thing\n");
}

#[test]
fn check_collects_every_error_in_order() {
    let mut x = Context::default();
    x.error(Path::default().appending("a"), "first");
    x.error(Path::default().appending("b"), "second");
    let e = x.check().unwrap_err();
    assert_eq!(e.0.len(), 2);
    assert_eq!(e.0[0].message, "first");
    assert_eq!(e.0[1].message, "second");
    assert_eq!(
        e.to_string(),
        "- Error(a): first\n- Error(b): second\n"
    );
}

#[test]
fn string_map_keeps_insertion_order_and_replaces_in_place() {
    let mut m: StringMap<i32> = StringMap::new();
    m.insert("b".to_string(), 1);
    m.insert("a".to_string(), 2);
    m.insert("c".to_string(), 3);
    assert_eq!(m.len(), 3);
    assert_eq!(m.key_at(0).as_str(), "b");
    assert_eq!(m.key_at(1).as_str(), "a");
    assert_eq!(m.key_at(2).as_str(), "c");
    m.insert("a".to_string(), 9);
    assert_eq!(m.len(), 3);
    assert_eq!(m.key_at(1).as_str(), "a");
    assert_eq!(*m.value_at(1), 9);
    assert!(m.contains_key("a"));
    assert!(!m.contains_key("z"));
}

#[test]
fn prefix_marks_every_line() {
    assert_eq!(prefix("a\nb", "> "), "> a\n> b");
    assert_eq!(prefix("", "> "), "> ");
    assert_eq!(indent("x\ny"), "    x\n    y");
    assert_eq!(code_documentation(""), "");
    assert_eq!(code_documentation("one\ntwo"), "/// one\n/// two");
}

#[test]
fn trim_removes_surrounding_whitespace_only() {
    assert_eq!(trim("  a b \n"), "a b");
    assert_eq!(trim("\n\t \r"), "");
    assert_eq!(trim("abc"), "abc");
    assert_eq!(trim(""), "");
}

#[test]
fn suffix_after_last_takes_final_segment() {
    assert_eq!(suffix_after_last("#/components/schemas/Pet", '/'), "Pet");
    assert_eq!(suffix_after_last("plain", '/'), "plain");
    assert_eq!(suffix_after_last("trailing/", '/'), "");
    assert_eq!(suffix_after_last("", '/'), "");
}
