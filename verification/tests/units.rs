//! Unit tests of the option defaulting, the text utilities, and the
//! JSON conversion of configuration values.
use blueprint::json::to_json_string;
use blueprint::text::{join_path, out_path, split_front_matter, stem, str_eq};
use blueprint::value::{table_get_str, table_set, ConfigValue, Table};
use blueprint::worker::handlebars::templates_dir;
use blueprint::worker::{dest_dir, source_dir};

fn s(x: &str) -> String {
    x.to_string()
}

fn table(entries: Vec<(&str, ConfigValue)>) -> Table {
    entries.into_iter().map(|(k, v)| (s(k), v)).collect()
}

#[test]
fn source_defaults_when_only_dest_is_given() {
    let task = table(vec![("dest", ConfigValue::Str(s("somewhere")))]);
    assert_eq!(source_dir(&task), "./pages");
    assert_eq!(dest_dir(&task), "somewhere");
}

#[test]
fn dest_defaults_when_only_source_is_given() {
    let task = table(vec![("source", ConfigValue::Str(s("content")))]);
    assert_eq!(source_dir(&task), "content");
    assert_eq!(dest_dir(&task), "./out");
}

#[test]
fn non_string_options_fall_back_to_defaults() {
    let task = table(vec![
        ("source", ConfigValue::Int(1)),
        ("dest", ConfigValue::Bool(true)),
    ]);
    assert_eq!(source_dir(&task), "./pages");
    assert_eq!(dest_dir(&task), "./out");
}

#[test]
fn templates_dir_defaults() {
    assert_eq!(templates_dir(&table(vec![])), "./templates");
    let opts = table(vec![("templates", ConfigValue::Str(s("tpl")))]);
    assert_eq!(templates_dir(&opts), "tpl");
}

#[test]
fn stem_takes_the_part_before_the_first_dot() {
    assert_eq!(stem("about.md"), "about");
    assert_eq!(stem("archive.tar.gz"), "archive");
    assert_eq!(stem("plain"), "plain");
    assert_eq!(stem(".md"), "");
}

#[test]
fn out_path_resolves_pretty_urls() {
    assert_eq!(out_path("out", "about"), "out/about/index.html");
    assert_eq!(out_path("out", "index"), "out/index.html");
    assert_eq!(join_path("a", "b.css"), "a/b.css");
}

#[test]
fn split_front_matter_on_the_first_delimiter() {
    let r = split_front_matter("title = \"x\"\n------\nbody text").unwrap();
    assert_eq!(r.0, "title = \"x\"\n");
    assert_eq!(r.1, "\nbody text");
    assert!(split_front_matter("no delimiter").is_none());
}

#[test]
fn split_front_matter_body_ends_at_the_next_delimiter() {
    let r = split_front_matter("a = 1\n------\nmiddle------tail").unwrap();
    assert_eq!(r.0, "a = 1\n");
    assert_eq!(r.1, "\nmiddle");
}

#[test]
fn str_eq_compares_characters() {
    assert!(str_eq("abc", "abc"));
    assert!(!str_eq("abc", "abd"));
    assert!(!str_eq("abc", "ab"));
    assert!(str_eq("", ""));
}

#[test]
fn table_set_replaces_and_appends() {
    let mut t = table(vec![("a", ConfigValue::Int(1)), ("b", ConfigValue::Int(2))]);
    table_set(&mut t, s("a"), ConfigValue::Int(9));
    table_set(&mut t, s("c"), ConfigValue::Int(3));
    assert_eq!(
        t,
        table(vec![
            ("a", ConfigValue::Int(9)),
            ("b", ConfigValue::Int(2)),
            ("c", ConfigValue::Int(3)),
        ])
    );
    assert_eq!(table_get_str(&t, "a"), None);
}

#[test]
fn json_of_scalars() {
    assert_eq!(to_json_string(&ConfigValue::Int(0)), "0");
    assert_eq!(to_json_string(&ConfigValue::Int(-42)), "-42");
    assert_eq!(to_json_string(&ConfigValue::Int(i64::MAX)), "9223372036854775807");
    assert_eq!(to_json_string(&ConfigValue::Int(i64::MIN)), "-9223372036854775808");
    assert_eq!(to_json_string(&ConfigValue::Bool(true)), "true");
    assert_eq!(to_json_string(&ConfigValue::Bool(false)), "false");
    assert_eq!(to_json_string(&ConfigValue::Float(s("1.5"))), "1.5");
    assert_eq!(to_json_string(&ConfigValue::Float(s("-2e10"))), "-2e10");
    assert_eq!(to_json_string(&ConfigValue::Float(s("NaN"))), "\"NaN\"");
    assert_eq!(to_json_string(&ConfigValue::Float(s("inf"))), "\"inf\"");
    assert_eq!(to_json_string(&ConfigValue::Float(s("-inf"))), "\"-inf\"");
    assert_eq!(
        to_json_string(&ConfigValue::Datetime(s("2020-01-02"))),
        "\"2020-01-02\""
    );
}

#[test]
fn json_of_strings_escapes() {
    assert_eq!(to_json_string(&ConfigValue::Str(s("plain"))), "\"plain\"");
    assert_eq!(
        to_json_string(&ConfigValue::Str(s("a\"b\\c\nd"))),
        "\"a\\\"b\\\\c\\nd\""
    );
    assert_eq!(
        to_json_string(&ConfigValue::Str(s("tab\there"))),
        "\"tab\\there\""
    );
    assert_eq!(
        to_json_string(&ConfigValue::Str(s("bell\u{0007}"))),
        "\"bell\\u0007\""
    );
}

#[test]
fn json_of_nested_values() {
    let v = ConfigValue::Table(table(vec![
        (
            "a",
            ConfigValue::Arr(vec![ConfigValue::Int(1), ConfigValue::Bool(true)]),
        ),
        ("b", ConfigValue::Str(s("x"))),
        (
            "t",
            ConfigValue::Table(table(vec![("k", ConfigValue::Str(s("v")))])),
        ),
    ]));
    assert_eq!(
        to_json_string(&v),
        "{\"a\":[1,true],\"b\":\"x\",\"t\":{\"k\":\"v\"}}"
    );
    assert_eq!(to_json_string(&ConfigValue::Arr(vec![])), "[]");
    assert_eq!(to_json_string(&ConfigValue::Table(table(vec![]))), "{}");
}
