use soma::fingerprint::stable_content_fingerprint;
use soma::json::{
    member_text, members_of, object_of, put_missing, remove_member, set_member, Json, Member,
    Members,
};
use soma::number::{
    decimal_text, hex_text, int_text, parse_i64, parse_u16, parse_u64, wide_decimal_text,
};
use soma::path::{absolute, file_name, join, same_path, with_extension, within};
use soma::shell::{command_line, shell_quote_arg};
use soma::storage::EpisodeSource;
use soma::text::{
    comes_before, lines, lower, mentions, replace, sorted, text_of_lines, trim, trim_of,
};

fn texts(items: &[&str]) -> Vec<String> {
    items.iter().map(|s| s.to_string()).collect()
}

#[test]
fn numbers_are_written_and_read() {
    assert_eq!(decimal_text(0), "0");
    assert_eq!(decimal_text(u64::MAX), "18446744073709551615");
    assert_eq!(wide_decimal_text(u128::MAX), "340282366920938463463374607431768211455");
    assert_eq!(int_text(i64::MIN), "-9223372036854775808");
    assert_eq!(hex_text(0xab, 4), "00ab");
    assert_eq!(parse_i64("-9223372036854775808"), Some(i64::MIN));
    assert_eq!(parse_i64("9223372036854775808"), None);
    assert_eq!(parse_i64("+7"), Some(7));
    assert_eq!(parse_i64("-"), None);
    assert_eq!(parse_u64("-1"), None);
    assert_eq!(parse_u16("65536"), None);
    assert_eq!(parse_u64(""), None);
}

#[test]
fn what_is_written_is_read_back() {
    for n in [0, 1, 9, 10, 12345, i64::MAX, -1, -10, i64::MIN] {
        assert_eq!(parse_i64(&int_text(n)), Some(n));
    }
}

#[test]
fn texts_are_trimmed_and_compared() {
    assert_eq!(trim(" \t a b\u{2003}\n"), "a b");
    assert_eq!(trim_of("\"\"x\"", '"'), "x");
    assert_eq!(lower("ABC\u{c4}z"), "abc\u{c4}z");
    assert_eq!(replace("a-b-c", '-', '_'), "a_b_c");
    assert!(mentions("hello world", "o w"));
    assert!(!mentions("hello", "hello!"));
    assert!(comes_before("a", "ab"));
    assert!(!comes_before("b", "ab"));
}

#[test]
fn lines_end_at_line_breaks() {
    assert_eq!(lines("a\r\nb\n\nc"), texts(&["a", "b", "", "c"]));
    assert_eq!(lines(""), texts(&[]));
    assert_eq!(lines("a\n"), texts(&["a"]));
    assert_eq!(text_of_lines(&texts(&["a", "b"])), "a\nb\n");
}

#[test]
fn sorted_texts_stand_once() {
    assert_eq!(sorted(&texts(&["b", "a", "b", "c", "a"])), texts(&["a", "b", "c"]));
}

#[test]
fn paths_are_joined_and_split() {
    assert_eq!(join("/a", "b"), "/a/b");
    assert_eq!(join("/a/", "b"), "/a/b");
    assert_eq!(join("/a", "/b"), "/b");
    assert!(absolute("/x") && !absolute("x"));
    assert!(within("/tmp/a/b", "/tmp/a"));
    assert!(!within("/tmp/ab", "/tmp/a"));
    assert!(within("/tmp/a", "/tmp//a/."));
    assert!(!within("tmp/a", "/tmp"));
    assert!(same_path("/a//b/./c/", "/a/b/c"));
    assert!(!same_path("a/b", "/a/b"));
    assert!(!same_path("./a", "a"));
    assert!(!same_path("/a/../b", "/b"));
    assert_eq!(file_name("/a/b.txt").as_deref(), Some("b.txt"));
    assert_eq!(with_extension("/a/b.txt", "bin"), "/a/b.bin");
    assert_eq!(with_extension("/a/b", "bin"), "/a/b.bin");
}

#[test]
fn words_are_quoted_for_a_shell() {
    assert_eq!(shell_quote_arg("plain-word_1"), "plain-word_1");
    assert_eq!(shell_quote_arg("two words"), "'two words'");
    assert_eq!(command_line(&texts(&["echo", "a b", "c"])), "echo 'a b' c");
}

#[test]
fn fingerprint_is_fnv1a() {
    assert_eq!(stable_content_fingerprint(b""), "fnv1a64:cbf29ce484222325");
    assert_eq!(stable_content_fingerprint(b"a"), "fnv1a64:af63dc4c8601ec8c");
    assert_eq!(stable_content_fingerprint(b"foobar"), "fnv1a64:85944171f73967e8");
}

#[test]
fn members_are_found_set_and_removed() {
    let m = |name: &str, n: i128| Member { name: name.to_string(), value: Json::Int(n) };
    let list = vec![m("a", 1), m("c", 3)];
    let list = set_member(list, "b", Json::Text("two".into()));
    assert_eq!(list.iter().map(|m| m.name.as_str()).collect::<Vec<_>>(), vec!["a", "b", "c"]);
    assert_eq!(member_text(&list, "b"), Some("two"));
    let list = set_member(list, "b", Json::Text("other".into()));
    assert_eq!(list.len(), 3);
    assert_eq!(member_text(&list, "b"), Some("other"));
    let mut list = remove_member(list, "a");
    put_missing(&mut list, "b", Some("late"));
    put_missing(&mut list, "a", Some("first"));
    assert_eq!(member_text(&list, "b"), Some("other"));
    assert_eq!(member_text(&list, "a"), Some("first"));
    assert_eq!(list[0].name, "a");
    let value = object_of(list);
    assert_eq!(value.get_text("a"), Some("first"));
    assert_eq!(members_of(value).map(|m| m.len()), Some(3));
}

#[test]
fn objects_are_built_member_by_member() {
    let j = Members::new()
        .text("t", "x")
        .flag("f", true)
        .integer("n", 5)
        .opt_text("o", None)
        .maybe_text("left_out", None)
        .object("inner", Members::new().null("z"))
        .done();
    assert_eq!(j.get_text("t"), Some("x"));
    assert_eq!(j.get_bool("f"), Some(true));
    assert_eq!(j.get_i64("n"), Some(5));
    assert!(matches!(j.get("o"), Some(Json::Null)));
    assert!(j.get("left_out").is_none());
    assert!(matches!(j.at("inner", "z"), Some(Json::Null)));
}

#[test]
fn sources_are_known_by_name() {
    assert!(matches!(EpisodeSource::from_name("terminal"), Some(EpisodeSource::Terminal)));
    assert!(matches!(EpisodeSource::from_name("codex-cli"), Some(EpisodeSource::CodexCli)));
    assert_eq!(EpisodeSource::from_name("my-editor").unwrap().name(), "my-editor");
    assert!(EpisodeSource::from_name("Bad Name").is_none());
    assert!(EpisodeSource::from_name("").is_none());
}
