use hsr::path::{RoutePath, Segment};
use hsr::text::{chars_of, concat_texts, decimal_text, same_text, split_text, text_in, text_precedes};

fn literal(text: &str) -> Segment {
    Segment::Literal(text.to_string())
}

fn parameter(name: &str) -> Segment {
    Segment::Parameter(name.to_string())
}

#[test]
fn split_gives_the_parts_between_separators() {
    assert_eq!(split_text("a/b/c", '/'), vec!["a", "b", "c"]);
    assert_eq!(split_text("/pets/", '/'), vec!["", "pets", ""]);
    assert_eq!(split_text("//", '/'), vec!["", "", ""]);
}

#[test]
fn split_of_a_text_without_separator_is_the_text() {
    assert_eq!(split_text("pets", '/'), vec!["pets"]);
    assert_eq!(split_text("", '/'), vec![""]);
}

#[test]
fn split_counts_characters_not_bytes() {
    assert_eq!(split_text("grüße/köln", '/'), vec!["grüße", "köln"]);
    assert_eq!(split_text("aübüc", 'ü'), vec!["a", "b", "c"]);
}

#[test]
fn split_agrees_with_the_standard_library() {
    for text in ["", "/", "a", "a/", "/a", "a//b", "#/components/schemas/Pet"] {
        let expected: Vec<String> = text.split('/').map(|part| part.to_string()).collect();
        assert_eq!(split_text(text, '/'), expected);
        assert_eq!(split_text(text, '/').join("/"), text);
    }
}

#[test]
fn decimal_numerals() {
    assert_eq!(decimal_text(0), "0");
    assert_eq!(decimal_text(9), "9");
    assert_eq!(decimal_text(10), "10");
    assert_eq!(decimal_text(403), "403");
    assert_eq!(decimal_text(1234567890), "1234567890");
    assert_eq!(decimal_text(u64::MAX), "18446744073709551615");
}

#[test]
fn texts_are_the_same_by_their_characters() {
    assert!(same_text("", ""));
    assert!(same_text("schemas", "schemas"));
    assert!(!same_text("schemas", "schema"));
    assert!(!same_text("Schemas", "schemas"));
}

#[test]
fn text_is_found_in_a_list() {
    let list = vec!["id".to_string(), "name".to_string()];
    assert!(text_in(&list, "name"));
    assert!(!text_in(&list, "tag"));
    assert!(!text_in(&vec![], "id"));
}

#[test]
fn texts_are_written_one_after_the_other() {
    assert_eq!(concat_texts(&vec![]), "");
    assert_eq!(concat_texts(&vec!["a".to_string(), "".to_string(), "bc".to_string()]), "abc");
}

#[test]
fn template_is_cut_at_its_slashes() {
    assert_eq!(
        RoutePath::analyse("/pets/{petId}"),
        RoutePath { segments: vec![literal(""), literal("pets"), parameter("petId")] }
    );
    assert_eq!(RoutePath::analyse(""), RoutePath { segments: vec![literal("")] });
}

#[test]
fn placeholder_needs_both_braces() {
    assert_eq!(
        RoutePath::analyse("{a}/{b/c}/{}/{/}/x{y}").segments,
        vec![
            parameter("a"),
            literal("{b"),
            literal("c}"),
            parameter(""),
            literal("{"),
            literal("}"),
            literal("x{y}"),
        ]
    );
}

#[test]
fn template_is_written_back_as_it_was() {
    for path in ["", "/", "/pets", "/pets/{petId}", "/pets/{petId}/toys/{toyId}/", "{a}{b}", "//"] {
        assert_eq!(RoutePath::analyse(path).to_string(), path);
    }
}

#[test]
fn format_string_has_an_empty_pair_of_braces_for_each_placeholder() {
    assert_eq!(RoutePath::analyse("/pets/{petId}/toys/{toyId}").build_template(), "/pets/{}/toys/{}");
    assert_eq!(RoutePath::analyse("/pets").build_template(), "/pets");
    assert_eq!(RoutePath::analyse("{id}").build_template(), "{}");
}

#[test]
fn placeholders_are_listed_from_left_to_right() {
    assert_eq!(
        RoutePath::analyse("/{b}/x/{a}/{b}").path_args(),
        vec!["b".to_string(), "a".to_string(), "b".to_string()]
    );
    assert!(RoutePath::analyse("/pets").path_args().is_empty());
}

#[test]
fn dictionary_order_of_texts() {
    assert!(text_precedes("", "a"));
    assert!(!text_precedes("", ""));
    assert!(!text_precedes("a", ""));
    assert!(text_precedes("Pet", "Pets"));
    assert!(!text_precedes("Pets", "Pet"));
    assert!(text_precedes("A", "B"));
    assert!(text_precedes("Zebra", "ant"));
    assert!(!text_precedes("Pet", "Pet"));
}

#[test]
fn dictionary_order_agrees_with_the_standard_library() {
    let texts = ["", "a", "A", "ab", "abc", "abd", "b", "ä", "z", "Tür", "Tuer", "\u{10000}", "\u{ffff}", "é", "e\u{301}"];
    for a in texts {
        for b in texts {
            assert_eq!(text_precedes(a, b), a < b, "{:?} against {:?}", a, b);
        }
    }
}

#[test]
fn characters_of_a_text() {
    assert_eq!(chars_of("aü/"), vec!['a', 'ü', '/']);
    assert!(chars_of("").is_empty());
}
