use vowlr::text::{
    decimal, extension_of, last_segment, text_contains, to_chars, trim_tag_circumfix,
};
use vowlr::vocab::{get_reserved_iris, text_is};

#[test]
fn trim_removes_brackets_at_the_ends_only() {
    assert_eq!(trim_tag_circumfix(&"<http://a.b/c>".to_string()), "http://a.b/c");
    assert_eq!(trim_tag_circumfix(&"<<a>>".to_string()), "a");
    assert_eq!(trim_tag_circumfix(&"a<b>c".to_string()), "a<b>c");
    assert_eq!(trim_tag_circumfix(&">a<".to_string()), ">a<");
    assert_eq!(trim_tag_circumfix(&"".to_string()), "");
    assert_eq!(trim_tag_circumfix(&"<<<".to_string()), "");
    assert_eq!(trim_tag_circumfix(&">>>".to_string()), "");
    assert_eq!(trim_tag_circumfix(&"<>".to_string()), "");
    assert_eq!(trim_tag_circumfix(&"<é>".to_string()), "é");
    assert_eq!(trim_tag_circumfix(&"<http://example.com#A>_thing".to_string()), "http://example.com#A>_thing");
}

#[test]
fn contains_finds_runs() {
    assert!(text_contains("http://example.com#A", "http://example.com#"));
    assert!(text_contains("abc", ""));
    assert!(text_contains("", ""));
    assert!(!text_contains("", "a"));
    assert!(text_contains("abc", "bc"));
    assert!(text_contains("abc", "abc"));
    assert!(!text_contains("abc", "abcd"));
    assert!(!text_contains("abc", "ac"));
    assert!(text_contains("aab", "ab"));
    assert!(text_contains("grüße", "üß"));
}

#[test]
fn last_segment_follows_the_last_slash() {
    assert_eq!(last_segment("/a/b/c"), Some("c".to_string()));
    assert_eq!(last_segment("/a/b/"), Some("".to_string()));
    assert_eq!(last_segment("/"), Some("".to_string()));
    assert_eq!(last_segment("abc"), None);
    assert_eq!(last_segment(""), None);
}

#[test]
fn extension_of_a_file_name() {
    assert_eq!(extension_of("x.ttl"), Some("ttl".to_string()));
    assert_eq!(extension_of("/tmp/dir.d/file.tar.gz"), Some("gz".to_string()));
    assert_eq!(extension_of("/tmp/dir.d/file"), None);
    assert_eq!(extension_of(".hidden"), None);
    assert_eq!(extension_of("dir/.hidden"), None);
    assert_eq!(extension_of(".."), None);
    assert_eq!(extension_of("name."), Some("".to_string()));
    assert_eq!(extension_of(""), None);
}

#[test]
fn decimal_writes_numbers() {
    assert_eq!(decimal(0), "0");
    assert_eq!(decimal(7), "7");
    assert_eq!(decimal(10), "10");
    assert_eq!(decimal(2500), "2500");
    assert_eq!(decimal(1234567890), "1234567890");
    assert_eq!(decimal(usize::MAX), usize::MAX.to_string());
}

#[test]
fn chars_and_text_is() {
    assert_eq!(to_chars("añb"), vec!['a', 'ñ', 'b']);
    assert!(text_is(&"abc".to_string(), "abc"));
    assert!(!text_is(&"abc".to_string(), "abd"));
}

#[test]
fn reserved_iris_are_listed_without_brackets() {
    let reserved = get_reserved_iris();
    assert_eq!(reserved.len(), 22);
    assert!(reserved.contains_key(&"http://www.w3.org/2002/07/owl#Thing".to_string()));
    assert!(reserved.contains_key(&"http://www.w3.org/1999/02/22-rdf-syntax-ns#XMLLiteral".to_string()));
    assert!(reserved.contains_key(&"http://www.w3.org/2000/01/rdf-schema#subPropertyOf".to_string()));
    assert!(!reserved.contains_key(&"http://www.w3.org/2002/07/owl#Class".to_string()));
    assert!(!reserved.contains_key(&"<http://www.w3.org/2002/07/owl#Thing>".to_string()));
}
