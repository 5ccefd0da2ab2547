use fxtwitter_bot::matcher::{find_links, find_matches, mentions_known_host, LINK_PATTERN};

fn owned(items: &[&str]) -> Vec<String> {
    items.iter().map(|item| item.to_string()).collect()
}

#[test]
fn pattern_is_scheme_host_and_a_run_without_whitespace() {
    assert_eq!(LINK_PATTERN, "(https://(x\\.com|twitter\\.com)[^\\s]+)");
}

#[test]
fn prefilter_accepts_either_host() {
    assert!(mentions_known_host("https://x.com/a"));
    assert!(mentions_known_host("look: https://twitter.com/a/status/1 !"));
    assert!(mentions_known_host("https://x.comhttps://twitter.com"));
}

#[test]
fn prefilter_accepts_the_bare_host() {
    assert!(mentions_known_host("https://x.com"));
    assert!(mentions_known_host("https://twitter.com"));
}

#[test]
fn prefilter_rejects_text_without_the_literal() {
    assert!(!mentions_known_host(""));
    assert!(!mentions_known_host("hello there"));
    assert!(!mentions_known_host("x.com"));
    assert!(!mentions_known_host("http://x.com/a"));
    assert!(!mentions_known_host("https://X.com/a"));
    assert!(!mentions_known_host("https://fxtwitter.com/a"));
    assert!(!mentions_known_host("https://mobile.twitter.com/a"));
    assert!(!mentions_known_host("https://x.co"));
}

#[test]
fn one_link_alone() {
    assert_eq!(find_links("https://twitter.com/123"), Ok(owned(&["https://twitter.com/123"])));
    assert_eq!(find_links("https://x.com/456"), Ok(owned(&["https://x.com/456"])));
}

#[test]
fn links_come_in_order_of_appearance() {
    assert_eq!(
        find_links("https://twitter.com/123 https://x.com/456"),
        Ok(owned(&["https://twitter.com/123", "https://x.com/456"]))
    );
    assert_eq!(
        find_links("b https://x.com/b a https://twitter.com/a"),
        Ok(owned(&["https://x.com/b", "https://twitter.com/a"]))
    );
}

#[test]
fn a_link_found_twice_is_given_twice() {
    assert_eq!(
        find_links("https://x.com/1 and again https://x.com/1"),
        Ok(owned(&["https://x.com/1", "https://x.com/1"]))
    );
}

#[test]
fn a_link_ends_at_the_first_whitespace() {
    assert_eq!(find_links("https://x.com/a b"), Ok(owned(&["https://x.com/a"])));
    assert_eq!(find_links("https://x.com/a\tb"), Ok(owned(&["https://x.com/a"])));
    assert_eq!(find_links("https://x.com/a\nb"), Ok(owned(&["https://x.com/a"])));
    assert_eq!(find_links("https://x.com/a\u{3000}b"), Ok(owned(&["https://x.com/a"])));
}

#[test]
fn a_link_takes_everything_up_to_the_whitespace() {
    assert_eq!(
        find_links("(see https://twitter.com/u/status/1?s=20#top), ok"),
        Ok(owned(&["https://twitter.com/u/status/1?s=20#top),"]))
    );
    assert_eq!(
        find_links("https://x.com/ahttps://x.com/b"),
        Ok(owned(&["https://x.com/ahttps://x.com/b"]))
    );
    assert_eq!(find_links("https://x.community"), Ok(owned(&["https://x.community"])));
    assert_eq!(find_links("https://x.com/\u{3042}"), Ok(owned(&["https://x.com/\u{3042}"])));
}

#[test]
fn the_bare_host_is_no_link() {
    assert_eq!(find_links("https://x.com"), Ok(Vec::<String>::new()));
    assert_eq!(find_links("https://twitter.com"), Ok(Vec::<String>::new()));
    assert_eq!(find_links("https://x.com https://twitter.com\n"), Ok(Vec::<String>::new()));
}

#[test]
fn one_character_after_the_host_makes_a_link() {
    assert_eq!(find_links("https://x.com/"), Ok(owned(&["https://x.com/"])));
    assert_eq!(find_links("https://twitter.com?"), Ok(owned(&["https://twitter.com?"])));
}

#[test]
fn text_without_a_host_has_no_link() {
    assert_eq!(find_links(""), Ok(Vec::<String>::new()));
    assert_eq!(find_links("https://example.com/x.com/1"), Ok(Vec::<String>::new()));
    assert_eq!(find_links("https://xacom/1"), Ok(Vec::<String>::new()));
}

#[test]
fn find_matches_gives_the_whole_match_not_its_groups() {
    assert_eq!(find_matches("a(b)(c)?", "ab abc"), Ok(owned(&["ab", "abc"])));
    assert_eq!(find_matches("[0-9]+", "a1b22c333"), Ok(owned(&["1", "22", "333"])));
}

#[test]
fn find_matches_does_not_hand_the_text_back() {
    assert_eq!(find_matches("b", "abc"), Ok(owned(&["b"])));
    assert_eq!(find_matches("z", "abc"), Ok(Vec::<String>::new()));
}

#[test]
fn a_pattern_that_cannot_be_built_is_an_error() {
    let failed = find_matches("(", "anything");
    assert!(failed.is_err());
    assert!(!failed.unwrap_err().detail.is_empty());
    assert!(find_matches("[a", "").is_err());
}

#[test]
fn whether_a_pattern_builds_does_not_depend_on_the_text() {
    for text in ["", "abc", "https://x.com/1", "(", "a\nb"] {
        assert!(find_matches("(", text).is_err());
        assert!(find_matches("a|b", text).is_ok());
        assert!(find_links(text).is_ok());
    }
}

#[test]
fn links_are_pieces_of_the_text_one_behind_the_other() {
    let text = "a https://x.com/1 b https://twitter.com/2?x=https://x.com/3 c https://x.com/1";
    let links = find_links(text).unwrap();
    assert_eq!(links.len(), 3);
    let mut from = 0;
    for link in &links {
        let at = text[from..].find(link.as_str()).expect("the link stands in the rest");
        from += at + link.len();
    }
    assert!(from <= text.len());
}
