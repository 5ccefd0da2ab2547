use fxtwitter_bot::composer::compose;

fn owned(items: &[&str]) -> Vec<String> {
    items.iter().map(|item| item.to_string()).collect()
}

#[test]
fn no_link_gives_an_empty_payload() {
    assert_eq!(compose(&Vec::new()), Some(String::new()));
}

#[test]
fn one_link_gives_itself() {
    assert_eq!(
        compose(&owned(&["https://fxtwitter.com/123"])),
        Some("https://fxtwitter.com/123".to_string())
    );
}

#[test]
fn links_are_joined_by_newlines_in_order() {
    assert_eq!(
        compose(&owned(&["https://fxtwitter.com/123", "https://fxtwitter.com/456"])),
        Some("https://fxtwitter.com/123\nhttps://fxtwitter.com/456".to_string())
    );
    assert_eq!(compose(&owned(&["c", "a", "b", "a"])), Some("c\na\nb\na".to_string()));
}

#[test]
fn empty_lines_keep_their_place() {
    assert_eq!(compose(&owned(&[""])), Some(String::new()));
    assert_eq!(compose(&owned(&["", ""])), Some("\n".to_string()));
    assert_eq!(compose(&owned(&["a", "", "b"])), Some("a\n\nb".to_string()));
}
