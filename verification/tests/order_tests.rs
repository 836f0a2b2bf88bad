use lidp_unified::order::{sort_texts, text_less};

fn owned(items: &[&str]) -> Vec<String> {
    items.iter().map(|s| s.to_string()).collect()
}

#[test]
fn test_list_directory_order() {
    assert_eq!(sort_texts(owned(&["b.txt", "a.txt"])), vec!["a.txt", "b.txt"]);
}

#[test]
fn sorting_matches_string_order() {
    let names = owned(&["b.txt", "a.txt", "B", "é", "a", "a.txt", "", "zz", "z"]);
    let mut expected = names.clone();
    expected.sort();
    assert_eq!(sort_texts(names), expected);
}

#[test]
fn text_less_is_lexicographic() {
    assert!(text_less("a", "b"));
    assert!(text_less("a", "ab"));
    assert!(!text_less("ab", "a"));
    assert!(!text_less("same", "same"));
    assert!(text_less("Z", "a"));
    assert!(text_less("z", "é"));
    assert!(text_less("", "x"));
}
