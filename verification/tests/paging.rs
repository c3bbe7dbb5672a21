use talon_control::keys::{self, ResourceKey};
use talon_control::paging::{page_entries_desc, page_keys_desc, text_less};

fn names(keys: &[ResourceKey]) -> Vec<&str> {
    keys.iter().map(|k| k.name.as_str()).collect()
}

#[test]
fn pages_are_newest_name_first_below_the_cursor() {
    let all = vec![
        keys::session("acme", "a", "s1"),
        keys::session("acme", "a", "s3"),
        keys::session("acme", "a", "s2"),
        keys::session("acme", "a", "s4"),
    ];
    let first = page_keys_desc(all.clone(), None, 2);
    assert_eq!(names(&first), vec!["s4", "s3"]);
    let second = page_keys_desc(all.clone(), Some("s3"), 2);
    assert_eq!(names(&second), vec!["s2", "s1"]);
    let last = page_keys_desc(all.clone(), Some("s1"), 2);
    assert!(last.is_empty());
    assert!(page_keys_desc(all, None, 0).is_empty());
}

#[test]
fn keys_of_one_name_keep_their_order() {
    let all = vec![
        keys::agent("acme", "x"),
        keys::session("acme", "b", "x"),
        keys::agent("acme", "y"),
    ];
    let page = page_keys_desc(all, None, 10);
    assert_eq!(names(&page), vec!["y", "x", "x"]);
    assert_eq!(page[1].kind, "Agent");
    assert_eq!(page[2].kind, "Session");
}

#[test]
fn entry_pages_carry_their_values() {
    let entries = vec![
        (keys::agent("acme", "a"), b"1".to_vec()),
        (keys::agent("acme", "c"), b"3".to_vec()),
        (keys::agent("acme", "b"), b"2".to_vec()),
    ];
    let page = page_entries_desc(entries, Some("c"), 5);
    assert_eq!(page.len(), 2);
    assert_eq!(page[0].1, b"2");
    assert_eq!(page[1].1, b"1");
}

#[test]
fn text_order_matches_str_order() {
    for (a, b) in [("", "a"), ("a", "b"), ("ab", "b"), ("a", "ab"), ("é", "z"), ("z", "é"), ("-", ":")] {
        assert_eq!(text_less(a, b), a < b, "{a} < {b}");
    }
}
