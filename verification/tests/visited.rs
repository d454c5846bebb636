use spider::utils::interner::{LinkSet, ListBucket, Symbol};

#[test]
fn insert_marks_the_link_visited() {
    let mut bucket = ListBucket::new();
    assert_eq!(bucket.len(), 0);
    assert!(!bucket.contains("https://example.com/a"));
    bucket.insert("https://example.com/a");
    assert!(bucket.contains("https://example.com/a"));
    assert!(!bucket.contains("https://example.com/b"));
    assert_eq!(bucket.len(), 1);
}

#[test]
fn default_store_is_empty() {
    let bucket = ListBucket::default();
    assert_eq!(bucket.len(), 0);
    assert_eq!(bucket.interned_len(), 0);
    assert!(!bucket.contains(""));
}

#[test]
fn inserting_a_link_many_times_counts_once() {
    let mut bucket = ListBucket::new();
    bucket.insert("https://example.com/other");
    let before = bucket.len();
    let mut first_visits = 0;
    for _ in 0..50 {
        if !bucket.contains("https://example.com/page") {
            first_visits += 1;
        }
        bucket.insert("https://example.com/page");
    }
    assert_eq!(first_visits, 1);
    assert_eq!(bucket.len(), before + 1);
}

#[test]
fn exactly_one_claim_of_a_symbol_wins() {
    let mut bucket = ListBucket::new();
    let (symbol, already) = bucket.intern_and_check("https://example.com/race");
    assert!(!already);
    let mut winners = 0;
    for _ in 0..8 {
        if bucket.mark_visited(symbol) {
            winners += 1;
        }
    }
    assert_eq!(winners, 1);
    assert_eq!(bucket.len(), 1);
    let (again, already) = bucket.intern_and_check("https://example.com/race");
    assert_eq!(again, symbol);
    assert!(already);
}

#[test]
fn links_differing_in_case_share_a_symbol() {
    let mut bucket = ListBucket::new();
    let (upper, _) = bucket.intern_and_check("HTTP://Example.com/A");
    let (lower, _) = bucket.intern_and_check("http://example.com/a");
    assert_eq!(upper, lower);
    assert_eq!(bucket.interned_len(), 1);
    bucket.insert("HTTP://Example.com/A");
    assert!(bucket.contains("http://example.com/a"));
    assert!(bucket.contains("HTTP://EXAMPLE.COM/A"));
    assert_eq!(bucket.len(), 1);
}

#[test]
fn only_ascii_letters_are_folded() {
    let mut bucket = ListBucket::new();
    bucket.insert("https://example.com/\u{c9}t\u{e9}");
    assert!(bucket.contains("HTTPS://EXAMPLE.COM/\u{c9}T\u{e9}"));
    assert!(!bucket.contains("https://example.com/\u{e9}t\u{e9}"));
}

#[test]
fn intern_and_check_does_not_mark() {
    let mut bucket = ListBucket::new();
    let (symbol, already) = bucket.intern_and_check("https://example.com/x");
    assert_eq!(symbol, Symbol { index: 0 });
    assert!(!already);
    assert!(!bucket.contains("https://example.com/x"));
    assert_eq!(bucket.len(), 0);
    assert_eq!(bucket.interned_len(), 1);
    let (second, _) = bucket.intern_and_check("https://example.com/y");
    assert_eq!(second, Symbol { index: 1 });
}

#[test]
fn unknown_symbols_are_not_marked() {
    let mut bucket = ListBucket::new();
    bucket.intern_and_check("https://example.com/x");
    assert!(!bucket.mark_visited(Symbol { index: 1 }));
    assert!(!bucket.mark_visited(Symbol { index: u32::MAX }));
    assert_eq!(bucket.len(), 0);
    assert!(bucket.mark_visited(Symbol { index: 0 }));
    assert_eq!(bucket.len(), 1);
}

#[test]
fn resolve_gives_the_canonical_text() {
    let mut bucket = ListBucket::new();
    let (symbol, _) = bucket.intern_and_check("https://Example.com/Path");
    assert_eq!(bucket.resolve(symbol), Some("https://example.com/path".to_string()));
    assert_eq!(bucket.resolve(Symbol { index: 7 }), None);
    assert_eq!(bucket.resolve(Symbol { index: u32::MAX }), None);
}

#[test]
fn drain_hands_out_every_visited_symbol_once() {
    let mut bucket = ListBucket::new();
    bucket.insert("https://example.com/a");
    bucket.insert("https://example.com/b");
    bucket.insert("https://example.com/A");
    let mut drained: Vec<u32> = bucket.drain().iter().map(|s| s.index).collect();
    drained.sort();
    assert_eq!(drained, vec![0, 1]);
    assert_eq!(bucket.len(), 0);
    assert!(!bucket.contains("https://example.com/a"));
    assert_eq!(bucket.interned_len(), 2);
    assert!(bucket.drain().is_empty());
}

#[test]
fn clear_forgets_visits_but_keeps_symbols() {
    let mut bucket = ListBucket::new();
    bucket.insert("https://example.com/a");
    bucket.clear();
    assert_eq!(bucket.len(), 0);
    assert!(!bucket.contains("https://example.com/a"));
    let (symbol, already) = bucket.intern_and_check("https://example.com/a");
    assert_eq!(symbol, Symbol { index: 0 });
    assert!(!already);
}

#[test]
fn get_links_lists_the_visited_links() {
    let mut bucket = ListBucket::new();
    bucket.insert("https://example.com/a");
    bucket.insert("https://example.com/B");
    bucket.intern_and_check("https://example.com/seen-only");
    let links = bucket.get_links();
    assert_eq!(links.len(), 2);
    assert!(links.contains("https://example.com/a"));
    assert!(links.contains("https://example.com/b"));
    assert!(!links.contains("https://example.com/seen-only"));
    let mut listed = links.into_vec();
    listed.sort();
    assert_eq!(listed, vec!["https://example.com/a".to_string(), "https://example.com/b".to_string()]);
}

#[test]
fn extend_links_adds_only_unvisited_candidates() {
    let mut bucket = ListBucket::new();
    bucket.insert("https://example.com/visited");
    let mut pending = LinkSet::new();
    pending.insert("https://example.com/pending");
    let mut found = LinkSet::new();
    found.insert("https://example.com/VISITED");
    found.insert("https://example.com/new");
    found.insert("https://example.com/pending");
    bucket.extend_links(&mut pending, found);
    assert_eq!(pending.len(), 2);
    assert!(pending.contains("https://example.com/pending"));
    assert!(pending.contains("https://example.com/new"));
    assert!(!pending.contains("https://example.com/visited"));
    assert_eq!(bucket.len(), 1);
    assert_eq!(bucket.interned_len(), 3);
}

#[test]
fn extend_with_new_links_leaves_the_store_alone() {
    let mut bucket = ListBucket::new();
    bucket.insert("https://example.com/visited");
    let mut pending = LinkSet::new();
    bucket.extend_with_new_links(&mut pending, "https://example.com/Visited");
    assert_eq!(pending.len(), 0);
    bucket.extend_with_new_links(&mut pending, "https://example.com/Fresh");
    assert_eq!(pending.len(), 1);
    assert!(pending.contains("https://example.com/fresh"));
    assert_eq!(bucket.interned_len(), 1);
    assert_eq!(bucket.len(), 1);
}

#[test]
fn link_set_holds_each_link_once_whatever_its_case() {
    let mut links = LinkSet::new();
    assert!(links.insert("https://example.com/A"));
    assert!(!links.insert("https://example.com/a"));
    assert!(links.insert("https://example.com/b"));
    assert_eq!(links.len(), 2);
    assert!(links.contains("HTTPS://EXAMPLE.COM/B"));
    assert!(!links.contains("https://example.com/c"));
}

#[test]
fn symbol_of_finds_without_interning() {
    let mut bucket = ListBucket::new();
    assert_eq!(bucket.symbol_of("https://example.com/a"), None);
    assert_eq!(bucket.interned_len(), 0);
    bucket.intern_and_check("https://example.com/a");
    bucket.insert("https://example.com/b");
    assert_eq!(bucket.symbol_of("https://EXAMPLE.com/a"), Some(Symbol { index: 0 }));
    assert_eq!(bucket.symbol_of("https://example.com/b"), Some(Symbol { index: 1 }));
    assert_eq!(bucket.symbol_of("https://example.com/c"), None);
    assert_eq!(bucket.interned_len(), 2);
}
