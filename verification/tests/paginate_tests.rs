use rust_tok::error::TikTokError;
use rust_tok::paginate::{
    collect_from_pages, page_from_parts, parse_page, take_prefix, PageResult, Paginator,
};

fn sval(s: &str) -> serde_json::Value {
    serde_json::Value::String(s.to_string())
}

#[test]
fn page_size_respects_cap_and_remaining() {
    let pg = Paginator::new(10, 35);
    assert_eq!(pg.page_size(), 10);
    let pg = Paginator::new(100, 35);
    assert_eq!(pg.page_size(), 35);
    let pg = Paginator::new(35, 35);
    assert_eq!(pg.page_size(), 35);
    let pg = Paginator::new(1, 20);
    assert_eq!(pg.page_size(), 1);
}

#[test]
fn two_page_collection() {
    // page 1: [a, b], more to come, cursor 2; page 2: [c], exhausted
    let pages = vec![
        PageResult { items: vec![sval("a"), sval("b")], cursor: 2, has_more: true },
        PageResult { items: vec![sval("c")], cursor: 0, has_more: false },
    ];
    let (items, rounds) = collect_from_pages(&pages, 10, 30);
    assert_eq!(rounds, 2);
    assert_eq!(items.len(), 3);
    assert_eq!(items[0].as_str(), Some("a"));
    assert_eq!(items[1].as_str(), Some("b"));
    assert_eq!(items[2].as_str(), Some("c"));
}

#[test]
fn stops_exactly_at_count_when_server_never_exhausts() {
    let mut pages = Vec::new();
    for i in 0..50 {
        pages.push(PageResult {
            items: vec![sval("x"), sval("y")],
            cursor: i + 1,
            has_more: true,
        });
    }
    let (items, rounds) = collect_from_pages(&pages, 7, 35);
    assert_eq!(items.len(), 7);
    // seven items at two per page: the fourth page finishes the collection
    assert_eq!(rounds, 4);
}

#[test]
fn exhaustion_wins_over_requested_count() {
    let pages = vec![PageResult { items: vec![sval("only")], cursor: 0, has_more: false }];
    let (items, rounds) = collect_from_pages(&pages, 50, 35);
    assert_eq!(items.len(), 1);
    assert_eq!(rounds, 1);
}

#[test]
fn empty_page_with_more_promised_still_terminates() {
    // a server that keeps promising more while supplying nothing makes no
    // progress; the collection stops on the first such page, short but
    // successful
    let mut pages = Vec::new();
    for _ in 0..50 {
        pages.push(PageResult { items: vec![], cursor: 1, has_more: true });
    }
    let (items, rounds) = collect_from_pages(&pages, 5, 20);
    assert!(items.is_empty());
    assert_eq!(rounds, 1);
}

#[test]
fn empty_exhausted_page_yields_empty_success() {
    let pages = vec![PageResult { items: vec![], cursor: 0, has_more: false }];
    let (items, rounds) = collect_from_pages(&pages, 5, 20);
    assert!(items.is_empty());
    assert_eq!(rounds, 1);
}

#[test]
fn oversized_page_is_trimmed_to_count() {
    let pages = vec![PageResult {
        items: vec![sval("1"), sval("2"), sval("3"), sval("4")],
        cursor: 0,
        has_more: true,
    }];
    let (items, rounds) = collect_from_pages(&pages, 2, 35);
    assert_eq!(items.len(), 2);
    assert_eq!(rounds, 1);
    assert_eq!(items[1].as_str(), Some("2"));
}

#[test]
fn page_from_parts_requires_items() {
    match page_from_parts(None, Some(true), Some(5)) {
        Err(TikTokError::MalformedPage) => (),
        other => panic!("expected MalformedPage, got {:?}", other),
    }
}

#[test]
fn page_from_parts_requires_cursor_when_more() {
    match page_from_parts(Some(vec![sval("a")]), Some(true), None) {
        Err(TikTokError::MalformedPage) => (),
        other => panic!("expected MalformedPage, got {:?}", other),
    }
    // absent has_more means exhaustion, and then no cursor is needed
    let page = page_from_parts(Some(vec![sval("a")]), None, None).unwrap();
    assert!(!page.has_more);
    assert_eq!(page.cursor, 0);
    let page = page_from_parts(Some(vec![]), Some(true), Some(42)).unwrap();
    assert!(page.has_more);
    assert_eq!(page.cursor, 42);
}

#[test]
fn parse_page_reads_named_fields() {
    let doc: serde_json::Value = serde_json::from_str(
        "{\"itemList\": [\"a\", \"b\"], \"hasMore\": true, \"cursor\": 2}",
    )
    .unwrap();
    let page = parse_page(&doc, "itemList", "hasMore", "cursor").unwrap();
    assert_eq!(page.items.len(), 2);
    assert!(page.has_more);
    assert_eq!(page.cursor, 2);

    let bad: serde_json::Value =
        serde_json::from_str("{\"hasMore\": true, \"cursor\": 2}").unwrap();
    match parse_page(&bad, "itemList", "hasMore", "cursor") {
        Err(TikTokError::MalformedPage) => (),
        other => panic!("expected MalformedPage, got {:?}", other),
    }

    let no_cursor: serde_json::Value =
        serde_json::from_str("{\"itemList\": [], \"hasMore\": true}").unwrap();
    match parse_page(&no_cursor, "itemList", "hasMore", "cursor") {
        Err(TikTokError::MalformedPage) => (),
        other => panic!("expected MalformedPage, got {:?}", other),
    }
}

#[test]
fn take_prefix_trims() {
    let items = vec![sval("a"), sval("b"), sval("c")];
    let r = take_prefix(items, 2);
    assert_eq!(r.len(), 2);
    assert_eq!(r[0].as_str(), Some("a"));
    let items = vec![sval("a")];
    let r = take_prefix(items, 5);
    assert_eq!(r.len(), 1);
}
