use static_site::model::PageInfo;
use static_site::page::finish_page;
use static_site::site::SiteBuilder;

fn record(title: &str) -> PageInfo {
    PageInfo {
        title: title.to_string(),
        description: "d".to_string(),
        tags: vec![],
        similar_posts: vec![],
        date: "2023-01-02".to_string(),
        favorite_numbers: vec![],
        path: String::new(),
    }
}

#[test]
fn empty_run_has_no_pages() {
    let b = SiteBuilder::new();
    assert_eq!(b.len(), 0);
    assert!(b.pages().is_empty());
}

#[test]
fn written_pages_carry_their_paths_in_order() {
    let mut b = SiteBuilder::new();
    let p1 = finish_page(record("one"), "one.md", Ok("1".to_string())).unwrap();
    b.page_written(p1);
    let p2 = finish_page(record("two"), "two.txt", Ok("2".to_string())).unwrap();
    b.page_written(p2);
    assert_eq!(b.len(), 2);
    let pages = b.pages();
    assert_eq!(pages[0].title, "one");
    assert_eq!(pages[0].path, "one.html");
    assert_eq!(pages[1].title, "two");
    assert_eq!(pages[1].path, "two.html");
    assert!(pages.iter().all(|p| !p.path.is_empty()));
}
