use activity_export::comments::{Comment, CommentFetcher, CommentRec, comment_header, comment_row};
use activity_export::model::UserRef;

fn sample_comment(id: u64, user_id: i64) -> Comment {
    Comment {
        id,
        node_id: format!("n{}", id),
        url: format!("https://api.example/comments/{}", id),
        html_url: format!("https://example/comments/{}", id),
        body: Some(format!("body {}", id)),
        body_text: Some(format!("text {}", id)),
        body_html: Some(format!("<p>{}</p>", id)),
        user: UserRef { id: user_id },
        created_at: "2020-01-01T00:00:00Z".to_string(),
        updated_at: None,
    }
}

#[test]
fn header_text_is_the_declared_field_order() {
    let owner = "o".to_string();
    let name = "r".to_string();
    let f = CommentFetcher::new(owner, name);
    assert_eq!(
        f.output(),
        "id,node_id,url,html_url,body,body_text,body_html,user_id,created_at,updated_at\n"
    );
}

#[test]
fn one_page_of_three_items_gives_three_rows_and_one_header() {
    let mut f = CommentFetcher::new("o".to_string(), "r".to_string());
    let items = vec![sample_comment(1, 10), sample_comment(2, 20), sample_comment(3, 30)];
    f.on_page(items, None);
    assert!(f.is_done());
    assert_eq!(f.fetch_count(), 1);
    let out = f.output();
    let lines: Vec<&str> = out.lines().collect();
    assert_eq!(lines.len(), 4);
    assert_eq!(
        lines[0],
        "id,node_id,url,html_url,body,body_text,body_html,user_id,created_at,updated_at"
    );
    // the header appears exactly once
    assert_eq!(out.matches("node_id,url").count(), 1);
}

#[test]
fn record_total_is_the_sum_of_page_item_counts() {
    let mut f = CommentFetcher::new("o".to_string(), "r".to_string());
    f.on_page(vec![sample_comment(1, 1), sample_comment(2, 2)], Some("page2".to_string()));
    assert!(!f.is_done());
    f.on_page(
        vec![sample_comment(3, 3), sample_comment(4, 4), sample_comment(5, 5)],
        None,
    );
    assert!(f.is_done());
    assert_eq!(f.fetch_count(), 2);
    // 2 + 3 items make 5 rows after the header
    assert_eq!(f.output().lines().count(), 6);
}

#[test]
fn row_order_equals_response_order_across_pages() {
    let mut f = CommentFetcher::new("o".to_string(), "r".to_string());
    f.on_page(vec![sample_comment(7, 1), sample_comment(5, 2)], Some("page2".to_string()));
    f.on_page(vec![sample_comment(3, 3)], None);
    let out = f.output();
    let lines: Vec<&str> = out.lines().collect();
    assert!(lines[1].starts_with("7,n7,"));
    assert!(lines[2].starts_with("5,n5,"));
    assert!(lines[3].starts_with("3,n3,"));
}

#[test]
fn pagination_follows_the_next_reference_and_stops_without_one() {
    let mut f = CommentFetcher::new("o".to_string(), "r".to_string());
    assert!(!f.is_done());
    assert_eq!(f.next_page(), None);
    f.on_page(vec![sample_comment(1, 1)], Some("cursor-b".to_string()));
    assert!(!f.is_done());
    assert_eq!(f.next_page().map(|s| s.as_str()), Some("cursor-b"));
    f.on_page(vec![sample_comment(2, 2)], None);
    assert!(f.is_done());
    assert_eq!(f.next_page(), None);
    assert_eq!(f.fetch_count(), 2);
}

#[test]
fn absent_optional_fields_give_empty_cells() {
    let c = Comment {
        id: 9,
        node_id: "n9".to_string(),
        url: "u9".to_string(),
        html_url: "h9".to_string(),
        body: None,
        body_text: Some("hello".to_string()),
        body_html: None,
        user: UserRef { id: 4 },
        created_at: "2020-02-02T00:00:00Z".to_string(),
        updated_at: None,
    };
    let mut f = CommentFetcher::new("o".to_string(), "r".to_string());
    f.on_page(vec![c], None);
    let lines: Vec<&str> = f.output().lines().collect();
    assert_eq!(lines[1], "9,n9,u9,h9,,hello,,4,2020-02-02T00:00:00Z,");
}

#[test]
fn flattening_keeps_the_user_id_key() {
    let a = CommentRec::from(sample_comment(1, 123));
    let b = CommentRec::from(sample_comment(2, 123));
    let c = CommentRec::from(sample_comment(3, -5));
    assert_eq!(a.user_id, 123);
    assert_eq!(a.user_id, b.user_id);
    assert_ne!(a.user_id, c.user_id);
    assert_eq!(c.user_id, -5);
}

#[test]
fn negative_user_id_renders_with_a_minus_sign() {
    let mut f = CommentFetcher::new("o".to_string(), "r".to_string());
    f.on_page(vec![sample_comment(1, -5)], None);
    let lines: Vec<&str> = f.output().lines().collect();
    assert!(lines[1].contains(",-5,"));
}

#[test]
fn cells_that_hold_delimiters_are_quoted_in_the_output() {
    let mut c = sample_comment(1, 1);
    c.body = Some("a,b\"c".to_string());
    let mut f = CommentFetcher::new("o".to_string(), "r".to_string());
    f.on_page(vec![c], None);
    let lines: Vec<&str> = f.output().lines().collect();
    assert!(lines[1].contains("\"a,b\"\"c\""));
}

#[test]
fn a_failed_second_fetch_keeps_the_first_pages_rows() {
    let mut f = CommentFetcher::new("o".to_string(), "r".to_string());
    f.on_page(vec![sample_comment(1, 1), sample_comment(2, 2)], Some("page2".to_string()));
    // the second fetch fails in transport: the caller propagates the error
    // and never feeds another page; everything written so far stays.
    assert!(!f.is_done());
    assert_eq!(f.fetch_count(), 1);
    let lines: Vec<&str> = f.output().lines().collect();
    assert_eq!(lines.len(), 3);
    assert!(lines[1].starts_with("1,"));
    assert!(lines[2].starts_with("2,"));
}

#[test]
fn comment_row_renders_every_field_in_order() {
    let rec = CommentRec::from(sample_comment(11, 7));
    let cells = comment_row(&rec);
    assert_eq!(cells.len(), 10);
    assert_eq!(cells[0], "11");
    assert_eq!(cells[1], "n11");
    assert_eq!(cells[4], "body 11");
    assert_eq!(cells[7], "7");
    assert_eq!(cells[9], "");
}

#[test]
fn header_cells_match_the_schema() {
    let h = comment_header();
    assert_eq!(h.len(), 10);
    assert_eq!(h[0], "id");
    assert_eq!(h[9], "updated_at");
}

#[test]
fn fetcher_keeps_owner_and_name() {
    let f = CommentFetcher::new("octo".to_string(), "repo".to_string());
    assert_eq!(f.owner(), "octo");
    assert_eq!(f.name(), "repo");
}

#[test]
fn page_size_boundaries_do_not_change_the_row_count() {
    let mut f = CommentFetcher::new("o".to_string(), "r".to_string());
    let mk = |lo: u64, n: u64| -> Vec<Comment> {
        (lo..lo + n).map(|i| sample_comment(i, i as i64)).collect()
    };
    f.on_page(mk(0, 100), Some("p2".to_string()));
    f.on_page(mk(100, 100), Some("p3".to_string()));
    f.on_page(mk(200, 42), None);
    assert!(f.is_done());
    assert_eq!(f.fetch_count(), 3);
    // 100 + 100 + 42 items make 242 rows after the header
    assert_eq!(f.output().lines().count(), 243);
}
