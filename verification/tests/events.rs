use activity_export::events::{EventRec, IssueEvent, IssueEventFetcher, Label, event_header, event_row};
use activity_export::model::{IssueRef, MilestoneRef, ProjectCardRef, UserRef};

fn bare_event(actor_id: i64, issue_id: i64, kind: &str) -> IssueEvent {
    IssueEvent {
        id: None,
        node_id: None,
        url: None,
        actor: UserRef { id: actor_id },
        assignee: None,
        assigner: None,
        review_requester: None,
        requested_reviewer: None,
        label: None,
        milestone: None,
        project_card: None,
        event: Some(kind.to_string()),
        commit_id: None,
        commit_url: None,
        created_at: "2021-05-05T12:00:00Z".to_string(),
        issue: IssueRef { id: issue_id },
    }
}

#[test]
fn event_header_text_is_the_declared_field_order() {
    let f = IssueEventFetcher::new("o".to_string(), "r".to_string());
    assert_eq!(
        f.output(),
        "id,node_id,url,actor_id,assignee_id,assigner_id,review_requester_id,\
         requested_reviewer_id,label,milestone_title,project_card_url,event,\
         commit_id,commit_url,created_at,issue_id,sdc_repository\n"
    );
}

#[test]
fn two_pages_of_five_and_two_items_give_seven_tagged_rows() {
    let mut f = IssueEventFetcher::new("o".to_string(), "r".to_string());
    let page1: Vec<IssueEvent> = (0..5).map(|i| bare_event(i, 100 + i, "closed")).collect();
    f.on_page(page1, Some("page2".to_string()));
    assert!(!f.is_done());
    let page2: Vec<IssueEvent> = (5..7).map(|i| bare_event(i, 100 + i, "labeled")).collect();
    f.on_page(page2, None);
    assert!(f.is_done());
    assert_eq!(f.fetch_count(), 2);
    let out = f.output();
    let lines: Vec<&str> = out.lines().collect();
    assert_eq!(lines.len(), 8);
    for line in &lines[1..] {
        assert!(line.ends_with(",o/r"), "row not tagged with the repository: {}", line);
    }
}

#[test]
fn absent_optional_event_fields_give_empty_cells() {
    let mut f = IssueEventFetcher::new("o".to_string(), "r".to_string());
    f.on_page(vec![bare_event(1, 42, "closed")], None);
    let lines: Vec<&str> = f.output().lines().collect();
    assert_eq!(lines[1], ",,,1,,,,,,,,closed,,,2021-05-05T12:00:00Z,42,o/r");
}

#[test]
fn populated_nested_objects_flatten_to_their_keys() {
    let mut e = bare_event(3, 9, "assigned");
    e.id = Some(77);
    e.node_id = Some("en".to_string());
    e.url = Some("eu".to_string());
    e.assignee = Some(UserRef { id: 21 });
    e.assigner = Some(UserRef { id: 22 });
    e.review_requester = Some(UserRef { id: 23 });
    e.requested_reviewer = Some(UserRef { id: 24 });
    e.label = Some(Label { name: "bug".to_string(), color: "red".to_string() });
    e.milestone = Some(MilestoneRef { title: "v1".to_string() });
    e.project_card = Some(ProjectCardRef { url: "card".to_string() });
    e.commit_id = Some("abc".to_string());
    e.commit_url = Some("curl".to_string());
    let rec = EventRec::from_event(e, "o/r".to_string());
    assert_eq!(rec.id, Some(77));
    assert_eq!(rec.actor_id, 3);
    assert_eq!(rec.assignee_id, Some(21));
    assert_eq!(rec.assigner_id, Some(22));
    assert_eq!(rec.review_requester_id, Some(23));
    assert_eq!(rec.requested_reviewer_id, Some(24));
    assert_eq!(rec.label, Some("bug".to_string()));
    assert_eq!(rec.milestone_title, Some("v1".to_string()));
    assert_eq!(rec.project_card_url, Some("card".to_string()));
    assert_eq!(rec.commit_id, Some("abc".to_string()));
    assert_eq!(rec.issue_id, 9);
    assert_eq!(rec.sdc_repository, "o/r");
}

#[test]
fn distinct_users_give_distinct_actor_ids_and_equal_users_the_same() {
    let a = EventRec::from_event(bare_event(5, 1, "closed"), "o/r".to_string());
    let b = EventRec::from_event(bare_event(5, 2, "reopened"), "o/r".to_string());
    let c = EventRec::from_event(bare_event(6, 3, "closed"), "o/r".to_string());
    assert_eq!(a.actor_id, b.actor_id);
    assert_ne!(a.actor_id, c.actor_id);
}

#[test]
fn negative_event_id_renders_with_a_minus_sign() {
    let mut e = bare_event(1, 1, "closed");
    e.id = Some(-9);
    let cells = event_row(&EventRec::from_event(e, "o/r".to_string()));
    assert_eq!(cells[0], "-9");
}

#[test]
fn event_kind_is_carried_through_verbatim() {
    let rec = EventRec::from_event(
        bare_event(1, 1, "some_future_event_kind"),
        "o/r".to_string(),
    );
    assert_eq!(rec.event, Some("some_future_event_kind".to_string()));
}

#[test]
fn a_failed_second_event_fetch_keeps_the_first_pages_rows() {
    let mut f = IssueEventFetcher::new("o".to_string(), "r".to_string());
    f.on_page(vec![bare_event(1, 1, "closed")], Some("page2".to_string()));
    // the second fetch fails in transport: the caller propagates the error
    // and never feeds another page; everything written so far stays.
    assert!(!f.is_done());
    assert_eq!(f.fetch_count(), 1);
    assert_eq!(f.output().lines().count(), 2);
}

#[test]
fn reponame_joins_owner_and_name_with_a_slash() {
    let f = IssueEventFetcher::new("octo".to_string(), "repo".to_string());
    assert_eq!(f.reponame(), "octo/repo");
}

#[test]
fn events_route_names_the_listing_path() {
    let f = IssueEventFetcher::new("octo".to_string(), "repo".to_string());
    assert_eq!(f.events_route(), "repos/octo/repo/issues/events");
}

#[test]
fn event_header_cells_match_the_schema() {
    let h = event_header();
    assert_eq!(h.len(), 17);
    assert_eq!(h[0], "id");
    assert_eq!(h[16], "sdc_repository");
}
