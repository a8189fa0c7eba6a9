use eventlog::envelope::Status;
use eventlog::model::{Comment, CommentFilter, Event, EventFilter, PayloadData};
use eventlog::store::{
    create_comment, create_event, event_passes, filter_comments, filter_events, get_comment,
    get_event, update_comment, update_event, StoreError,
};

fn ev(from: i64, to: Option<i64>) -> Event {
    Event {
        id: None,
        from,
        to,
        text: "t".to_string(),
        app_name: None,
        source_id: None,
        source_name: None,
        _links: None,
        _templates: None,
    }
}

fn named_ev(id: &str, from: i64) -> Event {
    Event {
        id: Some(id.to_string()),
        from,
        to: None,
        text: "t".to_string(),
        app_name: None,
        source_id: None,
        source_name: None,
        _links: None,
        _templates: None,
    }
}

fn cm(id: Option<&str>, event_id: &str, user_id: &str) -> Comment {
    Comment {
        id: id.map(|s| s.to_string()),
        event_id: event_id.to_string(),
        user_id: user_id.to_string(),
        comment: "c".to_string(),
        timestamp: 0,
        _links: None,
        _templates: None,
    }
}

fn range_filter(from: Option<i64>, to: Option<i64>) -> Option<EventFilter> {
    Some(EventFilter { from, to, app_name: None, source_id: None, source_name: None })
}

#[test]
fn closed_interval_survives_lower_bound_inside_it() {
    assert!(event_passes(&ev(10, Some(20)), &range_filter(Some(15), None)));
}

#[test]
fn closed_interval_ending_before_lower_bound_is_excluded() {
    assert!(!event_passes(&ev(5, Some(8)), &range_filter(Some(10), None)));
}

#[test]
fn open_ended_event_survives_any_lower_bound() {
    assert!(event_passes(&ev(5, None), &range_filter(Some(100), None)));
}

#[test]
fn open_ended_event_starting_after_upper_bound_is_excluded() {
    assert!(!event_passes(&ev(5, None), &range_filter(None, Some(3))));
}

#[test]
fn interval_extending_past_upper_bound_is_excluded() {
    assert!(!event_passes(&ev(1, Some(10)), &range_filter(None, Some(5))));
    assert!(event_passes(&ev(1, Some(5)), &range_filter(None, Some(5))));
}

#[test]
fn no_filter_matches_everything() {
    assert!(event_passes(&ev(5, Some(8)), &None));
    let all = filter_events(vec![ev(1, None), ev(2, Some(3))], None);
    assert_eq!(all.len(), 2);
}

#[test]
fn metadata_fields_must_match_when_set() {
    let mut e = ev(0, None);
    e.app_name = Some("app".to_string());
    let mut f = EventFilter {
        from: None,
        to: None,
        app_name: Some("app".to_string()),
        source_id: None,
        source_name: None,
    };
    assert!(event_passes(&e, &Some(EventFilter {
        app_name: f.app_name.clone(),
        from: None,
        to: None,
        source_id: None,
        source_name: None,
    })));
    f.app_name = Some("other".to_string());
    assert!(!event_passes(&e, &Some(f)));
    // a set filter field rejects an event where the field is absent
    let bare = ev(0, None);
    let named = Some(EventFilter {
        from: None,
        to: None,
        app_name: Some("app".to_string()),
        source_id: None,
        source_name: None,
    });
    assert!(!event_passes(&bare, &named));
}

#[test]
fn source_fields_must_match_when_set() {
    let mut e = ev(0, None);
    e.source_id = Some("s1".to_string());
    e.source_name = Some("n1".to_string());
    let matching = Some(EventFilter {
        from: None,
        to: None,
        app_name: None,
        source_id: Some("s1".to_string()),
        source_name: Some("n1".to_string()),
    });
    assert!(event_passes(&e, &matching));
    let wrong_source = Some(EventFilter {
        from: None,
        to: None,
        app_name: None,
        source_id: Some("s2".to_string()),
        source_name: None,
    });
    assert!(!event_passes(&e, &wrong_source));
    let wrong_name = Some(EventFilter {
        from: None,
        to: None,
        app_name: None,
        source_id: None,
        source_name: Some("n2".to_string()),
    });
    assert!(!event_passes(&e, &wrong_name));
}

#[test]
fn bounds_are_inclusive_at_the_edges() {
    // starting exactly at the upper bound is allowed
    assert!(event_passes(&ev(5, None), &range_filter(None, Some(5))));
    // ending exactly at the lower bound is allowed
    assert!(event_passes(&ev(1, Some(10)), &range_filter(Some(10), None)));
}

#[test]
fn filter_events_keeps_order() {
    let events = vec![ev(10, Some(20)), ev(5, Some(8)), ev(30, Some(40))];
    let kept = filter_events(events, range_filter(Some(10), None));
    assert_eq!(kept.len(), 2);
    assert_eq!(kept[0].from, 10);
    assert_eq!(kept[1].from, 30);
}

#[test]
fn get_event_finds_first_match() {
    let events = vec![named_ev("a", 1), named_ev("b", 2)];
    let found = get_event(&events, &"b".to_string()).expect("present");
    assert_eq!(found.from, 2);
}

#[test]
fn get_event_misses_with_not_found() {
    let events = vec![named_ev("a", 1)];
    let missing = get_event(&events, &"zzz".to_string());
    assert!(matches!(missing, Err(StoreError::NotFound)));
}

#[test]
fn create_event_assigns_a_fresh_id() {
    let mut store: Vec<Event> = Vec::new();
    let first = create_event(&mut store, ev(1, None));
    let second = create_event(&mut store, ev(2, None));
    let first_id = first.id.expect("id assigned");
    let second_id = second.id.expect("id assigned");
    assert_eq!(first_id.len(), 36);
    assert_eq!(second_id.len(), 36);
    assert_ne!(first_id, second_id);
    assert_eq!(store.len(), 2);
    assert_eq!(store[0].id.as_deref(), Some(first_id.as_str()));
    assert_eq!(store[0].from, 1);
}

#[test]
fn update_event_replaces_matching_entry_only() {
    let mut store = vec![named_ev("a", 1), named_ev("b", 2)];
    let mut change = named_ev("b", 99);
    change.text = "new".to_string();
    let returned = update_event(&mut store, change);
    assert_eq!(returned.from, 99);
    assert_eq!(store.len(), 2);
    assert_eq!(store[0].from, 1);
    assert_eq!(store[1].from, 99);
    assert_eq!(store[1].text, "new");
}

#[test]
fn comment_filter_matches_on_event_and_user() {
    let comments = vec![cm(Some("1"), "e1", "u1"), cm(Some("2"), "e1", "u2"), cm(
        Some("3"),
        "e2",
        "u1",
    )];
    let by_event = filter_comments(
        comments.clone(),
        Some(CommentFilter { event_id: Some("e1".to_string()), user_id: None }),
    );
    assert_eq!(by_event.len(), 2);
    let by_both = filter_comments(
        comments.clone(),
        Some(CommentFilter { event_id: Some("e1".to_string()), user_id: Some("u2".to_string()) }),
    );
    assert_eq!(by_both.len(), 1);
    assert_eq!(by_both[0].id.as_deref(), Some("2"));
    let unfiltered = filter_comments(comments, None);
    assert_eq!(unfiltered.len(), 3);
}

#[test]
fn get_comment_finds_by_id() {
    let comments = vec![cm(Some("1"), "e1", "u1"), cm(Some("2"), "e1", "u2")];
    let found = get_comment(&comments, &"2".to_string()).expect("present");
    assert_eq!(found.user_id, "u2");
    assert!(matches!(get_comment(&comments, &"9".to_string()), Err(StoreError::NotFound)));
}

#[test]
fn create_comment_assigns_id_and_appends() {
    let mut store: Vec<Comment> = Vec::new();
    let created = create_comment(&mut store, cm(None, "e1", "u1"));
    assert_eq!(created.id.expect("id assigned").len(), 36);
    assert_eq!(store.len(), 1);
    assert_eq!(store[0].event_id, "e1");
}

#[test]
fn update_comment_replaces_matching_entry_only() {
    let mut store = vec![cm(Some("1"), "e1", "u1"), cm(Some("2"), "e1", "u2")];
    let mut change = cm(Some("2"), "e1", "u2");
    change.comment = "edited".to_string();
    update_comment(&mut store, change);
    assert_eq!(store[0].comment, "c");
    assert_eq!(store[1].comment, "edited");
}

#[test]
fn creating_an_event_end_to_end() {
    let mut store: Vec<Event> = Vec::new();
    let mut event = ev(100, Some(200));
    event.text = "demo".to_string();
    let created = create_event(&mut store, event);
    let env = eventlog::envelope::success(eventlog::model::get_event_payload(created));
    assert_eq!(env.status, Status::OK);
    match env.data.expect("data present") {
        PayloadData::EventItem(e) => {
            let id = e.id.expect("id assigned");
            assert!(!id.is_empty());
            assert_eq!(e.from, 100);
            assert_eq!(e.to, Some(200));
            assert_eq!(e.text, "demo");
        },
        _ => panic!("expected a single event"),
    }
    let templates = env._templates.expect("templates present");
    assert_eq!(templates.len(), 3);
    assert!(templates.get(&"delete".to_string()).is_some());
    assert!(templates.get(&"update".to_string()).is_some());
    assert!(templates.get(&"comment".to_string()).is_some());
}
