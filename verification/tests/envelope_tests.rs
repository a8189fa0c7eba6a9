use eventlog::envelope::{
    create_property, error, success, Link, Payload, Status, Template, MethodType,
};
use eventlog::model::{
    get_comment_payload, get_event_payload, get_events_payload, Comment, Event, PayloadData,
};

fn sample_event(id: Option<String>) -> Event {
    Event {
        id,
        from: 100,
        to: Some(200),
        text: "demo".to_string(),
        app_name: None,
        source_id: None,
        source_name: None,
        _links: None,
        _templates: None,
    }
}

#[test]
fn error_envelope_shape() {
    let env = error(7, "boom".to_string());
    assert_eq!(env.status, Status::Error);
    assert!(env.data.is_none());
    let err = env.error.expect("error body present");
    assert_eq!(err.code, 7);
    assert_eq!(err.description, "boom");
    assert!(env.page_number.is_none());
    assert!(env.next_page.is_none());
    assert!(env.total_pages.is_none());
    assert!(env._links.is_none());
    assert!(env._templates.is_none());
}

#[test]
fn success_envelope_shape() {
    let env = success(Payload { data: PayloadData::Flag(true), links: None, templates: None });
    assert_eq!(env.status, Status::OK);
    assert!(env.error.is_none());
    assert!(matches!(env.data, Some(PayloadData::Flag(true))));
    assert!(env.page_number.is_none());
    assert!(env.next_page.is_none());
    assert!(env.total_pages.is_none());
}

#[test]
fn success_and_error_are_mutually_exclusive() {
    let ok = success(Payload { data: PayloadData::Flag(false), links: None, templates: None });
    assert!(ok.data.is_some() && ok.error.is_none());
    let err = error(1, "what".to_string());
    assert!(err.data.is_none() && err.error.is_some());
}

#[test]
fn absent_affordance_lists_stay_absent() {
    let env = success(Payload { data: PayloadData::Flag(true), links: None, templates: None });
    assert!(env._links.is_none());
    assert!(env._templates.is_none());
}

#[test]
fn links_are_keyed_and_last_write_wins() {
    let links = vec![
        Link { key: "a".to_string(), href: "1".to_string() },
        Link { key: "b".to_string(), href: "2".to_string() },
        Link { key: "a".to_string(), href: "3".to_string() },
    ];
    let env = success(Payload { data: PayloadData::Flag(true), links: Some(links), templates: None });
    let map = env._links.expect("links stored");
    assert_eq!(map.len(), 2);
    let a = map.get(&"a".to_string()).expect("key a present");
    assert_eq!(a.href, "3");
    let b = map.get(&"b".to_string()).expect("key b present");
    assert_eq!(b.href, "2");
    assert!(map.get(&"c".to_string()).is_none());
}

#[test]
fn templates_are_keyed_by_name() {
    let templates = vec![
        Template {
            key: "default".to_string(),
            method: MethodType::POST,
            properties: Some(vec![create_property("from", false, true)]),
            target: Some("self".to_string()),
            title: Some("Create event".to_string()),
        },
    ];
    let env = success(Payload {
        data: PayloadData::Flag(true),
        links: None,
        templates: Some(templates),
    });
    let map = env._templates.expect("templates stored");
    assert_eq!(map.len(), 1);
    let t = map.get(&"default".to_string()).expect("default present");
    assert_eq!(t.method, MethodType::POST);
    assert_eq!(t.title.as_deref(), Some("Create event"));
}

#[test]
fn replaced_key_keeps_its_place_in_the_listing() {
    let links = vec![
        Link { key: "a".to_string(), href: "1".to_string() },
        Link { key: "b".to_string(), href: "2".to_string() },
        Link { key: "a".to_string(), href: "3".to_string() },
    ];
    let env = success(Payload { data: PayloadData::Flag(true), links: Some(links), templates: None });
    let map = env._links.expect("links stored");
    let items = map.items();
    assert_eq!(items.len(), 2);
    assert_eq!(items[0].key, "a");
    assert_eq!(items[0].href, "3");
    assert_eq!(items[1].key, "b");
}

#[test]
fn create_property_fields() {
    let p = create_property("from", false, true);
    assert_eq!(p.name, "from");
    assert!(p.prompt.is_none());
    assert!(!p.read_only);
    assert!(p.required);
    assert!(p.templated.is_none());
    assert!(p.value.is_none());
}

#[test]
fn event_payload_carries_item_affordances() {
    let payload = get_event_payload(sample_event(Some("x".to_string())));
    match &payload.data {
        PayloadData::EventItem(e) => {
            assert_eq!(e.id.as_deref(), Some("x"));
            assert!(e._links.is_none());
        },
        _ => panic!("expected a single event"),
    }
    let links = payload.links.expect("item links");
    assert_eq!(links.len(), 2);
    assert_eq!(links[0].href, "/events/x");
    let templates = payload.templates.expect("item templates");
    assert_eq!(templates.len(), 3);
}

#[test]
fn event_payload_without_id_keeps_affordances_absent() {
    let payload = get_event_payload(sample_event(None));
    assert!(payload.links.is_none());
    assert!(payload.templates.is_none());
}

#[test]
fn events_payload_extends_each_item() {
    let events = vec![sample_event(Some("a".to_string())), sample_event(None)];
    let payload = get_events_payload(events);
    match &payload.data {
        PayloadData::EventList(es) => {
            assert_eq!(es.len(), 2);
            assert!(es[0]._links.is_some());
            assert!(es[1]._links.is_none());
        },
        _ => panic!("expected an event list"),
    }
    let links = payload.links.expect("collection links");
    assert_eq!(links[0].href, "/events");
    let templates = payload.templates.expect("collection templates");
    assert_eq!(templates[0].title.as_deref(), Some("Create event"));
}

fn sample_comment(id: Option<&str>) -> Comment {
    Comment {
        id: id.map(|s| s.to_string()),
        event_id: "e".to_string(),
        user_id: "u".to_string(),
        comment: "hi".to_string(),
        timestamp: 1,
        _links: None,
        _templates: None,
    }
}

#[test]
fn comment_payload_carries_recomputed_affordances() {
    let payload = get_comment_payload(sample_comment(Some("y")));
    match &payload.data {
        PayloadData::CommentItem(c) => {
            assert_eq!(c.comment, "hi");
            assert!(c._links.is_none());
        },
        _ => panic!("expected a single comment"),
    }
    let links = payload.links.expect("item links");
    assert_eq!(links.len(), 2);
    assert_eq!(links[0].key, "event");
    assert_eq!(links[0].href, "/events/e");
    assert_eq!(links[1].key, "self");
    assert_eq!(links[1].href, "/events/e/comments/y");
    let templates = payload.templates.expect("item templates");
    assert_eq!(templates.len(), 2);
    assert_eq!(templates[0].key, "delete");
    assert_eq!(templates[1].key, "update");
    let props = templates[1].properties.as_ref().expect("update form has properties");
    assert_eq!(props[0].name, "eventId");
    assert_eq!(props[0].value.as_deref(), Some("e"));
}

#[test]
fn comment_payload_without_id_keeps_affordances_absent() {
    let payload = get_comment_payload(sample_comment(None));
    assert!(payload.links.is_none());
    assert!(payload.templates.is_none());
}
