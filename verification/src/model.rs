//! Domain entities — events and the comments attached to them — their filter
//! descriptors, and the affordance builder that decorates them with
//! hypermedia links and action templates.
use vstd::prelude::*;

use crate::envelope::{
    clone_opt_string, create_property, Link, LinkModel, MethodType, Payload, Property,
    PropertyModel, Template, TemplateModel,
};

verus! {

/// A time-ranged record. `id` is absent until creation assigns it, exactly
/// once. `_links` and `_templates` are transient, recomputed on every read,
/// never authoritative.
pub struct Event {
    pub id: Option<String>,
    pub from: i64,
    pub to: Option<i64>,
    pub text: String,
    pub app_name: Option<String>,
    pub source_id: Option<String>,
    pub source_name: Option<String>,
    pub _links: Option<Vec<Link>>,
    pub _templates: Option<Vec<Template>>,
}

/// Mathematical image of an [`Event`].
#[verifier::ext_equal]
pub ghost struct EventModel {
    pub id: Option<Seq<char>>,
    pub from: i64,
    pub to: Option<i64>,
    pub text: Seq<char>,
    pub app_name: Option<Seq<char>>,
    pub source_id: Option<Seq<char>>,
    pub source_name: Option<Seq<char>>,
    pub links: Option<Seq<LinkModel>>,
    pub templates: Option<Seq<TemplateModel>>,
}

impl DeepView for Event {
    type V = EventModel;

    open spec fn deep_view(&self) -> EventModel {
        EventModel {
            id: self.id.deep_view(),
            from: self.from,
            to: self.to,
            text: self.text@,
            app_name: self.app_name.deep_view(),
            source_id: self.source_id.deep_view(),
            source_name: self.source_name.deep_view(),
            links: self._links.deep_view(),
            templates: self._templates.deep_view(),
        }
    }
}

impl Clone for Event {
    fn clone(&self) -> (r: Self)
        ensures
            r.deep_view() == self.deep_view(),
    {
        let r = Event {
            id: clone_opt_string(&self.id),
            from: self.from,
            to: self.to,
            text: self.text.clone(),
            app_name: clone_opt_string(&self.app_name),
            source_id: clone_opt_string(&self.source_id),
            source_name: clone_opt_string(&self.source_name),
            _links: clone_opt_links(&self._links),
            _templates: clone_opt_templates(&self._templates),
        };
        proof {
            assert(r.deep_view() =~~= self.deep_view());
        }
        r
    }
}

/// A comment attached to one event. `event_id` names the owning event;
/// `id` is absent until creation assigns it.
pub struct Comment {
    pub id: Option<String>,
    pub event_id: String,
    pub user_id: String,
    pub comment: String,
    pub timestamp: i64,
    pub _links: Option<Vec<Link>>,
    pub _templates: Option<Vec<Template>>,
}

/// Mathematical image of a [`Comment`].
#[verifier::ext_equal]
pub ghost struct CommentModel {
    pub id: Option<Seq<char>>,
    pub event_id: Seq<char>,
    pub user_id: Seq<char>,
    pub comment: Seq<char>,
    pub timestamp: i64,
    pub links: Option<Seq<LinkModel>>,
    pub templates: Option<Seq<TemplateModel>>,
}

impl DeepView for Comment {
    type V = CommentModel;

    open spec fn deep_view(&self) -> CommentModel {
        CommentModel {
            id: self.id.deep_view(),
            event_id: self.event_id@,
            user_id: self.user_id@,
            comment: self.comment@,
            timestamp: self.timestamp,
            links: self._links.deep_view(),
            templates: self._templates.deep_view(),
        }
    }
}

impl Clone for Comment {
    fn clone(&self) -> (r: Self)
        ensures
            r.deep_view() == self.deep_view(),
    {
        let r = Comment {
            id: clone_opt_string(&self.id),
            event_id: self.event_id.clone(),
            user_id: self.user_id.clone(),
            comment: self.comment.clone(),
            timestamp: self.timestamp,
            _links: clone_opt_links(&self._links),
            _templates: clone_opt_templates(&self._templates),
        };
        proof {
            assert(r.deep_view() =~~= self.deep_view());
        }
        r
    }
}

/// Which events a query asks for; an absent field never excludes.
pub struct EventFilter {
    pub from: Option<i64>,
    pub to: Option<i64>,
    pub app_name: Option<String>,
    pub source_id: Option<String>,
    pub source_name: Option<String>,
}

/// Which comments a query asks for; an absent field never excludes.
pub struct CommentFilter {
    pub event_id: Option<String>,
    pub user_id: Option<String>,
}

/// The successful payload of a response: the data to return, with the
/// affordances that should accompany it, given as ordered lists.
pub enum PayloadData {
    EventItem(Event),
    EventList(Vec<Event>),
    CommentItem(Comment),
    CommentList(Vec<Comment>),
    Flag(bool),
}

/// A plain form property: shown under `name`, never pre-filled, read-write,
/// required exactly when said.
pub open spec fn plain_property(p: PropertyModel, name: Seq<char>, required: bool) -> bool {
    &&& p.name == name
    &&& p.prompt is None
    &&& p.read_only == false
    &&& p.required == required
    &&& p.templated is None
    &&& p.value is None
}

/// The `eventId` form property: required, read-only, pre-filled with the
/// owning event's id.
pub open spec fn prefilled_event_id_property(p: PropertyModel, event_id: Seq<char>) -> bool {
    &&& p.name == "eventId"@
    &&& p.prompt is None
    &&& p.read_only == true
    &&& p.required == true
    &&& p.templated is None
    &&& p.value == Some(event_id)
}

/// The property set of the event creation and update forms.
pub open spec fn event_form_properties(ps: Seq<PropertyModel>) -> bool {
    &&& ps.len() == 6
    &&& plain_property(ps[0], "from"@, true)
    &&& plain_property(ps[1], "to"@, false)
    &&& plain_property(ps[2], "text"@, true)
    &&& plain_property(ps[3], "appName"@, false)
    &&& plain_property(ps[4], "sourceId"@, false)
    &&& plain_property(ps[5], "sourceName"@, false)
}

/// The property set of the comment creation and update forms, scoped to one
/// event.
pub open spec fn comment_form_properties(ps: Seq<PropertyModel>, event_id: Seq<char>) -> bool {
    &&& ps.len() == 4
    &&& prefilled_event_id_property(ps[0], event_id)
    &&& plain_property(ps[1], "userId"@, true)
    &&& plain_property(ps[2], "comment"@, true)
    &&& plain_property(ps[3], "timestamp"@, false)
}

pub open spec fn link_is(l: LinkModel, key: Seq<char>, href: Seq<char>) -> bool {
    l.key == key && l.href == href
}

/// The `delete` template: DELETE aimed at `self`, no properties, no title.
pub open spec fn delete_template(t: TemplateModel) -> bool {
    &&& t.key == "delete"@
    &&& t.method == MethodType::DELETE
    &&& t.properties is None
    &&& t.target == Some("self"@)
    &&& t.title is None
}

/// The `update` template of an event: PATCH aimed at `self` with the event
/// form properties.
pub open spec fn event_update_template(t: TemplateModel) -> bool {
    &&& t.key == "update"@
    &&& t.method == MethodType::PATCH
    &&& t.properties matches Some(ps) && event_form_properties(ps)
    &&& t.target == Some("self"@)
    &&& t.title is None
}

/// The `comment` template of an event: POST aimed at `comments` with the
/// comment form properties, pre-filled with the event's id.
pub open spec fn event_comment_template(t: TemplateModel, id: Seq<char>) -> bool {
    &&& t.key == "comment"@
    &&& t.method == MethodType::POST
    &&& t.properties matches Some(ps) && comment_form_properties(ps, id)
    &&& t.target == Some("comments"@)
    &&& t.title is None
}

/// The `update` template of a comment: PATCH aimed at `self` with the
/// comment form properties.
pub open spec fn comment_update_template(t: TemplateModel, event_id: Seq<char>) -> bool {
    &&& t.key == "update"@
    &&& t.method == MethodType::PATCH
    &&& t.properties matches Some(ps) && comment_form_properties(ps, event_id)
    &&& t.target == Some("self"@)
    &&& t.title is None
}

/// The two links of a persisted event.
pub open spec fn event_item_links(ls: Seq<LinkModel>, id: Seq<char>) -> bool {
    &&& ls.len() == 2
    &&& link_is(ls[0], "self"@, "/events/"@ + id)
    &&& link_is(ls[1], "comments"@, "/events/"@ + id + "/comments"@)
}

/// The three templates of a persisted event.
pub open spec fn event_item_templates(ts: Seq<TemplateModel>, id: Seq<char>) -> bool {
    &&& ts.len() == 3
    &&& delete_template(ts[0])
    &&& event_update_template(ts[1])
    &&& event_comment_template(ts[2], id)
}

/// The two links of a persisted comment.
pub open spec fn comment_item_links(
    ls: Seq<LinkModel>,
    event_id: Seq<char>,
    id: Seq<char>,
) -> bool {
    &&& ls.len() == 2
    &&& link_is(ls[0], "event"@, "/events/"@ + event_id)
    &&& link_is(ls[1], "self"@, "/events/"@ + event_id + "/comments/"@ + id)
}

/// The two templates of a persisted comment.
pub open spec fn comment_item_templates(ts: Seq<TemplateModel>, event_id: Seq<char>) -> bool {
    &&& ts.len() == 2
    &&& delete_template(ts[0])
    &&& comment_update_template(ts[1], event_id)
}

/// The collection-level template of the event list.
pub open spec fn event_collection_template(t: TemplateModel) -> bool {
    &&& t.key == "default"@
    &&& t.method == MethodType::POST
    &&& t.properties matches Some(ps) && event_form_properties(ps)
    &&& t.target == Some("self"@)
    &&& t.title == Some("Create event"@)
}

/// The collection-level template of an event's comment list.
pub open spec fn comment_collection_template(t: TemplateModel, event_id: Seq<char>) -> bool {
    &&& t.key == "default"@
    &&& t.method == MethodType::POST
    &&& t.properties matches Some(ps) && comment_form_properties(ps, event_id)
    &&& t.target == Some("self"@)
    &&& t.title == Some("Create comment"@)
}

/// How the affordance builder decorates an event: nothing changes when no id
/// is assigned; with an id, the persisted fields stay and the transient
/// affordances become the item links and templates.
pub open spec fn event_extended(e: EventModel, r: EventModel) -> bool {
    match e.id {
        None => r == e,
        Some(id) => {
            &&& r.id == e.id
            &&& r.from == e.from
            &&& r.to == e.to
            &&& r.text == e.text
            &&& r.app_name == e.app_name
            &&& r.source_id == e.source_id
            &&& r.source_name == e.source_name
            &&& r.links matches Some(ls) && event_item_links(ls, id)
            &&& r.templates matches Some(ts) && event_item_templates(ts, id)
        },
    }
}

/// How the affordance builder decorates a comment.
pub open spec fn comment_extended(c: CommentModel, r: CommentModel) -> bool {
    match c.id {
        None => r == c,
        Some(id) => {
            &&& r.id == c.id
            &&& r.event_id == c.event_id
            &&& r.user_id == c.user_id
            &&& r.comment == c.comment
            &&& r.timestamp == c.timestamp
            &&& r.links matches Some(ls) && comment_item_links(ls, c.event_id, id)
            &&& r.templates matches Some(ts) && comment_item_templates(ts, c.event_id)
        },
    }
}

/// Decorates a persisted event with its links and action templates; an event
/// with no assigned id is returned unchanged.
pub fn extend_event(event: Event) -> (r: Event)
    ensures
        event_extended(event.deep_view(), r.deep_view()),
        event.id is None ==> r == event,
{
    if event.id.is_none() {
        return event;
    }
    let mut event = event;
    let id = event.id.as_ref().unwrap().clone();

    let mut href_self = String::from_str("/events/");
    href_self.append(id.as_str());
    let mut href_comments = href_self.clone();
    href_comments.append("/comments");

    let mut links: Vec<Link> = Vec::new();
    links.push(Link { key: String::from_str("self"), href: href_self });
    links.push(Link { key: String::from_str("comments"), href: href_comments });
    event._links = Some(links);

    let mut templates: Vec<Template> = Vec::new();
    templates.push(
        Template {
            key: String::from_str("delete"),
            method: MethodType::DELETE,
            properties: None,
            target: Some(String::from_str("self")),
            title: None,
        },
    );
    templates.push(
        Template {
            key: String::from_str("update"),
            method: MethodType::PATCH,
            properties: Some(get_update_properties()),
            target: Some(String::from_str("self")),
            title: None,
        },
    );
    templates.push(
        Template {
            key: String::from_str("comment"),
            method: MethodType::POST,
            properties: Some(get_comment_properties(id.as_str())),
            target: Some(String::from_str("comments")),
            title: None,
        },
    );
    event._templates = Some(templates);

    event
}

/// Decorates a persisted comment with its links and action templates; a
/// comment with no assigned id is returned unchanged.
pub fn extend_comment(comment: Comment) -> (r: Comment)
    ensures
        comment_extended(comment.deep_view(), r.deep_view()),
        comment.id is None ==> r == comment,
{
    if comment.id.is_none() {
        return comment;
    }
    let mut comment = comment;
    let id = comment.id.as_ref().unwrap().clone();

    let mut href_event = String::from_str("/events/");
    href_event.append(comment.event_id.as_str());
    let mut href_self = href_event.clone();
    href_self.append("/comments/");
    href_self.append(id.as_str());

    let mut links: Vec<Link> = Vec::new();
    links.push(Link { key: String::from_str("event"), href: href_event });
    links.push(Link { key: String::from_str("self"), href: href_self });
    comment._links = Some(links);

    let mut templates: Vec<Template> = Vec::new();
    templates.push(
        Template {
            key: String::from_str("delete"),
            method: MethodType::DELETE,
            properties: None,
            target: Some(String::from_str("self")),
            title: None,
        },
    );
    templates.push(
        Template {
            key: String::from_str("update"),
            method: MethodType::PATCH,
            properties: Some(get_comment_properties(comment.event_id.as_str())),
            target: Some(String::from_str("self")),
            title: None,
        },
    );
    comment._templates = Some(templates);

    comment
}

/// The links of the event collection.
pub fn event_links() -> (r: Vec<Link>)
    ensures
        r.deep_view().len() == 1,
        link_is(r.deep_view()[0], "self"@, "/events"@),
{
    let mut links: Vec<Link> = Vec::new();
    links.push(Link { key: String::from_str("self"), href: String::from_str("/events") });
    links
}

/// The templates of the event collection: the event creation form.
pub fn event_templates() -> (r: Vec<Template>)
    ensures
        r.deep_view().len() == 1,
        event_collection_template(r.deep_view()[0]),
{
    let mut templates: Vec<Template> = Vec::new();
    templates.push(
        Template {
            key: String::from_str("default"),
            method: MethodType::POST,
            properties: Some(get_create_properties()),
            target: Some(String::from_str("self")),
            title: Some(String::from_str("Create event")),
        },
    );
    templates
}

/// The links of one event's comment collection.
pub fn comment_links(event_id: &str) -> (r: Vec<Link>)
    ensures
        r.deep_view().len() == 1,
        link_is(r.deep_view()[0], "self"@, "/events/"@ + event_id@ + "/comments"@),
{
    let mut href = String::from_str("/events/");
    href.append(event_id);
    href.append("/comments");
    let mut links: Vec<Link> = Vec::new();
    links.push(Link { key: String::from_str("self"), href });
    links
}

/// The templates of one event's comment collection: the comment creation
/// form, pre-filled with the event's id.
pub fn comment_templates(event_id: &str) -> (r: Vec<Template>)
    ensures
        r.deep_view().len() == 1,
        comment_collection_template(r.deep_view()[0], event_id@),
{
    let mut templates: Vec<Template> = Vec::new();
    templates.push(
        Template {
            key: String::from_str("default"),
            method: MethodType::POST,
            properties: Some(get_comment_properties(event_id)),
            target: Some(String::from_str("self")),
            title: Some(String::from_str("Create comment")),
        },
    );
    templates
}

/// The input properties of the event creation form.
pub fn get_create_properties() -> (r: Vec<Property>)
    ensures
        event_form_properties(r.deep_view()),
{
    let mut properties: Vec<Property> = Vec::new();
    properties.push(create_property("from", false, true));
    properties.push(create_property("to", false, false));
    properties.push(create_property("text", false, true));
    properties.push(create_property("appName", false, false));
    properties.push(create_property("sourceId", false, false));
    properties.push(create_property("sourceName", false, false));
    properties
}

/// The input properties of the event update form; the same set as the
/// creation form.
pub fn get_update_properties() -> (r: Vec<Property>)
    ensures
        event_form_properties(r.deep_view()),
{
    let mut properties: Vec<Property> = Vec::new();
    properties.push(create_property("from", false, true));
    properties.push(create_property("to", false, false));
    properties.push(create_property("text", false, true));
    properties.push(create_property("appName", false, false));
    properties.push(create_property("sourceId", false, false));
    properties.push(create_property("sourceName", false, false));
    properties
}

/// The input properties of the comment forms, with `eventId` pre-filled and
/// read-only.
pub fn get_comment_properties(event_id: &str) -> (r: Vec<Property>)
    ensures
        comment_form_properties(r.deep_view(), event_id@),
{
    let mut properties: Vec<Property> = Vec::new();
    properties.push(
        Property {
            name: String::from_str("eventId"),
            prompt: None,
            read_only: true,
            required: true,
            templated: None,
            value: Some(event_id.to_owned()),
        },
    );
    properties.push(create_property("userId", false, true));
    properties.push(create_property("comment", false, true));
    properties.push(create_property("timestamp", false, false));
    properties
}

/// The payload of listing events: every event decorated, plus the
/// collection links and the creation template.
pub fn get_events_payload(events: Vec<Event>) -> (r: Payload)
    ensures
        r.data matches PayloadData::EventList(es) && es@.len() == events@.len() && (forall|i: int|
            0 <= i < events@.len() ==> event_extended(
                events@[i].deep_view(),
                #[trigger] es@[i].deep_view(),
            )),
        r.links matches Some(ls) && ls.deep_view().len() == 1 && link_is(
            ls.deep_view()[0],
            "self"@,
            "/events"@,
        ),
        r.templates matches Some(ts) && ts.deep_view().len() == 1 && event_collection_template(
            ts.deep_view()[0],
        ),
{
    let ghost orig = events@;
    let mut rest = events;
    let mut out: Vec<Event> = Vec::new();
    while rest.len() > 0
        invariant
            out@.len() + rest@.len() == orig.len(),
            rest@ =~= orig.subrange(out@.len() as int, orig.len() as int),
            forall|i: int| 0 <= i < out@.len() ==> event_extended(
                orig[i].deep_view(),
                #[trigger] out@[i].deep_view(),
            ),
        decreases rest@.len(),
    {
        let ghost n = out@.len() as int;
        let e = rest.remove(0);
        proof {
            assert(e == orig[n]);
            assert(rest@ =~= orig.subrange(n + 1, orig.len() as int));
        }
        out.push(extend_event(e));
    }
    Payload {
        data: PayloadData::EventList(out),
        links: Some(event_links()),
        templates: Some(event_templates()),
    }
}

/// The payload of returning one event: the event itself as data, with the
/// links and templates its decorated copy would carry.
pub fn get_event_payload(event: Event) -> (r: Payload)
    ensures
        r.data matches PayloadData::EventItem(e) && e == event,
        (match event.deep_view().id {
            Some(id) => {
                &&& r.links matches Some(ls) && event_item_links(ls.deep_view(), id)
                &&& r.templates matches Some(ts) && event_item_templates(ts.deep_view(), id)
            },
            None => {
                &&& r.links.deep_view() == event._links.deep_view()
                &&& r.templates.deep_view() == event._templates.deep_view()
                &&& (r.links is Some <==> event._links is Some)
                &&& (r.templates is Some <==> event._templates is Some)
            },
        }),
{
    let copy = extend_event(event.clone());
    Payload { data: PayloadData::EventItem(event), links: copy._links, templates: copy._templates }
}

/// The payload of listing one event's comments: every comment decorated,
/// plus the collection links and the creation template, scoped to the event.
pub fn get_comments_payload(event_id: String, comments: Vec<Comment>) -> (r: Payload)
    ensures
        r.data matches PayloadData::CommentList(cs) && cs@.len() == comments@.len() && (
        forall|i: int|
            0 <= i < comments@.len() ==> comment_extended(
                comments@[i].deep_view(),
                #[trigger] cs@[i].deep_view(),
            )),
        r.links matches Some(ls) && ls.deep_view().len() == 1 && link_is(
            ls.deep_view()[0],
            "self"@,
            "/events/"@ + event_id@ + "/comments"@,
        ),
        r.templates matches Some(ts) && ts.deep_view().len() == 1 && comment_collection_template(
            ts.deep_view()[0],
            event_id@,
        ),
{
    let ghost orig = comments@;
    let mut rest = comments;
    let mut out: Vec<Comment> = Vec::new();
    while rest.len() > 0
        invariant
            out@.len() + rest@.len() == orig.len(),
            rest@ =~= orig.subrange(out@.len() as int, orig.len() as int),
            forall|i: int| 0 <= i < out@.len() ==> comment_extended(
                orig[i].deep_view(),
                #[trigger] out@[i].deep_view(),
            ),
        decreases rest@.len(),
    {
        let ghost n = out@.len() as int;
        let c = rest.remove(0);
        proof {
            assert(c == orig[n]);
            assert(rest@ =~= orig.subrange(n + 1, orig.len() as int));
        }
        out.push(extend_comment(c));
    }
    Payload {
        data: PayloadData::CommentList(out),
        links: Some(comment_links(event_id.as_str())),
        templates: Some(comment_templates(event_id.as_str())),
    }
}

/// The payload of returning one comment: the comment itself as data, with
/// the links and templates its decorated copy would carry — affordances are
/// recomputed at response time, never read back from storage.
pub fn get_comment_payload(comment: Comment) -> (r: Payload)
    ensures
        r.data matches PayloadData::CommentItem(c) && c == comment,
        (match comment.deep_view().id {
            Some(id) => {
                &&& r.links matches Some(ls) && comment_item_links(
                    ls.deep_view(),
                    comment.event_id@,
                    id,
                )
                &&& r.templates matches Some(ts) && comment_item_templates(
                    ts.deep_view(),
                    comment.event_id@,
                )
            },
            None => {
                &&& r.links.deep_view() == comment._links.deep_view()
                &&& r.templates.deep_view() == comment._templates.deep_view()
                &&& (r.links is Some <==> comment._links is Some)
                &&& (r.templates is Some <==> comment._templates is Some)
            },
        }),
{
    let copy = extend_comment(comment.clone());
    Payload {
        data: PayloadData::CommentItem(comment),
        links: copy._links,
        templates: copy._templates,
    }
}

fn clone_opt_links(o: &Option<Vec<Link>>) -> (r: Option<Vec<Link>>)
    ensures
        r.deep_view() == o.deep_view(),
        r is Some <==> *o is Some,
{
    match o {
        Some(ls) => {
            let mut out: Vec<Link> = Vec::new();
            let mut i: usize = 0;
            while i < ls.len()
                invariant
                    i <= ls.len(),
                    out@ =~= ls@.subrange(0, i as int),
                decreases ls.len() - i,
            {
                out.push(ls[i].clone());
                i = i + 1;
            }
            proof {
                assert(out@ =~= ls@);
                assert(out.deep_view() =~= ls.deep_view());
            }
            Some(out)
        },
        None => None,
    }
}

fn clone_opt_templates(o: &Option<Vec<Template>>) -> (r: Option<Vec<Template>>)
    ensures
        r.deep_view() == o.deep_view(),
        r is Some <==> *o is Some,
{
    match o {
        Some(ts) => {
            let mut out: Vec<Template> = Vec::new();
            let mut i: usize = 0;
            while i < ts.len()
                invariant
                    i <= ts.len(),
                    out@.len() == i,
                    forall|q: int| 0 <= q < i ==> out@[q].deep_view() == ts@[q].deep_view(),
                decreases ts.len() - i,
            {
                out.push(ts[i].clone());
                i = i + 1;
            }
            proof {
                assert(out.deep_view() =~= ts.deep_view());
            }
            Some(out)
        },
        None => None,
    }
}

} // verus!
