//! The compute half of the storage operations: pure filtering, lookup by
//! id, in-place update, and identifier assignment at creation. Reading and
//! writing the backing store itself is the surrounding application's work.
use vstd::prelude::*;

use crate::model::{Comment, CommentFilter, Event, EventFilter};

verus! {

/// Why a storage lookup failed.
#[derive(Clone, Copy, PartialEq, Eq, Structural, Debug)]
pub enum StoreError {
    NotFound,
}

/// Relies on uuid's `Uuid::new_v4` with the hyphenated rendering: a freshly
/// drawn random identifier written as 36 characters (32 hex digits and 4
/// hyphens). Nothing more is assumed of the randomly drawn value.
#[verifier::external_body]
fn create_uuid() -> (r: String)
    ensures
        r@.len() == 36,
{
    uuid::Uuid::new_v4().hyphenated().to_string()
}

/// Holds when a filter field set to `f` accepts a stored field `v`: an
/// absent filter field never excludes; a present one demands a present,
/// equal value.
pub open spec fn opt_field_matches(f: Option<Seq<char>>, v: Option<Seq<char>>) -> bool {
    f matches Some(s) ==> v matches Some(t) && t == s
}

/// The event's whole interval ends before the lower bound. An event with no
/// end is open-ended and never excluded by this rule.
pub open spec fn excluded_by_lower(e: Event, lo: i64) -> bool {
    e.from < lo && (e.to matches Some(hi) && hi < lo)
}

/// The event starts after the upper bound, or its interval extends past it.
pub open spec fn excluded_by_upper(e: Event, up: i64) -> bool {
    e.from > up || (e.to matches Some(hi) && hi > up)
}

/// The event range filter: metadata fields must match exactly where set, and
/// the range bounds exclude as the two rules above say. The two rules treat
/// open-ended events asymmetrically: such an event survives any lower bound
/// but is still excluded by an upper bound it starts beyond.
pub open spec fn event_matches_filter(e: Event, f: EventFilter) -> bool {
    &&& opt_field_matches(f.app_name.deep_view(), e.app_name.deep_view())
    &&& opt_field_matches(f.source_id.deep_view(), e.source_id.deep_view())
    &&& opt_field_matches(f.source_name.deep_view(), e.source_name.deep_view())
    &&& (f.from matches Some(lo) ==> !excluded_by_lower(e, lo))
    &&& (f.to matches Some(up) ==> !excluded_by_upper(e, up))
}

/// No filter matches every event.
pub open spec fn event_matches(e: Event, filter: Option<EventFilter>) -> bool {
    match filter {
        None => true,
        Some(f) => event_matches_filter(e, f),
    }
}

/// The subsequence of `s` whose events pass the filter, in order.
pub open spec fn filtered_events(s: Seq<Event>, f: Option<EventFilter>) -> Seq<Event>
    decreases s.len(),
{
    if s.len() == 0 {
        Seq::empty()
    } else {
        let rest = filtered_events(s.drop_last(), f);
        if event_matches(s.last(), f) {
            rest.push(s.last())
        } else {
            rest
        }
    }
}

/// The comment filter: exact match on `event_id` and `user_id` where set;
/// an absent field imposes no constraint.
pub open spec fn comment_matches_filter(c: Comment, f: CommentFilter) -> bool {
    &&& (f.event_id matches Some(id) ==> c.event_id@ == id@)
    &&& (f.user_id matches Some(u) ==> c.user_id@ == u@)
}

/// No filter matches every comment.
pub open spec fn comment_matches(c: Comment, filter: Option<CommentFilter>) -> bool {
    match filter {
        None => true,
        Some(f) => comment_matches_filter(c, f),
    }
}

/// The subsequence of `s` whose comments pass the filter, in order.
pub open spec fn filtered_comments(s: Seq<Comment>, f: Option<CommentFilter>) -> Seq<Comment>
    decreases s.len(),
{
    if s.len() == 0 {
        Seq::empty()
    } else {
        let rest = filtered_comments(s.drop_last(), f);
        if comment_matches(s.last(), f) {
            rest.push(s.last())
        } else {
            rest
        }
    }
}

fn opt_string_accepts(f: &Option<String>, v: &Option<String>) -> (r: bool)
    ensures
        r == opt_field_matches(f.deep_view(), v.deep_view()),
{
    match f {
        None => true,
        Some(s) => match v {
            Some(t) => *t == *s,
            None => false,
        },
    }
}

/// Whether one event passes the filter; the executable mirror of
/// [`event_matches`].
pub fn event_passes(e: &Event, filter: &Option<EventFilter>) -> (r: bool)
    ensures
        r == event_matches(*e, *filter),
{
    match filter {
        None => true,
        Some(f) => {
            if !opt_string_accepts(&f.app_name, &e.app_name) {
                return false;
            }
            if !opt_string_accepts(&f.source_id, &e.source_id) {
                return false;
            }
            if !opt_string_accepts(&f.source_name, &e.source_name) {
                return false;
            }
            if let Some(lo) = f.from {
                if e.from < lo {
                    if let Some(hi) = e.to {
                        if hi < lo {
                            return false;
                        }
                    }
                }
            }
            if let Some(up) = f.to {
                if e.from > up {
                    return false;
                }
                if let Some(hi) = e.to {
                    if hi > up {
                        return false;
                    }
                }
            }
            true
        },
    }
}

/// Whether one comment passes the filter; the executable mirror of
/// [`comment_matches`].
pub fn comment_passes(c: &Comment, filter: &Option<CommentFilter>) -> (r: bool)
    ensures
        r == comment_matches(*c, *filter),
{
    match filter {
        None => true,
        Some(f) => {
            if let Some(id) = &f.event_id {
                if !(*id == c.event_id) {
                    return false;
                }
            }
            if let Some(u) = &f.user_id {
                if !(*u == c.user_id) {
                    return false;
                }
            }
            true
        },
    }
}

/// Keeps exactly the events that pass the filter, in their stored order.
pub fn filter_events(events: Vec<Event>, filter: Option<EventFilter>) -> (r: Vec<Event>)
    ensures
        r@ == filtered_events(events@, filter),
{
    let ghost orig = events@;
    let mut rest = events;
    let mut out: Vec<Event> = Vec::new();
    while rest.len() > 0
        invariant
            rest@.len() <= orig.len(),
            rest@ =~= orig.subrange(orig.len() - rest@.len(), orig.len() as int),
            out@ == filtered_events(orig.subrange(0, orig.len() - rest@.len()), filter),
        decreases rest@.len(),
    {
        let ghost n = orig.len() - rest@.len();
        let e = rest.remove(0);
        proof {
            assert(e == orig[n]);
            assert(rest@ =~= orig.subrange(n + 1, orig.len() as int));
            assert(orig.subrange(0, n + 1).drop_last() =~= orig.subrange(0, n));
            assert(orig.subrange(0, n + 1).last() == orig[n]);
        }
        if event_passes(&e, &filter) {
            out.push(e);
        }
    }
    proof {
        assert(orig.subrange(0, orig.len() as int) =~= orig);
    }
    out
}

/// Keeps exactly the comments that pass the filter, in their stored order.
pub fn filter_comments(comments: Vec<Comment>, filter: Option<CommentFilter>) -> (r: Vec<Comment>)
    ensures
        r@ == filtered_comments(comments@, filter),
{
    let ghost orig = comments@;
    let mut rest = comments;
    let mut out: Vec<Comment> = Vec::new();
    while rest.len() > 0
        invariant
            rest@.len() <= orig.len(),
            rest@ =~= orig.subrange(orig.len() - rest@.len(), orig.len() as int),
            out@ == filtered_comments(orig.subrange(0, orig.len() - rest@.len()), filter),
        decreases rest@.len(),
    {
        let ghost n = orig.len() - rest@.len();
        let c = rest.remove(0);
        proof {
            assert(c == orig[n]);
            assert(rest@ =~= orig.subrange(n + 1, orig.len() as int));
            assert(orig.subrange(0, n + 1).drop_last() =~= orig.subrange(0, n));
            assert(orig.subrange(0, n + 1).last() == orig[n]);
        }
        if comment_passes(&c, &filter) {
            out.push(c);
        }
    }
    proof {
        assert(orig.subrange(0, orig.len() as int) =~= orig);
    }
    out
}

/// Whether some event in `s` carries the id.
pub open spec fn has_event_with_id(s: Seq<Event>, id: Seq<char>) -> bool {
    exists|i: int| 0 <= i < s.len() && (#[trigger] s[i].deep_view()).id == Some(id)
}

/// Whether some comment in `s` carries the id.
pub open spec fn has_comment_with_id(s: Seq<Comment>, id: Seq<char>) -> bool {
    exists|i: int| 0 <= i < s.len() && (#[trigger] s[i].deep_view()).id == Some(id)
}

/// Fetches the first stored event carrying `event_id`. A miss is reported
/// as `NotFound`, never assumed away.
pub fn get_event(events: &Vec<Event>, event_id: &String) -> (r: Result<Event, StoreError>)
    ensures
        r is Ok <==> has_event_with_id(events@, event_id@),
        (match r {
            Ok(e) => exists|i: int|
                0 <= i < events@.len() && (#[trigger] events@[i].deep_view()).id == Some(event_id@)
                    && e.deep_view() == events@[i].deep_view() && (forall|j: int|
                    0 <= j < i ==> (#[trigger] events@[j].deep_view()).id != Some(event_id@)),
            Err(err) => err == StoreError::NotFound,
        }),
{
    let mut i: usize = 0;
    while i < events.len()
        invariant
            i <= events@.len(),
            forall|j: int| 0 <= j < i ==> (#[trigger] events@[j].deep_view()).id != Some(
                event_id@,
            ),
        decreases events@.len() - i,
    {
        let found = match &events[i].id {
            Some(id) => *id == *event_id,
            None => false,
        };
        if found {
            let e = events[i].clone();
            proof {
                assert((events@[i as int].deep_view()).id == Some(event_id@));
            }
            return Ok(e);
        }
        i = i + 1;
    }
    Err(StoreError::NotFound)
}

/// Fetches the first stored comment carrying `comment_id`. A miss is
/// reported as `NotFound`, never assumed away.
pub fn get_comment(comments: &Vec<Comment>, comment_id: &String) -> (r: Result<
    Comment,
    StoreError,
>)
    ensures
        r is Ok <==> has_comment_with_id(comments@, comment_id@),
        (match r {
            Ok(c) => exists|i: int|
                0 <= i < comments@.len() && (#[trigger] comments@[i].deep_view()).id == Some(
                    comment_id@,
                ) && c.deep_view() == comments@[i].deep_view() && (forall|j: int|
                    0 <= j < i ==> (#[trigger] comments@[j].deep_view()).id != Some(comment_id@)),
            Err(err) => err == StoreError::NotFound,
        }),
{
    let mut i: usize = 0;
    while i < comments.len()
        invariant
            i <= comments@.len(),
            forall|j: int| 0 <= j < i ==> (#[trigger] comments@[j].deep_view()).id != Some(
                comment_id@,
            ),
        decreases comments@.len() - i,
    {
        let found = match &comments[i].id {
            Some(id) => *id == *comment_id,
            None => false,
        };
        if found {
            let c = comments[i].clone();
            proof {
                assert((comments@[i as int].deep_view()).id == Some(comment_id@));
            }
            return Ok(c);
        }
        i = i + 1;
    }
    Err(StoreError::NotFound)
}

/// Persists a new event: assigns a fresh 36-character identifier — ids are
/// assigned here, exactly once — appends the stored copy and returns it.
/// Every other field is kept as given.
pub fn create_event(events: &mut Vec<Event>, event: Event) -> (r: Event)
    ensures
        r.id matches Some(id) && id@.len() == 36,
        ({
            let m = r.deep_view();
            let e = event.deep_view();
            m.from == e.from && m.to == e.to && m.text == e.text && m.app_name == e.app_name
                && m.source_id == e.source_id && m.source_name == e.source_name && m.links
                == e.links && m.templates == e.templates
        }),
        final(events)@.len() == old(events)@.len() + 1,
        forall|i: int| 0 <= i < old(events)@.len() ==> final(events)@[i] == old(events)@[i],
        final(events)@[old(events)@.len() as int].deep_view() == r.deep_view(),
{
    let mut new_event = event;
    new_event.id = Some(create_uuid());
    let copy = new_event.clone();
    events.push(copy);
    new_event
}

/// Persists a new comment: assigns a fresh 36-character identifier, appends
/// the stored copy and returns it. Every other field is kept as given.
pub fn create_comment(comments: &mut Vec<Comment>, comment: Comment) -> (r: Comment)
    ensures
        r.id matches Some(id) && id@.len() == 36,
        ({
            let m = r.deep_view();
            let c = comment.deep_view();
            m.event_id == c.event_id && m.user_id == c.user_id && m.comment == c.comment
                && m.timestamp == c.timestamp && m.links == c.links && m.templates == c.templates
        }),
        final(comments)@.len() == old(comments)@.len() + 1,
        forall|i: int| 0 <= i < old(comments)@.len() ==> final(comments)@[i] == old(comments)@[i],
        final(comments)@[old(comments)@.len() as int].deep_view() == r.deep_view(),
{
    let mut new_comment = comment;
    new_comment.id = Some(create_uuid());
    let copy = new_comment.clone();
    comments.push(copy);
    new_comment
}

fn opt_id_eq(a: &Option<String>, b: &Option<String>) -> (r: bool)
    ensures
        r == (a.deep_view() == b.deep_view()),
{
    match (a, b) {
        (None, None) => true,
        (Some(x), Some(y)) => *x == *y,
        _ => false,
    }
}

/// Replaces every stored event whose id equals the given event's id with
/// the given event; every other entry is untouched. The given event is
/// returned.
pub fn update_event(events: &mut Vec<Event>, event: Event) -> (r: Event)
    ensures
        r == event,
        final(events)@.len() == old(events)@.len(),
        forall|i: int|
            0 <= i < old(events)@.len() ==> if (#[trigger] old(events)@[i].deep_view()).id
                == event.deep_view().id {
                final(events)@[i].deep_view() == event.deep_view()
            } else {
                final(events)@[i] == old(events)@[i]
            },
{
    let mut i: usize = 0;
    while i < events.len()
        invariant
            i <= events@.len(),
            events@.len() == old(events)@.len(),
            forall|j: int|
                0 <= j < i ==> if (#[trigger] old(events)@[j].deep_view()).id
                    == event.deep_view().id {
                    events@[j].deep_view() == event.deep_view()
                } else {
                    events@[j] == old(events)@[j]
                },
            forall|j: int| i <= j < events@.len() ==> events@[j] == old(events)@[j],
        decreases events@.len() - i,
    {
        if opt_id_eq(&events[i].id, &event.id) {
            let c = event.clone();
            events.set(i, c);
        }
        i = i + 1;
    }
    event
}

/// Replaces every stored comment whose id equals the given comment's id
/// with the given comment; every other entry is untouched. The given
/// comment is returned.
pub fn update_comment(comments: &mut Vec<Comment>, comment: Comment) -> (r: Comment)
    ensures
        r == comment,
        final(comments)@.len() == old(comments)@.len(),
        forall|i: int|
            0 <= i < old(comments)@.len() ==> if (#[trigger] old(comments)@[i].deep_view()).id
                == comment.deep_view().id {
                final(comments)@[i].deep_view() == comment.deep_view()
            } else {
                final(comments)@[i] == old(comments)@[i]
            },
{
    let mut i: usize = 0;
    while i < comments.len()
        invariant
            i <= comments@.len(),
            comments@.len() == old(comments)@.len(),
            forall|j: int|
                0 <= j < i ==> if (#[trigger] old(comments)@[j].deep_view()).id
                    == comment.deep_view().id {
                    comments@[j].deep_view() == comment.deep_view()
                } else {
                    comments@[j] == old(comments)@[j]
                },
            forall|j: int| i <= j < comments@.len() ==> comments@[j] == old(comments)@[j],
        decreases comments@.len() - i,
    {
        if opt_id_eq(&comments[i].id, &comment.id) {
            let c = comment.clone();
            comments.set(i, c);
        }
        i = i + 1;
    }
    comment
}

} // verus!
