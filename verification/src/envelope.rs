//! The uniform response envelope and the hypermedia affordance types it
//! carries: links, action templates and their input properties.
use vstd::prelude::*;

use crate::model::PayloadData;

verus! {

/// Outcome discriminator of an envelope: every response is either `OK` with
/// data or `Error` with an error body.
#[derive(Clone, Copy, PartialEq, Eq, Structural, Debug)]
pub enum Status {
    OK,
    Error,
}

/// HTTP method named by an action template.
#[derive(Clone, Copy, PartialEq, Eq, Structural, Debug)]
pub enum MethodType {
    GET,
    POST,
    PATCH,
    DELETE,
}

/// Error body of a failed envelope: a numeric code and a description.
#[derive(Debug)]
pub struct Error {
    pub code: i32,
    pub description: String,
}

/// Mathematical image of an [`Error`].
#[verifier::ext_equal]
pub ghost struct ErrorModel {
    pub code: i32,
    pub description: Seq<char>,
}

impl DeepView for Error {
    type V = ErrorModel;

    open spec fn deep_view(&self) -> ErrorModel {
        ErrorModel { code: self.code, description: self.description@ }
    }
}

/// A named hypermedia link: relation key and target href.
#[derive(Debug)]
pub struct Link {
    pub key: String,
    pub href: String,
}

/// Mathematical image of a [`Link`].
#[verifier::ext_equal]
pub ghost struct LinkModel {
    pub key: Seq<char>,
    pub href: Seq<char>,
}

impl DeepView for Link {
    type V = LinkModel;

    open spec fn deep_view(&self) -> LinkModel {
        LinkModel { key: self.key@, href: self.href@ }
    }
}

impl Clone for Link {
    fn clone(&self) -> (r: Self)
        ensures
            r == *self,
    {
        Link { key: self.key.clone(), href: self.href.clone() }
    }
}

/// An input field of an action template: its name, whether the client must or
/// may supply it, and an optional pre-filled value.
#[derive(Debug)]
pub struct Property {
    pub name: String,
    pub prompt: Option<String>,
    pub read_only: bool,
    pub required: bool,
    pub templated: Option<bool>,
    pub value: Option<String>,
}

/// Mathematical image of a [`Property`].
#[verifier::ext_equal]
pub ghost struct PropertyModel {
    pub name: Seq<char>,
    pub prompt: Option<Seq<char>>,
    pub read_only: bool,
    pub required: bool,
    pub templated: Option<bool>,
    pub value: Option<Seq<char>>,
}

impl DeepView for Property {
    type V = PropertyModel;

    open spec fn deep_view(&self) -> PropertyModel {
        PropertyModel {
            name: self.name@,
            prompt: self.prompt.deep_view(),
            read_only: self.read_only,
            required: self.required,
            templated: self.templated,
            value: self.value.deep_view(),
        }
    }
}

impl Clone for Property {
    fn clone(&self) -> (r: Self)
        ensures
            r == *self,
    {
        Property {
            name: self.name.clone(),
            prompt: clone_opt_string(&self.prompt),
            read_only: self.read_only,
            required: self.required,
            templated: self.templated,
            value: clone_opt_string(&self.value),
        }
    }
}

/// A described state-changing operation: key, method, optional input
/// properties, optional target link and optional title.
#[derive(Debug)]
pub struct Template {
    pub key: String,
    pub method: MethodType,
    pub properties: Option<Vec<Property>>,
    pub target: Option<String>,
    pub title: Option<String>,
}

/// Mathematical image of a [`Template`].
#[verifier::ext_equal]
pub ghost struct TemplateModel {
    pub key: Seq<char>,
    pub method: MethodType,
    pub properties: Option<Seq<PropertyModel>>,
    pub target: Option<Seq<char>>,
    pub title: Option<Seq<char>>,
}

impl DeepView for Template {
    type V = TemplateModel;

    open spec fn deep_view(&self) -> TemplateModel {
        TemplateModel {
            key: self.key@,
            method: self.method,
            properties: self.properties.deep_view(),
            target: self.target.deep_view(),
            title: self.title.deep_view(),
        }
    }
}

impl Clone for Template {
    fn clone(&self) -> (r: Self)
        ensures
            r.deep_view() == self.deep_view(),
            r.key == self.key,
    {
        let r = Template {
            key: self.key.clone(),
            method: self.method,
            properties: clone_opt_properties(&self.properties),
            target: clone_opt_string(&self.target),
            title: clone_opt_string(&self.title),
        };
        proof {
            assert(r.deep_view() =~~= self.deep_view());
        }
        r
    }
}

pub(crate) fn clone_opt_string(o: &Option<String>) -> (r: Option<String>)
    ensures
        r == *o,
{
    match o {
        Some(s) => Some(s.clone()),
        None => None,
    }
}

fn clone_opt_properties(o: &Option<Vec<Property>>) -> (r: Option<Vec<Property>>)
    ensures
        r.deep_view() == o.deep_view(),
        r is Some <==> *o is Some,
{
    match o {
        Some(ps) => {
            let mut out: Vec<Property> = Vec::new();
            let mut i: usize = 0;
            while i < ps.len()
                invariant
                    i <= ps.len(),
                    out@ =~= ps@.subrange(0, i as int),
                decreases ps.len() - i,
            {
                out.push(ps[i].clone());
                i = i + 1;
            }
            proof {
                assert(out@ =~= ps@);
                assert(out.deep_view() =~= ps.deep_view());
            }
            Some(out)
        },
        None => None,
    }
}

/// Items stored in an [`AffordanceMap`]: each carries the relation or
/// template key under which the map files it.
pub trait Keyed: DeepView {
    /// The key under which the item is filed.
    spec fn key_of(&self) -> Seq<char>;

    /// The stored key.
    fn key(&self) -> (r: &String)
        ensures
            r@ == self.key_of(),
    ;
}

impl Keyed for Link {
    open spec fn key_of(&self) -> Seq<char> {
        self.key@
    }

    fn key(&self) -> (r: &String) {
        &self.key
    }
}

impl Keyed for Template {
    open spec fn key_of(&self) -> Seq<char> {
        self.key@
    }

    fn key(&self) -> (r: &String) {
        &self.key
    }
}

/// Holds when no two items of `s` carry the same key.
pub open spec fn distinct_keys<T: Keyed>(s: Seq<T>) -> bool {
    forall|i: int, j: int| 0 <= i < j < s.len() ==> s[i].key_of() != s[j].key_of()
}

/// The mapping described by a sequence of keyed items; a later item shadows
/// an earlier one with the same key (last write wins).
pub open spec fn keyed_map_of<T: Keyed>(s: Seq<T>) -> Map<Seq<char>, T::V>
    decreases s.len(),
{
    if s.len() == 0 {
        Map::empty()
    } else {
        keyed_map_of(s.drop_last()).insert(s.last().key_of(), s.last().deep_view())
    }
}

proof fn lemma_distinct_drop_last<T: Keyed>(s: Seq<T>)
    requires
        s.len() > 0,
        distinct_keys(s),
    ensures
        distinct_keys(s.drop_last()),
{
    assert forall|i: int, j: int|
        0 <= i < j < s.drop_last().len() implies s.drop_last()[i].key_of()
        != s.drop_last()[j].key_of() by {
        assert(s.drop_last()[i] == s[i]);
        assert(s.drop_last()[j] == s[j]);
    }
}

proof fn lemma_keyed_map_contains<T: Keyed>(s: Seq<T>, k: Seq<char>)
    ensures
        keyed_map_of(s).contains_key(k) <==> exists|i: int|
            0 <= i < s.len() && #[trigger] s[i].key_of() == k,
    decreases s.len(),
{
    if s.len() > 0 {
        lemma_keyed_map_contains(s.drop_last(), k);
        if s.last().key_of() == k {
            assert(s[s.len() - 1].key_of() == k);
        } else if keyed_map_of(s).contains_key(k) {
            let i = choose|i: int| 0 <= i < s.drop_last().len() && #[trigger] s.drop_last()[i].key_of() == k;
            assert(s[i].key_of() == k);
        } else if exists|i: int| 0 <= i < s.len() && #[trigger] s[i].key_of() == k {
            let i = choose|i: int| 0 <= i < s.len() && #[trigger] s[i].key_of() == k;
            assert(i < s.len() - 1);
            assert(s.drop_last()[i].key_of() == k);
        }
    }
}

proof fn lemma_keyed_map_first_value<T: Keyed>(s: Seq<T>, i: int)
    requires
        distinct_keys(s),
        0 <= i < s.len(),
    ensures
        keyed_map_of(s).contains_key(s[i].key_of()),
        keyed_map_of(s)[s[i].key_of()] == s[i].deep_view(),
    decreases s.len(),
{
    if i == s.len() - 1 {
        assert(s.last() == s[i]);
    } else {
        lemma_distinct_drop_last(s);
        assert(s.drop_last()[i] == s[i]);
        lemma_keyed_map_first_value(s.drop_last(), i);
        assert(s.last().key_of() != s[i].key_of());
    }
}

proof fn lemma_keyed_map_len<T: Keyed>(s: Seq<T>)
    requires
        distinct_keys(s),
    ensures
        keyed_map_of(s).dom().finite(),
        keyed_map_of(s).dom().len() == s.len(),
    decreases s.len(),
{
    if s.len() > 0 {
        lemma_distinct_drop_last(s);
        lemma_keyed_map_len(s.drop_last());
        lemma_keyed_map_contains(s.drop_last(), s.last().key_of());
        assert(!keyed_map_of(s.drop_last()).contains_key(s.last().key_of())) by {
            if exists|i: int|
                0 <= i < s.drop_last().len() && #[trigger] s.drop_last()[i].key_of()
                    == s.last().key_of() {
                let i = choose|i: int|
                    0 <= i < s.drop_last().len() && #[trigger] s.drop_last()[i].key_of()
                        == s.last().key_of();
                assert(s[i].key_of() == s[s.len() - 1].key_of());
            }
        }
    }
}

proof fn lemma_keyed_map_push<T: Keyed>(s: Seq<T>, x: T)
    ensures
        keyed_map_of(s.push(x)) == keyed_map_of(s).insert(x.key_of(), x.deep_view()),
{
    assert(s.push(x).drop_last() =~= s);
    assert(s.push(x).last() == x);
}

proof fn lemma_keyed_map_update<T: Keyed>(s: Seq<T>, j: int, x: T)
    requires
        distinct_keys(s),
        0 <= j < s.len(),
        x.key_of() == s[j].key_of(),
    ensures
        keyed_map_of(s.update(j, x)) == keyed_map_of(s).insert(x.key_of(), x.deep_view()),
        distinct_keys(s.update(j, x)),
    decreases s.len(),
{
    let t = s.update(j, x);
    assert forall|p: int, q: int|
        0 <= p < q < t.len() implies t[p].key_of() != t[q].key_of() by {
        if p != j && q != j {
            assert(t[p] == s[p] && t[q] == s[q]);
        } else if p == j {
            assert(t[q] == s[q] && x.key_of() == s[j].key_of());
        } else {
            assert(t[p] == s[p] && x.key_of() == s[j].key_of());
        }
    }
    if j == s.len() - 1 {
        assert(t.drop_last() =~= s.drop_last());
        assert(t.last() == x);
        assert(keyed_map_of(s.update(j, x)) =~= keyed_map_of(s).insert(
            x.key_of(),
            x.deep_view(),
        ));
    } else {
        lemma_distinct_drop_last(s);
        assert(t.drop_last() =~= s.drop_last().update(j, x));
        assert(t.last() == s.last());
        assert(s.drop_last()[j] == s[j]);
        lemma_keyed_map_update(s.drop_last(), j, x);
        assert(s.last().key_of() != x.key_of());
        assert(keyed_map_of(s.update(j, x)) =~= keyed_map_of(s).insert(
            x.key_of(),
            x.deep_view(),
        ));
    }
}

/// A mapping from relation or template keys to affordances. Each key is held
/// once; inserting an existing key replaces its entry.
pub struct AffordanceMap<T: Keyed> {
    entries: Vec<T>,
}

impl<T: Keyed> View for AffordanceMap<T> {
    type V = Map<Seq<char>, T::V>;

    closed spec fn view(&self) -> Map<Seq<char>, T::V> {
        keyed_map_of(self.entries@)
    }
}

impl<T: Keyed> AffordanceMap<T> {
    #[verifier::type_invariant]
    spec fn wf(&self) -> bool {
        distinct_keys(self.entries@)
    }

    /// The empty mapping.
    pub fn new() -> (r: Self)
        ensures
            r@ == Map::<Seq<char>, T::V>::empty(),
    {
        AffordanceMap { entries: Vec::new() }
    }

    /// Files `item` under its key; an entry already filed there is replaced,
    /// so the last write to a key wins.
    pub fn insert(&mut self, item: T)
        ensures
            final(self)@ == old(self)@.insert(item.key_of(), item.deep_view()),
    {
        proof {
            use_type_invariant(&*self);
        }
        let mut es: Vec<T> = Vec::new();
        core::mem::swap(&mut es, &mut self.entries);
        let ghost orig = es@;
        let mut found: Option<usize> = None;
        let mut i: usize = 0;
        while i < es.len()
            invariant
                es@ == orig,
                i <= orig.len(),
                match found {
                    Some(j) => j < i && orig[j as int].key_of() == item.key_of(),
                    None => forall|q: int| 0 <= q < i ==> orig[q].key_of() != item.key_of(),
                },
            decreases orig.len() - i,
        {
            if found.is_none() && *es[i].key() == *item.key() {
                found = Some(i);
            }
            i = i + 1;
        }
        match found {
            Some(j) => {
                proof {
                    lemma_keyed_map_update(orig, j as int, item);
                }
                es.set(j, item);
            },
            None => {
                proof {
                    lemma_keyed_map_push(orig, item);
                }
                es.push(item);
                assert forall|p: int, q: int|
                    0 <= p < q < es@.len() implies es@[p].key_of() != es@[q].key_of() by {
                    if q < orig.len() {
                        assert(es@[p] == orig[p] && es@[q] == orig[q]);
                    } else {
                        assert(es@[p] == orig[p]);
                    }
                }
            },
        }
        self.entries = es;
    }

    /// Looks up the entry filed under `key`.
    pub fn get(&self, key: &String) -> (r: Option<&T>)
        ensures
            match r {
                Some(t) => self@.contains_key(key@) && t.deep_view() == self@[key@]
                    && t.key_of() == key@,
                None => !self@.contains_key(key@),
            },
    {
        proof {
            use_type_invariant(&*self);
        }
        let mut i: usize = 0;
        while i < self.entries.len()
            invariant
                distinct_keys(self.entries@),
                i <= self.entries@.len(),
                forall|q: int| 0 <= q < i ==> self.entries@[q].key_of() != key@,
            decreases self.entries@.len() - i,
        {
            if *self.entries[i].key() == *key {
                proof {
                    lemma_keyed_map_first_value(self.entries@, i as int);
                }
                return Some(&self.entries[i]);
            }
            i = i + 1;
        }
        proof {
            lemma_keyed_map_contains(self.entries@, key@);
        }
        None
    }

    /// The number of keys in the map.
    pub fn len(&self) -> (n: usize)
        ensures
            n == self@.len(),
    {
        proof {
            use_type_invariant(&*self);
            lemma_keyed_map_len(self.entries@);
        }
        self.entries.len()
    }

    /// The entries, one per key, in insertion order.
    pub fn items(&self) -> (r: &Vec<T>)
        ensures
            distinct_keys(r@),
            keyed_map_of(r@) == self@,
            r@.len() == self@.len(),
    {
        proof {
            use_type_invariant(&*self);
            lemma_keyed_map_len(self.entries@);
        }
        &self.entries
    }
}

/// What a handler hands the assembler on success: the data to return and the
/// affordances that should accompany it, each as an ordered list.
pub struct Payload {
    pub data: PayloadData,
    pub links: Option<Vec<Link>>,
    pub templates: Option<Vec<Template>>,
}

/// The single top-level response shape of every operation. `data` is present
/// exactly on success and `error` exactly on failure; the pagination fields
/// are reserved and always absent.
pub struct Envelope {
    pub status: Status,
    pub data: Option<PayloadData>,
    pub error: Option<Error>,
    pub page_number: Option<i32>,
    pub next_page: Option<String>,
    pub total_pages: Option<i32>,
    pub _links: Option<AffordanceMap<Link>>,
    pub _templates: Option<AffordanceMap<Template>>,
}

/// `data` is absent exactly when the status is `Error`, and `error` is
/// absent exactly when it is `OK`.
pub open spec fn envelope_consistent(e: Envelope) -> bool {
    &&& e.data is None <==> e.status == Status::Error
    &&& e.error is None <==> e.status == Status::OK
}

/// The pagination fields are reserved and never populated.
pub open spec fn envelope_unpaged(e: Envelope) -> bool {
    &&& e.page_number is None
    &&& e.next_page is None
    &&& e.total_pages is None
}

fn build_map<T: Keyed>(items: Vec<T>) -> (m: AffordanceMap<T>)
    ensures
        m@ == keyed_map_of(items@),
{
    let ghost orig = items@;
    let mut rest = items;
    let mut m = AffordanceMap::<T>::new();
    while rest.len() > 0
        invariant
            rest@.len() <= orig.len(),
            rest@ =~= orig.subrange(orig.len() - rest@.len(), orig.len() as int),
            m@ == keyed_map_of(orig.subrange(0, orig.len() - rest@.len())),
        decreases rest@.len(),
    {
        let ghost n = orig.len() - rest@.len();
        let x = rest.remove(0);
        proof {
            assert(x == orig[n]);
            assert(rest@ =~= orig.subrange(n + 1, orig.len() as int));
            lemma_keyed_map_push(orig.subrange(0, n), x);
            assert(orig.subrange(0, n + 1) =~= orig.subrange(0, n).push(x));
        }
        m.insert(x);
    }
    proof {
        assert(orig.subrange(0, orig.len() as int) =~= orig);
    }
    m
}

/// Wraps a successful payload into the uniform envelope: status `OK`, the
/// payload's data, no error, and the payload's affordance lists re-keyed
/// into mappings (last write to a key wins). Lists that were absent stay
/// absent — they are never emitted as empty mappings.
pub fn success(payload: Payload) -> (r: Envelope)
    ensures
        r.status == Status::OK,
        r.data == Some(payload.data),
        r.error is None,
        envelope_consistent(r),
        envelope_unpaged(r),
        (match payload.links {
            Some(ls) => r._links matches Some(m) && m@ == keyed_map_of(ls@),
            None => r._links is None,
        }),
        (match payload.templates {
            Some(ts) => r._templates matches Some(m) && m@ == keyed_map_of(ts@),
            None => r._templates is None,
        }),
{
    let Payload { data, links, templates } = payload;
    let links_map = match links {
        Some(ls) => Some(build_map(ls)),
        None => None,
    };
    let templates_map = match templates {
        Some(ts) => Some(build_map(ts)),
        None => None,
    };
    Envelope {
        status: Status::OK,
        data: Some(data),
        error: None,
        page_number: None,
        next_page: None,
        total_pages: None,
        _links: links_map,
        _templates: templates_map,
    }
}

/// Wraps a failure into the uniform envelope: status `Error`, the given code
/// and description, no data and no affordances.
pub fn error(code: i32, description: String) -> (r: Envelope)
    ensures
        r.status == Status::Error,
        r.data is None,
        r.error matches Some(e) && e.code == code && e.description == description,
        envelope_consistent(r),
        envelope_unpaged(r),
        r._links is None,
        r._templates is None,
{
    let err = Error { code, description };
    Envelope {
        status: Status::Error,
        data: None,
        error: Some(err),
        page_number: None,
        next_page: None,
        total_pages: None,
        _links: None,
        _templates: None,
    }
}

/// Builds a plain input property: no prompt, no templated flag, no pre-filled
/// value.
pub fn create_property(name: &str, read_only: bool, required: bool) -> (r: Property)
    ensures
        r.name@ == name@,
        r.prompt is None,
        r.read_only == read_only,
        r.required == required,
        r.templated is None,
        r.value is None,
{
    Property {
        name: name.to_owned(),
        prompt: None,
        read_only: read_only,
        required: required,
        templated: None,
        value: None,
    }
}

} // verus!
