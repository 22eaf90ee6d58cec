//! The canonical event envelope and its metadata map.

use vstd::prelude::*;
use vstd::string::StringExecFns;
use crate::json::Json;
use crate::json::JsonVal;
use crate::json::str_eq;
use crate::sys::fresh_uuid_string;
use crate::sys::now_unix_seconds;
use crate::tenant::TenantCtx;

verus! {

/// An ordered mapping from string keys to string values, keys unique, in
/// insertion order. Carries transport-derived attributes of an envelope.
#[derive(Debug, PartialEq, Eq)]
pub struct Metadata {
    entries: Vec<(String, String)>,
}

impl View for Metadata {
    type V = Seq<(Seq<char>, Seq<char>)>;

    closed spec fn view(&self) -> Seq<(Seq<char>, Seq<char>)> {
        Seq::new(self.entries@.len(), |i: int| (self.entries@[i].0@, self.entries@[i].1@))
    }
}

/// Value of the first entry keyed `key`, if any.
pub open spec fn md_lookup(s: Seq<(Seq<char>, Seq<char>)>, key: Seq<char>) -> Option<Seq<char>>
    decreases s.len(),
{
    if s.len() == 0 {
        None
    } else if s[0].0 == key {
        Some(s[0].1)
    } else {
        md_lookup(s.skip(1), key)
    }
}

/// `s` with `key` bound to `value`: replaces the first entry keyed `key` in
/// place, or appends a new entry at the end.
pub open spec fn md_insert(
    s: Seq<(Seq<char>, Seq<char>)>,
    key: Seq<char>,
    value: Seq<char>,
) -> Seq<(Seq<char>, Seq<char>)>
    decreases s.len(),
{
    if s.len() == 0 {
        seq![(key, value)]
    } else if s[0].0 == key {
        seq![(key, value)] + s.skip(1)
    } else {
        seq![s[0]] + md_insert(s.skip(1), key, value)
    }
}

/// No two entries share a key.
pub open spec fn md_unique(s: Seq<(Seq<char>, Seq<char>)>) -> bool {
    forall|i: int, j: int| 0 <= i < j < s.len() ==> (#[trigger] s[i]).0 != (#[trigger] s[j]).0
}

impl Metadata {
    /// Keys are unique.
    pub open spec fn wf(&self) -> bool {
        md_unique(self@)
    }

    /// The value bound to `key`, in the model.
    pub open spec fn lookup(&self, key: Seq<char>) -> Option<Seq<char>> {
        md_lookup(self@, key)
    }

    /// An empty map.
    pub fn new() -> (r: Metadata)
        ensures
            r@ =~= Seq::<(Seq<char>, Seq<char>)>::empty(),
            r.wf(),
    {
        Metadata { entries: Vec::new() }
    }

    /// Number of entries.
    pub fn len(&self) -> (r: usize)
        ensures
            r == self@.len(),
    {
        self.entries.len()
    }

    /// The entry at position `i`, in insertion order.
    pub fn entry_at(&self, i: usize) -> (r: (&String, &String))
        requires
            i < self@.len(),
        ensures
            r.0@ == self@[i as int].0,
            r.1@ == self@[i as int].1,
    {
        (&self.entries[i].0, &self.entries[i].1)
    }

    /// Binds `key` to `value`, replacing any existing binding.
    pub fn insert(&mut self, key: String, value: String)
        requires
            old(self).wf(),
        ensures
            final(self)@ == md_insert(old(self)@, key@, value@),
            final(self).wf(),
    {
        let n = self.entries.len();
        let mut i: usize = 0;
        #[verifier::loop_isolation(false)]
        while i < n
            invariant
                0 <= i <= n,
                n == self.entries@.len(),
                *self == *old(self),
                forall|k: int| 0 <= k < i ==> (#[trigger] self@[k]).0 != key@,
            decreases n - i,
        {
            if str_eq(self.entries[i].0.as_str(), key.as_str()) {
                self.entries[i] = (key, value);
                proof {
                    lemma_md_insert_replace(old(self)@, key@, value@, i as int);
                    assert(self@ =~= old(self)@.update(i as int, (key@, value@)));
                    lemma_md_insert_unique(old(self)@, key@, value@);
                }
                return ;
            }
            i += 1;
        }
        self.entries.push((key, value));
        proof {
            lemma_md_insert_append(old(self)@, key@, value@);
            assert(self@ =~= old(self)@ + seq![(key@, value@)]);
            lemma_md_insert_unique(old(self)@, key@, value@);
        }
    }

    /// The value bound to `key`, if any.
    pub fn get<'a>(&'a self, key: &str) -> (r: Option<&'a String>)
        ensures
            match r {
                Some(v) => self.lookup(key@) == Some(v@),
                None => self.lookup(key@) is None,
            },
    {
        let n = self.entries.len();
        proof {
            assert(self@.skip(0) =~= self@);
        }
        let mut i: usize = 0;
        #[verifier::loop_isolation(false)]
        while i < n
            invariant
                0 <= i <= n,
                n == self.entries@.len(),
                md_lookup(self@, key@) == md_lookup(self@.skip(i as int), key@),
            decreases n - i,
        {
            proof {
                assert(self@.skip(i as int)[0] == self@[i as int]);
                assert(self@.skip(i as int).skip(1) =~= self@.skip(i as int + 1));
            }
            if str_eq(self.entries[i].0.as_str(), key) {
                return Some(&self.entries[i].1);
            }
            i += 1;
        }
        proof {
            assert(self@.skip(n as int) =~= Seq::<(Seq<char>, Seq<char>)>::empty());
        }
        None
    }

    /// A copy of this map, equal to it.
    pub fn clone_md(&self) -> (r: Metadata)
        ensures
            r@ == self@,
            r.wf() == self.wf(),
    {
        let n = self.entries.len();
        let mut out: Vec<(String, String)> = Vec::new();
        let mut i: usize = 0;
        #[verifier::loop_isolation(false)]
        while i < n
            invariant
                0 <= i <= n,
                out@.len() == i,
                forall|k: int| 0 <= k < i ==> (#[trigger] out@[k]).0@ == self.entries@[k].0@
                    && out@[k].1@ == self.entries@[k].1@,
            decreases n - i,
        {
            let k = self.entries[i].0.clone();
            let v = self.entries[i].1.clone();
            out.push((k, v));
            i += 1;
        }
        let r = Metadata { entries: out };
        proof {
            assert(r@ =~= self@);
        }
        r
    }
}

/// When the first `j` keys differ from `key` and key `j` equals it, inserting
/// replaces position `j`.
proof fn lemma_md_insert_replace(
    s: Seq<(Seq<char>, Seq<char>)>,
    key: Seq<char>,
    value: Seq<char>,
    j: int,
)
    requires
        0 <= j < s.len(),
        forall|k: int| 0 <= k < j ==> (#[trigger] s[k]).0 != key,
        s[j].0 == key,
    ensures
        md_insert(s, key, value) == s.update(j, (key, value)),
    decreases j,
{
    if j == 0 {
        assert(md_insert(s, key, value) == seq![(key, value)] + s.skip(1));
        assert(seq![(key, value)] + s.skip(1) =~= s.update(0, (key, value)));
    } else {
        assert(s.skip(1)[j - 1] == s[j]);
        assert(forall|k: int| 0 <= k < j - 1 ==> (#[trigger] s.skip(1)[k]).0 == s[k + 1].0);
        lemma_md_insert_replace(s.skip(1), key, value, j - 1);
        assert(seq![s[0]] + s.skip(1).update(j - 1, (key, value)) =~= s.update(j, (key, value)));
    }
}

/// When no key equals `key`, inserting appends at the end.
pub proof fn lemma_md_insert_append(s: Seq<(Seq<char>, Seq<char>)>, key: Seq<char>, value: Seq<char>)
    requires
        forall|k: int| 0 <= k < s.len() ==> (#[trigger] s[k]).0 != key,
    ensures
        md_insert(s, key, value) == s + seq![(key, value)],
    decreases s.len(),
{
    if s.len() == 0 {
        assert(md_insert(s, key, value) =~= s + seq![(key, value)]);
    } else {
        assert(forall|k: int| 0 <= k < s.skip(1).len() ==> (#[trigger] s.skip(1)[k]).0 == s[k
            + 1].0);
        lemma_md_insert_append(s.skip(1), key, value);
        assert(seq![s[0]] + (s.skip(1) + seq![(key, value)]) =~= s + seq![(key, value)]);
    }
}

/// Inserting keeps keys unique.
proof fn lemma_md_insert_unique(s: Seq<(Seq<char>, Seq<char>)>, key: Seq<char>, value: Seq<char>)
    requires
        md_unique(s),
    ensures
        md_unique(md_insert(s, key, value)),
    decreases s.len(),
{
    if s.len() != 0 && s[0].0 != key {
        assert(forall|i: int, j: int|
            0 <= i < j < s.skip(1).len() ==> (#[trigger] s.skip(1)[i]).0 != (
            #[trigger] s.skip(1)[j]).0) by {
            assert(forall|k: int| 0 <= k < s.skip(1).len() ==> (#[trigger] s.skip(1)[k]) == s[k
                + 1]);
        }
        lemma_md_insert_unique(s.skip(1), key, value);
        let t = md_insert(s, key, value);
        let u = md_insert(s.skip(1), key, value);
        assert(t == seq![s[0]] + u);
        assert forall|i: int, j: int| 0 <= i < j < t.len() implies (#[trigger] t[i]).0 != (
        #[trigger] t[j]).0 by {
            if i == 0 {
                lemma_md_insert_keys(s.skip(1), key, value, j - 1);
            }
        }
    }
}

/// Every key of an inserted sequence is an old key or the inserted key.
proof fn lemma_md_insert_keys(
    s: Seq<(Seq<char>, Seq<char>)>,
    key: Seq<char>,
    value: Seq<char>,
    j: int,
)
    requires
        0 <= j < md_insert(s, key, value).len(),
    ensures
        md_insert(s, key, value)[j].0 == key || exists|k: int|
            0 <= k < s.len() && (#[trigger] s[k]).0 == md_insert(s, key, value)[j].0,
    decreases s.len(),
{
    if s.len() != 0 && s[0].0 != key {
        if j > 0 {
            lemma_md_insert_keys(s.skip(1), key, value, j - 1);
            let t = md_insert(s, key, value);
            if t[j].0 != key {
                let k = choose|k: int|
                    0 <= k < s.skip(1).len() && (#[trigger] s.skip(1)[k]).0 == md_insert(
                        s.skip(1),
                        key,
                        value,
                    )[j - 1].0;
                assert(s[k + 1].0 == t[j].0);
            }
        }
    } else {
        if s.len() != 0 && s[0].0 == key {
            if j > 0 {
                assert(md_insert(s, key, value)[j] == s.skip(1)[j - 1]);
                assert(s[j].0 == md_insert(s, key, value)[j].0);
            }
        }
    }
}

/// The canonical unit of information exchange: one event, scoped to a tenant,
/// carrying a structured payload and transport-derived metadata.
#[derive(Debug, PartialEq, Eq)]
pub struct EventEnvelope {
    /// Fresh unique identifier, never derived from content.
    pub id: String,
    /// Dot-delimited routing string.
    pub topic: String,
    /// Versioned schema tag.
    pub type_: String,
    /// Adapter identity string.
    pub source: String,
    /// Identity scope of the event.
    pub tenant: TenantCtx,
    /// Optional human or contextual locator.
    pub subject: Option<String>,
    /// Creation time, Unix seconds UTC.
    pub time: i64,
    /// Caller-supplied correlation token, propagated unchanged.
    pub correlation_id: Option<String>,
    /// Structured document; must never contain secret material.
    pub payload: Json,
    /// Transport-derived attributes, keys unique.
    pub metadata: Metadata,
}

/// Builds a new envelope: every field is taken verbatim from the arguments,
/// while the identifier is freshly generated and the time is the clock's.
pub fn new_event(
    topic: String,
    type_: String,
    source: String,
    tenant: TenantCtx,
    subject: Option<String>,
    correlation_id: Option<String>,
    payload: Json,
    metadata: Metadata,
) -> (e: EventEnvelope)
    ensures
        e.id@.len() == 36,
        e.topic == topic,
        e.type_ == type_,
        e.source == source,
        e.tenant == tenant,
        e.subject == subject,
        e.correlation_id == correlation_id,
        e.payload == payload,
        e.metadata == metadata,
{
    EventEnvelope {
        id: fresh_uuid_string(),
        topic,
        type_,
        source,
        tenant,
        subject,
        time: now_unix_seconds(),
        correlation_id,
        payload,
        metadata,
    }
}

/// Binds the reserved idempotency key in `metadata`, overriding any earlier
/// binding; repeated calls with the same key change nothing further.
pub fn set_idempotency_key(metadata: &mut Metadata, key: String)
    requires
        old(metadata).wf(),
    ensures
        final(metadata)@ == md_insert(old(metadata)@, "idempotency_key"@, key@),
        final(metadata).wf(),
        final(metadata).lookup("idempotency_key"@) == Some(key@),
{
    metadata.insert(String::from_str("idempotency_key"), key);
    proof {
        lemma_md_insert_lookup(old(metadata)@, "idempotency_key"@, key@);
    }
}

/// After an insert, looking the key up yields the inserted value.
pub proof fn lemma_md_insert_lookup(
    s: Seq<(Seq<char>, Seq<char>)>,
    key: Seq<char>,
    value: Seq<char>,
)
    ensures
        md_lookup(md_insert(s, key, value), key) == Some(value),
    decreases s.len(),
{
    if s.len() != 0 && s[0].0 != key {
        lemma_md_insert_lookup(s.skip(1), key, value);
        let t = md_insert(s, key, value);
        assert(t[0] == s[0]);
        assert(t.skip(1) =~= md_insert(s.skip(1), key, value));
    } else if s.len() != 0 {
        assert(md_insert(s, key, value)[0] == (key, value));
    }
}

/// View of an optional string.
pub open spec fn opt_view(o: Option<String>) -> Option<Seq<char>> {
    match o {
        Some(s) => Some(s@),
        None => None,
    }
}

/// The string a flag prints as.
pub open spec fn bool_str(b: bool) -> Seq<char> {
    if b {
        "true"@
    } else {
        "false"@
    }
}

/// Renders a flag as `"true"` or `"false"`.
pub fn bool_string(b: bool) -> (r: String)
    ensures
        r@ == bool_str(b),
{
    if b {
        String::from_str("true")
    } else {
        String::from_str("false")
    }
}

/// The model of a metadata map embedded as an object document.
pub open spec fn md_val(s: Seq<(Seq<char>, Seq<char>)>) -> JsonVal {
    JsonVal::Obj(Seq::new(s.len(), |i: int| (s[i].0, JsonVal::Str(s[i].1))))
}

/// Embeds a metadata map as an object document, entry for entry.
pub fn metadata_to_json(md: &Metadata) -> (r: Json)
    ensures
        r@ == md_val(md@),
{
    let n = md.len();
    let mut fields: Vec<(String, Json)> = Vec::new();
    let mut i: usize = 0;
    #[verifier::loop_isolation(false)]
    while i < n
        invariant
            0 <= i <= n,
            fields@.len() == i,
            forall|k: int| 0 <= k < i ==> (#[trigger] fields@[k]).0@ == md@[k].0
                && crate::json::jview(fields@[k].1) == JsonVal::Str(md@[k].1),
        decreases n - i,
    {
        let (k, v) = md.entry_at(i);
        fields.push((k.clone(), Json::Str(v.clone())));
        i += 1;
    }
    let r = Json::Obj(fields);
    proof {
        crate::json::lemma_jview_fields(fields@);
        assert(r@->Obj_0 =~~= md_val(md@)->Obj_0);
    }
    r
}

/// Metadata fold of one `header:<lowercased-name>` entry per header.
pub open spec fn header_md(
    s: Seq<(Seq<char>, Seq<char>)>,
    headers: Seq<(Seq<char>, Seq<char>)>,
) -> Seq<(Seq<char>, Seq<char>)>
    decreases headers.len(),
{
    if headers.len() == 0 {
        s
    } else {
        header_md(
            md_insert(s, "header:"@ + crate::sys::lower_of(headers[0].0), headers[0].1),
            headers.skip(1),
        )
    }
}

/// Adds one `header:<lowercased-name>` entry per header to `md`.
pub fn insert_header_entries(md: &mut Metadata, headers: &Metadata)
    requires
        old(md).wf(),
    ensures
        final(md)@ == header_md(old(md)@, headers@),
        final(md).wf(),
{
    let ghost s1 = md@;
    let hn = headers.len();
    proof {
        assert(headers@.skip(0) =~= headers@);
    }
    let mut i: usize = 0;
    #[verifier::loop_isolation(false)]
    while i < hn
        invariant
            0 <= i <= hn,
            hn == headers@.len(),
            md.wf(),
            header_md(md@, headers@.skip(i as int)) == header_md(s1, headers@),
        decreases hn - i,
    {
        let ghost hs = headers@.skip(i as int);
        proof {
            assert(hs[0] == headers@[i as int]);
            assert(hs.skip(1) =~= headers@.skip(i as int + 1));
        }
        let (k, v) = headers.entry_at(i);
        let lk = crate::sys::lowercase(k.as_str());
        md.insert(String::from_str("header:").concat(lk.as_str()), v.clone());
        i += 1;
    }
    proof {
        assert(headers@.skip(hn as int) =~= Seq::<(Seq<char>, Seq<char>)>::empty());
    }
}

/// `s` with `key` bound to `value` only when no binding exists yet; a new
/// binding is appended at the end, an existing one is left alone.
pub open spec fn md_insert_absent(
    s: Seq<(Seq<char>, Seq<char>)>,
    key: Seq<char>,
    value: Seq<char>,
) -> Seq<(Seq<char>, Seq<char>)> {
    if md_lookup(s, key) is Some {
        s
    } else {
        s + seq![(key, value)]
    }
}

/// A key that lookup does not find differs from every held key.
pub proof fn lemma_md_lookup_none(s: Seq<(Seq<char>, Seq<char>)>, key: Seq<char>)
    requires
        md_lookup(s, key) is None,
    ensures
        forall|i: int| 0 <= i < s.len() ==> (#[trigger] s[i]).0 != key,
    decreases s.len(),
{
    if s.len() != 0 {
        lemma_md_lookup_none(s.skip(1), key);
        assert forall|i: int| 0 <= i < s.len() implies (#[trigger] s[i]).0 != key by {
            if i > 0 {
                assert(s.skip(1)[i - 1] == s[i]);
            }
        }
    }
}

impl Metadata {
    /// Binds `key` to `value` only when no binding exists yet.
    pub fn insert_absent(&mut self, key: String, value: String)
        requires
            old(self).wf(),
        ensures
            final(self)@ == md_insert_absent(old(self)@, key@, value@),
            final(self).wf(),
    {
        match self.get(key.as_str()) {
            Some(_) => {},
            None => {
                proof {
                    lemma_md_lookup_none(self@, key@);
                    lemma_md_insert_append(self@, key@, value@);
                }
                self.insert(key, value);
            },
        }
    }
}

/// Law: binding the reserved idempotency key — or any key — twice with the
/// same value changes nothing after the first time: repeated calls are
/// no-ops in effect.
pub proof fn lemma_md_insert_idempotent(
    s: Seq<(Seq<char>, Seq<char>)>,
    key: Seq<char>,
    value: Seq<char>,
)
    ensures
        md_insert(md_insert(s, key, value), key, value) == md_insert(s, key, value),
    decreases s.len(),
{
    if s.len() == 0 {
        assert(md_insert(md_insert(s, key, value), key, value) =~= md_insert(s, key, value));
    } else if s[0].0 == key {
        let t = md_insert(s, key, value);
        assert(t[0] == (key, value));
        assert(md_insert(t, key, value) =~= seq![(key, value)] + t.skip(1));
        assert(seq![(key, value)] + t.skip(1) =~= t);
    } else {
        lemma_md_insert_idempotent(s.skip(1), key, value);
        let t = md_insert(s, key, value);
        assert(t == seq![s[0]] + md_insert(s.skip(1), key, value));
        assert(t[0] == s[0]);
        assert(t.skip(1) =~= md_insert(s.skip(1), key, value));
        assert(md_insert(t, key, value) == seq![t[0]] + md_insert(t.skip(1), key, value));
        assert(md_insert(t, key, value) =~= t);
    }
}

/// A key that lookup finds stands at some position.
pub proof fn lemma_md_lookup_found(s: Seq<(Seq<char>, Seq<char>)>, key: Seq<char>)
    requires
        md_lookup(s, key) is Some,
    ensures
        exists|i: int| 0 <= i < s.len() && (#[trigger] s[i]).0 == key,
    decreases s.len(),
{
    if s.len() != 0 && s[0].0 != key {
        lemma_md_lookup_found(s.skip(1), key);
        let i = choose|i: int| 0 <= i < s.skip(1).len() && (#[trigger] s.skip(1)[i]).0 == key;
        assert(s[i + 1].0 == key);
    }
}

/// Inserting under one key leaves lookups under another key unchanged.
pub proof fn lemma_md_insert_other_lookup(
    s: Seq<(Seq<char>, Seq<char>)>,
    key2: Seq<char>,
    value: Seq<char>,
    key: Seq<char>,
)
    requires
        key2 != key,
    ensures
        md_lookup(md_insert(s, key2, value), key) == md_lookup(s, key),
    decreases s.len(),
{
    if s.len() == 0 {
        let t = md_insert(s, key2, value);
        assert(t[0] == (key2, value));
        assert(t.skip(1) =~= Seq::<(Seq<char>, Seq<char>)>::empty());
        assert(md_lookup(t, key) == md_lookup(t.skip(1), key));
        assert(md_lookup(t.skip(1), key) is None);
    } else if s[0].0 == key2 {
        let t = md_insert(s, key2, value);
        assert(t[0] == (key2, value));
        assert(t.skip(1) =~= s.skip(1));
        assert(md_lookup(t, key) == md_lookup(s.skip(1), key));
        assert(md_lookup(s, key) == md_lookup(s.skip(1), key));
    } else {
        lemma_md_insert_other_lookup(s.skip(1), key2, value, key);
        let t = md_insert(s, key2, value);
        assert(t[0] == s[0]);
        assert(t.skip(1) =~= md_insert(s.skip(1), key2, value));
        if s[0].0 == key {
            assert(md_lookup(t, key) == Some(t[0].1));
            assert(md_lookup(s, key) == Some(s[0].1));
        } else {
            assert(md_lookup(t, key) == md_lookup(t.skip(1), key));
            assert(md_lookup(s, key) == md_lookup(s.skip(1), key));
        }
    }
}

} // verus!
