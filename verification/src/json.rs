//! Structured documents: the payload shape carried by event envelopes.
//!
//! A `Json` value is an ordered tree of nulls, booleans, integers, strings,
//! arrays and objects. Objects keep their fields in insertion order; field
//! names are expected to be unique. The mathematical model of a document is
//! `JsonVal`, reached through the view (`@`) operator.

use vstd::prelude::*;

verus! {

/// A structured document, owned and immutable once built.
#[derive(Debug, PartialEq, Eq)]
pub enum Json {
    Null,
    Bool(bool),
    Int(i64),
    Str(String),
    Arr(Vec<Json>),
    Obj(Vec<(String, Json)>),
}

/// Mathematical model of a document.
#[verifier::ext_equal]
pub enum JsonVal {
    Null,
    Bool(bool),
    Int(int),
    Str(Seq<char>),
    Arr(Seq<JsonVal>),
    Obj(Seq<(Seq<char>, JsonVal)>),
}

/// Model of a document: its field strings become character sequences.
pub open spec fn jview(j: Json) -> JsonVal
    decreases j,
{
    match j {
        Json::Null => JsonVal::Null,
        Json::Bool(b) => JsonVal::Bool(b),
        Json::Int(n) => JsonVal::Int(n as int),
        Json::Str(s) => JsonVal::Str(s@),
        Json::Arr(items) => JsonVal::Arr(jview_items(items@)),
        Json::Obj(fields) => JsonVal::Obj(jview_fields(fields@)),
    }
}

/// Model of a sequence of array elements.
pub open spec fn jview_items(items: Seq<Json>) -> Seq<JsonVal>
    decreases items,
{
    if items.len() == 0 {
        Seq::empty()
    } else {
        seq![jview(items[0])] + jview_items(items.skip(1))
    }
}

/// Model of a sequence of object fields.
pub open spec fn jview_fields(fields: Seq<(String, Json)>) -> Seq<(Seq<char>, JsonVal)>
    decreases fields,
{
    if fields.len() == 0 {
        Seq::empty()
    } else {
        seq![(fields[0].0@, jview(fields[0].1))] + jview_fields(fields.skip(1))
    }
}

impl View for Json {
    type V = JsonVal;

    open spec fn view(&self) -> JsonVal {
        jview(*self)
    }
}

/// The model of array elements is the element-wise model.
pub broadcast proof fn lemma_jview_items(items: Seq<Json>)
    ensures
        (#[trigger] jview_items(items)).len() == items.len(),
        forall|k: int| 0 <= k < items.len() ==> #[trigger] jview_items(items)[k] == jview(items[k]),
    decreases items.len(),
{
    if items.len() != 0 {
        lemma_jview_items(items.skip(1));
        assert forall|k: int| 0 <= k < items.len() implies #[trigger] jview_items(items)[k] == jview(
            items[k],
        ) by {
            if k > 0 {
                assert(items.skip(1)[k - 1] == items[k]);
                assert(jview_items(items)[k] == jview_items(items.skip(1))[k - 1]);
            }
        }
    }
}

/// The model of object fields is the field-wise model.
pub broadcast proof fn lemma_jview_fields(fields: Seq<(String, Json)>)
    ensures
        (#[trigger] jview_fields(fields)).len() == fields.len(),
        forall|k: int| 0 <= k < fields.len() ==> #[trigger] jview_fields(fields)[k] == (
            fields[k].0@,
            jview(fields[k].1),
        ),
    decreases fields.len(),
{
    if fields.len() != 0 {
        lemma_jview_fields(fields.skip(1));
        assert forall|k: int| 0 <= k < fields.len() implies #[trigger] jview_fields(fields)[k] == (
            fields[k].0@,
            jview(fields[k].1),
        ) by {
            if k > 0 {
                assert(fields.skip(1)[k - 1] == fields[k]);
                assert(jview_fields(fields)[k] == jview_fields(fields.skip(1))[k - 1]);
            }
        }
    }
}

/// First field of `fields` named `key`, if any.
pub open spec fn fields_lookup(fields: Seq<(Seq<char>, JsonVal)>, key: Seq<char>) -> Option<JsonVal>
    decreases fields.len(),
{
    if fields.len() == 0 {
        None
    } else if fields[0].0 == key {
        Some(fields[0].1)
    } else {
        fields_lookup(fields.skip(1), key)
    }
}

/// Field `key` of document `v`: `None` unless `v` is an object with that field.
pub open spec fn jget(v: JsonVal, key: Seq<char>) -> Option<JsonVal> {
    match v {
        JsonVal::Obj(fields) => fields_lookup(fields, key),
        _ => None,
    }
}

/// The characters of a string document; arbitrary unless `v` is a string.
pub open spec fn str_of(v: JsonVal) -> Seq<char>
    recommends
        v is Str,
{
    v->Str_0
}

/// Character-wise equality of two string slices.
pub fn str_eq(a: &str, b: &str) -> (r: bool)
    ensures
        r == (a@ == b@),
{
    let n = a.unicode_len();
    if n != b.unicode_len() {
        assert(a@.len() != b@.len());
        return false;
    }
    let mut i: usize = 0;
    #[verifier::loop_isolation(false)]
    while i < n
        invariant
            0 <= i <= n,
            forall|k: int| 0 <= k < i ==> a@[k] == b@[k],
        decreases n - i,
    {
        if a.get_char(i) != b.get_char(i) {
            assert(a@[i as int] != b@[i as int]);
            return false;
        }
        i += 1;
    }
    proof {
        assert(a@ =~= b@);
    }
    true
}

impl Json {
    /// Field `key` of this document, when it is an object carrying that field.
    pub fn get<'a>(&'a self, key: &str) -> (r: Option<&'a Json>)
        ensures
            match r {
                Some(f) => jget(self@, key@) == Some(f@),
                None => jget(self@, key@) is None,
            },
    {
        match self {
            Json::Obj(fields) => {
                let ghost all = jview_fields(fields@);
                proof {
                    lemma_jview_fields(fields@);
                    assert(all.skip(0) =~= all);
                }
                let n = fields.len();
                let mut i: usize = 0;
                #[verifier::loop_isolation(false)]
                while i < n
                    invariant
                        0 <= i <= n,
                        fields_lookup(all, key@) == fields_lookup(all.skip(i as int), key@),
                    decreases n - i,
                {
                    proof {
                        assert(all.skip(i as int)[0] == all[i as int]);
                        assert(all.skip(i as int).skip(1) =~= all.skip(i as int + 1));
                    }
                    if str_eq(fields[i].0.as_str(), key) {
                        return Some(&fields[i].1);
                    }
                    i += 1;
                }
                proof {
                    assert(all.skip(n as int) =~= Seq::<(Seq<char>, JsonVal)>::empty());
                }
                None
            },
            _ => None,
        }
    }

    /// The string slice inside this document, when it is a string.
    pub fn as_str(&self) -> (r: Option<&String>)
        ensures
            match r {
                Some(s) => self@ is Str && s@ == str_of(self@),
                None => !(self@ is Str),
            },
    {
        match self {
            Json::Str(s) => Some(s),
            _ => None,
        }
    }

    /// A deep copy, equal to this document in the model.
    pub fn deep_clone(&self) -> (r: Json)
        ensures
            r@ == self@,
        decreases self,
    {
        match self {
            Json::Null => Json::Null,
            Json::Bool(b) => Json::Bool(*b),
            Json::Int(n) => Json::Int(*n),
            Json::Str(s) => Json::Str(s.clone()),
            Json::Arr(items) => {
                let n = items.len();
                let mut out: Vec<Json> = Vec::new();
                let mut i: usize = 0;
                #[verifier::loop_isolation(false)]
                while i < n
                    invariant
                        0 <= i <= n,
                        out@.len() == i,
                        forall|k: int| 0 <= k < i ==> jview(out@[k]) == jview(#[trigger] items@[k]),
                    decreases n - i,
                {
                    let c = items[i].deep_clone();
                    out.push(c);
                    i += 1;
                }
                proof {
                    lemma_items_congruent(out@, items@);
                }
                Json::Arr(out)
            },
            Json::Obj(fields) => {
                let n = fields.len();
                let mut out: Vec<(String, Json)> = Vec::new();
                let mut i: usize = 0;
                #[verifier::loop_isolation(false)]
                while i < n
                    invariant
                        0 <= i <= n,
                        out@.len() == i,
                        forall|k: int| 0 <= k < i ==> (#[trigger] out@[k]).0@ == fields@[k].0@
                            && jview(out@[k].1) == jview(fields@[k].1),
                    decreases n - i,
                {
                    let name = fields[i].0.clone();
                    let c = fields[i].1.deep_clone();
                    out.push((name, c));
                    i += 1;
                }
                proof {
                    lemma_fields_congruent(out@, fields@);
                }
                Json::Obj(out)
            },
        }
    }
}

/// Element-wise equal models give equal sequence models.
proof fn lemma_items_congruent(a: Seq<Json>, b: Seq<Json>)
    requires
        a.len() == b.len(),
        forall|k: int| 0 <= k < a.len() ==> jview(a[k]) == jview(#[trigger] b[k]),
    ensures
        jview_items(a) == jview_items(b),
    decreases a.len(),
{
    if a.len() != 0 {
        lemma_items_congruent(a.skip(1), b.skip(1));
    }
}

/// Field-wise equal models give equal field-sequence models.
proof fn lemma_fields_congruent(a: Seq<(String, Json)>, b: Seq<(String, Json)>)
    requires
        a.len() == b.len(),
        forall|k: int| 0 <= k < a.len() ==> (#[trigger] a[k]).0@ == b[k].0@ && jview(a[k].1)
            == jview(b[k].1),
    ensures
        jview_fields(a) == jview_fields(b),
    decreases a.len(),
{
    if a.len() != 0 {
        lemma_fields_congruent(a.skip(1), b.skip(1));
    }
}

/// When no field is named `key`, lookup finds nothing.
pub proof fn lemma_fields_lookup_absent(fields: Seq<(Seq<char>, JsonVal)>, key: Seq<char>)
    requires
        forall|i: int| 0 <= i < fields.len() ==> (#[trigger] fields[i]).0 != key,
    ensures
        fields_lookup(fields, key) is None,
    decreases fields.len(),
{
    if fields.len() != 0 {
        assert(forall|i: int| 0 <= i < fields.skip(1).len() ==> (#[trigger] fields.skip(1)[i])
            == fields[i + 1]);
        lemma_fields_lookup_absent(fields.skip(1), key);
    }
}

/// When the first `j` fields are named otherwise and field `j` is named
/// `key`, lookup finds field `j`.
pub proof fn lemma_fields_lookup_at(fields: Seq<(Seq<char>, JsonVal)>, key: Seq<char>, j: int)
    requires
        0 <= j < fields.len(),
        forall|i: int| 0 <= i < j ==> (#[trigger] fields[i]).0 != key,
        fields[j].0 == key,
    ensures
        fields_lookup(fields, key) == Some(fields[j].1),
    decreases j,
{
    if j > 0 {
        assert(forall|i: int| 0 <= i < fields.skip(1).len() ==> (#[trigger] fields.skip(1)[i])
            == fields[i + 1]);
        lemma_fields_lookup_at(fields.skip(1), key, j - 1);
    }
}

/// `p` is a prefix of `s`.
pub open spec fn is_prefix_of(p: Seq<char>, s: Seq<char>) -> bool {
    p.len() <= s.len() && s.subrange(0, p.len() as int) == p
}

/// Returns true when `prefix` is a prefix of `s`, compared character by
/// character.
pub fn str_starts_with(s: &str, prefix: &str) -> (r: bool)
    ensures
        r == is_prefix_of(prefix@, s@),
{
    let n = s.unicode_len();
    let m = prefix.unicode_len();
    if m > n {
        return false;
    }
    let mut i: usize = 0;
    #[verifier::loop_isolation(false)]
    while i < m
        invariant
            0 <= i <= m,
            m <= n,
            forall|k: int| 0 <= k < i ==> s@[k] == prefix@[k],
        decreases m - i,
    {
        if s.get_char(i) != prefix.get_char(i) {
            proof {
                assert(s@[i as int] != prefix@[i as int]);
                if is_prefix_of(prefix@, s@) {
                    assert(s@.subrange(0, m as int)[i as int] == s@[i as int]);
                }
            }
            return false;
        }
        i += 1;
    }
    proof {
        assert(s@.subrange(0, m as int) =~= prefix@);
    }
    true
}

/// The model of an array of strings.
pub open spec fn strings_val(v: Seq<Seq<char>>) -> JsonVal {
    JsonVal::Arr(Seq::new(v.len(), |i: int| JsonVal::Str(v[i])))
}

/// Builds an array document out of strings.
pub fn strings_to_json(v: &Vec<String>) -> (r: Json)
    ensures
        r@ == strings_val(v.deep_view()),
{
    let n = v.len();
    let mut items: Vec<Json> = Vec::new();
    let mut i: usize = 0;
    #[verifier::loop_isolation(false)]
    while i < n
        invariant
            0 <= i <= n,
            items@.len() == i,
            forall|k: int| 0 <= k < i ==> jview(#[trigger] items@[k]) == JsonVal::Str(v@[k]@),
        decreases n - i,
    {
        items.push(Json::Str(v[i].clone()));
        i += 1;
    }
    let r = Json::Arr(items);
    proof {
        lemma_jview_items(items@);
        assert(r@->Arr_0 =~~= strings_val(v.deep_view())->Arr_0);
    }
    r
}

} // verus!
