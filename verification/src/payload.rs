//! Access to required and optional fields of an envelope payload.

use vstd::prelude::*;
use vstd::string::StringExecFns;
use crate::error::ProviderError;
use crate::json::Json;
use crate::json::JsonVal;
use crate::json::jget;
use crate::json::jview_items;
use crate::json::lemma_jview_items;

verus! {

/// The string under `key`, when the field is present and a string.
pub open spec fn str_field(v: JsonVal, key: Seq<char>) -> Option<Seq<char>> {
    match jget(v, key) {
        Some(t) => if t is Str {
            Some(t->Str_0)
        } else {
            None
        },
        None => None,
    }
}

/// The strings among `items`, in order; other elements are passed over.
pub open spec fn str_items(items: Seq<JsonVal>) -> Seq<Seq<char>>
    decreases items.len(),
{
    if items.len() == 0 {
        Seq::empty()
    } else {
        (if items[0] is Str {
            seq![items[0]->Str_0]
        } else {
            Seq::empty()
        }) + str_items(items.skip(1))
    }
}

/// The strings of the array under `key`, when the field is present, an
/// array, and holds at least one string.
pub open spec fn str_array_field(v: JsonVal, key: Seq<char>) -> Option<Seq<Seq<char>>> {
    match jget(v, key) {
        Some(t) => if t is Arr && str_items(t->Arr_0).len() > 0 {
            Some(str_items(t->Arr_0))
        } else {
            None
        },
        None => None,
    }
}

/// The strings of the array under `key`; empty when the field is absent or
/// not an array.
pub open spec fn opt_str_array_field(v: JsonVal, key: Seq<char>) -> Seq<Seq<char>> {
    match jget(v, key) {
        Some(t) => if t is Arr {
            str_items(t->Arr_0)
        } else {
            Seq::empty()
        },
        None => Seq::empty(),
    }
}

/// The message of a missing or ill-typed required string field.
pub open spec fn missing_field_msg(key: Seq<char>) -> Seq<char> {
    "missing string field "@ + key
}

/// The message of a missing, ill-typed or empty required string array field.
pub open spec fn missing_array_msg(key: Seq<char>) -> Seq<char> {
    "missing string array field "@ + key
}

/// The string field under `key`, or a `Config` error naming the key.
pub fn expect_string(payload: &Json, key: &str) -> (r: Result<String, ProviderError>)
    ensures
        match r {
            Ok(s) => str_field(payload@, key@) == Some(s@),
            Err(e) => str_field(payload@, key@) is None && (e matches ProviderError::Config(m)
                && m@ == missing_field_msg(key@)),
        },
{
    match payload.get(key) {
        Some(t) => match t.as_str() {
            Some(s) => Ok(s.clone()),
            None => Err(
                ProviderError::Config(String::from_str("missing string field ").concat(key)),
            ),
        },
        None => Err(ProviderError::Config(String::from_str("missing string field ").concat(key))),
    }
}

/// The strings among the elements of `items`.
fn collect_strings(items: &Vec<Json>) -> (r: Vec<String>)
    ensures
        r.deep_view() == str_items(jview_items(items@)),
{
    let ghost all = jview_items(items@);
    proof {
        lemma_jview_items(items@);
        assert(all.skip(0) =~= all);
    }
    let n = items.len();
    let mut out: Vec<String> = Vec::new();
    let mut i: usize = 0;
    #[verifier::loop_isolation(false)]
    while i < n
        invariant
            0 <= i <= n,
            n == items@.len(),
            str_items(all) =~= out.deep_view() + str_items(all.skip(i as int)),
        decreases n - i,
    {
        proof {
            assert(all.skip(i as int)[0] == all[i as int]);
            assert(all.skip(i as int).skip(1) =~= all.skip(i as int + 1));
        }
        match items[i].as_str() {
            Some(s) => {
                let ghost before = out.deep_view();
                out.push(s.clone());
                proof {
                    assert(out.deep_view() =~= before.push(s@));
                    assert(str_items(all) =~= out.deep_view() + str_items(all.skip(i as int + 1)));
                }
            },
            None => {
                proof {
                    assert(str_items(all.skip(i as int)) == str_items(all.skip(i as int + 1)));
                }
            },
        }
        i += 1;
    }
    proof {
        assert(all.skip(n as int) =~= Seq::<JsonVal>::empty());
        assert(out.deep_view() =~= str_items(all));
    }
    out
}

/// The non-empty string array under `key`, or a `Config` error naming the
/// key. Elements that are not strings are passed over; an array left empty
/// by that is treated as missing.
pub fn expect_array_strings(payload: &Json, key: &str) -> (r: Result<Vec<String>, ProviderError>)
    ensures
        match r {
            Ok(v) => str_array_field(payload@, key@) == Some(v.deep_view()),
            Err(e) => str_array_field(payload@, key@) is None && (e
                matches ProviderError::Config(m) && m@ == missing_array_msg(key@)),
        },
{
    match payload.get(key) {
        Some(t) => match t {
            Json::Arr(items) => {
                let vs = collect_strings(items);
                if vs.len() > 0 {
                    Ok(vs)
                } else {
                    Err(
                        ProviderError::Config(
                            String::from_str("missing string array field ").concat(key),
                        ),
                    )
                }
            },
            _ => Err(
                ProviderError::Config(
                    String::from_str("missing string array field ").concat(key),
                ),
            ),
        },
        None => Err(
            ProviderError::Config(String::from_str("missing string array field ").concat(key)),
        ),
    }
}

/// The strings of the array under `key`; empty when the field is absent or
/// not an array.
pub fn optional_array_strings(payload: &Json, key: &str) -> (r: Vec<String>)
    ensures
        r.deep_view() == opt_str_array_field(payload@, key@),
{
    match payload.get(key) {
        Some(t) => match t {
            Json::Arr(items) => collect_strings(items),
            _ => {
                let r: Vec<String> = Vec::new();
                proof {
                    assert(r.deep_view() =~= Seq::<Seq<char>>::empty());
                }
                r
            },
        },
        None => {
            let r: Vec<String> = Vec::new();
            proof {
                assert(r.deep_view() =~= Seq::<Seq<char>>::empty());
            }
            r
        },
    }
}

} // verus!
