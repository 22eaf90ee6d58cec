//! Deterministic receipt identifiers: a canonical byte encoding of
//! documents, and a name-based identifier derived from those bytes. Equal
//! documents always map to the same identifier, so a caller can deduplicate
//! repeated delivery of logically identical payloads.

use vstd::prelude::*;
use vstd::string::StrSliceExecFns;
use crate::json::Json;
use crate::json::JsonVal;

verus! {

/// The byte of a single hexadecimal digit, lower case.
pub open spec fn hex_digit(n: int) -> u8 {
    if n < 10 {
        (48 + n) as u8
    } else {
        (87 + n) as u8
    }
}

/// Four hexadecimal digits of a value below 2^16.
pub open spec fn hex4(n: int) -> Seq<u8> {
    seq![
        hex_digit((n / 4096) % 16),
        hex_digit((n / 256) % 16),
        hex_digit((n / 16) % 16),
        hex_digit(n % 16),
    ]
}

/// The escaped encoding of one character inside a string literal: printable
/// ASCII stands for itself, the quote, backslash and common control
/// characters take two-character escapes, and everything else an exact
/// `\uXXXX` escape (a surrogate pair beyond the basic plane), so the whole
/// encoding is ASCII.
pub open spec fn esc_char(c: char) -> Seq<u8> {
    let v = c as u32;
    if v == 34 {
        seq![92u8, 34u8]
    } else if v == 92 {
        seq![92u8, 92u8]
    } else if v == 8 {
        seq![92u8, 98u8]
    } else if v == 9 {
        seq![92u8, 116u8]
    } else if v == 10 {
        seq![92u8, 110u8]
    } else if v == 12 {
        seq![92u8, 102u8]
    } else if v == 13 {
        seq![92u8, 114u8]
    } else if 32 <= v < 127 {
        seq![v as u8]
    } else if v < 65536 {
        seq![92u8, 117u8] + hex4(v as int)
    } else {
        seq![92u8, 117u8] + hex4(55296 + (v - 65536) as int / 1024) + seq![92u8, 117u8] + hex4(
            56320 + (v - 65536) as int % 1024,
        )
    }
}

/// The escaped encoding of a string's characters.
pub open spec fn esc_str(s: Seq<char>) -> Seq<u8>
    decreases s.len(),
{
    if s.len() == 0 {
        Seq::empty()
    } else {
        esc_str(s.drop_last()) + esc_char(s.last())
    }
}

/// The decimal digits of a natural number.
pub open spec fn dec_u(m: nat) -> Seq<u8>
    decreases m,
{
    if m < 10 {
        seq![(48 + m) as u8]
    } else {
        dec_u(m / 10) + seq![(48 + m % 10) as u8]
    }
}

/// The decimal encoding of an integer, with a leading minus sign when
/// negative.
pub open spec fn dec_i(n: int) -> Seq<u8> {
    if n < 0 {
        seq![45u8] + dec_u((-n) as nat)
    } else {
        dec_u(n as nat)
    }
}

/// The canonical byte encoding of a document: JSON text with every
/// non-ASCII character escaped, fields and elements in their held order,
/// and no whitespace.
pub open spec fn jbytes(v: JsonVal) -> Seq<u8>
    decreases v,
{
    match v {
        JsonVal::Null => seq![110u8, 117u8, 108u8, 108u8],
        JsonVal::Bool(b) => if b {
            seq![116u8, 114u8, 117u8, 101u8]
        } else {
            seq![102u8, 97u8, 108u8, 115u8, 101u8]
        },
        JsonVal::Int(n) => dec_i(n),
        JsonVal::Str(s) => seq![34u8] + esc_str(s) + seq![34u8],
        JsonVal::Arr(items) => seq![91u8] + jbytes_items(items) + seq![93u8],
        JsonVal::Obj(fields) => seq![123u8] + jbytes_fields(fields) + seq![125u8],
    }
}

/// The comma-separated encodings of array elements.
pub open spec fn jbytes_items(items: Seq<JsonVal>) -> Seq<u8>
    decreases items,
{
    if items.len() == 0 {
        Seq::empty()
    } else if items.len() == 1 {
        jbytes(items[0])
    } else {
        jbytes_items(items.drop_last()) + seq![44u8] + jbytes(items[items.len() - 1])
    }
}

/// The comma-separated `"key":value` encodings of object fields.
pub open spec fn jbytes_fields(fields: Seq<(Seq<char>, JsonVal)>) -> Seq<u8>
    decreases fields,
{
    if fields.len() == 0 {
        Seq::empty()
    } else if fields.len() == 1 {
        seq![34u8] + esc_str(fields[0].0) + seq![34u8, 58u8] + jbytes(fields[0].1)
    } else {
        jbytes_fields(fields.drop_last()) + seq![44u8] + seq![34u8] + esc_str(
            fields[fields.len() - 1].0,
        ) + seq![34u8, 58u8] + jbytes(fields[fields.len() - 1].1)
    }
}

/// Appends the four hexadecimal digits of `v`.
fn push_hex4(out: &mut Vec<u8>, v: u32)
    requires
        v < 65536,
    ensures
        final(out)@ == old(out)@ + hex4(v as int),
{
    let d0 = hex_byte((v / 4096) % 16);
    let d1 = hex_byte((v / 256) % 16);
    let d2 = hex_byte((v / 16) % 16);
    let d3 = hex_byte(v % 16);
    out.push(d0);
    out.push(d1);
    out.push(d2);
    out.push(d3);
    proof {
        assert(out@ =~= old(out)@ + hex4(v as int));
    }
}

/// The byte of one hexadecimal digit.
fn hex_byte(n: u32) -> (r: u8)
    requires
        n < 16,
    ensures
        r == hex_digit(n as int),
{
    if n < 10 {
        (48 + n) as u8
    } else {
        (87 + n) as u8
    }
}

/// Appends the escaped encoding of one character.
fn push_esc_char(out: &mut Vec<u8>, c: char)
    ensures
        final(out)@ == old(out)@ + esc_char(c),
{
    let v = c as u32;
    if v == 34 {
        out.push(92);
        out.push(34);
    } else if v == 92 {
        out.push(92);
        out.push(92);
    } else if v == 8 {
        out.push(92);
        out.push(98);
    } else if v == 9 {
        out.push(92);
        out.push(116);
    } else if v == 10 {
        out.push(92);
        out.push(110);
    } else if v == 12 {
        out.push(92);
        out.push(102);
    } else if v == 13 {
        out.push(92);
        out.push(114);
    } else if 32 <= v && v < 127 {
        out.push(v as u8);
    } else if v < 65536 {
        out.push(92);
        out.push(117);
        push_hex4(out, v);
    } else {
        let r = v - 65536;
        out.push(92);
        out.push(117);
        push_hex4(out, 55296 + r / 1024);
        out.push(92);
        out.push(117);
        push_hex4(out, 56320 + r % 1024);
    }
    proof {
        assert(out@ =~= old(out)@ + esc_char(c));
    }
}

/// Appends the escaped encoding of a string's characters.
fn push_esc_str(out: &mut Vec<u8>, s: &str)
    ensures
        final(out)@ == old(out)@ + esc_str(s@),
{
    let n = s.unicode_len();
    let mut i: usize = 0;
    proof {
        assert(s@.take(0) =~= Seq::<char>::empty());
        assert(out@ =~= old(out)@ + esc_str(s@.take(0)));
    }
    #[verifier::loop_isolation(false)]
    while i < n
        invariant
            0 <= i <= n,
            n == s@.len(),
            out@ == old(out)@ + esc_str(s@.take(i as int)),
        decreases n - i,
    {
        let c = s.get_char(i);
        push_esc_char(out, c);
        proof {
            assert(s@.take(i as int + 1).drop_last() =~= s@.take(i as int));
            assert(s@.take(i as int + 1).last() == s@[i as int]);
            assert(out@ =~= old(out)@ + esc_str(s@.take(i as int + 1)));
        }
        i += 1;
    }
    proof {
        assert(s@.take(n as int) =~= s@);
    }
}

/// Appends the decimal digits of a natural number.
fn push_dec_u(out: &mut Vec<u8>, m: u64)
    ensures
        final(out)@ == old(out)@ + dec_u(m as nat),
    decreases m,
{
    if m < 10 {
        out.push(48 + m as u8);
        proof {
            assert(out@ =~= old(out)@ + dec_u(m as nat));
        }
    } else {
        push_dec_u(out, m / 10);
        out.push(48 + (m % 10) as u8);
        proof {
            assert(out@ =~= old(out)@ + dec_u(m as nat));
        }
    }
}

/// Appends the decimal encoding of an integer.
fn push_dec_i(out: &mut Vec<u8>, n: i64)
    ensures
        final(out)@ == old(out)@ + dec_i(n as int),
{
    if n >= 0 {
        push_dec_u(out, n as u64);
    } else {
        out.push(45);
        let m: u64 = if n == i64::MIN {
            9223372036854775808u64
        } else {
            (-n) as u64
        };
        push_dec_u(out, m);
        proof {
            assert(out@ =~= old(out)@ + dec_i(n as int));
        }
    }
}

/// Appends the canonical encoding of a document.
#[verifier::rlimit(60)]
fn push_json(out: &mut Vec<u8>, v: &Json)
    ensures
        final(out)@ == old(out)@ + jbytes(v@),
    decreases v,
{
    match v {
        Json::Null => {
            out.push(110);
            out.push(117);
            out.push(108);
            out.push(108);
            proof {
                assert(out@ =~= old(out)@ + jbytes(v@));
            }
        },
        Json::Bool(b) => {
            if *b {
                out.push(116);
                out.push(114);
                out.push(117);
                out.push(101);
            } else {
                out.push(102);
                out.push(97);
                out.push(108);
                out.push(115);
                out.push(101);
            }
            proof {
                assert(out@ =~= old(out)@ + jbytes(v@));
            }
        },
        Json::Int(n) => {
            push_dec_i(out, *n);
        },
        Json::Str(s) => {
            out.push(34);
            push_esc_str(out, s.as_str());
            out.push(34);
            proof {
                assert(out@ =~= old(out)@ + jbytes(v@));
            }
        },
        Json::Arr(items) => {
            let ghost all = v@->Arr_0;
            proof {
                crate::json::lemma_jview_items(items@);
            }
            out.push(91);
            let n = items.len();
            let mut i: usize = 0;
            proof {
                assert(all.take(0) =~= Seq::<JsonVal>::empty());
                assert(out@ =~= old(out)@ + seq![91u8] + jbytes_items(all.take(0)));
            }
            #[verifier::loop_isolation(false)]
            while i < n
                invariant
                    0 <= i <= n,
                    n == items@.len(),
                    all == crate::json::jview_items(items@),
                    all.len() == n,
                    out@ == old(out)@ + seq![91u8] + jbytes_items(all.take(i as int)),
                decreases n - i,
            {
                if i > 0 {
                    out.push(44);
                }
                push_json(out, &items[i]);
                proof {
                    assert(all.take(i as int + 1).drop_last() =~= all.take(i as int));
                    assert(all.take(i as int + 1).last() == all[i as int]);
                    assert(all[i as int] == crate::json::jview(items@[i as int]));
                    assert(out@ =~= old(out)@ + seq![91u8] + jbytes_items(all.take(i as int + 1)));
                }
                i += 1;
            }
            out.push(93);
            proof {
                assert(all.take(n as int) =~= all);
                assert(out@ =~= old(out)@ + jbytes(v@));
            }
        },
        Json::Obj(fields) => {
            let ghost all = v@->Obj_0;
            proof {
                crate::json::lemma_jview_fields(fields@);
            }
            out.push(123);
            let n = fields.len();
            let mut i: usize = 0;
            proof {
                assert(all.take(0) =~= Seq::<(Seq<char>, JsonVal)>::empty());
                assert(out@ =~= old(out)@ + seq![123u8] + jbytes_fields(all.take(0)));
            }
            #[verifier::loop_isolation(false)]
            while i < n
                invariant
                    0 <= i <= n,
                    n == fields@.len(),
                    all == crate::json::jview_fields(fields@),
                    all.len() == n,
                    out@ == old(out)@ + seq![123u8] + jbytes_fields(all.take(i as int)),
                decreases n - i,
            {
                if i > 0 {
                    out.push(44);
                }
                out.push(34);
                push_esc_str(out, fields[i].0.as_str());
                out.push(34);
                out.push(58);
                push_json(out, &fields[i].1);
                proof {
                    assert(all.take(i as int + 1).drop_last() =~= all.take(i as int));
                    assert(all.take(i as int + 1).last() == all[i as int]);
                    assert(all[i as int] == (fields@[i as int].0@, crate::json::jview(
                        fields@[i as int].1,
                    )));
                    assert(out@ =~= old(out)@ + seq![123u8] + jbytes_fields(
                        all.take(i as int + 1),
                    ));
                }
                i += 1;
            }
            out.push(125);
            proof {
                assert(all.take(n as int) =~= all);
                assert(out@ =~= old(out)@ + jbytes(v@));
            }
        },
    }
}

/// The canonical byte encoding of a document.
pub fn json_to_bytes(v: &Json) -> (r: Vec<u8>)
    ensures
        r@ == jbytes(v@),
{
    let mut out: Vec<u8> = Vec::new();
    proof {
        assert(out@ =~= Seq::<u8>::empty());
    }
    push_json(&mut out, v);
    proof {
        assert(out@ =~= jbytes(v@));
    }
    out
}

/// What uuid's name-based (version 5) identifier under the OID namespace
/// prints as: a function of the name bytes alone, the same in every process
/// and on every machine.
pub uninterp spec fn uuid_v5_oid(bytes: Seq<u8>) -> Seq<char>;

/// Relies on uuid::Uuid::new_v5 with the OID namespace and the hyphenated
/// Display form: a deterministic, name-based identifier of 36 characters.
#[verifier::external_body]
fn uuid_v5_oid_string(bytes: &Vec<u8>) -> (r: String)
    ensures
        r@ == uuid_v5_oid(bytes@),
        r@.len() == 36,
{
    uuid::Uuid::new_v5(&uuid::Uuid::NAMESPACE_OID, bytes.as_slice()).to_string()
}

/// The content-derived receipt identifier of a document: the name-based
/// identifier of its canonical byte encoding. A pure function of the
/// document — the same document always yields the same identifier.
pub fn stable_receipt_id(value: &Json) -> (r: String)
    ensures
        r@ == uuid_v5_oid(jbytes(value@)),
        r@.len() == 36,
{
    let bytes = json_to_bytes(value);
    uuid_v5_oid_string(&bytes)
}

/// Law: the receipt identifier is deterministic — equal documents yield
/// equal identifiers, across repeated calls, in this and every process.
pub proof fn lemma_receipt_id_deterministic(a: JsonVal, b: JsonVal)
    requires
        a == b,
    ensures
        uuid_v5_oid(jbytes(a)) == uuid_v5_oid(jbytes(b)),
{
}

} // verus!
