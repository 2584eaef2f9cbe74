//! A small model of JSON documents.
//!
//! The backend speaks JSON over HTTP.  Every body that the bridge sends or
//! receives is modelled by the [`Json`] datatype below, so that building a
//! request body and picking a response apart are ordinary verified code.
//! Only the conversion between this datatype and JSON text is delegated to
//! an outside crate (see the `text` module).

use vstd::prelude::*;

verus! {

use vstd::string::StringExecFns;

/// A JSON document.
///
/// A number carries its decimal text, and beside it the `u64` value when
/// it is an integer in `u64` range — the form every counter and size
/// field of the protocol takes.  Fractional numbers keep only their text:
/// the supervisor core carries the backend's fractional values verbatim
/// and never computes with them.
#[derive(Debug)]
pub enum Json {
    Null,
    Bool(bool),
    Num(String, Option<u64>),
    Str(String),
    Arr(Vec<Json>),
    Obj(Vec<(String, Json)>),
}

/// The first value bound to `key` in an object's field list, if any.
pub open spec fn spec_obj_get(fields: Seq<(String, Json)>, key: Seq<char>) -> Option<Json>
    decreases fields.len(),
{
    if fields.len() == 0 {
        None
    } else if fields[0].0@ == key {
        Some(fields[0].1)
    } else {
        spec_obj_get(fields.skip(1), key)
    }
}

/// Looks a key up in an object's field list; the first binding wins.
pub fn obj_get<'a>(fields: &'a Vec<(String, Json)>, key: &str) -> (r: Option<&'a Json>)
    ensures
        match r {
            Some(v) => spec_obj_get(fields@, key@) == Some(*v),
            None => spec_obj_get(fields@, key@) is None,
        },
{
    let k: String = key.to_owned();
    let n = fields.len();
    let mut i: usize = 0;
    assert(fields@.skip(0) =~= fields@);
    while i < n
        invariant
            n == fields@.len(),
            i <= n,
            k@ == key@,
            spec_obj_get(fields@, key@) == spec_obj_get(fields@.skip(i as int), key@),
        decreases n - i,
    {
        assert(fields@.skip(i as int)[0] == fields@[i as int]);
        if fields[i].0 == k {
            return Some(&fields[i].1);
        }
        assert(fields@.skip(i as int).skip(1) =~= fields@.skip(i + 1));
        i = i + 1;
    }
    assert(fields@.skip(n as int).len() == 0);
    None
}

/// The ASCII bytes of `n` written in decimal, most significant digit first.
pub open spec fn dec_bytes(n: nat) -> Seq<u8>
    decreases n,
{
    if n < 10 {
        seq![(48 + n) as u8]
    } else {
        dec_bytes(n / 10).push((48 + n % 10) as u8)
    }
}

/// The characters of `n` written in decimal.
pub open spec fn dec_str_of(n: nat) -> Seq<char> {
    dec_bytes(n).map_values(|b: u8| b as char)
}

/// Relies on `String::from_utf8`: a vector of ASCII bytes is valid UTF-8 and
/// decodes to the character with each byte's code point.
#[verifier::external_body]
fn string_from_ascii_bytes(v: &Vec<u8>) -> (r: String)
    requires
        forall|i: int| 0 <= i < v@.len() ==> v@[i] < 128,
    ensures
        r@ == v@.map_values(|b: u8| b as char),
{
    String::from_utf8(v.clone()).unwrap_or_default()
}

proof fn lemma_dec_bytes_ascii(n: nat)
    ensures
        forall|i: int| 0 <= i < dec_bytes(n).len() ==> 48 <= #[trigger] dec_bytes(n)[i] < 58,
    decreases n,
{
    if n < 10 {
        assert(dec_bytes(n) =~= seq![(48 + n) as u8]);
    } else {
        lemma_dec_bytes_ascii(n / 10);
        assert(dec_bytes(n) == dec_bytes(n / 10).push((48 + n % 10) as u8));
        assert(forall|i: int|
            0 <= i < dec_bytes(n).len() - 1 ==> dec_bytes(n)[i] == dec_bytes(n / 10)[i]);
    }
}

/// Writes `n` in decimal.
pub fn u64_to_string(n: u64) -> (r: String)
    ensures
        r@ == dec_str_of(n as nat),
{
    if n == 0 {
        let z = String::from_str("0");
        proof {
            reveal_strlit("0");
            assert(z@ =~= dec_str_of(0));
        }
        return z;
    }
    let mut rev: Vec<u8> = Vec::new();
    let mut m: u64 = n;
    while m > 0
        invariant
            dec_bytes(n as nat) =~= (if m > 0 {
                dec_bytes(m as nat)
            } else {
                Seq::<u8>::empty()
            }).add(rev@.reverse()),
            forall|i: int| 0 <= i < rev@.len() ==> 48 <= #[trigger] rev@[i] < 58,
        decreases m,
    {
        let d: u8 = 48 + (m % 10) as u8;
        let m2: u64 = m / 10;
        proof {
            assert(rev@.push(d).reverse() =~= seq![d].add(rev@.reverse()));
            if m >= 10 {
                assert(dec_bytes(m as nat) == dec_bytes(m as nat / 10).push(d));
            } else {
                assert(dec_bytes(m as nat) =~= seq![d]);
            }
            assert(dec_bytes(m as nat) =~= (if m2 > 0 {
                dec_bytes(m2 as nat)
            } else {
                Seq::<u8>::empty()
            }).add(seq![d]));
        }
        rev.push(d);
        m = m2;
    }
    let len = rev.len();
    let mut out: Vec<u8> = Vec::new();
    let mut i: usize = 0;
    while i < len
        invariant
            len == rev@.len(),
            i <= len,
            out@ =~= rev@.reverse().take(i as int),
            forall|j: int| 0 <= j < rev@.len() ==> 48 <= #[trigger] rev@[j] < 58,
        decreases len - i,
    {
        out.push(rev[len - 1 - i]);
        assert(out@ =~= rev@.reverse().take(i + 1));
        i = i + 1;
    }
    assert(out@ =~= rev@.reverse());
    proof {
        lemma_dec_bytes_ascii(n as nat);
    }
    let s = string_from_ascii_bytes(&out);
    proof {
        assert(dec_bytes(n as nat) =~= out@);
        assert(s@ =~= dec_str_of(n as nat));
    }
    s
}

/// The JSON number `u`.
pub fn json_uint(u: u64) -> (r: Json)
    ensures
        match r {
            Json::Num(t, i) => t@ == dec_str_of(u as nat) && i == Some(u),
            _ => false,
        },
{
    Json::Num(u64_to_string(u), Some(u))
}

impl Json {
    /// The string this document holds, or `None` if it is not a JSON string.
    pub fn as_string(&self) -> (r: Option<&String>)
        ensures
            match r {
                Some(s) => *self == Json::Str(*s),
                None => !(*self is Str),
            },
    {
        match self {
            Json::Str(s) => Some(s),
            _ => None,
        }
    }

    /// The `u64` this document holds, or `None` if it is not an integer
    /// in `u64` range.
    pub fn as_uint(&self) -> (r: Option<u64>)
        ensures
            match r {
                Some(u) => self matches Json::Num(_, i) && i == Some(u),
                None => !(self matches Json::Num(_, i) && i is Some),
            },
    {
        match self {
            Json::Num(_, Some(u)) => Some(*u),
            _ => None,
        }
    }

    /// The decimal text of the number this document holds, or `None` if it
    /// is not a number.
    pub fn as_number_text(&self) -> (r: Option<&String>)
        ensures
            match r {
                Some(t) => self matches Json::Num(s, _) && s == *t,
                None => !(*self is Num),
            },
    {
        match self {
            Json::Num(t, _) => Some(t),
            _ => None,
        }
    }

    /// The boolean this document holds, or `None` if it is not one.
    pub fn as_bool(&self) -> (r: Option<bool>)
        ensures
            match r {
                Some(b) => *self == Json::Bool(b),
                None => !(*self is Bool),
            },
    {
        match self {
            Json::Bool(b) => Some(*b),
            _ => None,
        }
    }
}

} // verus!
