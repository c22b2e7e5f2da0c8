//! The library's own model of a JSON document, with permissive key-path
//! navigation: looking up a missing key, or a key of a non-object value,
//! yields `Json::Null` rather than an error.

use vstd::prelude::*;

verus! {

/// A parsed JSON document. Numbers keep the canonical text of their literal
/// (the decoder writes it; no arithmetic is ever done on it), so no field of
/// the tree is a floating-point value.
#[derive(Debug, PartialEq, Eq)]
pub enum Json {
    Null,
    Bool(bool),
    /// A number, held as its canonical literal text.
    Num(String),
    /// A string value.
    Text(String),
    Arr(Vec<Json>),
    /// An object, as its fields in order; keys are unique when the value
    /// comes from the decoder.
    Obj(Vec<(String, Json)>),
}

/// The value of the first field named `k` of the field list `fs`, or
/// `Json::Null` when no field has that name.
pub open spec fn spec_lookup(fs: Seq<(String, Json)>, k: Seq<char>) -> Json
    decreases fs.len(),
{
    if fs.len() == 0 {
        Json::Null
    } else if fs[0].0@ == k {
        fs[0].1
    } else {
        spec_lookup(fs.drop_first(), k)
    }
}

/// Permissive key lookup: the value under key `k` of an object, and
/// `Json::Null` for a missing key or a non-object value.
pub open spec fn spec_key(j: Json, k: Seq<char>) -> Json {
    match j {
        Json::Obj(fs) => spec_lookup(fs@, k),
        _ => Json::Null,
    }
}

/// Permissive navigation along a fixed key path: `spec_key`, step by step.
pub open spec fn spec_path(j: Json, ks: Seq<Seq<char>>) -> Json
    decreases ks.len(),
{
    if ks.len() == 0 {
        j
    } else {
        spec_path(spec_key(j, ks[0]), ks.drop_first())
    }
}

/// Character-by-character string equality, proved against the views.
fn str_eq(a: &str, b: &str) -> (r: bool)
    ensures
        r == (a@ == b@),
{
    let alen = a.unicode_len();
    let blen = b.unicode_len();
    if alen != blen {
        return false;
    }
    let mut i: usize = 0;
    while i < alen
        invariant
            alen == a@.len(),
            alen == b@.len(),
            i <= alen,
            forall|t: int| 0 <= t < i ==> a@[t] == b@[t],
        decreases alen - i,
    {
        if a.get_char(i) != b.get_char(i) {
            return false;
        }
        i += 1;
    }
    proof {
        assert(a@ =~= b@);
    }
    true
}

/// The index of the first field named `key`, when there is one; `None` means
/// the lookup yields a null.
fn find_field(fields: &Vec<(String, Json)>, key: &str) -> (r: Option<usize>)
    ensures
        match r {
            Some(i) => i < fields@.len() && spec_lookup(fields@, key@) == fields@[i as int].1,
            None => spec_lookup(fields@, key@) == Json::Null,
        },
{
    let n = fields.len();
    let mut i: usize = 0;
    proof {
        assert(fields@.skip(0) =~= fields@);
    }
    while i < n
        invariant
            n == fields@.len(),
            i <= n,
            spec_lookup(fields@, key@) == spec_lookup(fields@.skip(i as int), key@),
        decreases n - i,
    {
        proof {
            assert(fields@.skip(i as int)[0] == fields@[i as int]);
        }
        if str_eq(fields[i].0.as_str(), key) {
            proof {
                assert(spec_lookup(fields@.skip(i as int), key@) == fields@[i as int].1);
            }
            return Some(i);
        }
        proof {
            assert(fields@.skip(i as int).drop_first() =~= fields@.skip(i + 1));
        }
        i += 1;
    }
    None
}

impl Json {
    /// Permissive key lookup on this value (missing key, or a non-object,
    /// yields a null).
    pub fn get<'a>(&'a self, key: &str) -> (r: &'a Json)
        ensures
            *r == spec_key(*self, key@),
    {
        match self {
            Json::Obj(fields) => match find_field(fields, key) {
                Some(i) => &fields[i].1,
                None => &Json::Null,
            },
            _ => &Json::Null,
        }
    }

    /// Permissive navigation along a fixed key path: one `get` per key, so a
    /// missing key or a non-object anywhere along the path yields a null.
    pub fn get_path<'a>(&'a self, keys: &[&str]) -> (r: &'a Json)
        ensures
            *r == spec_path(*self, keys@.map_values(|k: &str| k@)),
    {
        let ghost ks = keys@.map_values(|k: &str| k@);
        let mut cur: &Json = self;
        let n = keys.len();
        let mut i: usize = 0;
        proof {
            assert(ks.skip(0) =~= ks);
        }
        while i < n
            invariant
                n == keys@.len(),
                ks == keys@.map_values(|k: &str| k@),
                i <= n,
                spec_path(*self, ks) == spec_path(*cur, ks.skip(i as int)),
            decreases n - i,
        {
            proof {
                assert(ks.skip(i as int)[0] == ks[i as int]);
                assert(ks.skip(i as int).drop_first() =~= ks.skip(i + 1));
            }
            cur = cur.get(keys[i]);
            i += 1;
        }
        cur
    }

    /// Permissive key lookup that consumes the value and hands the field out
    /// by ownership, detaching it from the rest of the tree.
    pub fn take_key(self, key: &str) -> (r: Json)
        ensures
            r == spec_key(self, key@),
    {
        match self {
            Json::Obj(mut fields) => match find_field(&fields, key) {
                Some(i) => fields.remove(i).1,
                None => Json::Null,
            },
            _ => Json::Null,
        }
    }
}

} // verus!
