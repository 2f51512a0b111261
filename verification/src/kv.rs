//! Opaque key-value payloads (parameters, context, credentials, labels) kept
//! as ordered lists of string pairs, with the helpers the engine needs to
//! copy and compare them.

use vstd::prelude::*;

verus! {

/// The mathematical content of a pair list: the sequence of its string views.
pub open spec fn kv_view(s: Seq<(String, String)>) -> Seq<(Seq<char>, Seq<char>)> {
    s.map(|i: int, p: (String, String)| (p.0@, p.1@))
}

/// An optional payload, read as its content with absence meaning empty.
pub open spec fn opt_kv_view(o: Option<Seq<(Seq<char>, Seq<char>)>>) -> Seq<
    (Seq<char>, Seq<char>),
> {
    match o {
        Some(s) => s,
        None => Seq::empty(),
    }
}

/// View of an optional pair list.
pub open spec fn opt_kv(o: Option<Vec<(String, String)>>) -> Option<
    Seq<(Seq<char>, Seq<char>)>,
> {
    match o {
        Some(v) => Some(kv_view(v@)),
        None => None,
    }
}

/// View of an optional string.
pub open spec fn opt_str_view(o: Option<String>) -> Option<Seq<char>> {
    match o {
        Some(s) => Some(s@),
        None => None,
    }
}

/// Decides whether two payloads hold the same pairs in the same order.
pub fn kv_eq(a: &Vec<(String, String)>, b: &Vec<(String, String)>) -> (r: bool)
    ensures
        r == (kv_view(a@) == kv_view(b@)),
{
    if a.len() != b.len() {
        proof {
            assert(kv_view(a@).len() != kv_view(b@).len());
        }
        return false;
    }
    let mut i: usize = 0;
    while i < a.len()
        invariant
            a@.len() == b@.len(),
            i <= a@.len(),
            forall|j: int| 0 <= j < i ==> kv_view(a@)[j] == kv_view(b@)[j],
        decreases a@.len() - i,
    {
        if !(a[i].0 == b[i].0 && a[i].1 == b[i].1) {
            proof {
                assert(kv_view(a@)[i as int] != kv_view(b@)[i as int]);
            }
            return false;
        }
        i = i + 1;
    }
    proof {
        assert(kv_view(a@) =~= kv_view(b@));
    }
    true
}

/// Copies a payload.
pub fn kv_clone(v: &Vec<(String, String)>) -> (r: Vec<(String, String)>)
    ensures
        kv_view(r@) == kv_view(v@),
{
    let mut r: Vec<(String, String)> = Vec::new();
    let mut i: usize = 0;
    while i < v.len()
        invariant
            i <= v@.len(),
            r@.len() == i,
            forall|j: int|
                0 <= j < i ==> r@[j].0@ == v@[j].0@ && r@[j].1@ == v@[j].1@,
        decreases v@.len() - i,
    {
        r.push((v[i].0.clone(), v[i].1.clone()));
        i = i + 1;
    }
    proof {
        assert(kv_view(r@) =~= kv_view(v@));
    }
    r
}

/// Normalizes an optional payload: absent means empty.
pub fn kv_of_opt(v: &Option<Vec<(String, String)>>) -> (r: Vec<(String, String)>)
    ensures
        kv_view(r@) == opt_kv_view(
            match v {
                Some(p) => Some(kv_view(p@)),
                None => None,
            },
        ),
{
    match v {
        Some(p) => kv_clone(p),
        None => {
            let r: Vec<(String, String)> = Vec::new();
            proof {
                assert(kv_view(r@) =~= Seq::<(Seq<char>, Seq<char>)>::empty());
            }
            r
        },
    }
}

/// Decides whether a stored payload equals an optional requested one, with an
/// absent request read as the empty payload.
pub fn kv_matches_opt(stored: &Vec<(String, String)>, req: &Option<Vec<(String, String)>>) -> (r:
    bool)
    ensures
        r == (kv_view(stored@) == opt_kv_view(
            match req {
                Some(p) => Some(kv_view(p@)),
                None => None,
            },
        )),
{
    match req {
        Some(p) => kv_eq(stored, p),
        None => {
            let e = stored.is_empty();
            proof {
                if stored@.len() == 0 {
                    assert(kv_view(stored@) =~= Seq::<(Seq<char>, Seq<char>)>::empty());
                } else {
                    assert(kv_view(stored@).len() != 0);
                }
            }
            e
        },
    }
}

/// Copies an optional string.
pub fn clone_opt_string(s: &Option<String>) -> (r: Option<String>)
    ensures
        opt_str_view(r) == opt_str_view(*s),
{
    match s {
        Some(x) => Some(x.clone()),
        None => None,
    }
}

} // verus!
