use vstd::prelude::*;
use vstd::string::*;

use crate::json::{set_member, with_member};
use crate::text::{decimal, decimal_string};

verus! {

/// The reserved top-level key under which a slice descriptor is merged.
pub open spec fn slice_key() -> Seq<char> {
    "slice"@
}

/// The JSON text `{"id":<id>,"max":<max>}` of a slice descriptor.
pub open spec fn slice_descriptor(id: nat, max: nat) -> Seq<char> {
    "{\"id\":"@ + decimal(id) + ",\"max\":"@ + decimal(max) + "}"@
}

/// `query` annotated to ask for slice `id` of `max`.
pub open spec fn sliced(query: Seq<char>, id: nat, max: nat) -> Option<Seq<char>> {
    with_member(query, slice_key(), slice_descriptor(id, max))
}

/// Whether every one of the `n` slices of `query` can be annotated.
pub open spec fn sliceable(query: Seq<char>, n: nat) -> bool {
    forall|j: nat| j < n ==> (#[trigger] sliced(query, j, n)) is Some
}

/// Builds the slice descriptor text for slice `id` of `max`.
pub fn descriptor(id: u32, max: u32) -> (r: String)
    ensures
        r@ == slice_descriptor(id as nat, max as nat),
{
    let mut r = String::from_str("{\"id\":");
    r.append(decimal_string(id as u64).as_str());
    r.append(",\"max\":");
    r.append(decimal_string(max as u64).as_str());
    r.append("}");
    r
}

/// `query` (a JSON object) annotated to ask for slice `id` of `max`; `None`
/// when the query is not a JSON object.
pub fn annotate(query: &str, id: u32, max: u32) -> (r: Option<String>)
    ensures
        r matches Some(s) ==> sliced(query@, id as nat, max as nat) == Some(s@),
        r is None ==> sliced(query@, id as nat, max as nat) is None,
{
    let d = descriptor(id, max);
    set_member(query, "slice", d.as_str())
}

/// Plans the `n` per-slice queries of `query`.
///
/// With one slice the query is sent as it is. With more, slice `i` (counted
/// from 0) gets its own copy annotated with `{"id": i, "max": n}`; this needs
/// the query to be a JSON object, and `None` is returned otherwise.
pub fn plan_slices(query: &str, n: u32) -> (r: Option<Vec<String>>)
    requires
        n >= 1,
    ensures
        r matches Some(v) ==> v@.len() == n,
        n == 1 ==> (r matches Some(v) && v@[0]@ == query@),
        n > 1 ==> (r is Some <==> sliceable(query@, n as nat)),
        n > 1 ==> (r matches Some(v) ==> forall|j: int|
            0 <= j < n ==> sliced(query@, j as nat, n as nat) == Some(#[trigger] v@[j]@)),
{
    let mut out: Vec<String> = Vec::new();
    if n == 1 {
        out.push(query.to_owned());
        return Some(out);
    }
    let mut i: u32 = 0;
    while i < n
        invariant
            1 < n,
            i <= n,
            out@.len() == i,
            forall|j: nat| j < i ==> (#[trigger] sliced(query@, j, n as nat)) is Some,
            forall|j: int| 0 <= j < i ==> sliced(query@, j as nat, n as nat) == Some(#[trigger] out@[j]@),
        decreases n - i,
    {
        match annotate(query, i, n) {
            Some(s) => {
                out.push(s);
            },
            None => {
                return None;
            },
        }
        i = i + 1;
    }
    Some(out)
}

} // verus!
