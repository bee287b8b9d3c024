//! QuYou discovery: recognising requests, reading device names from
//! replies, and choosing among the mixers that answered.

use vstd::prelude::*;
use vstd::utf8::{decode_utf8, valid_utf8};
use crate::protocol::{DISCOVERY_MESSAGE, bytes_equal};

verus! {

/// What `str::to_lowercase` gives for a string.
pub uninterp spec fn lowercase(s: Seq<char>) -> Seq<char>;

/// What `String::from_utf8_lossy` gives for a byte sequence.
pub uninterp spec fn lossy_utf8(bytes: Seq<u8>) -> Seq<char>;

/// Calls `str::to_lowercase`. Its result is named [`lowercase`]; nothing
/// more is claimed of it.
#[verifier::external_body]
fn to_lowercase(s: &str) -> (res: String)
    ensures
        res@ == lowercase(s@),
{
    s.to_lowercase()
}

/// Calls `String::from_utf8_lossy` and takes the owned text. Its result is
/// named [`lossy_utf8`]; as its documentation says, valid UTF-8 is decoded
/// as it stands. What replaces invalid sequences is left to the name.
#[verifier::external_body]
fn utf8_lossy(bytes: &[u8]) -> (res: String)
    ensures
        res@ == lossy_utf8(bytes@),
        valid_utf8(bytes@) ==> res@ == decode_utf8(bytes@),
{
    String::from_utf8_lossy(bytes).into_owned()
}

/// Whether a datagram is the QuYou discovery request `QU Find`.
pub fn is_discovery_request(data: &[u8]) -> (res: bool)
    ensures
        res == (data@ == DISCOVERY_MESSAGE@),
{
    bytes_equal(data, &DISCOVERY_MESSAGE)
}

/// The reply of a discovery responder to datagram `data`: its device name
/// when `data` is a discovery request, nothing otherwise.
pub fn discovery_reply(data: &[u8], device_name: &[u8]) -> (res: Option<Vec<u8>>)
    ensures
        match res {
            Some(reply) => data@ == DISCOVERY_MESSAGE@ && reply@ == device_name@,
            None => data@ != DISCOVERY_MESSAGE@,
        },
{
    if is_discovery_request(data) {
        let mut reply: Vec<u8> = Vec::new();
        let mut i: usize = 0;
        while i < device_name.len()
            invariant
                i <= device_name@.len(),
                reply@ == device_name@.subrange(0, i as int),
            decreases device_name@.len() - i,
        {
            reply.push(device_name[i]);
            i = i + 1;
            assert(reply@ =~= device_name@.subrange(0, i as int));
        }
        assert(reply@ =~= device_name@);
        Some(reply)
    } else {
        None
    }
}

/// The bytes of a device name in a discovery reply: the reply without its
/// terminating NUL, when it has one.
pub open spec fn name_bytes(data: Seq<u8>) -> Seq<u8> {
    if data.len() > 0 && data.last() == 0 {
        data.drop_last()
    } else {
        data
    }
}

/// The device name in discovery reply `data`, decoded as UTF-8 with
/// invalid sequences replaced.
pub fn device_name(data: &[u8]) -> (res: String)
    ensures
        res@ == lossy_utf8(name_bytes(data@)),
        valid_utf8(name_bytes(data@)) ==> res@ == decode_utf8(name_bytes(data@)),
{
    let end: usize = if data.len() > 0 && data[data.len() - 1] == 0 {
        data.len() - 1
    } else {
        data.len()
    };
    let mut bytes: Vec<u8> = Vec::new();
    let mut i: usize = 0;
    while i < end
        invariant
            end <= data@.len(),
            i <= end,
            bytes@ == data@.subrange(0, i as int),
        decreases end - i,
    {
        bytes.push(data[i]);
        i = i + 1;
        assert(bytes@ =~= data@.subrange(0, i as int));
    }
    assert(bytes@ =~= name_bytes(data@));
    utf8_lossy(bytes.as_slice())
}

/// How a proxy ranks a mixer by its lower-cased name: real mixers first,
/// then emulators (`squib`), then other proxies (`quippi`).
pub open spec fn upstream_rank(lower: Seq<char>) -> u8 {
    if lower == "squib"@ {
        1
    } else if lower == "quippi"@ {
        2
    } else {
        0
    }
}

/// How a control surface ranks a mixer by its lower-cased name: proxies
/// first (`quippi`), then emulators (`squib`), then real mixers.
pub open spec fn surface_rank(lower: Seq<char>) -> u8 {
    if lower == "quippi"@ {
        0
    } else if lower == "squib"@ {
        1
    } else {
        2
    }
}

/// Whether `s` holds exactly the text `t`.
fn is_text(s: &String, t: &str) -> (res: bool)
    ensures
        res == (s@ == t@),
{
    let other = String::from_str(t);
    *s == other
}

/// The rank of a lower-cased name for a proxy.
pub fn upstream_rank_of(lower: &String) -> (res: u8)
    ensures
        res == upstream_rank(lower@),
{
    if is_text(lower, "squib") {
        1
    } else if is_text(lower, "quippi") {
        2
    } else {
        0
    }
}

/// The rank of a lower-cased name for a control surface.
pub fn surface_rank_of(lower: &String) -> (res: u8)
    ensures
        res == surface_rank(lower@),
{
    if is_text(lower, "quippi") {
        0
    } else if is_text(lower, "squib") {
        1
    } else {
        2
    }
}

/// Whether `i` is the first position of a smallest value of `p`.
pub open spec fn is_first_min(p: Seq<u8>, i: int) -> bool {
    &&& 0 <= i < p.len()
    &&& forall|j: int| 0 <= j < p.len() ==> p[i] <= #[trigger] p[j]
    &&& forall|j: int| 0 <= j < i ==> p[i] < #[trigger] p[j]
}

/// At most one position is the first of a smallest value.
pub proof fn first_min_is_unique(p: Seq<u8>, i: int, k: int)
    requires
        is_first_min(p, i),
        is_first_min(p, k),
    ensures
        i == k,
{
    if i < k {
        assert(p[k] < p[i]);
    } else if k < i {
        assert(p[i] < p[k]);
    }
}

/// The position of the first smallest value, as `min_by_key` picks it;
/// none for an empty slice.
pub fn first_lowest(ranks: &[u8]) -> (res: Option<usize>)
    ensures
        match res {
            Some(i) => is_first_min(ranks@, i as int),
            None => ranks@.len() == 0,
        },
{
    if ranks.len() == 0 {
        return None;
    }
    let mut best: usize = 0;
    let mut i: usize = 1;
    while i < ranks.len()
        invariant
            1 <= i <= ranks@.len(),
            best < i,
            forall|j: int| 0 <= j < i ==> ranks@[best as int] <= #[trigger] ranks@[j],
            forall|j: int| 0 <= j < best ==> ranks@[best as int] < #[trigger] ranks@[j],
        decreases ranks@.len() - i,
    {
        if ranks[i] < ranks[best] {
            best = i;
        }
        i = i + 1;
    }
    Some(best)
}

/// The ranks a proxy gives the named mixers.
pub open spec fn upstream_ranks(names: Seq<String>) -> Seq<u8> {
    names.map_values(|n: String| upstream_rank(lowercase(n@)))
}

/// The ranks a control surface gives the named mixers.
pub open spec fn surface_ranks(names: Seq<String>) -> Seq<u8> {
    names.map_values(|n: String| surface_rank(lowercase(n@)))
}

/// The mixer that a proxy connects to, among those that answered
/// discovery under `names`: the first of the best rank, real mixers
/// before emulators before other proxies; none when nothing answered.
pub fn choose_upstream(names: &[String]) -> (res: Option<usize>)
    ensures
        match res {
            Some(i) => is_first_min(upstream_ranks(names@), i as int),
            None => names@.len() == 0,
        },
        (exists|j: int| 0 <= j < names@.len() && #[trigger] upstream_ranks(names@)[j] == 0) ==> (res matches Some(
            i,
        ) && upstream_ranks(names@)[i as int] == 0),
{
    let mut ranks: Vec<u8> = Vec::new();
    let mut k: usize = 0;
    while k < names.len()
        invariant
            k <= names@.len(),
            ranks@ == upstream_ranks(names@).subrange(0, k as int),
        decreases names@.len() - k,
    {
        let lower = to_lowercase(names[k].as_str());
        let r = upstream_rank_of(&lower);
        ranks.push(r);
        k = k + 1;
        assert(ranks@ =~= upstream_ranks(names@).subrange(0, k as int));
    }
    assert(ranks@ =~= upstream_ranks(names@));
    first_lowest(ranks.as_slice())
}

/// The mixer that a control surface connects to, among those that
/// answered discovery under `names`: the first of the best rank, proxies
/// before emulators before real mixers; none when nothing answered.
pub fn choose_mixer(names: &[String]) -> (res: Option<usize>)
    ensures
        match res {
            Some(i) => is_first_min(surface_ranks(names@), i as int),
            None => names@.len() == 0,
        },
{
    let mut ranks: Vec<u8> = Vec::new();
    let mut k: usize = 0;
    while k < names.len()
        invariant
            k <= names@.len(),
            ranks@ == surface_ranks(names@).subrange(0, k as int),
        decreases names@.len() - k,
    {
        let lower = to_lowercase(names[k].as_str());
        let r = surface_rank_of(&lower);
        ranks.push(r);
        k = k + 1;
        assert(ranks@ =~= surface_ranks(names@).subrange(0, k as int));
    }
    assert(ranks@ =~= surface_ranks(names@));
    first_lowest(ranks.as_slice())
}

} // verus!
