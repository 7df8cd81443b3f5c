//! Probe-token generation and the decision logic of the wildcard
//! classifier and the connectivity preflight.

use crate::filters::WildcardFilter;
use vstd::prelude::*;
use vstd::string::StringExecFns;

verus! {

/// Length in characters of one random token block, the length of one
/// simple-formatted UUID.
pub const UUID_LENGTH: u64 = 32;

/// A lowercase hexadecimal digit, the only characters a token holds.
pub open spec fn is_lower_hex(c: char) -> bool {
    ('0' <= c && c <= '9') || ('a' <= c && c <= 'f')
}

/// Relies on uuid::Uuid::new_v4 together with uuid's simple formatter: the
/// rendering is exactly 32 characters, all lowercase hexadecimal, with no
/// hyphens. The value itself is random, so nothing more is promised of it.
#[verifier::external_body]
fn random_token_block() -> (r: String)
    ensures
        r@.len() == 32,
        forall|i: int| 0 <= i < r@.len() ==> is_lower_hex(#[trigger] r@[i]),
{
    uuid::Uuid::new_v4().simple().to_string()
}

/// Returns `length` concatenated random blocks of 32 lowercase hexadecimal
/// characters each: a collision-resistant path segment of precisely known
/// length. `length = 0` yields the empty string.
pub fn unique_string(length: usize) -> (r: String)
    requires
        32 * length <= usize::MAX,
    ensures
        r@.len() == 32 * length,
        forall|i: int| 0 <= i < r@.len() ==> is_lower_hex(#[trigger] r@[i]),
{
    let mut unique_id = String::new();
    let mut count: usize = 0;
    while count < length
        invariant
            count <= length,
            32 * length <= usize::MAX,
            unique_id@.len() == 32 * count,
            forall|i: int| 0 <= i < unique_id@.len() ==> is_lower_hex(#[trigger] unique_id@[i]),
        decreases length - count,
    {
        let block = random_token_block();
        unique_id.append(block.as_str());
        count = count + 1;
    }
    unique_id
}

/// What one wildcard probe observed of the server's answer, kept as plain
/// values. Owned by the probe that issued the request.
#[derive(Debug)]
pub struct ProbeResult {
    /// The response's status code.
    pub status: u16,
    /// The response's materialized content length.
    pub content_length: u64,
    /// The final URL the response came from, after redirects the client
    /// followed itself.
    pub url: String,
    /// The `Location` header's value, when the response carried one.
    pub location: Option<String>,
}

/// Whether `status` belongs to the configured set of interesting status
/// codes, the ones that count as a wildcard answer.
pub fn status_in_set(status: u16, codes: &Vec<u16>) -> (r: bool)
    ensures
        r == codes@.contains(status),
{
    let mut idx: usize = 0;
    while idx < codes.len()
        invariant
            idx <= codes@.len(),
            forall|j: int| 0 <= j < idx ==> codes@[j] != status,
        decreases codes@.len() - idx,
    {
        if codes[idx] == status {
            assert(codes@[idx as int] == status);
            return true;
        }
        idx = idx + 1;
    }
    false
}

/// Decides what a probe's raw response amounts to: a status code in the
/// interesting set makes a wildcard observation, carried over unchanged into
/// a `ProbeResult`; any other status (a genuine not-found) means no wildcard
/// was observed here.
pub fn evaluate_response(
    status: u16,
    content_length: u64,
    url: String,
    location: Option<String>,
    codes: &Vec<u16>,
) -> (r: Option<ProbeResult>)
    ensures
        codes@.contains(status) ==> (r matches Some(p)
            && p.status == status
            && p.content_length == content_length
            && p.url == url
            && p.location == location),
        !codes@.contains(status) ==> r is None,
{
    if status_in_set(status, codes) {
        Some(ProbeResult { status, content_length, url, location })
    } else {
        None
    }
}

/// Whether `status` is in the redirection class, in which case the probe
/// reports where the wildcard response points.
pub fn is_redirect_status(status: u16) -> (r: bool)
    ensures
        r == (300 <= status && status < 400),
{
    300 <= status && status < 400
}

/// Where the wildcard response redirects to: the `Location` header's value,
/// but only for a response in the redirection class.
pub fn redirect_target(result: &ProbeResult) -> (r: Option<&String>)
    ensures
        (300 <= result.status && result.status < 400 && result.location is Some)
            ==> (r matches Some(l) && l@ == result.location->0@),
        !(300 <= result.status && result.status < 400 && result.location is Some)
            ==> r is None,
{
    if is_redirect_status(result.status) {
        match &result.location {
            Some(l) => Some(l),
            None => None,
        }
    } else {
        None
    }
}

/// Whether an advisory message is emitted for a probe's response: only
/// outside quiet mode, and only when the external suppression predicate has
/// not claimed the response.
pub fn should_announce(quiet: bool, filtered: bool) -> (r: bool)
    ensures
        r == (!quiet && !filtered),
{
    !quiet && !filtered
}

/// What the classifier owes after seeing the first probe's outcome.
#[derive(Debug)]
pub enum WildcardStep {
    /// Classification is over; the payload is what the caller hands back.
    Finished(Option<WildcardFilter>),
    /// A second probe is owed, with the given number of token units, so
    /// that the two request paths differ by a known 64 characters.
    SecondProbe { units: usize, first_length: u64 },
}

/// Step one of the classifier: when filtering is globally disabled, no probe
/// is issued at all; otherwise the first probe uses a single token unit, a
/// 32-character path segment.
pub fn first_probe_units(dont_filter: bool) -> (r: Option<usize>)
    ensures
        dont_filter ==> r is None,
        !dont_filter ==> r == Some(1usize),
{
    if dont_filter {
        None
    } else {
        Some(1)
    }
}

/// The decision after the first probe. No observation means the target
/// exhibits no wildcard behavior at all. A wildcard with an empty body
/// cannot be characterized by content length and needs no filter, so the
/// inert filter comes back at once, without a second probe. A non-empty
/// body calls for the differential second probe, three token units long, so
/// the two paths differ by exactly 64 characters.
pub fn wildcard_after_first(first: Option<&ProbeResult>) -> (r: WildcardStep)
    ensures
        first is None ==> r == WildcardStep::Finished(None),
        first matches Some(p) ==> {
            &&& p.content_length == 0 ==> r == WildcardStep::Finished(
                Some(WildcardFilter { size: 0, dynamic: 0 }),
            )
            &&& p.content_length > 0 ==> r == (WildcardStep::SecondProbe {
                units: 3,
                first_length: p.content_length,
            })
        },
{
    match first {
        None => WildcardStep::Finished(None),
        Some(p) => {
            if p.content_length == 0 {
                WildcardStep::Finished(Some(WildcardFilter { size: 0, dynamic: 0 }))
            } else {
                WildcardStep::SecondProbe { units: 3, first_length: p.content_length }
            }
        }
    }
}

/// How the two probes' content lengths relate, given that the second
/// request path was exactly 64 characters longer than the first.
#[derive(Clone, Copy, Debug, PartialEq, Eq, Structural)]
pub enum LengthRelation {
    /// The second body grew by exactly the extra path length: the server
    /// echoes the requested path into an otherwise fixed template.
    Reflected,
    /// Both bodies have the same length regardless of the requested path.
    Constant,
    /// Neither relationship holds; the pattern is not classifiable by this
    /// heuristic.
    Unrelated,
}

/// Classifies the pairwise length relationship between the two probes.
pub fn relate_lengths(first_length: u64, second_length: u64) -> (r: LengthRelation)
    ensures
        second_length == first_length + 64 ==> r == LengthRelation::Reflected,
        second_length != first_length + 64 && second_length == first_length
            ==> r == LengthRelation::Constant,
        second_length != first_length + 64 && second_length != first_length
            ==> r == LengthRelation::Unrelated,
{
    if first_length <= u64::MAX - UUID_LENGTH * 2 && second_length == first_length + UUID_LENGTH * 2 {
        LengthRelation::Reflected
    } else if second_length == first_length {
        LengthRelation::Constant
    } else {
        LengthRelation::Unrelated
    }
}

/// The decision after the second probe, producing the filter the caller
/// hands back. `first_length` is the first probe's content length (known
/// nonzero here), `path_length` the character length of the first probe's
/// URL path, and `second_length` the second probe's content length, absent
/// when the second probe observed nothing.
///
/// A reflected relationship pins the fixed portion of the response,
/// `first_length - path_length`, as the dynamic offset. A constant
/// relationship pins `first_length` as the static size. Anything else —
/// including a missing second observation — leaves the filter inert while
/// still confirming that a wildcard exists.
pub fn wildcard_after_second(
    first_length: u64,
    path_length: u64,
    second_length: Option<u64>,
) -> (r: WildcardFilter)
    requires
        (second_length matches Some(l2) && l2 == first_length + 64)
            ==> path_length <= first_length,
    ensures
        second_length is None ==> r == (WildcardFilter { size: 0, dynamic: 0 }),
        second_length matches Some(l2) ==> {
            &&& l2 == first_length + 64 ==> r.size == 0
                && r.dynamic == first_length - path_length
            &&& l2 != first_length + 64 && l2 == first_length
                ==> r == (WildcardFilter { size: first_length, dynamic: 0 })
            &&& l2 != first_length + 64 && l2 != first_length
                ==> r == (WildcardFilter { size: 0, dynamic: 0 })
        },
        r.wf(),
{
    match second_length {
        None => WildcardFilter { size: 0, dynamic: 0 },
        Some(l2) => {
            match relate_lengths(first_length, l2) {
                LengthRelation::Reflected => WildcardFilter {
                    size: 0,
                    dynamic: first_length - path_length,
                },
                LengthRelation::Constant => WildcardFilter { size: first_length, dynamic: 0 },
                LengthRelation::Unrelated => WildcardFilter { size: 0, dynamic: 0 },
            }
        }
    }
}

/// The fatal preflight outcome: not one target of the pass was reachable.
/// The top-level entry point decides what to do with it — the scanner ends
/// the process with a nonzero exit status.
#[derive(Clone, Copy, Debug, PartialEq, Eq, Structural)]
pub enum ConnectivityError {
    /// Every candidate target was dropped as unreachable.
    AllUnreachable,
}

/// The targets whose reachability flag is set, in their original order.
pub open spec fn kept_targets(targets: Seq<String>, alive: Seq<bool>) -> Seq<String>
    decreases targets.len(),
{
    if targets.len() == 0 {
        Seq::empty()
    } else {
        let prefix = kept_targets(targets.drop_last(), alive.drop_last());
        if alive.len() > 0 && alive.last() {
            prefix.push(targets.last())
        } else {
            prefix
        }
    }
}

/// No target is kept exactly when no reachability flag is set.
pub proof fn lemma_kept_empty_iff_none_alive(targets: Seq<String>, alive: Seq<bool>)
    requires
        targets.len() == alive.len(),
    ensures
        (kept_targets(targets, alive).len() == 0)
            <==> (forall|i: int| 0 <= i < alive.len() ==> !alive[i]),
    decreases targets.len(),
{
    if targets.len() > 0 {
        lemma_kept_empty_iff_none_alive(targets.drop_last(), alive.drop_last());
        assert(forall|i: int| 0 <= i < alive.len() - 1 ==> alive.drop_last()[i] == alive[i]);
    }
}

/// The connectivity preflight decision: keeps, in order, exactly the
/// targets whose probe succeeded, and raises the fatal all-unreachable
/// error when that leaves nothing — the sole unrecoverable condition of
/// this core.
///
/// `alive[i]` says whether the probe of `targets[i]` succeeded; the probes
/// themselves are the caller's I/O.
pub fn select_reachable(
    targets: &Vec<String>,
    alive: &Vec<bool>,
) -> (r: Result<Vec<String>, ConnectivityError>)
    requires
        targets@.len() == alive@.len(),
    ensures
        r matches Ok(good) ==> good@ == kept_targets(targets@, alive@) && good@.len() > 0,
        r is Err <==> (forall|i: int| 0 <= i < alive@.len() ==> !(#[trigger] alive@[i])),
{
    let mut good: Vec<String> = Vec::new();
    let mut idx: usize = 0;
    while idx < targets.len()
        invariant
            idx <= targets@.len(),
            targets@.len() == alive@.len(),
            good@ == kept_targets(targets@.take(idx as int), alive@.take(idx as int)),
        decreases targets@.len() - idx,
    {
        proof {
            assert(targets@.take(idx + 1).drop_last() =~= targets@.take(idx as int));
            assert(alive@.take(idx + 1).drop_last() =~= alive@.take(idx as int));
        }
        if alive[idx] {
            good.push(targets[idx].clone());
        }
        idx = idx + 1;
    }
    proof {
        assert(targets@.take(targets@.len() as int) =~= targets@);
        assert(alive@.take(alive@.len() as int) =~= alive@);
        lemma_kept_empty_iff_none_alive(targets@, alive@);
    }
    if good.len() == 0 {
        Err(ConnectivityError::AllUnreachable)
    } else {
        Ok(good)
    }
}

} // verus!
