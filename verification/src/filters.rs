//! The filter descriptor that the wildcard classifier produces.

use vstd::prelude::*;

verus! {

/// Parameters for suppressing wildcard noise, derived by the differential
/// classifier and consumed by the scanning loop.
///
/// When `size` is nonzero, any observed response whose content length equals
/// exactly `size` is wildcard noise, regardless of path. When `dynamic` is
/// nonzero, any observed response whose content length equals `dynamic` plus
/// the length of the requested path is wildcard noise (the server echoes the
/// requested path into an otherwise fixed template). `{0, 0}` carries no
/// actionable filter: either no relationship was established, or the wildcard
/// body was empty to begin with — the two are indistinguishable by the filter
/// value alone.
#[derive(Clone, Copy, Debug, PartialEq, Eq, Structural)]
pub struct WildcardFilter {
    /// Content length of a static wildcard response; `0` when unset.
    pub size: u64,
    /// Fixed portion of a dynamic wildcard response, independent of the
    /// requested path's length; `0` when unset.
    pub dynamic: u64,
}

impl WildcardFilter {
    /// At most one of the two fields is meaningfully nonzero per
    /// classification run; both may legitimately be zero.
    pub open spec fn wf(self) -> bool {
        self.size == 0 || self.dynamic == 0
    }
}

impl Default for WildcardFilter {
    /// The inert filter: no content-length relationship established.
    fn default() -> (r: Self)
        ensures
            r == (WildcardFilter { size: 0, dynamic: 0 }),
    {
        WildcardFilter { size: 0, dynamic: 0 }
    }
}

} // verus!
