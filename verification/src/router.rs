//! The routing table: which of the two destinations a request path goes to.

use vstd::prelude::*;
use vstd::string::StringSliceAdditionalSpecFns;
use vstd::utf8::encode_utf8_decode_utf8;

verus! {

/// The one path on which a connection is upgraded and handed to the echo
/// handler.
pub const UPGRADE_PATH: &'static str = "/ws";

/// Where a request is sent.
#[derive(Debug, Clone, Copy, PartialEq, Eq, Structural)]
pub enum Route {
    /// To the upgrade handshake, and from there to the echo handler.
    Upgrade,
    /// To the static asset server.
    Asset,
}

/// The routing table. The upgrade path, matched exactly, goes to the echo
/// handler; every other path goes to the static asset server. So each path
/// has exactly one destination.
pub open spec fn route_of(path: Seq<char>) -> Route {
    if path == UPGRADE_PATH@ {
        Route::Upgrade
    } else {
        Route::Asset
    }
}

/// Whether two strings hold the same text.
fn same_text(left: &str, right: &str) -> (same: bool)
    ensures
        same == (left@ == right@),
{
    let a = left.as_bytes();
    let b = right.as_bytes();
    proof {
        encode_utf8_decode_utf8(left@);
        encode_utf8_decode_utf8(right@);
    }
    if a.len() != b.len() {
        return false;
    }
    let mut i: usize = 0;
    while i < a.len()
        invariant
            a@ == left.spec_bytes(),
            b@ == right.spec_bytes(),
            a.len() == b.len(),
            i <= a.len(),
            forall|k: int| 0 <= k < i ==> a@[k] == b@[k],
        decreases a.len() - i,
    {
        if a[i] != b[i] {
            return false;
        }
        i += 1;
    }
    assert(a@ =~= b@);
    true
}

/// Routes a request by its path.
pub fn dispatch(path: &str) -> (route: Route)
    ensures
        route == route_of(path@),
{
    if same_text(path, UPGRADE_PATH) {
        Route::Upgrade
    } else {
        Route::Asset
    }
}

} // verus!
