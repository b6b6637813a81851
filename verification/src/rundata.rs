//! Status publication from run data: the periodically fetched payload lists
//! tunnel entries, each with a display address and an optional reason it is
//! disabled. Publication picks the first entry with no such reason.

use vstd::prelude::*;

use crate::status::PlayitStatusCode;
use crate::status::StatusSnapshot;
use crate::status::StatusView;
use crate::text::clone_bytes;
use crate::text::strip_nulls;

verus! {

/// One tunnel assignment out of the fetched run data, reduced to what status
/// publication reads: the address shown to the caller and, when present, the
/// reason the tunnel is disabled.
pub struct TunnelEntry {
    pub display_address: Vec<u8>,
    pub disabled_reason: Option<Vec<u8>>,
}

/// The fetched run data, reduced to its tunnel list.
pub struct RunData {
    pub tunnels: Vec<TunnelEntry>,
}

/// A tunnel counts as live when no disabled reason is attached to it.
pub open spec fn tunnel_enabled(t: TunnelEntry) -> bool {
    t.disabled_reason is None
}

/// Whether any tunnel in the list is live.
pub open spec fn has_enabled(ts: Seq<TunnelEntry>) -> bool {
    exists|i: int| 0 <= i < ts.len() && tunnel_enabled(ts[i])
}

/// The position of the first live tunnel (meaningful only when one exists).
pub open spec fn first_enabled(ts: Seq<TunnelEntry>) -> int {
    choose|i: int|
        0 <= i < ts.len() && tunnel_enabled(ts[i]) && (forall|j: int|
            0 <= j < i ==> !tunnel_enabled(ts[j]))
}

/// The snapshot that publishing `ts` produces: Connected with the first live
/// tunnel's sanitized address, or Disconnected with no address; either way
/// any prior error is cleared.
pub open spec fn published_status(ts: Seq<TunnelEntry>) -> StatusView {
    if has_enabled(ts) {
        StatusView {
            code: PlayitStatusCode::Connected,
            address: Some(strip_nulls(ts[first_enabled(ts)].display_address@)),
            error: None,
        }
    } else {
        StatusView { code: PlayitStatusCode::Disconnected, address: None, error: None }
    }
}

/// Publishes a fresh reading of the run data into the status snapshot.
pub fn update_status_from_rundata(status: &mut StatusSnapshot, data: &RunData)
    ensures
        final(status)@ == published_status(data.tunnels@),
        final(status)@.wf(),
{
    let ghost ts = data.tunnels@;
    let n = data.tunnels.len();
    let mut i: usize = 0;
    while i < n
        invariant
            i <= n,
            n == ts.len(),
            ts == data.tunnels@,
            forall|j: int| 0 <= j < i ==> !tunnel_enabled(ts[j]),
        decreases n - i,
    {
        if data.tunnels[i].disabled_reason.is_none() {
            proof {
                assert(tunnel_enabled(ts[i as int]));
                assert(has_enabled(ts));
                let k = first_enabled(ts);
                assert(0 <= k < ts.len() && tunnel_enabled(ts[k]) && (forall|j: int|
                    0 <= j < k ==> !tunnel_enabled(ts[j])));
                if k < i {
                    assert(!tunnel_enabled(ts[k]));
                }
                if k > i {
                    assert(!tunnel_enabled(ts[i as int]));
                }
                assert(k == i);
            }
            let address = clone_bytes(&data.tunnels[i].display_address);
            status.set_status(PlayitStatusCode::Connected, Some(address), None);
            proof {
                assert(status@ =~= published_status(ts));
            }
            return;
        }
        i = i + 1;
    }
    proof {
        assert(!has_enabled(ts));
    }
    status.set_status(PlayitStatusCode::Disconnected, None, None);
    proof {
        assert(status@ =~= published_status(ts));
    }
}

} // verus!
