//! The status snapshot: the record a background session publishes into and
//! any number of concurrent foreign readers poll. Strings stored here are
//! always sanitized (no embedded null bytes), so a reader can hand them on as
//! C-style null-terminated strings without a further check.

use vstd::prelude::*;

use crate::text::clone_bytes;
use crate::text::sanitize_bytes;
use crate::text::strip_nulls;

verus! {

/// The connection state a foreign caller observes.
#[derive(Copy, Clone, PartialEq, Eq, Structural, Debug)]
pub enum PlayitStatusCode {
    Stopped,
    Connecting,
    Connected,
    Disconnected,
    Error,
}

impl PlayitStatusCode {
    /// The stable integer each state is reported as across the boundary.
    pub open spec fn spec_code(self) -> i32 {
        match self {
            PlayitStatusCode::Stopped => 0,
            PlayitStatusCode::Connecting => 1,
            PlayitStatusCode::Connected => 2,
            PlayitStatusCode::Disconnected => 3,
            PlayitStatusCode::Error => 4,
        }
    }

    pub fn code_value(self) -> (r: i32)
        ensures
            r == self.spec_code(),
    {
        match self {
            PlayitStatusCode::Stopped => 0,
            PlayitStatusCode::Connecting => 1,
            PlayitStatusCode::Connected => 2,
            PlayitStatusCode::Disconnected => 3,
            PlayitStatusCode::Error => 4,
        }
    }
}

/// Mathematical model of a status snapshot.
#[verifier::ext_equal]
pub struct StatusView {
    pub code: PlayitStatusCode,
    pub address: Option<Seq<u8>>,
    pub error: Option<Seq<u8>>,
}

impl StatusView {
    /// The snapshot a freshly initialized or fully stopped session shows.
    pub open spec fn stopped_clear() -> StatusView {
        StatusView { code: PlayitStatusCode::Stopped, address: None, error: None }
    }

    /// Every string held by the snapshot is free of null bytes.
    pub open spec fn wf(self) -> bool {
        &&& (self.address matches Some(a) ==> forall|i: int| 0 <= i < a.len() ==> a[i] != 0u8)
        &&& (self.error matches Some(e) ==> forall|i: int| 0 <= i < e.len() ==> e[i] != 0u8)
    }
}

/// An optional byte string, seen at the spec level.
pub open spec fn view_opt(o: Option<Vec<u8>>) -> Option<Seq<u8>> {
    match o {
        Some(v) => Some(v@),
        None => None,
    }
}

/// An optional byte string after sanitation.
pub open spec fn sanitized_opt(o: Option<Seq<u8>>) -> Option<Seq<u8>> {
    match o {
        Some(s) => Some(strip_nulls(s)),
        None => None,
    }
}

/// The shared status record: state code plus the last known display address
/// and the last error text, both stored null-free.
pub struct StatusSnapshot {
    pub code: PlayitStatusCode,
    pub last_address: Option<Vec<u8>>,
    pub last_error: Option<Vec<u8>>,
}

impl View for StatusSnapshot {
    type V = StatusView;

    open spec fn view(&self) -> StatusView {
        StatusView {
            code: self.code,
            address: view_opt(self.last_address),
            error: view_opt(self.last_error),
        }
    }
}

impl StatusSnapshot {
    pub fn new() -> (r: StatusSnapshot)
        ensures
            r@ == StatusView::stopped_clear(),
            r@.wf(),
    {
        let r = StatusSnapshot {
            code: PlayitStatusCode::Stopped,
            last_address: None,
            last_error: None,
        };
        proof {
            assert(r@ =~= StatusView::stopped_clear());
        }
        r
    }

    /// Replaces the whole snapshot: the new code, and the given strings with
    /// every embedded null byte removed.
    pub fn set_status(
        &mut self,
        code: PlayitStatusCode,
        address: Option<Vec<u8>>,
        error: Option<Vec<u8>>,
    )
        ensures
            final(self)@ == (StatusView {
                code,
                address: sanitized_opt(view_opt(address)),
                error: sanitized_opt(view_opt(error)),
            }),
            final(self)@.wf(),
    {
        self.code = code;
        self.last_address = match address {
            Some(v) => Some(sanitize_bytes(&v)),
            None => None,
        };
        self.last_error = match error {
            Some(v) => Some(sanitize_bytes(&v)),
            None => None,
        };
        proof {
            assert(self@ =~= StatusView {
                code,
                address: sanitized_opt(view_opt(address)),
                error: sanitized_opt(view_opt(error)),
            });
        }
    }

    /// Records a session-runtime failure: state becomes Error and the error
    /// text is stored sanitized; the last known address is left as it was.
    pub fn record_error(&mut self, message: Vec<u8>)
        ensures
            final(self)@ == (StatusView {
                code: PlayitStatusCode::Error,
                address: old(self)@.address,
                error: Some(strip_nulls(message@)),
            }),
            old(self)@.wf() ==> final(self)@.wf(),
    {
        self.code = PlayitStatusCode::Error;
        self.last_error = Some(sanitize_bytes(&message));
        proof {
            assert(self@ =~= StatusView {
                code: PlayitStatusCode::Error,
                address: old(self)@.address,
                error: Some(strip_nulls(message@)),
            });
        }
    }
}

/// The foreign-stable value a status query returns: the integer state code
/// and owned copies of the snapshot's strings.
pub struct PlayitStatus {
    pub code: i32,
    pub last_address: Option<Vec<u8>>,
    pub last_error: Option<Vec<u8>>,
}

impl StatusSnapshot {
    /// Reads the snapshot into a foreign-stable value; the snapshot itself is
    /// untouched.
    pub fn query_status(&self) -> (r: PlayitStatus)
        ensures
            r.code == self@.code.spec_code(),
            view_opt(r.last_address) == self@.address,
            view_opt(r.last_error) == self@.error,
    {
        PlayitStatus {
            code: self.code.code_value(),
            last_address: match &self.last_address {
                Some(v) => Some(clone_bytes(v)),
                None => None,
            },
            last_error: match &self.last_error {
                Some(v) => Some(clone_bytes(v)),
                None => None,
            },
        }
    }
}

} // verus!
