//! The status snapshot handed to callers of the supervisor.

use vstd::prelude::*;
use crate::text::dec_digits;
use crate::text::u16_to_string;

verus! {

/// Immutable snapshot of the supervisor, as reported to the application.
#[derive(Debug, Clone)]
pub struct ServerStatus {
    /// True iff a child is recorded and its port was observed occupied.
    pub running: bool,
    /// The port last assigned, or the configured default if none ever was.
    pub port: u16,
    /// Derived from `port`, never stored independently.
    pub url: String,
    /// Diagnostic message; unset in normal snapshots.
    pub error: Option<String>,
}

/// The URL under which the server on `port` is reached.
pub open spec fn url_of(port: int) -> Seq<char> {
    "http://localhost:"@ + dec_digits(port)
}

/// A well-formed snapshot: the URL is the one derived from the port, and no
/// diagnostic is set.
pub open spec fn status_wf(st: ServerStatus) -> bool {
    &&& st.url@ == url_of(st.port as int)
    &&& st.error is None
}

/// Builds the snapshot for `port` with the given running flag.
pub fn make_status(running: bool, port: u16) -> (st: ServerStatus)
    ensures
        st.running == running,
        st.port == port,
        status_wf(st),
{
    let url = String::from_str("http://localhost:").concat(u16_to_string(port).as_str());
    ServerStatus { running, port, url, error: None }
}

} // verus!
