//! The client's failure taxonomy.

use vstd::prelude::*;

verus! {

/// A failure surfaced by the client.
///
/// Authorization denials start the login flow and are never fatal; other
/// daemon failures propagate to the run loop; durable-storage failures are
/// absorbed and the session goes on with in-memory credentials.
#[derive(Debug)]
pub enum LazyFileError {
    /// The daemon denied authorization.
    Unauthorized,
    /// A daemon call failed for a reason other than authorization.
    Operation(String),
    /// Writing to durable credential storage failed.
    Keyring(String),
}

} // verus!
