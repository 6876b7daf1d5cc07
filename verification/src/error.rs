//! The failures that a request to the server can end in.

use vstd::prelude::*;

verus! {

/// Why a request was not carried out. A request that fails leaves the
/// server as it was.
#[derive(Debug, Clone, Copy, PartialEq, Eq, Structural)]
pub enum ServerError {
    /// The roster file could not be read.
    ConfigNotFound,
    /// The roster is malformed: it names a sensor kind without a launch
    /// profile, or holds more sensors than there are identities.
    ConfigInvalid,
    /// No sensor is registered under the identity.
    SensorNotFound,
    /// The operating system did not start the process.
    ProcessSpawnFailed,
    /// A process is already tracked where a new one was reported.
    ProcessAlreadyRunning,
    /// The process was asked to end and its exit was not confirmed.
    KillFailed,
    /// A recording session is active.
    AlreadyRecording,
    /// No recording session is active.
    NotRecording,
}

} // verus!
