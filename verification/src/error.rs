use vstd::prelude::*;
use crate::os::OsCall;

verus! {

/// The typed error surface of the bridge.
///
/// Every fatal failure of an OS call is surfaced as one of these variants,
/// carrying which OS call failed and the diagnostic text the OS reported,
/// so that construction, activation and deactivation failures remain
/// distinguishable. Resolution failures are deliberately not represented
/// here: a single event that fails to resolve is dropped silently.
#[derive(Clone, Debug, PartialEq, Eq)]
pub enum Error {
    /// The OS could not create a watcher object during bridge construction
    /// (for example, no Bluetooth radio is available). Fatal to the bridge
    /// instance; the caller may construct a new bridge later.
    Construction(OsCall, String),
    /// The OS refused to activate a subscription during `start` (for
    /// example, the radio is disabled or permission was denied). Fatal to
    /// that `start` call.
    Activation(OsCall, String),
    /// The OS refused to deactivate a subscription during `stop`. Surfaced
    /// from `stop`, but never prevents the other subscription from being
    /// stopped as well.
    Deactivation(OsCall, String),
    /// `start` was called on a bridge that is not in its inert,
    /// just-constructed state; the redundant call is rejected without
    /// touching the OS, so no double subscription can occur.
    AlreadyStarted,
}

} // verus!
