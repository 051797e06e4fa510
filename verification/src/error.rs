use vstd::prelude::*;

verus! {

/// Everything that can keep the bridge from getting a working session.
/// All of these are recoverable in reconnect mode and fatal otherwise.
#[derive(Clone, Copy, Debug, PartialEq, Eq, Structural)]
pub enum BridgeError {
    /// No explicit path was given and no enumerated port matched.
    PortNotFound,
    /// Port enumeration, which the caller performs at the process
    /// boundary, failed before resolution could run.
    EnumerationFailed,
    /// No transfer rate was given.
    NoBaudRate,
    /// The transfer rate must be positive.
    BadBaudRate,
    /// The device could not be opened: busy, denied, gone, or the rate
    /// is unsupported.
    OpenFailed,
}

} // verus!
