use vstd::prelude::*;

verus! {

/// The command-line choices that drive one run of the bridge,
/// as plain values.
pub struct Args {
    /// Explicit device path (e.g. COM23 or /dev/ttyUSB0).
    pub port: Option<String>,
    /// Product id to discover the device by, as a four-digit
    /// lower-case hex string.
    pub product_id: Option<String>,
    /// Vendor id to discover the device by, in the same form.
    pub vendor_id: Option<String>,
    /// Transfer rate in symbols per second.
    pub baud_rate: Option<u32>,
    /// Reopen the device after a failure instead of giving up.
    pub reconnect: Option<bool>,
    /// Only list the visible ports; run no bridge.
    pub list: bool,
    /// Host-output buffer size, if buffering was asked for.
    pub buf_size: Option<usize>,
    /// Flush host output after every forwarded chunk.
    pub flush: bool,
}

/// The one way the command line can be unusable: no listing was asked
/// for, and no way to pick a device was supplied.
#[derive(Clone, Copy, Debug, PartialEq, Eq, Structural)]
pub enum UsageError {
    NoSelector,
}

impl Args {
    /// Some way to pick a device was supplied.
    pub open spec fn has_selector(&self) -> bool {
        self.port is Some || self.vendor_id is Some || self.product_id is Some
    }

    /// In `list` mode nothing more is needed; otherwise at least one of
    /// the port path, the vendor id and the product id must be given.
    pub fn validate(&self) -> (r: Result<(), UsageError>)
        ensures
            r is Ok <==> self.list || self.has_selector(),
            r is Err ==> r == Result::<(), UsageError>::Err(UsageError::NoSelector),
    {
        if self.list {
            Ok(())
        } else if self.port.is_none() && self.vendor_id.is_none() && self.product_id.is_none() {
            Err(UsageError::NoSelector)
        } else {
            Ok(())
        }
    }
}

} // verus!
