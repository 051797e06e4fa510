use vstd::prelude::*;
use vstd::string::StringExecFns;
use crate::args::Args;
use crate::device::DeviceSession;
use crate::error::BridgeError;
use crate::ports::{PortInfo, find_in_ports, selector_matches};

verus! {

/// The first of the enumerated ports that the selector matches, in
/// enumeration order; none exactly when no port matches. Enumeration
/// itself is the caller's: it happens at the process boundary, fresh
/// for every resolution attempt, and its outcome is handed in here.
pub fn find_by_usb_info(args: &Args, mut ports: Vec<PortInfo>) -> (r: Option<PortInfo>)
    ensures
        r matches Some(p) ==> exists|i: int| {
            &&& 0 <= i < ports@.len()
            &&& ports@[i] == p
            &&& selector_matches(*args, p)
            &&& forall|j: int| 0 <= j < i ==> !selector_matches(*args, ports@[j])
        },
        r is None <==> forall|j: int|
            0 <= j < ports@.len() ==> !selector_matches(*args, ports@[j]),
{
    match find_in_ports(args, &ports) {
        Some(i) => Some(ports.remove(i)),
        None => None,
    }
}

/// Resolve the selector against the enumerated ports and open a
/// session on the resolved path.
///
/// With a product or vendor id present, the first matching enumerated
/// port wins; otherwise the explicit path is used as it stands and
/// `ports` is not consulted. The session comes back at the given
/// transfer rate with nothing sent or received yet.
pub fn open_serial_port(args: &Args, ports: Vec<PortInfo>) -> (r: Result<
    DeviceSession,
    BridgeError,
>)
    ensures
        r matches Ok(s) ==> {
            &&& args.baud_rate matches Some(b) && s.baud == b && b >= 1
            &&& s.sent@ == Seq::<u8>::empty()
            &&& s.received@ == Seq::<u8>::empty()
            &&& (args.product_id is None && args.vendor_id is None ==> (args.port matches Some(p)
                && s.path@ == p@))
            &&& (args.product_id is Some || args.vendor_id is Some ==> exists|i: int| {
                &&& 0 <= i < ports@.len()
                &&& selector_matches(*args, ports@[i])
                &&& s.path@ == ports@[i].port_name@
                &&& forall|j: int| 0 <= j < i ==> !selector_matches(*args, ports@[j])
            })
        },
        args.product_id is None && args.vendor_id is None && args.port is None ==> r
            == Err::<DeviceSession, BridgeError>(BridgeError::PortNotFound),
        args.product_id is Some || args.vendor_id is Some ==> (r == Err::<
            DeviceSession,
            BridgeError,
        >(BridgeError::PortNotFound) <==> forall|j: int|
            0 <= j < ports@.len() ==> !selector_matches(*args, ports@[j])),
        r == Err::<DeviceSession, BridgeError>(BridgeError::NoBaudRate) ==> args.baud_rate
            is None,
        r == Err::<DeviceSession, BridgeError>(BridgeError::BadBaudRate) ==> args.baud_rate
            == Some(0u32),
        args.product_id is None && args.vendor_id is None && args.port is Some ==> (r
            == Err::<DeviceSession, BridgeError>(BridgeError::NoBaudRate) <==> args.baud_rate
            is None),
        args.product_id is None && args.vendor_id is None && args.port is Some
            && args.baud_rate == Some(0u32) ==> r == Err::<DeviceSession, BridgeError>(
            BridgeError::BadBaudRate,
        ),
        args.product_id is None && args.vendor_id is None && args.port is Some
            && (args.baud_rate matches Some(b) && b >= 1) ==> r is Ok || r == Err::<
            DeviceSession,
            BridgeError,
        >(BridgeError::OpenFailed),
        r != Err::<DeviceSession, BridgeError>(BridgeError::EnumerationFailed),
{
    if args.product_id.is_some() || args.vendor_id.is_some() {
        let found = match find_by_usb_info(args, ports) {
            Some(p) => p,
            None => {
                return Err(BridgeError::PortNotFound);
            }
        };
        let ghost chosen = found;
        let baud = match args.baud_rate {
            Some(b) => b,
            None => {
                return Err(BridgeError::NoBaudRate);
            }
        };
        if baud == 0 {
            return Err(BridgeError::BadBaudRate);
        }
        let r = DeviceSession::open(found.port_name, baud);
        proof {
            assert(selector_matches(*args, chosen));
            assert(r matches Ok(s) ==> s.path@ == chosen.port_name@);
        }
        r
    } else {
        let name = match &args.port {
            Some(p) => String::from_str(p.as_str()),
            None => {
                return Err(BridgeError::PortNotFound);
            }
        };
        let baud = match args.baud_rate {
            Some(b) => b,
            None => {
                return Err(BridgeError::NoBaudRate);
            }
        };
        if baud == 0 {
            return Err(BridgeError::BadBaudRate);
        }
        DeviceSession::open(name, baud)
    }
}

} // verus!
