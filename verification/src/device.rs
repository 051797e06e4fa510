use vstd::prelude::*;
use vstd::slice::slice_subrange;
use crate::error::BridgeError;
use crate::relay::ReadOutcome;

verus! {

/// How many bytes one forwarding chunk holds at most.
pub const CHUNK_BYTES: usize = 512;

/// How long one device read waits before reporting a timeout, so that
/// periodic timeouts stay distinguishable from hard failures.
pub const READ_TIMEOUT_MS: u64 = 100;

#[verifier::external_type_specification]
#[verifier::external_body]
pub struct ExSerialPort(serialport5::SerialPort);

/// Why a raw device read returned no bytes at all.
#[derive(Clone, Copy, Debug, PartialEq, Eq, Structural)]
pub enum ReadFailure {
    /// Nothing arrived within the wait window.
    TimedOut,
    /// Any other I/O failure.
    Other,
}

/// Why a device write could not take the whole chunk.
#[derive(Clone, Copy, Debug, PartialEq, Eq, Structural)]
pub enum WriteError {
    /// The driver reported a failure, or stopped accepting bytes.
    Failed,
}

/// An open device handle at a given transfer rate, with a bounded read
/// timeout. The ghost fields account for every byte the driver accepted
/// for transmission and every byte the device delivered.
pub struct DeviceSession {
    /// The open handle itself.
    pub port: serialport5::SerialPort,
    /// The path the session was opened on, kept for diagnostics.
    pub path: String,
    /// The configured transfer rate.
    pub baud: u32,
    /// All bytes the driver has accepted for transmission, in order.
    pub sent: Ghost<Seq<u8>>,
    /// All bytes the device has delivered to reads, in order.
    pub received: Ghost<Seq<u8>>,
}

/// Relies on serialport5::SerialPortBuilder: configures the transfer
/// rate and the read timeout, then opens the device at `path`.
#[verifier::external_body]
fn open_raw(path: &str, baud: u32, timeout_ms: u64) -> (r: Result<serialport5::SerialPort, ()>)
{
    match serialport5::SerialPortBuilder::new()
        .baud_rate(baud)
        .read_timeout(Some(std::time::Duration::from_millis(timeout_ms)))
        .open(path)
    {
        Ok(p) => Ok(p),
        Err(_) => Err(()),
    }
}

/// What a raw device read result means: zero bytes are end of stream,
/// a timed-out error only asks for another read, and any other failure
/// is hard.
pub fn classify_read(r: Result<Vec<u8>, ReadFailure>) -> (o: ReadOutcome)
    ensures
        r matches Ok(v) ==> {
            &&& (v@.len() == 0 ==> o is EndOfStream)
            &&& (v@.len() > 0 ==> (o matches ReadOutcome::Data(d) && d@ == v@))
        },
        r matches Err(f) ==> {
            &&& (f is TimedOut ==> o is TimedOut)
            &&& (f is Other ==> o is Failed)
        },
{
    match r {
        Ok(v) => {
            if v.len() == 0 {
                ReadOutcome::EndOfStream
            } else {
                ReadOutcome::Data(v)
            }
        }
        Err(ReadFailure::TimedOut) => ReadOutcome::TimedOut,
        Err(ReadFailure::Other) => ReadOutcome::Failed,
    }
}

impl DeviceSession {
    /// Open the device at `path` with transfer rate `baud` and the fixed
    /// bounded read timeout. Never retried here: retrying is the
    /// supervisor's job.
    pub fn open(path: String, baud: u32) -> (r: Result<DeviceSession, BridgeError>)
        requires
            baud >= 1,
        ensures
            r matches Ok(s) ==> {
                &&& s.path@ == path@
                &&& s.baud == baud
                &&& s.sent@ == Seq::<u8>::empty()
                &&& s.received@ == Seq::<u8>::empty()
            },
            r matches Err(e) ==> e == BridgeError::OpenFailed,
    {
        match open_raw(path.as_str(), baud, READ_TIMEOUT_MS) {
            Ok(port) => Ok(DeviceSession {
                port,
                path,
                baud,
                sent: Ghost(Seq::empty()),
                received: Ghost(Seq::empty()),
            }),
            Err(_) => Err(BridgeError::OpenFailed),
        }
    }

    /// Relies on serialport5::SerialPort's std::io::Read impl: a read
    /// fills at most the buffer handed to it, returns zero bytes at end
    /// of stream, and fails with a timed-out kind when nothing arrived
    /// within the configured window.
    #[verifier::external_body]
    fn read_raw(&mut self) -> (r: Result<Vec<u8>, ReadFailure>)
        ensures
            final(self).path@ == old(self).path@,
            final(self).baud == old(self).baud,
            final(self).sent@ == old(self).sent@,
            r matches Ok(v) ==> {
                &&& v@.len() <= CHUNK_BYTES
                &&& final(self).received@ == old(self).received@ + v@
            },
            r is Err ==> final(self).received@ == old(self).received@,
    {
        let mut buf = [0u8; 512];
        match std::io::Read::read(&mut self.port, &mut buf) {
            Ok(n) => Ok(buf[..n].to_vec()),
            Err(e) if e.kind() == std::io::ErrorKind::TimedOut => Err(ReadFailure::TimedOut),
            Err(_) => Err(ReadFailure::Other),
        }
    }

    /// One bounded-wait read from the device, classified into the three
    /// non-error outcomes and the hard failure.
    pub fn read(&mut self) -> (o: ReadOutcome)
        ensures
            final(self).path@ == old(self).path@,
            final(self).baud == old(self).baud,
            final(self).sent@ == old(self).sent@,
            o matches ReadOutcome::Data(v) ==> {
                &&& 1 <= v@.len() <= CHUNK_BYTES
                &&& final(self).received@ == old(self).received@ + v@
            },
            !(o is Data) ==> final(self).received@ == old(self).received@,
    {
        let r = self.read_raw();
        classify_read(r)
    }

    /// Relies on serialport5::SerialPort's std::io::Write impl: a write
    /// returns how many of the given bytes the driver accepted — a
    /// prefix of the buffer — and on an error has accepted none.
    #[verifier::external_body]
    fn write_raw(&mut self, buf: &[u8]) -> (r: Result<usize, ()>)
        ensures
            final(self).path@ == old(self).path@,
            final(self).baud == old(self).baud,
            final(self).received@ == old(self).received@,
            r matches Ok(n) ==> {
                &&& n <= buf@.len()
                &&& final(self).sent@ == old(self).sent@ + buf@.take(n as int)
            },
            r is Err ==> final(self).sent@ == old(self).sent@,
    {
        match std::io::Write::write(&mut self.port, buf) {
            Ok(n) => Ok(n),
            Err(_) => Err(()),
        }
    }

    /// Write the whole chunk to the device, retrying the remainder after
    /// a short write. On success the driver accepted exactly these
    /// bytes, in order, after everything sent before; on failure it
    /// accepted some prefix of them.
    pub fn write_all(&mut self, buf: &[u8]) -> (r: Result<(), WriteError>)
        ensures
            final(self).path@ == old(self).path@,
            final(self).baud == old(self).baud,
            final(self).received@ == old(self).received@,
            r is Ok ==> final(self).sent@ == old(self).sent@ + buf@,
            r is Err ==> exists|k: int|
                0 <= k <= buf@.len() && final(self).sent@ == old(self).sent@ + buf@.take(k),
    {
        let mut off: usize = 0;
        while off < buf.len()
            invariant
                off <= buf@.len(),
                self.path@ == old(self).path@,
                self.baud == old(self).baud,
                self.received@ == old(self).received@,
                self.sent@ == old(self).sent@ + buf@.take(off as int),
            decreases buf@.len() - off,
        {
            let rest = slice_subrange(buf, off, buf.len());
            match self.write_raw(rest) {
                Ok(n) => {
                    if n == 0 {
                        assert(self.sent@ == old(self).sent@ + buf@.take(off as int));
                        return Err(WriteError::Failed);
                    }
                    proof {
                        assert(rest@.take(n as int) =~= buf@.subrange(
                            off as int,
                            off + n as int,
                        ));
                        assert(self.sent@ =~= old(self).sent@ + buf@.take(off + n as int));
                    }
                    off = off + n;
                }
                Err(_) => {
                    assert(self.sent@ == old(self).sent@ + buf@.take(off as int));
                    return Err(WriteError::Failed);
                }
            }
        }
        proof {
            assert(buf@.take(buf@.len() as int) =~= buf@);
        }
        Ok(())
    }
}

} // verus!
