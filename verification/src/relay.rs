use vstd::prelude::*;

verus! {

/// What one bounded-wait device read produced, after classification.
pub enum ReadOutcome {
    /// The device delivered these bytes; a session read never puts an
    /// empty chunk here.
    Data(Vec<u8>),
    /// The device reported end of stream: zero bytes, closed remotely.
    EndOfStream,
    /// Nothing arrived within the wait window; not an error.
    TimedOut,
    /// A hard I/O failure, anything other than a timeout.
    Failed,
}

/// How one relay cycle ended, as decided by the output-forwarding path.
#[derive(Clone, Copy, Debug, PartialEq, Eq, Structural)]
pub enum RelayOutcome {
    /// The device closed its stream; the cycle ended cleanly.
    CleanEof,
    /// A hard device failure ended the cycle.
    DeviceFailure,
}

/// What the output-forwarding path must do next.
pub enum OutputAction {
    /// Hand these bytes to host output, in order; flush right after
    /// when `flush` is set.
    Forward { bytes: Vec<u8>, flush: bool },
    /// Read from the device again.
    Poll,
    /// The cycle is over with this outcome.
    Finish(RelayOutcome),
}

/// The device-to-host-output forwarding path of the relay.
///
/// It consumes one device read outcome at a time and decides what to
/// do, keeping account in ghost state of every byte the device
/// produced, every byte confirmed at host output, and the one chunk
/// that may still be in flight between the two.
pub struct OutputForwarder {
    /// Flush host output after each forwarded chunk.
    pub flush: bool,
    /// The terminal outcome, once one was observed.
    pub outcome: Option<RelayOutcome>,
    /// A chunk was handed out and not yet confirmed written (and
    /// flushed, when configured). While it is set, no further read
    /// outcome may be consumed.
    pub pending: bool,
    /// All bytes the device has produced so far, in order.
    pub produced: Ghost<Seq<u8>>,
    /// All bytes confirmed at host output so far, in order.
    pub forwarded: Ghost<Seq<u8>>,
    /// The bytes handed out but not yet confirmed; empty unless a
    /// chunk is pending.
    pub in_flight: Ghost<Seq<u8>>,
}

impl OutputForwarder {
    /// The path's accounting invariant: what was confirmed at host
    /// output, followed by what is still in flight, is exactly what
    /// the device produced, unchanged and in order; nothing is in
    /// flight unless a chunk is pending.
    pub open spec fn accounted(&self) -> bool {
        &&& self.forwarded@ + self.in_flight@ == self.produced@
        &&& (!self.pending ==> self.in_flight@ == Seq::<u8>::empty())
    }

    /// Byte transparency of the device-to-host direction: with no
    /// chunk in flight, everything the device produced was handed on,
    /// unchanged and in order.
    pub open spec fn transparent(&self) -> bool {
        self.forwarded@ == self.produced@
    }

    pub fn new(flush: bool) -> (r: OutputForwarder)
        ensures
            r.flush == flush,
            r.outcome is None,
            !r.pending,
            r.produced@ == Seq::<u8>::empty(),
            r.accounted(),
            r.transparent(),
    {
        OutputForwarder {
            flush,
            outcome: None,
            pending: false,
            produced: Ghost(Seq::empty()),
            forwarded: Ghost(Seq::empty()),
            in_flight: Ghost(Seq::empty()),
        }
    }

    /// Decide what to do with one device read outcome.
    ///
    /// Data is forwarded exactly as it arrived, paired with the
    /// configured flush choice, and becomes the pending chunk: the
    /// caller must write it (and flush it, when configured) and
    /// confirm that, before this path will consume the next read
    /// outcome. A timeout forwards nothing and ends nothing; zero
    /// bytes end the path cleanly; a hard failure ends it with a
    /// failure outcome, distinct from the clean one.
    pub fn step(&mut self, ev: ReadOutcome) -> (a: OutputAction)
        requires
            old(self).outcome is None,
            !old(self).pending,
            old(self).accounted(),
        ensures
            final(self).flush == old(self).flush,
            final(self).accounted(),
            a == output_action_for(ev, old(self).flush),
            ev matches ReadOutcome::Data(b) ==> {
                &&& final(self).produced@ == old(self).produced@ + b@
                &&& final(self).forwarded@ == old(self).forwarded@
                &&& final(self).in_flight@ == b@
                &&& final(self).pending
                &&& (a matches OutputAction::Forward { bytes, flush } &&
                    bytes@ == b@ && flush == old(self).flush)
                &&& final(self).outcome is None
            },
            !(ev is Data) ==> {
                &&& final(self).produced@ == old(self).produced@
                &&& final(self).forwarded@ == old(self).forwarded@
                &&& !final(self).pending
                &&& final(self).transparent()
            },
            ev is TimedOut ==> a is Poll && final(self).outcome is None,
            ev is EndOfStream ==> a == OutputAction::Finish(RelayOutcome::CleanEof)
                && final(self).outcome == Some(RelayOutcome::CleanEof),
            ev is Failed ==> a == OutputAction::Finish(RelayOutcome::DeviceFailure)
                && final(self).outcome == Some(RelayOutcome::DeviceFailure),
    {
        match ev {
            ReadOutcome::Data(b) => {
                proof {
                    self.produced@ = self.produced@ + b@;
                    self.in_flight@ = b@;
                }
                self.pending = true;
                OutputAction::Forward { bytes: b, flush: self.flush }
            }
            ReadOutcome::TimedOut => OutputAction::Poll,
            ReadOutcome::EndOfStream => {
                self.outcome = Some(RelayOutcome::CleanEof);
                OutputAction::Finish(RelayOutcome::CleanEof)
            }
            ReadOutcome::Failed => {
                self.outcome = Some(RelayOutcome::DeviceFailure);
                OutputAction::Finish(RelayOutcome::DeviceFailure)
            }
        }
    }

    /// Record that the pending chunk reached host output: it was
    /// written, and flushed when the path is configured to flush.
    /// Only then is the path transparent again and willing to consume
    /// the next read outcome — so a forwarded chunk is always written,
    /// and flushed when asked, before the next device read is acted
    /// on.
    pub fn confirm_forwarded(&mut self)
        requires
            old(self).pending,
            old(self).accounted(),
        ensures
            final(self).flush == old(self).flush,
            final(self).outcome == old(self).outcome,
            !final(self).pending,
            final(self).produced@ == old(self).produced@,
            final(self).forwarded@ == old(self).forwarded@ + old(self).in_flight@,
            final(self).accounted(),
            final(self).transparent(),
    {
        proof {
            self.forwarded@ = self.forwarded@ + self.in_flight@;
            self.in_flight@ = Seq::empty();
        }
        self.pending = false;
        assert(self.forwarded@ + self.in_flight@ =~= self.forwarded@);
    }
}

/// What the output path does with one device read outcome.
pub open spec fn output_action_for(ev: ReadOutcome, flush: bool) -> OutputAction {
    match ev {
        ReadOutcome::Data(b) => OutputAction::Forward { bytes: b, flush },
        ReadOutcome::TimedOut => OutputAction::Poll,
        ReadOutcome::EndOfStream => OutputAction::Finish(RelayOutcome::CleanEof),
        ReadOutcome::Failed => OutputAction::Finish(RelayOutcome::DeviceFailure),
    }
}

/// The bytes the device delivered in a sequence of read outcomes, in
/// order: the concatenation of its data chunks.
pub open spec fn device_bytes(evs: Seq<ReadOutcome>) -> Seq<u8>
    decreases evs.len(),
{
    if evs.len() == 0 {
        Seq::empty()
    } else {
        (match evs[0] {
            ReadOutcome::Data(b) => b@,
            _ => Seq::empty(),
        }) + device_bytes(evs.drop_first())
    }
}

/// The bytes a sequence of output actions hands to host output, in
/// order: the concatenation of its forwarded chunks.
pub open spec fn output_bytes(acts: Seq<OutputAction>) -> Seq<u8>
    decreases acts.len(),
{
    if acts.len() == 0 {
        Seq::empty()
    } else {
        (match acts[0] {
            OutputAction::Forward { bytes, .. } => bytes@,
            _ => Seq::empty(),
        }) + output_bytes(acts.drop_first())
    }
}

/// Byte transparency of the device-to-host direction, over any whole
/// sequence of device read outcomes: the bytes handed to host output
/// are exactly the device's bytes, in order — a concatenation of
/// possibly-split chunks with no loss, reordering or duplication.
pub proof fn lemma_output_transparency(evs: Seq<ReadOutcome>, flush: bool)
    ensures
        output_bytes(evs.map_values(|e: ReadOutcome| output_action_for(e, flush)))
            == device_bytes(evs),
    decreases evs.len(),
{
    let acts = evs.map_values(|e: ReadOutcome| output_action_for(e, flush));
    if evs.len() == 0 {
    } else {
        lemma_output_transparency(evs.drop_first(), flush);
        assert(acts.drop_first() =~= evs.drop_first().map_values(
            |e: ReadOutcome| output_action_for(e, flush),
        ));
        assert(acts[0] == output_action_for(evs[0], flush));
    }
}

/// What happened on the host-input side, as seen by the input path.
pub enum InputEvent {
    /// A chunk read from host input (always at least one byte).
    Data(Vec<u8>),
    /// Host input closed: normal shutdown signalling.
    Eof,
    /// Host input failed hard.
    ReadFailed,
    /// A forwarded chunk could not be written to the device.
    WriteFailed,
}

/// What the input-forwarding path must do next.
pub enum InputAction {
    /// Write these bytes to the device, in order.
    Forward(Vec<u8>),
    /// End the path quietly: the input source is done.
    Stop,
    /// The input source or the device write failed hard; the whole
    /// process has no way to continue.
    Abort,
}

/// Why the input-forwarding path ended.
#[derive(Clone, Copy, Debug, PartialEq, Eq, Structural)]
pub enum InputOutcome {
    /// Host input reached end of stream.
    SourceClosed,
    /// A hard failure on host input or on the device write.
    Fatal,
}

/// The host-input-to-device forwarding path of the relay.
///
/// It consumes one host-input event at a time, keeping account in ghost
/// state of every byte read from host input and every byte handed to the
/// device write path.
pub struct InputForwarder {
    /// The terminal outcome, once one was observed.
    pub outcome: Option<InputOutcome>,
    /// All bytes host input has supplied so far, in order.
    pub supplied: Ghost<Seq<u8>>,
    /// All bytes handed to the device so far, in order.
    pub handed: Ghost<Seq<u8>>,
}

impl InputForwarder {
    /// Byte transparency of the host-to-device direction: everything host
    /// input supplied was handed to the device, unchanged and in order.
    pub open spec fn transparent(&self) -> bool {
        self.handed@ == self.supplied@
    }

    pub fn new() -> (r: InputForwarder)
        ensures
            r.outcome is None,
            r.supplied@ == Seq::<u8>::empty(),
            r.transparent(),
    {
        InputForwarder { outcome: None, supplied: Ghost(Seq::empty()), handed: Ghost(Seq::empty()) }
    }

    /// Decide what to do with one host-input event.
    ///
    /// Data goes to the device exactly as it arrived; end of input stops
    /// the path quietly; a hard read or write failure aborts, since the
    /// bridge cannot run without its input source.
    pub fn step(&mut self, ev: InputEvent) -> (a: InputAction)
        requires
            old(self).outcome is None,
            old(self).transparent(),
        ensures
            final(self).transparent(),
            a == input_action_for(ev),
            ev matches InputEvent::Data(b) ==> {
                &&& final(self).supplied@ == old(self).supplied@ + b@
                &&& (a matches InputAction::Forward(bytes) && bytes@ == b@)
                &&& final(self).outcome is None
            },
            ev is Eof ==> {
                &&& final(self).supplied@ == old(self).supplied@
                &&& a is Stop
                &&& final(self).outcome == Some(InputOutcome::SourceClosed)
            },
            ev is ReadFailed || ev is WriteFailed ==> {
                &&& final(self).supplied@ == old(self).supplied@
                &&& a is Abort
                &&& final(self).outcome == Some(InputOutcome::Fatal)
            },
    {
        match ev {
            InputEvent::Data(b) => {
                proof {
                    self.supplied@ = self.supplied@ + b@;
                    self.handed@ = self.handed@ + b@;
                }
                InputAction::Forward(b)
            }
            InputEvent::Eof => {
                self.outcome = Some(InputOutcome::SourceClosed);
                InputAction::Stop
            }
            InputEvent::ReadFailed => {
                self.outcome = Some(InputOutcome::Fatal);
                InputAction::Abort
            }
            InputEvent::WriteFailed => {
                self.outcome = Some(InputOutcome::Fatal);
                InputAction::Abort
            }
        }
    }
}

/// What the input path does with one host-input event.
pub open spec fn input_action_for(ev: InputEvent) -> InputAction {
    match ev {
        InputEvent::Data(b) => InputAction::Forward(b),
        InputEvent::Eof => InputAction::Stop,
        InputEvent::ReadFailed => InputAction::Abort,
        InputEvent::WriteFailed => InputAction::Abort,
    }
}

/// The bytes host input supplied in a sequence of events, in order:
/// the concatenation of its data chunks.
pub open spec fn host_bytes(evs: Seq<InputEvent>) -> Seq<u8>
    decreases evs.len(),
{
    if evs.len() == 0 {
        Seq::empty()
    } else {
        (match evs[0] {
            InputEvent::Data(b) => b@,
            _ => Seq::empty(),
        }) + host_bytes(evs.drop_first())
    }
}

/// The bytes a sequence of input actions hands to the device, in
/// order: the concatenation of its forwarded chunks.
pub open spec fn device_write_bytes(acts: Seq<InputAction>) -> Seq<u8>
    decreases acts.len(),
{
    if acts.len() == 0 {
        Seq::empty()
    } else {
        (match acts[0] {
            InputAction::Forward(b) => b@,
            _ => Seq::empty(),
        }) + device_write_bytes(acts.drop_first())
    }
}

/// Byte transparency of the host-to-device direction, over any whole
/// sequence of host-input events: the bytes handed to the device are
/// exactly the input bytes, in order — a concatenation of
/// possibly-split chunks with no loss, reordering or duplication.
pub proof fn lemma_input_transparency(evs: Seq<InputEvent>)
    ensures
        device_write_bytes(evs.map_values(|e: InputEvent| input_action_for(e)))
            == host_bytes(evs),
    decreases evs.len(),
{
    let acts = evs.map_values(|e: InputEvent| input_action_for(e));
    if evs.len() == 0 {
    } else {
        lemma_input_transparency(evs.drop_first());
        assert(acts.drop_first() =~= evs.drop_first().map_values(
            |e: InputEvent| input_action_for(e),
        ));
        assert(acts[0] == input_action_for(evs[0]));
    }
}

} // verus!
