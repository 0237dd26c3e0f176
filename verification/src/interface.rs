use vstd::prelude::*;

verus! {

/// One observable transaction on the panel's bus and control lines,
/// as the controller orders them.
#[derive(Clone, Copy, Debug, PartialEq, Eq, Structural)]
pub enum BusEvent {
    /// A hardware reset pulse (reset line low, then high, with bracketing
    /// delays).
    Reset,
    /// One byte transmitted with the data/command line in "command" state.
    Command(u8),
    /// One byte transmitted with the data/command line in "data" state.
    Data(u8),
    /// A blocking wait that returned once the busy line reported ready.
    BusyWait,
}

/// Failure of the underlying bus transport while transmitting.
#[derive(Clone, Copy, Debug, PartialEq, Eq, Structural)]
pub struct BusError;

/// The data-state events of one payload, one per byte, in transmission order.
pub open spec fn data_events(bytes: Seq<u8>) -> Seq<BusEvent> {
    bytes.map(|i: int, b: u8| BusEvent::Data(b))
}

/// The data-state events of one byte repeated `count` times.
pub open spec fn repeated_data_events(byte: u8, count: nat) -> Seq<BusEvent> {
    Seq::new(count, |i: int| BusEvent::Data(byte))
}

/// A command byte followed by its payload bytes.
pub open spec fn cmd_with_data_events(command: u8, bytes: Seq<u8>) -> Seq<BusEvent> {
    seq![BusEvent::Command(command)] + data_events(bytes)
}

/// The transport capabilities the controller drives: send bytes in command
/// or data state, pulse the reset line, and synchronize with the busy line.
///
/// `log` is the transport's whole observable history, oldest transaction
/// first. A transaction that fails contributes nothing to the history; the
/// controller stops at the first failure, so nothing is transmitted after a
/// reported fault.
pub trait DisplayInterface: Sized {
    /// The transactions issued so far, most recent last.
    spec fn log(&self) -> Seq<BusEvent>;

    /// Drive the reset line low then high, delaying `delay_units`
    /// milliseconds around each edge, and return once the pulse is complete.
    fn reset(&mut self, delay_units: u8)
        ensures
            final(self).log() == old(self).log().push(BusEvent::Reset),
    ;

    /// Transmit one byte with the data/command line in "command" state.
    fn cmd(&mut self, command: u8) -> (r: Result<(), BusError>)
        ensures
            r is Ok ==> final(self).log() == old(self).log().push(BusEvent::Command(command)),
            r is Err ==> final(self).log() == old(self).log(),
    ;

    /// Transmit a byte sequence with the data/command line in "data" state.
    fn data(&mut self, data: &[u8]) -> (r: Result<(), BusError>)
        ensures
            r is Ok ==> final(self).log() == old(self).log() + data_events(data@),
            r is Err ==> final(self).log() == old(self).log(),
    ;

    /// Transmit the same byte `count` times in "data" state, without an
    /// allocated buffer of that length.
    fn data_x_times(&mut self, byte: u8, count: u32) -> (r: Result<(), BusError>)
        ensures
            r is Ok ==> final(self).log() == old(self).log() + repeated_data_events(
                byte,
                count as nat,
            ),
            r is Err ==> final(self).log() == old(self).log(),
    ;

    /// Block until the busy line leaves the busy state; `is_busy_low` gives
    /// the line's polarity (true when the panel holds the line low while
    /// busy).
    fn wait_until_idle(&mut self, is_busy_low: bool)
        ensures
            final(self).log() == old(self).log().push(BusEvent::BusyWait),
    ;

    /// Read the busy line once, without blocking; the result depends on the
    /// panel's current state, so nothing more is promised of it.
    fn is_busy(&self, is_busy_low: bool) -> bool;
}

} // verus!
