use vstd::prelude::*;

use crate::interface::BusError;
use crate::interface::BusEvent;
use crate::interface::DisplayInterface;
use crate::interface::data_events;
use crate::interface::repeated_data_events;

verus! {

/// A pure in-memory transport: it performs no I/O and records every
/// transaction instead. It stands in for real hardware when exercising the
/// controller; its busy line and its failure switch are plain fields the
/// caller scripts.
pub struct RecordingInterface {
    /// The recorded transactions, oldest first.
    pub events: Vec<BusEvent>,
    /// What the busy line currently reports.
    pub busy: bool,
    /// While set, every transmission fails as a broken bus link would.
    pub fail: bool,
}

impl RecordingInterface {
    /// A fresh recorder with an empty history and an idle busy line.
    pub fn new() -> (r: RecordingInterface)
        ensures
            r.events@ == Seq::<BusEvent>::empty(),
            r.busy == false,
            r.fail == false,
    {
        RecordingInterface { events: Vec::new(), busy: false, fail: false }
    }
}

impl DisplayInterface for RecordingInterface {
    open spec fn log(&self) -> Seq<BusEvent> {
        self.events@
    }

    fn reset(&mut self, delay_units: u8) {
        self.events.push(BusEvent::Reset);
    }

    fn cmd(&mut self, command: u8) -> (r: Result<(), BusError>) {
        if self.fail {
            return Err(BusError);
        }
        self.events.push(BusEvent::Command(command));
        Ok(())
    }

    fn data(&mut self, data: &[u8]) -> (r: Result<(), BusError>) {
        if self.fail {
            return Err(BusError);
        }
        let ghost start = self.events@;
        let mut i: usize = 0;
        while i < data.len()
            invariant
                i <= data.len(),
                self.events@ == start + data_events(data@.take(i as int)),
            decreases data.len() - i,
        {
            self.events.push(BusEvent::Data(data[i]));
            proof {
                assert(self.events@ =~= start + data_events(data@.take(i as int + 1)));
            }
            i = i + 1;
        }
        proof {
            assert(data@.take(data@.len() as int) =~= data@);
        }
        Ok(())
    }

    fn data_x_times(&mut self, byte: u8, count: u32) -> (r: Result<(), BusError>) {
        if self.fail {
            return Err(BusError);
        }
        let ghost start = self.events@;
        let mut i: u32 = 0;
        while i < count
            invariant
                i <= count,
                self.events@ == start + repeated_data_events(byte, i as nat),
            decreases count - i,
        {
            self.events.push(BusEvent::Data(byte));
            proof {
                assert(self.events@ =~= start + repeated_data_events(byte, (i + 1) as nat));
            }
            i = i + 1;
        }
        Ok(())
    }

    fn wait_until_idle(&mut self, is_busy_low: bool) {
        // The wait returns only once the line reports ready.
        self.busy = false;
        self.events.push(BusEvent::BusyWait);
    }

    fn is_busy(&self, is_busy_low: bool) -> (r: bool)
        ensures
            r == self.busy,
    {
        self.busy
    }
}

} // verus!
