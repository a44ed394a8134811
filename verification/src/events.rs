//! Change notification: one immutable event per successful mutation,
//! reflecting the just-committed record. Ordering follows the serialized
//! order of the originating mutations.

use vstd::prelude::*;

verus! {

/// The notification emitted after a successful create or update: the
/// committed position and color of the touched record.
#[derive(Clone, Copy, Debug, PartialEq, Eq)]
pub struct PixelChanged {
    /// X coordinate of the committed record.
    pub pos_x: u8,
    /// Y coordinate of the committed record.
    pub pos_y: u8,
    /// Red component of the committed record.
    pub col_r: u8,
    /// Green component of the committed record.
    pub col_g: u8,
    /// Blue component of the committed record.
    pub col_b: u8,
}

/// Publishes change notifications: an append-only log, in the serialized
/// order of the mutations that produced them.
pub struct EventEmitter {
    log: Vec<PixelChanged>,
}

impl View for EventEmitter {
    type V = Seq<PixelChanged>;

    closed spec fn view(&self) -> Seq<PixelChanged> {
        self.log@
    }
}

impl EventEmitter {
    /// An emitter that has published nothing yet.
    pub fn new() -> (emitter: EventEmitter)
        ensures
            emitter@ == Seq::<PixelChanged>::empty(),
    {
        EventEmitter { log: Vec::new() }
    }

    /// Publishes one event, appending it to the log.
    pub fn emit(&mut self, event: PixelChanged)
        ensures
            final(self)@ == old(self)@.push(event),
    {
        self.log.push(event);
    }

    /// The events published so far, oldest first.
    pub fn log(&self) -> (log: &Vec<PixelChanged>)
        ensures
            log@ == self@,
    {
        &self.log
    }
}

} // verus!
