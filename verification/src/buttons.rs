//! Button-event capture: classification of hardware edges and the latch
//! that stores the most recent press between frames.

use vstd::prelude::*;
use crate::level::ButtonPress;

verus! {

/// Classification policy for a pair of channel edge flags: one flag set
/// picks that button; both or neither (an ambiguous or spurious trigger)
/// resolve to no press.
pub open spec fn classified(a_pressed: bool, b_pressed: bool) -> ButtonPress {
    if a_pressed && !b_pressed {
        ButtonPress::ButtonA
    } else if !a_pressed && b_pressed {
        ButtonPress::ButtonB
    } else {
        ButtonPress::NoPress
    }
}

/// Turn the two channels' "event triggered" flags into a button event.
pub fn classify_edges(a_pressed: bool, b_pressed: bool) -> (bp: ButtonPress)
    ensures
        bp == classified(a_pressed, b_pressed),
{
    match (a_pressed, b_pressed) {
        (true, false) => ButtonPress::ButtonA,
        (false, true) => ButtonPress::ButtonB,
        _ => ButtonPress::NoPress,
    }
}

/// Storage for the most recent qualifying button edge. The asynchronous
/// edge handler overwrites it through `signal`; the main loop consumes it
/// through `take`. Lossy by design: a second edge before consumption
/// overwrites the first. The caller that shares it between an interrupt
/// context and a main loop must wrap it in a critical section so that
/// `take`'s read-and-reset runs as one indivisible unit.
pub struct ButtonInputLatch {
    stored: ButtonPress,
}

impl ButtonInputLatch {
    /// The event currently held, as contracts speak of it.
    pub closed spec fn stored_event(&self) -> ButtonPress {
        self.stored
    }

    /// A fresh latch holds no press.
    pub fn new() -> (l: Self)
        ensures
            l.stored_event() == ButtonPress::NoPress,
    {
        Self { stored: ButtonPress::NoPress }
    }

    /// Record a new event, unconditionally overwriting the stored one.
    pub fn signal(&mut self, event: ButtonPress)
        ensures
            final(self).stored_event() == event,
    {
        self.stored = event;
    }

    /// Read the stored event; when `reset` is set, clear it in the same
    /// step, so no event is seen by two consecutive resetting reads.
    pub fn take(&mut self, reset: bool) -> (bp: ButtonPress)
        ensures
            bp == old(self).stored_event(),
            final(self).stored_event() == (if reset {
                ButtonPress::NoPress
            } else {
                old(self).stored_event()
            }),
    {
        let bp = self.stored;
        if reset {
            self.stored = ButtonPress::NoPress;
        }
        bp
    }
}

} // verus!
