use vstd::prelude::*;
use crate::screen::{Char, flushed, initial_view, invalidated, render, reset_codes, Screen, ScreenView};
use crate::timers::{Timeout, Timers};

verus! {

/// What one session shares with the screens it runs: the grid, the bytes
/// waiting to go out to the display, the pending timeouts, the flag by which
/// a screen asks to be closed, and the session clock in milliseconds.
pub struct State {
    pub screen: Screen,
    pub timers: Timers,
    pub out: Vec<u8>,
    pub exit: bool,
    pub now: u64,
}

/// `a + b`, or the largest `u64` where the sum does not fit.
pub open spec fn deadline_after(a: u64, b: u64) -> u64 {
    if a + b <= u64::MAX {
        (a + b) as u64
    } else {
        u64::MAX
    }
}

impl State {
    /// Bytes produced for the display and not yet taken.
    pub open spec fn pending(&self) -> Seq<u8> {
        self.out@
    }

    /// Whether the active screen has asked to be closed.
    pub open spec fn exit_requested(&self) -> bool {
        self.exit
    }

    /// The session clock as last set.
    pub open spec fn clock(&self) -> u64 {
        self.now
    }

    pub open spec fn wf(&self) -> bool {
        self.screen.wf() && self.timers.wf()
    }

    /// Everything but the grid and the output is as in `o`.
    pub open spec fn same_session(&self, o: &State) -> bool {
        &&& self.timers@ == o.timers@
        &&& self.exit_requested() == o.exit_requested()
        &&& self.clock() == o.clock()
    }

    /// `self` is `o` after the grid was set to `cells` and flushed.
    pub open spec fn painted(&self, o: &State, cells: Seq<Char>) -> bool {
        let v = ScreenView { cells, ..o.screen@ };
        &&& self.wf()
        &&& self.screen@ == flushed(v)
        &&& self.pending() == o.pending() + render(v).out
        &&& self.same_session(o)
    }

    /// `self` has the grid, snapshot and output of `o` after its grid was set
    /// to `cells` and flushed.
    pub open spec fn repainted(&self, o: &State, cells: Seq<Char>) -> bool {
        let v = ScreenView { cells, ..o.screen@ };
        &&& self.wf()
        &&& self.screen@ == flushed(v)
        &&& self.pending() == o.pending() + render(v).out
    }

    /// A blank session at clock zero, with the reset sequence queued for the
    /// display.
    pub fn new() -> (r: State)
        ensures
            r.wf(),
            r.screen@ == initial_view(),
            r.timers@ == Seq::<Timeout>::empty(),
            r.pending() == reset_codes(),
            !r.exit_requested(),
            r.clock() == 0,
    {
        let mut out: Vec<u8> = Vec::new();
        out.push(0x0C);
        out.push(0x1B);
        out.push(0x71);
        out.push(0x1B);
        out.push(0x56);
        out.push(0x1B);
        out.push(0x51);
        assert(out@ =~= reset_codes());
        State { screen: Screen::new(), timers: Timers::new(), out, exit: false, now: 0 }
    }

    /// Queues the bytes that bring the display up to date with the grid.
    pub fn draw(&mut self)
        requires
            old(self).wf(),
        ensures
            final(self).wf(),
            final(self).screen@ == flushed(old(self).screen@),
            final(self).pending() == old(self).pending() + render(old(self).screen@).out,
            final(self).same_session(old(self)),
    {
        let mut bytes = self.screen.draw();
        self.out.append(&mut bytes);
    }

    /// Queues every cell of the grid for the display, changed or not.
    pub fn redraw(&mut self)
        requires
            old(self).wf(),
        ensures
            final(self).wf(),
            final(self).screen@ == flushed(invalidated(old(self).screen@)),
            final(self).pending() == old(self).pending() + render(
                invalidated(old(self).screen@),
            ).out,
            final(self).same_session(old(self)),
    {
        self.screen.invalidate();
        self.draw();
    }

    /// Hands over the bytes waiting for the display.
    pub fn take_output(&mut self) -> (r: Vec<u8>)
        ensures
            r@ == old(self).pending(),
            final(self).pending() == Seq::<u8>::empty(),
            final(self).screen == old(self).screen,
            final(self).same_session(old(self)),
    {
        let mut taken: Vec<u8> = Vec::new();
        std::mem::swap(&mut taken, &mut self.out);
        taken
    }

    /// Sets the session clock.
    pub fn set_clock(&mut self, now: u64)
        ensures
            final(self).clock() == now,
            final(self).screen == old(self).screen,
            final(self).timers@ == old(self).timers@,
            final(self).pending() == old(self).pending(),
            final(self).exit_requested() == old(self).exit_requested(),
    {
        self.now = now;
    }

    /// The session clock.
    pub fn now(&self) -> (r: u64)
        ensures
            r == self.clock(),
    {
        self.now
    }

    /// Asks for a callback tagged `kind` once `duration` milliseconds have
    /// passed on the session clock.
    pub fn schedule(&mut self, duration: u64, kind: u32)
        requires
            old(self).wf(),
        ensures
            final(self).wf(),
            exists|i: int|
                0 <= i <= old(self).timers@.len() && final(self).timers@ == old(self).timers@.insert(
                    i,
                    Timeout { time: deadline_after(old(self).clock(), duration), kind },
                ),
            final(self).screen == old(self).screen,
            final(self).pending() == old(self).pending(),
            final(self).exit_requested() == old(self).exit_requested(),
            final(self).clock() == old(self).clock(),
    {
        let time = self.now.saturating_add(duration);
        self.timers.insert(Timeout { time, kind });
    }

    /// Asks for the active screen to be closed.
    pub fn exit(&mut self)
        ensures
            final(self).exit_requested(),
            *final(self) == (State { exit: true, ..*old(self) }),
    {
        self.exit = true;
    }

    /// Reads and clears the request to close the active screen.
    pub fn take_exit(&mut self) -> (r: bool)
        ensures
            r == old(self).exit_requested(),
            !final(self).exit_requested(),
            *final(self) == (State { exit: false, ..*old(self) }),
    {
        let r = self.exit;
        self.exit = false;
        r
    }
}

} // verus!
