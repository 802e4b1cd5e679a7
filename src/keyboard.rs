use vstd::prelude::*;
use crate::screen::{apply_puts, run_puts, Pos};
use crate::state::State;

verus! {

/// The key that closes the keyboard screen.
pub const KEY_EXIT: u8 = 0x93;

/// A key press to inject on the host.
#[derive(Clone, Copy, PartialEq, Eq, Structural, Debug)]
pub enum KeyStroke {
    /// Control held with the lower-case letter given as its ASCII byte.
    Control(u8),
    Escape,
    LeftArrow,
    RightArrow,
    UpArrow,
    DownArrow,
    /// The character whose code point is the byte.
    Unicode(u8),
}

/// The key press that a byte from the link stands for: the bytes 1 to 26,
/// but 8 and 13, are control held with the letter of that rank; escape and
/// the four cursor codes are their keys; any other byte is typed as the
/// character of that code point.
pub open spec fn stroke_of(key: u8) -> KeyStroke {
    if (1 <= key <= 7) || (9 <= key <= 12) || (14 <= key <= 26) {
        KeyStroke::Control((key - 1 + 0x61) as u8)
    } else if key == 0x1B {
        KeyStroke::Escape
    } else if key == 0x1D {
        KeyStroke::LeftArrow
    } else if key == 0x1C {
        KeyStroke::RightArrow
    } else if key == 0x1E {
        KeyStroke::UpArrow
    } else if key == 0x1F {
        KeyStroke::DownArrow
    } else {
        KeyStroke::Unicode(key)
    }
}

pub open spec fn mode_line() -> Seq<u8> {
    seq![0x4B, 0x65, 0x79, 0x62, 0x6F, 0x61, 0x72, 0x64, 0x20, 0x6D, 0x6F, 0x64, 0x65, 0x2E]
}

pub open spec fn exit_line() -> Seq<u8> {
    seq![
        0x50, 0x72, 0x65, 0x73, 0x73, 0x20, 0x47, 0x52, 0x41, 0x50, 0x48, 0x2B, 0x51, 0x20, 0x74,
        0x6F, 0x20, 0x65, 0x78, 0x69, 0x74, 0x2E,
    ]
}

/// A screen that forwards the keys typed on the link to the host as key
/// presses.
pub struct KeyboardModule {}

impl Default for KeyboardModule {
    fn default() -> (r: Self) {
        KeyboardModule::new()
    }
}

impl KeyboardModule {
    pub fn new() -> (r: KeyboardModule) {
        KeyboardModule {  }
    }

    /// Writes the two lines of instructions and flushes.
    pub fn init(&self, state: &mut State)
        requires
            old(state).wf(),
        ensures
            final(state).painted(
                old(state),
                apply_puts(
                    apply_puts(old(state).screen@.cells, run_puts(Pos { x: 0, y: 0 }, mode_line(), false)),
                    run_puts(Pos { x: 0, y: 1 }, exit_line(), false),
                ),
            ),
    {
        let first: Vec<u8> = vec![0x4B, 0x65, 0x79, 0x62, 0x6F, 0x61, 0x72, 0x64, 0x20, 0x6D, 0x6F, 0x64, 0x65, 0x2E];
        let second: Vec<u8> = vec![
            0x50, 0x72, 0x65, 0x73, 0x73, 0x20, 0x47, 0x52, 0x41, 0x50, 0x48, 0x2B, 0x51, 0x20, 0x74,
            0x6F, 0x20, 0x65, 0x78, 0x69, 0x74, 0x2E,
        ];
        assert(first@ == mode_line());
        assert(second@ == exit_line());
        state.screen.write_string(Pos::new(0, 0), first.as_slice());
        state.screen.write_string(Pos::new(0, 1), second.as_slice());
        state.draw();
    }

    /// The key press to inject for `key`, or `None` (and a request to close
    /// the screen) for the exit key.
    pub fn on_key(&mut self, state: &mut State, key: u8) -> (r: Option<KeyStroke>)
        ensures
            key == KEY_EXIT ==> r is None && final(state).exit_requested() && final(state).screen
                == old(state).screen && final(state).timers@ == old(state).timers@
                && final(state).pending() == old(state).pending(),
            key != KEY_EXIT ==> r == Some(stroke_of(key)) && *final(state) == *old(state),
    {
        if key == KEY_EXIT {
            state.exit();
            return None;
        }
        let stroke = if (1 <= key && key <= 7) || (9 <= key && key <= 12) || (14 <= key && key <= 26) {
            KeyStroke::Control(key - 1 + 0x61)
        } else if key == 0x1B {
            KeyStroke::Escape
        } else if key == 0x1D {
            KeyStroke::LeftArrow
        } else if key == 0x1C {
            KeyStroke::RightArrow
        } else if key == 0x1E {
            KeyStroke::UpArrow
        } else if key == 0x1F {
            KeyStroke::DownArrow
        } else {
            KeyStroke::Unicode(key)
        };
        Some(stroke)
    }
}

} // verus!
