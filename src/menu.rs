use vstd::prelude::*;
use crate::chat::{chat_frame, chat_key_post, chat_receive_post, chat_refresh, marker, ChatGpt};
use crate::printer::{job_status_post, print_started_post, printer_callback_post, printer_cells, printer_key_post, PrinterCommand, PrinterModule, StateMachine};
use crate::screen::{
    apply_puts, blank_grid, put_cell, flushed, invalidated, lemma_apply_puts_concat, plain, render,
    run_puts, Char, Pos, ScreenView,
};
use crate::state::State;

verus! {

/// The key that repaints the whole display, in every state.
pub const KEY_REDRAW: u8 = 0x12;

/// The key that moves the selection up.
pub const KEY_UP: u8 = 0x1E;

/// The key that moves the selection down.
pub const KEY_DOWN: u8 = 0x1F;

/// The key that opens the selected entry.
pub const KEY_CONFIRM: u8 = 0x0D;

/// The key by which an open screen asks to be closed.
pub const KEY_ESCAPE: u8 = 0x1B;

/// The index of the last menu entry.
pub const LAST_OPTION: u8 = 2;

/// A screen the menu can open.
pub enum Module {
    Chat(ChatGpt),
    Printer(PrinterModule),
}

/// What the menu needs done outside.
pub enum Command {
    Nothing,
    /// The printers are to be listed and handed to `Menu::open_printer`.
    ListPrinters,
    /// The chat's conversation is to be sent; the answer comes back through
    /// `Menu::chat_receive`, then `Menu::chat_done`.
    Complete,
    /// Work for the printer screen.
    Printer(PrinterCommand),
}

/// The label of menu entry `i`.
pub open spec fn label(i: int) -> Seq<u8> {
    if i == 0 {
        seq![0x43, 0x68, 0x61, 0x74, 0x2D, 0x47, 0x50, 0x54]
    } else if i == 1 {
        seq![0x50, 0x72, 0x69, 0x6E, 0x74, 0x65, 0x72]
    } else {
        seq![0x45, 0x78, 0x69, 0x74]
    }
}

/// The writes of menu entry `i` on row `i + 1`, centred; the selected entry
/// is inverted between `>` and `<`.
pub open spec fn option_puts(sel: int, i: int) -> Seq<(int, int, Char)> {
    let n = label(i).len() as int;
    let marks = if sel == i {
        seq![(18 - n / 2, i + 1, plain(0x3E)), (21 - n / 2 + n, i + 1, plain(0x3C))]
    } else {
        Seq::empty()
    };
    marks + run_puts(Pos { x: (20 - n / 2) as usize, y: (i + 1) as usize }, label(i), sel == i)
}

/// The menu with entry `sel` selected, drawn on a blank grid.
pub open spec fn menu_grid(sel: int) -> Seq<Char> {
    apply_puts(blank_grid(), option_puts(sel, 0) + option_puts(sel, 1) + option_puts(sel, 2))
}


/// The selection after `key` in the list with `sel` selected: up and down
/// move it, stopping at the first and the last entry.
pub open spec fn next_selection(sel: u8, key: u8) -> u8 {
    if key == KEY_UP {
        if sel > 0 {
            (sel - 1) as u8
        } else {
            0
        }
    } else if key == KEY_DOWN {
        if sel < LAST_OPTION {
            (sel + 1) as u8
        } else {
            LAST_OPTION
        }
    } else {
        sel
    }
}

/// What forwarding `key` to screen `m` does, from session `s0` to screen `n`
/// and session `s1`, with `cmd` the work handed out.
pub open spec fn module_key_post(m: Module, n: Module, s0: State, s1: State, key: u8, cmd: Command) -> bool {
    match (m, n) {
        (Module::Chat(c), Module::Chat(d)) => (cmd is Complete || cmd is Nothing) && chat_key_post(
            c,
            d,
            s0,
            s1,
            key,
            cmd is Complete,
        ),
        (Module::Printer(p), Module::Printer(q)) => cmd is Nothing && printer_key_post(p, q, s0, s1, key),
        _ => false,
    }
}

/// What forwarding a fired timeout tagged `kind` to screen `m` does, from
/// session `s0` to screen `n` and session `s1`, with `cmd` the work handed
/// out; the chat ignores timeouts.
pub open spec fn module_timeout_post(m: Module, n: Module, s0: State, s1: State, kind: u32, cmd: Command) -> bool {
    match (m, n) {
        (Module::Chat(c), Module::Chat(d)) => d == c && s1 == s0 && cmd is Nothing,
        (Module::Printer(p), Module::Printer(q)) => match cmd {
            Command::Printer(pc) => printer_callback_post(p, q, s0, s1, kind, pc),
            _ => false,
        },
        _ => false,
    }
}

/// `s1` is session `s` after its open screen was closed: the request to close
/// cleared, and the menu with entry `sel` selected painted on a cleared grid
/// and flushed.
pub open spec fn closed_to_menu(s: State, s1: State, sel: u8) -> bool {
    s1.painted(&State { exit: false, ..s }, menu_grid(sel as int))
}

fn option_label(i: usize) -> (r: Vec<u8>)
    requires
        i <= 2,
    ensures
        r@ == label(i as int),
{
    if i == 0 {
        vec![0x43, 0x68, 0x61, 0x74, 0x2D, 0x47, 0x50, 0x54]
    } else if i == 1 {
        vec![0x50, 0x72, 0x69, 0x6E, 0x74, 0x65, 0x72]
    } else {
        vec![0x45, 0x78, 0x69, 0x74]
    }
}

/// The top-level screen: a list of entries, or the one screen opened from it.
pub struct Menu {
    pub selection: u8,
    pub module: Option<Module>,
}

impl Default for Menu {
    fn default() -> (r: Self)
        ensures
            r.wf(),
            r.selection == 0,
            r.module is None,
    {
        Menu::new()
    }
}

impl Module {
    pub open spec fn wf(&self) -> bool {
        match self {
            Module::Chat(c) => c.wf(),
            Module::Printer(p) => p.wf(),
        }
    }
}

impl Menu {
    pub open spec fn wf(&self) -> bool {
        &&& self.selection <= LAST_OPTION
        &&& match self.module {
            Some(m) => m.wf(),
            None => true,
        }
    }

    /// The menu with the first entry selected and nothing open.
    pub fn new() -> (r: Menu)
        ensures
            r.wf(),
            r.selection == 0,
            r.module is None,
    {
        Menu { selection: 0, module: None }
    }

    fn draw_option(&self, state: &mut State, i: usize)
        requires
            old(state).wf(),
            i <= 2,
        ensures
            final(state).wf(),
            final(state).screen@ == (ScreenView {
                cells: apply_puts(old(state).screen@.cells, option_puts(self.selection as int, i as int)),
                ..old(state).screen@
            }),
            *final(state) == (State { screen: final(state).screen, ..*old(state) }),
    {
        let text = option_label(i);
        let n = text.len();
        let selected = self.selection as usize == i;
        let ghost g = state.screen@.cells;
        if selected {
            state.screen.put(Pos::new(18 - n / 2, i + 1), Char::from(0x3E));
            state.screen.put(Pos::new(21 - n / 2 + n, i + 1), Char::from(0x3C));
        }
        let ghost marks = if selected {
            seq![(18 - n as int / 2, i + 1, plain(0x3E)), (21 - n as int / 2 + n, i + 1, plain(0x3C))]
        } else {
            Seq::<(int, int, Char)>::empty()
        };
        proof {
            if selected {
                let one = marks.drop_last();
                assert(one =~= seq![marks[0]]);
                assert(one.drop_last() =~= Seq::<(int, int, Char)>::empty());
                assert(apply_puts(g, one.drop_last()) == g);
                assert(apply_puts(g, one) == put_cell(g, marks[0].0, marks[0].1, marks[0].2));
                assert(apply_puts(g, marks) == put_cell(apply_puts(g, one), marks[1].0, marks[1].1, marks[1].2));
            } else {
                assert(apply_puts(g, marks) == g);
            }
            assert(state.screen@.cells == apply_puts(g, marks));
        }
        state.screen.write_string_inverted(Pos::new(20 - n / 2, i + 1), text.as_slice(), selected);
        proof {
            lemma_apply_puts_concat(
                g,
                marks,
                run_puts(Pos { x: (20 - n as int / 2) as usize, y: (i + 1) as usize }, label(i as int), selected),
            );
        }
    }

    /// Clears the grid, draws the entries with the selected one marked, and
    /// flushes.
    pub fn draw(&self, state: &mut State)
        requires
            old(state).wf(),
        ensures
            final(state).painted(old(state), menu_grid(self.selection as int)),
    {
        let ghost sel = self.selection as int;
        state.screen.clear();
        self.draw_option(state, 0);
        self.draw_option(state, 1);
        self.draw_option(state, 2);
        proof {
            lemma_apply_puts_concat(blank_grid(), option_puts(sel, 0), option_puts(sel, 1));
            lemma_apply_puts_concat(
                blank_grid(),
                option_puts(sel, 0) + option_puts(sel, 1),
                option_puts(sel, 2),
            );
        }
        state.draw();
    }

    /// Draws the menu for the first time.
    pub fn init(&self, state: &mut State)
        requires
            old(state).wf(),
        ensures
            final(state).painted(old(state), menu_grid(self.selection as int)),
    {
        self.draw(state);
    }

    /// Handles one input byte. The redraw key repaints every cell in any
    /// state. With nothing open, up and down move the selection, confirm
    /// opens the chat (entry 0) or asks for the printers (entry 1), and the
    /// menu is redrawn otherwise. With a screen open, the byte goes to it;
    /// if it then asked to be closed, it is dropped and the menu redrawn on a
    /// cleared grid.
    pub fn on_key(&mut self, state: &mut State, key: u8) -> (cmd: Command)
        requires
            old(self).wf(),
            old(state).wf(),
        ensures
            final(self).wf(),
            final(state).wf(),
            key == KEY_REDRAW ==> {
                &&& *final(self) == *old(self)
                &&& cmd is Nothing
                &&& final(state).screen@ == flushed(invalidated(old(state).screen@))
                &&& final(state).pending() == old(state).pending() + render(
                    invalidated(old(state).screen@),
                ).out
                &&& final(state).same_session(old(state))
            },
            key != KEY_REDRAW && old(self).module is None && key == KEY_CONFIRM && old(self).selection
                == 0 ==> {
                &&& final(self).selection == 0
                &&& cmd is Nothing
                &&& final(self).module matches Some(Module::Chat(c)) && c.history().len() == 0
                    && c.prompt@ == seq![marker()] && c.response@.len() == 0
                &&& final(state).painted(old(state), chat_frame(blank_grid()))
            },
            key != KEY_REDRAW && old(self).module is None && key == KEY_CONFIRM && old(self).selection
                == 1 ==> *final(self) == *old(self) && *final(state) == *old(state)
                && cmd is ListPrinters,
            key != KEY_REDRAW && old(self).module is None && !(key == KEY_CONFIRM
                && old(self).selection <= 1) ==> {
                &&& final(self).module is None
                &&& final(self).selection == next_selection(old(self).selection, key)
                &&& cmd is Nothing
                &&& final(state).painted(old(state), menu_grid(final(self).selection as int))
            },
            key != KEY_REDRAW && old(self).module is Some ==> {
                &&& final(self).selection == old(self).selection
                &&& !final(state).exit_requested()
                &&& final(self).module is None <==> (key == KEY_ESCAPE || old(state).exit_requested())
                &&& final(self).module is Some ==> module_key_post(
                    old(self).module->0,
                    final(self).module->0,
                    *old(state),
                    *final(state),
                    key,
                    cmd,
                )
                &&& final(self).module is None ==> cmd is Nothing && exists|mid: State, n: Module, c: Command|
                    #[trigger] module_key_post(old(self).module->0, n, *old(state), mid, key, c)
                        && mid.exit_requested() && closed_to_menu(mid, *final(state), old(self).selection)
            },
    {
        if key == KEY_REDRAW {
            state.redraw();
            return Command::Nothing;
        }
        if self.module.is_some() {
            let ghost m0 = self.module->0;
            let ghost s0 = *state;
            let mut cmd = match &mut self.module {
                Some(Module::Chat(c)) => {
                    if c.on_key(state, key) {
                        Command::Complete
                    } else {
                        Command::Nothing
                    }
                },
                Some(Module::Printer(p)) => {
                    p.on_key(state, key);
                    Command::Nothing
                },
                None => Command::Nothing,
            };
            let ghost mid = *state;
            let ghost n = self.module->0;
            let ghost c0 = cmd;
            assert(module_key_post(m0, n, s0, mid, key, c0));
            if state.take_exit() {
                state.screen.clear();
                self.draw(state);
                self.module = None;
                cmd = Command::Nothing;
                assert(closed_to_menu(mid, *state, self.selection));
            }
            return cmd;
        }
        if key == KEY_UP {
            if self.selection > 0 {
                self.selection = self.selection - 1;
            }
        } else if key == KEY_DOWN {
            if self.selection < LAST_OPTION {
                self.selection = self.selection + 1;
            }
        } else if key == KEY_CONFIRM {
            if self.selection == 0 {
                state.screen.clear();
                let chat = ChatGpt::new();
                chat.init(state);
                self.module = Some(Module::Chat(chat));
                return Command::Nothing;
            } else if self.selection == 1 {
                return Command::ListPrinters;
            }
        }
        self.draw(state);
        Command::Nothing
    }

    /// Hands a fired timeout to the open screen (the chat ignores timeouts),
    /// then, as after a key, closes the screen and repaints the menu if a
    /// close was requested.
    pub fn callback(&mut self, state: &mut State, kind: u32) -> (cmd: Command)
        requires
            old(self).wf(),
            old(state).wf(),
        ensures
            final(self).wf(),
            final(state).wf(),
            final(self).selection == old(self).selection,
            old(self).module is None ==> *final(self) == *old(self) && *final(state) == *old(state)
                && cmd is Nothing,
            old(self).module is Some ==> {
                &&& !final(state).exit_requested()
                &&& final(self).module is None <==> old(state).exit_requested()
                &&& final(self).module is Some ==> module_timeout_post(
                    old(self).module->0,
                    final(self).module->0,
                    *old(state),
                    *final(state),
                    kind,
                    cmd,
                )
                &&& final(self).module is None ==> cmd is Nothing && exists|mid: State, n: Module, c: Command|
                    #[trigger] module_timeout_post(old(self).module->0, n, *old(state), mid, kind, c)
                        && closed_to_menu(mid, *final(state), old(self).selection)
            },
    {
        if self.module.is_none() {
            return Command::Nothing;
        }
        let ghost m0 = self.module->0;
        let ghost s0 = *state;
        let mut cmd = match &mut self.module {
            Some(Module::Printer(p)) => Command::Printer(p.callback(state, kind)),
            _ => Command::Nothing,
        };
        let ghost mid = *state;
        let ghost n = self.module->0;
        let ghost c0 = cmd;
        assert(module_timeout_post(m0, n, s0, mid, kind, c0));
        if state.take_exit() {
            state.screen.clear();
            self.draw(state);
            self.module = None;
            cmd = Command::Nothing;
            assert(closed_to_menu(mid, *state, self.selection));
        }
        cmd
    }

    /// Opens the printer screen over the printers named, on a cleared grid.
    pub fn open_printer(&mut self, state: &mut State, printers: Vec<Vec<u8>>)
        requires
            old(self).wf(),
            old(state).wf(),
        ensures
            final(self).wf(),
            final(self).selection == old(self).selection,
            old(self).module is None ==> {
                &&& final(self).module matches Some(Module::Printer(p)) && p.printers@ == printers@
                    && p.state == (StateMachine::SelectPrinter { selected: 0 })
                &&& final(state).painted(
                    old(state),
                    printer_cells(blank_grid(), printers@, StateMachine::SelectPrinter { selected: 0 }),
                )
            },
            old(self).module is Some ==> *final(self) == *old(self) && *final(state) == *old(state),
    {
        if self.module.is_some() {
            return;
        }
        state.screen.clear();
        let mut p = PrinterModule::new(printers);
        p.draw(state);
        self.module = Some(Module::Printer(p));
    }

    /// Hands a piece of the chat's answer to the open chat.
    pub fn chat_receive(&mut self, state: &mut State, piece: &[u8])
        requires
            old(self).wf(),
            old(state).wf(),
        ensures
            final(self).wf(),
            final(state).wf(),
            final(self).selection == old(self).selection,
            final(state).same_session(old(state)),
            old(self).module matches Some(Module::Chat(c)) ==> (final(self).module matches Some(
                Module::Chat(d),
            ) && chat_receive_post(c, d, *old(state), *final(state), piece@)),
            !(old(self).module matches Some(Module::Chat(_))) ==> *final(self) == *old(self)
                && *final(state) == *old(state),
    {
        match &mut self.module {
            Some(Module::Chat(c)) => c.receive(state, piece),
            _ => {},
        }
    }

    /// Tells the open chat that its answer is complete: it redraws.
    pub fn chat_done(&mut self, state: &mut State)
        requires
            old(self).wf(),
            old(state).wf(),
        ensures
            final(self).wf(),
            final(state).wf(),
            *final(self) == *old(self),
            final(state).same_session(old(state)),
            old(self).module matches Some(Module::Chat(c)) ==> final(state).painted(
                old(state),
                chat_refresh(old(state).screen@.cells, c.prompt@, c.response@),
            ),
            !(old(self).module matches Some(Module::Chat(_))) ==> *final(state) == *old(state),
    {
        match &self.module {
            Some(Module::Chat(c)) => c.refresh(state),
            _ => {},
        }
    }

    /// Tells the open printer screen that its document became job `job_id`.
    pub fn print_started(&mut self, state: &mut State, job_id: u64)
        requires
            old(self).wf(),
            old(state).wf(),
        ensures
            final(self).wf(),
            final(state).wf(),
            final(self).selection == old(self).selection,
            final(state).same_session(old(state)),
            old(self).module matches Some(Module::Printer(p)) ==> (final(self).module matches Some(
                Module::Printer(q),
            ) && print_started_post(p, q, *old(state), *final(state), job_id)),
            !(old(self).module matches Some(Module::Printer(_))) ==> *final(self) == *old(self)
                && *final(state) == *old(state),
    {
        match &mut self.module {
            Some(Module::Printer(p)) => p.print_started(state, job_id),
            _ => {},
        }
    }

    /// Tells the open printer screen what became of its job: `None` when it
    /// is no longer among the printer's active jobs, else its status text.
    pub fn job_status(&mut self, state: &mut State, status: Option<&[u8]>)
        requires
            old(self).wf(),
            old(state).wf(),
        ensures
            final(self).wf(),
            final(state).wf(),
            *final(self) == *old(self),
            final(state).exit_requested() == old(state).exit_requested(),
            old(self).module matches Some(Module::Printer(p)) ==> job_status_post(
                p,
                *old(state),
                *final(state),
                status,
            ),
            !(old(self).module matches Some(Module::Printer(_))) ==> *final(state) == *old(state),
    {
        match &mut self.module {
            Some(Module::Printer(p)) => p.job_status(state, status),
            _ => {},
        }
    }
}

} // verus!
