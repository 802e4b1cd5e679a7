use vstd::prelude::*;
use crate::screen::{apply_puts, blank, rect_puts, run_puts, Char, Pos};
use crate::state::{deadline_after, State};
use crate::timers::Timeout;

verus! {

/// The key that closes the printer screen.
pub const KEY_ESCAPE: u8 = 0x1B;

/// The key that selects the previous printer.
pub const KEY_LEFT: u8 = 0x1D;

/// The key that selects the next printer.
pub const KEY_RIGHT: u8 = 0x1C;

/// The key that confirms the selected printer.
pub const KEY_ENTER: u8 = 0x0D;

/// Milliseconds between two polls of an upload or a print job.
pub const POLL_MS: u64 = 250;

/// The tag of the printer screen's polling timeout.
pub const POLL_KIND: u32 = 0;

/// Where the printer screen stands.
pub enum StateMachine {
    /// Choosing a printer by its index.
    SelectPrinter { selected: usize },
    /// Receiving the document, byte by byte, for the chosen printer; the
    /// size seen at the last poll and the clock of the last progress line.
    Uploading { printer: usize, file: Vec<u8>, last_size: usize, last_update: u64 },
    /// The job has been handed to the printer.
    Printing { printer: usize, job_id: u64 },
}

/// What the printer screen needs done outside.
pub enum PrinterCommand {
    Nothing,
    /// Submit `data` to the printer of index `printer`, then report the job
    /// through `PrinterModule::print_started`.
    Print { printer: usize, data: Vec<u8> },
    /// Look up the job on the printer, then report through
    /// `PrinterModule::job_status`.
    QueryJob { printer: usize, job_id: u64 },
}

/// A screen that receives a document typed into the link and prints it.
pub struct PrinterModule {
    /// The names of the printers there are.
    pub printers: Vec<Vec<u8>>,
    pub state: StateMachine,
}

/// The decimal digits of `n`, most significant first.
pub open spec fn decimal(n: nat) -> Seq<u8>
    decreases n,
{
    if n < 10 {
        seq![(0x30 + n) as u8]
    } else {
        decimal(n / 10).push((0x30 + n % 10) as u8)
    }
}

pub open spec fn printer_label() -> Seq<u8> {
    seq![0x50, 0x72, 0x69, 0x6E, 0x74, 0x65, 0x72, 0x3A, 0x20]
}

pub open spec fn received_label() -> Seq<u8> {
    seq![0x52, 0x65, 0x63, 0x65, 0x69, 0x76, 0x65, 0x64, 0x20]
}

pub open spec fn bytes_label() -> Seq<u8> {
    seq![0x20, 0x62, 0x79, 0x74, 0x65, 0x73, 0x2E]
}

pub open spec fn complete_label() -> Seq<u8> {
    seq![0x55, 0x70, 0x6C, 0x6F, 0x61, 0x64, 0x20, 0x63, 0x6F, 0x6D, 0x70, 0x6C, 0x65, 0x74, 0x65, 0x21]
}

pub open spec fn success_label() -> Seq<u8> {
    seq![0x50, 0x72, 0x69, 0x6E, 0x74, 0x20, 0x73, 0x75, 0x63, 0x63, 0x65, 0x73, 0x73, 0x66, 0x75, 0x6C]
}

pub open spec fn status_label() -> Seq<u8> {
    seq![0x50, 0x72, 0x69, 0x6E, 0x74, 0x20, 0x53, 0x74, 0x61, 0x74, 0x75, 0x73, 0x3A, 0x20]
}

/// The document as it is sent: every carriage return becomes a line feed.
pub open spec fn line_feeds(file: Seq<u8>) -> Seq<u8> {
    file.map_values(|b: u8| if b == 0x0D { 0x0A } else { b })
}

/// The name of printer `i`, empty where there is none.
pub open spec fn name_of(printers: Seq<Vec<u8>>, i: int) -> Seq<u8> {
    if 0 <= i < printers.len() {
        printers[i]@
    } else {
        Seq::empty()
    }
}

/// Whether a redraw in `st` at clock `now` paints: an upload shows its
/// progress at most once per poll interval.
pub open spec fn paints(st: StateMachine, now: u64) -> bool {
    match st {
        StateMachine::Uploading { last_update, .. } => now >= last_update + POLL_MS,
        _ => true,
    }
}

/// The grid `g` with the lines of state `st` written over it.
pub open spec fn printer_cells(g: Seq<Char>, printers: Seq<Vec<u8>>, st: StateMachine) -> Seq<Char> {
    match st {
        StateMachine::SelectPrinter { selected } => apply_puts(
            apply_puts(g, rect_puts(Pos { x: 0, y: 1 }, 40, 1, blank())),
            run_puts(Pos { x: 0, y: 1 }, printer_label() + name_of(printers, selected as int), false),
        ),
        StateMachine::Uploading { file, .. } => apply_puts(
            g,
            run_puts(
                Pos { x: 0, y: 1 },
                received_label() + decimal(file@.len()) + bytes_label(),
                false,
            ),
        ),
        StateMachine::Printing { .. } => apply_puts(
            g,
            run_puts(Pos { x: 0, y: 2 }, complete_label(), false),
        ),
    }
}


/// How a key (not escape) moves the printer screen from `a` to `b`, the
/// clock at `now`, with `n` printers; an upload's progress line, when
/// painted, records the clock.
pub open spec fn key_step(a: StateMachine, b: StateMachine, key: u8, now: u64, n: nat) -> bool {
    match (a, b) {
        (StateMachine::SelectPrinter { selected: s }, StateMachine::SelectPrinter { selected: s2 }) => {
            &&& !(key == KEY_ENTER && s < n)
            &&& s2 == (if key == KEY_LEFT {
                if s > 0 {
                    (s - 1) as usize
                } else {
                    0
                }
            } else if key == KEY_RIGHT && s + 1 < n {
                (s + 1) as usize
            } else {
                s
            })
        },
        (
            StateMachine::SelectPrinter { selected: s },
            StateMachine::Uploading { printer, file, last_size, last_update },
        ) => key == KEY_ENTER && s < n && printer == s && file@.len() == 0 && last_size == 0
            && last_update == now,
        (
            StateMachine::Uploading { printer: p, file: f, last_size: l, last_update: u },
            StateMachine::Uploading { printer: p2, file: f2, last_size: l2, last_update: u2 },
        ) => p2 == p && f2@ == f@.push(key) && l2 == l && u2 == (if now >= u + POLL_MS {
            now
        } else {
            u
        }),
        (StateMachine::Printing { printer: p, job_id: j }, StateMachine::Printing { printer: p2, job_id: j2 }) => p2 == p && j2 == j,
        _ => false,
    }
}

/// Whether handling a key (not escape) in `a` at `now` paints the screen.
pub open spec fn key_paints(a: StateMachine, key: u8, now: u64, n: nat) -> bool {
    match a {
        StateMachine::SelectPrinter { selected } => !(key == KEY_ENTER && selected < n),
        StateMachine::Uploading { last_update, .. } => now >= last_update + POLL_MS,
        StateMachine::Printing { .. } => true,
    }
}

/// Whether handling a key (not escape) in `a` starts the polling of an upload.
pub open spec fn key_schedules(a: StateMachine) -> bool {
    match a {
        StateMachine::Uploading { file, .. } => file@.len() == 0,
        _ => false,
    }
}

/// `b` is `a` with `t` inserted somewhere.
pub open spec fn inserted(a: Seq<Timeout>, b: Seq<Timeout>, t: Timeout) -> bool {
    exists|i: int| 0 <= i <= a.len() && b == a.insert(i, t)
}

fn push_decimal(out: &mut Vec<u8>, n: usize)
    ensures
        final(out)@ == old(out)@ + decimal(n as nat),
    decreases n,
{
    if n >= 10 {
        push_decimal(out, n / 10);
    }
    out.push((n % 10) as u8 + 0x30);
    assert(final(out)@ =~= old(out)@ + decimal(n as nat));
}

fn push_all(out: &mut Vec<u8>, s: &[u8])
    ensures
        final(out)@ == old(out)@ + s@,
{
    let mut i: usize = 0;
    while i < s.len()
        invariant
            i <= s@.len(),
            out@ == old(out)@ + s@.take(i as int),
        decreases s@.len() - i,
    {
        out.push(s[i]);
        assert(old(out)@ + s@.take(i + 1) =~= (old(out)@ + s@.take(i as int)).push(s@[i as int]));
        i = i + 1;
    }
    assert(s@.take(i as int) =~= s@);
}

/// What handling `key` does, from screen `p` and session `s0` to screen `q`
/// and session `s1`.
pub open spec fn printer_key_post(p: PrinterModule, q: PrinterModule, s0: State, s1: State, key: u8) -> bool {
    &&& (q.wf())
    &&& (s1.wf())
    &&& (q.printers@ == p.printers@)
    &&& (key == KEY_ESCAPE ==> q == p && s1 == (State { exit: true, ..s0 }))
    &&& (key != KEY_ESCAPE ==> {
        &&& key_step(
            p.state,
            q.state,
            key,
            s0.now,
            p.printers@.len(),
        )
        &&& s1.exit_requested() == s0.exit_requested()
        &&& s1.now == s0.now
        &&& if key_schedules(p.state) {
            inserted(
                s0.timers@,
                s1.timers@,
                Timeout { time: deadline_after(s0.now, POLL_MS), kind: POLL_KIND },
            )
        } else {
            s1.timers@ == s0.timers@
        }
        &&& if key_paints(p.state, key, s0.now, p.printers@.len()) {
            s1.repainted(&s0,
                printer_cells(s0.screen@.cells, p.printers@, q.state),
            )
        } else {
            s1.screen == s0.screen && s1.pending() == s0.pending()
        }
            })
}

/// What a fired timeout tagged `kind` does, from screen `p` and session `s0`
/// to screen `q` and session `s1`, with `cmd` the work handed out.
pub open spec fn printer_callback_post(p: PrinterModule, q: PrinterModule, s0: State, s1: State, kind: u32, cmd: PrinterCommand) -> bool {
    &&& (q.wf())
    &&& (s1.wf())
    &&& (q.printers@ == p.printers@)
    &&& (s1.screen == s0.screen)
    &&& (s1.pending() == s0.pending())
    &&& (s1.exit_requested() == s0.exit_requested())
    &&& (s1.now == s0.now)
    &&& (kind != POLL_KIND ==> q == p && s1.timers@ == s0.timers@ && cmd is Nothing)
    &&& (kind == POLL_KIND ==> match p.state {
        StateMachine::Uploading { printer, file, last_size, last_update } => {
            &&& q.state matches StateMachine::Uploading {
                printer: p2,
                file: f2,
                last_size: l2,
                last_update: u2,
            } && p2 == printer && l2 == file@.len() && u2 == last_update && f2@ == (
            if last_size == file@.len() {
                line_feeds(file@)
            } else {
                file@
            })
            &&& inserted(
                s0.timers@,
                s1.timers@,
                Timeout { time: deadline_after(s0.now, POLL_MS), kind: POLL_KIND },
            )
            &&& if last_size == file@.len() {
                cmd matches PrinterCommand::Print { printer: p, data } && p == printer
                    && data@ == line_feeds(file@)
            } else {
                cmd is Nothing
            }
        },
        StateMachine::Printing { printer, job_id } => {
            &&& q == p
            &&& s1.timers@ == s0.timers@
            &&& cmd == (PrinterCommand::QueryJob { printer, job_id })
        },
        StateMachine::SelectPrinter { .. } => {
            &&& q == p
            &&& s1.timers@ == s0.timers@
            &&& cmd is Nothing
        },
            })
}

/// What the report of job `job_id` does, from screen `p` and session `s0` to
/// screen `q` and session `s1`.
pub open spec fn print_started_post(p: PrinterModule, q: PrinterModule, s0: State, s1: State, job_id: u64) -> bool {
    &&& (q.wf())
    &&& (q.printers@ == p.printers@)
    &&& (match p.state {
        StateMachine::Uploading { printer, .. } => {
            &&& q.state == (StateMachine::Printing { printer, job_id })
            &&& s1.painted(&s0,
                printer_cells(s0.screen@.cells, p.printers@, q.state),
            )
        },
        _ => q == p && s1 == s0,
            })
}

/// What the report of a job's `status` does to the session, from `s0` to
/// `s1`, with screen `p` open; the screen itself stays as it is.
pub open spec fn job_status_post(p: PrinterModule, s0: State, s1: State, status: Option<&[u8]>) -> bool {
    &&& (s1.wf())
    &&& (s1.exit_requested() == s0.exit_requested())
    &&& (s1.now == s0.now)
    &&& (!(p.state is Printing) ==> s1 == s0)
    &&& (p.state is Printing && status is None ==> s1.painted(&s0,
        apply_puts(s0.screen@.cells, run_puts(Pos { x: 0, y: 3 }, success_label(), false)),
            ))
    &&& (p.state is Printing && status is Some ==> {
        &&& s1.repainted(&s0,
            apply_puts(
                s0.screen@.cells,
                run_puts(Pos { x: 0, y: 3 }, status_label() + status.unwrap()@, false),
            ),
        )
        &&& inserted(
            s0.timers@,
            s1.timers@,
            Timeout { time: deadline_after(s0.now, POLL_MS), kind: POLL_KIND },
        )
            })
}

impl PrinterModule {
    pub open spec fn wf(&self) -> bool {
        match self.state {
            StateMachine::SelectPrinter { selected } => selected == 0 || selected
                < self.printers@.len(),
            StateMachine::Uploading { printer, .. } => printer < self.printers@.len(),
            StateMachine::Printing { printer, .. } => printer < self.printers@.len(),
        }
    }

    /// A printer screen over the printers named, the first one selected.
    pub fn new(printers: Vec<Vec<u8>>) -> (r: PrinterModule)
        ensures
            r.wf(),
            r.printers@ == printers@,
            r.state == (StateMachine::SelectPrinter { selected: 0 }),
    {
        PrinterModule { printers, state: StateMachine::SelectPrinter { selected: 0 } }
    }

    /// Paints the screen's lines for its state and flushes; an upload's
    /// progress is painted at most once per poll interval.
    pub fn draw(&mut self, state: &mut State)
        requires
            old(self).wf(),
            old(state).wf(),
        ensures
            final(self).wf(),
            final(self).printers@ == old(self).printers@,
            paints(old(self).state, old(state).now) ==> final(state).painted(
                old(state),
                printer_cells(old(state).screen@.cells, old(self).printers@, old(self).state),
            ),
            !paints(old(self).state, old(state).now) ==> *final(state) == *old(state),
            match (old(self).state, final(self).state) {
                (
                    StateMachine::Uploading { printer: p, file: f, last_size: l, last_update: u },
                    StateMachine::Uploading { printer: p2, file: f2, last_size: l2, last_update: u2 },
                ) => p2 == p && f2@ == f@ && l2 == l && u2 == (if paints(old(self).state, old(state).now) {
                    old(state).now
                } else {
                    u
                }),
                (StateMachine::Uploading { .. }, _) => false,
                (a, b) => a == b,
            },
    {
        let now = state.now;
        match &mut self.state {
            StateMachine::SelectPrinter { selected } => {
                let mut message: Vec<u8> = vec![0x50, 0x72, 0x69, 0x6E, 0x74, 0x65, 0x72, 0x3A, 0x20];
                assert(message@ == printer_label());
                if *selected < self.printers.len() {
                    push_all(&mut message, self.printers[*selected].as_slice());
                }
                assert(message@ =~= printer_label() + name_of(self.printers@, *selected as int));
                state.screen.rect(Pos::new(0, 1), Pos::new(40, 1), Char::from(0x20));
                state.screen.write_string(Pos::new(0, 1), message.as_slice());
                state.draw();
            },
            StateMachine::Uploading { file, last_update, .. } => {
                if now >= *last_update && now - *last_update >= POLL_MS {
                    *last_update = now;
                    let mut message: Vec<u8> = vec![0x52, 0x65, 0x63, 0x65, 0x69, 0x76, 0x65, 0x64, 0x20];
                    push_decimal(&mut message, file.len());
                    let tail: Vec<u8> = vec![0x20, 0x62, 0x79, 0x74, 0x65, 0x73, 0x2E];
                    push_all(&mut message, tail.as_slice());
                    assert(message@ =~= received_label() + decimal(file@.len()) + bytes_label());
                    state.screen.write_string(Pos::new(0, 1), message.as_slice());
                    state.draw();
                }
            },
            StateMachine::Printing { .. } => {
                let message: Vec<u8> = vec![0x55, 0x70, 0x6C, 0x6F, 0x61, 0x64, 0x20, 0x63, 0x6F, 0x6D, 0x70, 0x6C, 0x65, 0x74, 0x65, 0x21];
                assert(message@ == complete_label());
                state.screen.write_string(Pos::new(0, 2), message.as_slice());
                state.draw();
            },
        }
    }

    /// Handles one key: escape asks for the screen to be closed; otherwise
    /// the state moves as `key_step` says (the first byte of an upload starts
    /// its polling) and the screen is redrawn as `draw` does.
    pub fn on_key(&mut self, state: &mut State, key: u8)
        requires
            old(self).wf(),
            old(state).wf(),
        ensures
            printer_key_post(*old(self), *final(self), *old(state), *final(state), key),
    {
        if key == KEY_ESCAPE {
            state.exit();
            return;
        }
        let n = self.printers.len();
        let now = state.now;
        let mut confirmed = false;
        let mut chosen: usize = 0;
        match &mut self.state {
            StateMachine::SelectPrinter { selected } => {
                if key == KEY_LEFT {
                    if *selected > 0 {
                        *selected = *selected - 1;
                    }
                } else if key == KEY_RIGHT {
                    if *selected + 1 < n {
                        *selected = *selected + 1;
                    }
                } else if key == KEY_ENTER && *selected < n {
                    confirmed = true;
                    chosen = *selected;
                }
            },
            StateMachine::Uploading { file, .. } => {
                if file.len() == 0 {
                    state.schedule(POLL_MS, POLL_KIND);
                }
                file.push(key);
            },
            StateMachine::Printing { .. } => {},
        }
        if confirmed {
            self.state = StateMachine::Uploading {
                printer: chosen,
                file: Vec::new(),
                last_size: 0,
                last_update: now,
            };
        }
        self.draw(state);
    }

    /// Handles a fired timeout. Only the polling tag counts. During an
    /// upload the size is compared with the last poll: unchanged, the
    /// document (carriage returns turned into line feeds) is handed out to be
    /// printed; either way the next poll is scheduled. While printing, the
    /// job is to be looked up.
    pub fn callback(&mut self, state: &mut State, kind: u32) -> (cmd: PrinterCommand)
        requires
            old(self).wf(),
            old(state).wf(),
        ensures
            printer_callback_post(*old(self), *final(self), *old(state), *final(state), kind, cmd),
    {
        if kind != POLL_KIND {
            return PrinterCommand::Nothing;
        }
        match &mut self.state {
            StateMachine::Uploading { printer, file, last_size, .. } => {
                let previous = *last_size;
                *last_size = file.len();
                let mut cmd = PrinterCommand::Nothing;
                if previous == file.len() {
                    let ghost original = file@;
                    let mut i: usize = 0;
                    while i < file.len()
                        invariant
                            i <= file@.len(),
                            file@.len() == original.len(),
                            forall|k: int| 0 <= k < i ==> file@[k] == (if original[k] == 0x0D { 0x0Au8 } else { original[k] }),
                            forall|k: int| i <= k < file@.len() ==> file@[k] == original[k],
                        decreases file@.len() - i,
                    {
                        if file[i] == 0x0D {
                            file.set(i, 0x0A);
                        }
                        i = i + 1;
                    }
                    assert(file@ =~= line_feeds(original));
                    let mut data: Vec<u8> = Vec::new();
                    push_all(&mut data, file.as_slice());
                    assert(data@ =~= file@);
                    cmd = PrinterCommand::Print { printer: *printer, data };
                }
                state.schedule(POLL_MS, POLL_KIND);
                cmd
            },
            StateMachine::Printing { printer, job_id } => {
                PrinterCommand::QueryJob { printer: *printer, job_id: *job_id }
            },
            StateMachine::SelectPrinter { .. } => PrinterCommand::Nothing,
        }
    }

    /// Records that the document was handed to the printer as job `job_id`,
    /// and redraws.
    pub fn print_started(&mut self, state: &mut State, job_id: u64)
        requires
            old(self).wf(),
            old(state).wf(),
        ensures
            print_started_post(*old(self), *final(self), *old(state), *final(state), job_id),
    {
        let mut target: Option<usize> = None;
        match &self.state {
            StateMachine::Uploading { printer, .. } => {
                target = Some(*printer);
            },
            _ => {},
        }
        if let Some(printer) = target {
            self.state = StateMachine::Printing { printer, job_id };
            self.draw(state);
        }
    }

    /// Shows what became of the job: gone from the printer's active jobs
    /// (`None`), it has printed; otherwise its status is shown and the next
    /// poll scheduled.
    pub fn job_status(&mut self, state: &mut State, status: Option<&[u8]>)
        requires
            old(self).wf(),
            old(state).wf(),
        ensures
            *final(self) == *old(self),
            job_status_post(*old(self), *old(state), *final(state), status),
    {
        match &self.state {
            StateMachine::Printing { .. } => {},
            _ => {
                return;
            },
        }
        match status {
            None => {
                let message: Vec<u8> = vec![0x50, 0x72, 0x69, 0x6E, 0x74, 0x20, 0x73, 0x75, 0x63, 0x63, 0x65, 0x73, 0x73, 0x66, 0x75, 0x6C];
                assert(message@ == success_label());
                state.screen.write_string(Pos::new(0, 3), message.as_slice());
                state.draw();
            },
            Some(text) => {
                let mut message: Vec<u8> = vec![0x50, 0x72, 0x69, 0x6E, 0x74, 0x20, 0x53, 0x74, 0x61, 0x74, 0x75, 0x73, 0x3A, 0x20];
                push_all(&mut message, text);
                assert(message@ =~= status_label() + text@);
                state.screen.write_string(Pos::new(0, 3), message.as_slice());
                state.draw();
                state.schedule(POLL_MS, POLL_KIND);
            },
        }
    }
}

} // verus!
