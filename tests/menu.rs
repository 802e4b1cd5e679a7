use serial_display::chat::{ChatGpt, Role};
use serial_display::keyboard::{KeyStroke, KeyboardModule};
use serial_display::menu::{Command, Menu, Module};
use serial_display::printer::{PrinterCommand, PrinterModule, StateMachine};
use serial_display::screen::{Char, Pos, Screen, HEIGHT, WIDTH};
use serial_display::state::State;

fn same_cells(a: &Screen, b: &Screen) -> bool {
    for y in 0..HEIGHT {
        for x in 0..WIDTH {
            if a.get(Pos::new(x, y)) != b.get(Pos::new(x, y)) {
                return false;
            }
        }
    }
    true
}

fn row_text(s: &Screen, y: usize, from: usize, len: usize) -> Vec<u8> {
    (from..from + len).map(|x| s.get(Pos::new(x, y)).unwrap().glyph).collect()
}

fn fresh_menu_screen(selection: u8) -> State {
    let mut st = State::new();
    let mut m = Menu::new();
    m.selection = selection;
    m.draw(&mut st);
    st
}

#[test]
fn menu_draws_selected_entry_inverted_between_marks() {
    let mut st = State::new();
    let m = Menu::new();
    m.init(&mut st);
    assert_eq!(row_text(&st.screen, 1, 14, 12), b"> Chat-GPT <".to_vec());
    assert_eq!(st.screen.get(Pos::new(16, 1)), Some(Char { glyph: b'C', inverted: true }));
    assert_eq!(row_text(&st.screen, 2, 17, 7), b"Printer".to_vec());
    assert_eq!(st.screen.get(Pos::new(17, 2)), Some(Char { glyph: b'P', inverted: false }));
    assert_eq!(row_text(&st.screen, 3, 18, 4), b"Exit".to_vec());
}

#[test]
fn menu_selection_saturates() {
    let mut st = State::new();
    let mut m = Menu::new();
    m.on_key(&mut st, 0x1E);
    assert_eq!(m.selection, 0);
    for _ in 0..5 {
        m.on_key(&mut st, 0x1F);
    }
    assert_eq!(m.selection, 2);
    assert!(matches!(m.on_key(&mut st, 0x0D), Command::Nothing));
    assert!(m.module.is_none());
    let expected = fresh_menu_screen(2);
    assert!(same_cells(&st.screen, &expected.screen));
}

#[test]
fn menu_round_trip_through_chat() {
    let mut st = State::new();
    let mut m = Menu::new();
    m.init(&mut st);
    assert!(matches!(m.on_key(&mut st, 0x0D), Command::Nothing));
    assert!(matches!(m.module, Some(Module::Chat(_))));
    assert_eq!(st.screen.get(Pos::new(0, 0)).unwrap().glyph, 0xF0);
    assert_eq!(row_text(&st.screen, 0, 15, 10), b" CHAT-GPT ".to_vec());
    assert!(matches!(m.on_key(&mut st, 0x1B), Command::Nothing));
    assert!(m.module.is_none());
    assert_eq!(m.selection, 0);
    let expected = fresh_menu_screen(0);
    assert!(same_cells(&st.screen, &expected.screen));
    assert!(!st.take_exit());
    st.take_output();
    st.draw();
    assert!(st.take_output().is_empty());
}

#[test]
fn timeout_closes_a_screen_that_asked_to_close() {
    let mut st = State::new();
    let mut m = Menu::new();
    m.init(&mut st);
    m.on_key(&mut st, 0x0D);
    assert!(matches!(m.callback(&mut st, 0), Command::Nothing));
    assert!(matches!(m.module, Some(Module::Chat(_))));
    st.exit();
    assert!(matches!(m.callback(&mut st, 0), Command::Nothing));
    assert!(m.module.is_none());
    assert!(!st.take_exit());
    let expected = fresh_menu_screen(0);
    assert!(same_cells(&st.screen, &expected.screen));
}

#[test]
fn timeout_reaches_the_printer_screen() {
    let mut st = State::new();
    let mut m = Menu::new();
    m.open_printer(&mut st, vec![b"lp0".to_vec()]);
    m.on_key(&mut st, 0x0D);
    m.on_key(&mut st, b'a');
    st.set_clock(250);
    assert!(matches!(m.callback(&mut st, 0), Command::Printer(PrinterCommand::Nothing)));
    match m.callback(&mut st, 0) {
        Command::Printer(PrinterCommand::Print { printer, data }) => {
            assert_eq!(printer, 0);
            assert_eq!(data, b"a".to_vec());
        }
        _ => panic!("expected a print job"),
    }
    assert!(matches!(m.module, Some(Module::Printer(_))));
}

#[test]
fn redraw_key_resends_every_cell() {
    let mut st = State::new();
    let mut m = Menu::new();
    m.init(&mut st);
    st.take_output();
    assert!(matches!(m.on_key(&mut st, 0x12), Command::Nothing));
    let out = st.take_output();
    assert!(out.len() >= 320);
    m.on_key(&mut st, 0x0D);
    st.take_output();
    m.on_key(&mut st, 0x12);
    assert!(matches!(m.module, Some(Module::Chat(_))));
    assert!(st.take_output().len() >= 320);
}

#[test]
fn chat_prompt_editing() {
    let mut st = State::new();
    let mut c = ChatGpt::new();
    c.init(&mut st);
    assert!(!c.on_key(&mut st, b'h'));
    assert!(!c.on_key(&mut st, b'i'));
    assert_eq!(c.prompt, b">hi".to_vec());
    assert_eq!(row_text(&st.screen, 6, 0, 3), b">hi".to_vec());
    assert_eq!(st.screen.get(Pos::new(3, 6)).unwrap().glyph, 0xE9);
    assert!(!c.on_key(&mut st, 0x08));
    assert!(!c.on_key(&mut st, 0x08));
    assert!(!c.on_key(&mut st, 0x08));
    assert_eq!(c.prompt, b">".to_vec());
}

#[test]
fn chat_enter_moves_prompt_into_history() {
    let mut st = State::new();
    let mut c = ChatGpt::new();
    c.on_key(&mut st, b'h');
    c.on_key(&mut st, b'i');
    assert!(c.on_key(&mut st, 0x0D));
    assert_eq!(c.prompt, b">".to_vec());
    assert_eq!(c.messages.len(), 1);
    assert_eq!(c.messages[0].role, Role::User);
    assert_eq!(c.messages[0].content, b"hi".to_vec());
    c.receive(&mut st, b"Hello ");
    c.receive(&mut st, b"there");
    assert_eq!(c.response, b"Hello there".to_vec());
    assert_eq!(row_text(&st.screen, 1, 1, 11), b"Hello there".to_vec());
    c.on_key(&mut st, b'x');
    assert!(c.on_key(&mut st, 0x0D));
    assert_eq!(c.messages.len(), 3);
    assert_eq!(c.messages[1].role, Role::Assistant);
    assert_eq!(c.messages[1].content, b"Hello there".to_vec());
    assert_eq!(c.messages[2].content, b"x".to_vec());
    assert!(c.response.is_empty());
}

#[test]
fn chat_prompt_line_shows_the_tail() {
    let mut st = State::new();
    let mut c = ChatGpt::new();
    for _ in 0..45 {
        c.on_key(&mut st, b'a');
    }
    assert_eq!(row_text(&st.screen, 6, 0, 39), vec![b'a'; 39]);
    assert_eq!(st.screen.get(Pos::new(39, 6)).unwrap().glyph, 0xE9);
}

#[test]
fn chat_escape_requests_exit() {
    let mut st = State::new();
    let mut c = ChatGpt::new();
    assert!(!c.on_key(&mut st, 0x1B));
    assert!(st.take_exit());
}

#[test]
fn printer_selection_and_upload() {
    let mut st = State::new();
    let mut m = Menu::new();
    m.on_key(&mut st, 0x1F);
    assert!(matches!(m.on_key(&mut st, 0x0D), Command::ListPrinters));
    m.open_printer(&mut st, vec![b"lp0".to_vec(), b"lp1".to_vec()]);
    assert_eq!(row_text(&st.screen, 1, 0, 12), b"Printer: lp0".to_vec());
    m.on_key(&mut st, 0x1C);
    assert_eq!(row_text(&st.screen, 1, 0, 12), b"Printer: lp1".to_vec());
    m.on_key(&mut st, 0x1C);
    m.on_key(&mut st, 0x0D);
    for b in b"a\rb" {
        m.on_key(&mut st, *b);
    }
    assert_eq!(st.timers.len(), 1);
    st.set_clock(250);
    let due = st.timers.pop_due(250).unwrap();
    assert!(matches!(m.callback(&mut st, due.kind), Command::Printer(PrinterCommand::Nothing)));
    st.set_clock(500);
    let due = st.timers.pop_due(500).unwrap();
    match m.callback(&mut st, due.kind) {
        Command::Printer(PrinterCommand::Print { printer, data }) => {
            assert_eq!(printer, 1);
            assert_eq!(data, b"a\nb".to_vec());
        }
        _ => panic!("expected a print job"),
    }
    m.print_started(&mut st, 7);
    assert_eq!(row_text(&st.screen, 2, 0, 16), b"Upload complete!".to_vec());
    st.set_clock(750);
    let due = st.timers.pop_due(750).unwrap();
    assert!(matches!(
        m.callback(&mut st, due.kind),
        Command::Printer(PrinterCommand::QueryJob { printer: 1, job_id: 7 })
    ));
    m.job_status(&mut st, Some(b"Processing"));
    assert_eq!(row_text(&st.screen, 3, 0, 24), b"Print Status: Processing".to_vec());
    assert_eq!(st.timers.len(), 1);
    m.job_status(&mut st, None);
    assert_eq!(row_text(&st.screen, 3, 0, 16), b"Print successful".to_vec());
}

#[test]
fn printer_progress_line_counts_bytes() {
    let mut st = State::new();
    let mut p = PrinterModule::new(vec![b"lp".to_vec()]);
    p.on_key(&mut st, 0x0D);
    assert!(matches!(p.state, StateMachine::Uploading { .. }));
    for _ in 0..12 {
        p.on_key(&mut st, b'z');
    }
    st.set_clock(300);
    p.on_key(&mut st, b'z');
    assert_eq!(row_text(&st.screen, 1, 0, 18), b"Received 13 bytes.".to_vec());
}

#[test]
fn printer_ignores_other_timeouts() {
    let mut st = State::new();
    let mut p = PrinterModule::new(vec![b"lp".to_vec()]);
    assert!(matches!(p.callback(&mut st, 5), PrinterCommand::Nothing));
    assert!(matches!(p.callback(&mut st, 0), PrinterCommand::Nothing));
}

#[test]
fn keyboard_maps_bytes_to_strokes() {
    let mut st = State::new();
    let mut k = KeyboardModule::new();
    k.init(&mut st);
    assert_eq!(row_text(&st.screen, 0, 0, 14), b"Keyboard mode.".to_vec());
    assert_eq!(k.on_key(&mut st, 3), Some(KeyStroke::Control(b'c')));
    assert_eq!(k.on_key(&mut st, 26), Some(KeyStroke::Control(b'z')));
    assert_eq!(k.on_key(&mut st, 8), Some(KeyStroke::Unicode(8)));
    assert_eq!(k.on_key(&mut st, 0x1B), Some(KeyStroke::Escape));
    assert_eq!(k.on_key(&mut st, 0x1D), Some(KeyStroke::LeftArrow));
    assert_eq!(k.on_key(&mut st, 0x1C), Some(KeyStroke::RightArrow));
    assert_eq!(k.on_key(&mut st, 0x1E), Some(KeyStroke::UpArrow));
    assert_eq!(k.on_key(&mut st, 0x1F), Some(KeyStroke::DownArrow));
    assert_eq!(k.on_key(&mut st, b'x'), Some(KeyStroke::Unicode(b'x')));
    assert!(!st.take_exit());
    assert_eq!(k.on_key(&mut st, 0x93), None);
    assert!(st.take_exit());
}
