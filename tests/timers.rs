use serial_display::state::State;
use serial_display::timers::{Timeout, Timers};

#[test]
fn timeouts_come_out_in_deadline_order() {
    let mut t = Timers::new();
    t.insert(Timeout { time: 30, kind: 3 });
    t.insert(Timeout { time: 10, kind: 1 });
    t.insert(Timeout { time: 20, kind: 2 });
    assert_eq!(t.next_deadline(), Some(10));
    let mut kinds = Vec::new();
    let mut last = 0;
    while let Some(x) = t.pop_due(100) {
        assert!(x.time >= last);
        last = x.time;
        kinds.push(x.kind);
    }
    assert_eq!(kinds, vec![1, 2, 3]);
    assert_eq!(t.next_deadline(), None);
}

#[test]
fn nothing_pops_before_its_deadline() {
    let mut t = Timers::new();
    t.insert(Timeout { time: 50, kind: 0 });
    assert_eq!(t.pop_due(49), None);
    assert_eq!(t.len(), 1);
    assert_eq!(t.pop_due(50), Some(Timeout { time: 50, kind: 0 }));
    assert_eq!(t.len(), 0);
}

#[test]
fn equal_deadlines_keep_scheduling_order() {
    let mut t = Timers::new();
    t.insert(Timeout { time: 5, kind: 1 });
    t.insert(Timeout { time: 5, kind: 2 });
    t.insert(Timeout { time: 1, kind: 0 });
    t.insert(Timeout { time: 5, kind: 3 });
    let kinds: Vec<u32> = std::iter::from_fn(|| t.pop_due(5)).map(|x| x.kind).collect();
    assert_eq!(kinds, vec![0, 1, 2, 3]);
}

#[test]
fn duplicate_kinds_are_kept() {
    let mut s = State::new();
    s.schedule(250, 0);
    s.schedule(250, 0);
    assert_eq!(s.timers.len(), 2);
}

#[test]
fn schedule_counts_from_the_clock() {
    let mut s = State::new();
    s.set_clock(1000);
    s.schedule(250, 7);
    assert_eq!(s.timers.next_deadline(), Some(1250));
    s.set_clock(u64::MAX - 1);
    s.schedule(250, 8);
    assert_eq!(s.timers.pop_due(1250), Some(Timeout { time: 1250, kind: 7 }));
    assert_eq!(s.timers.pop_due(u64::MAX), Some(Timeout { time: u64::MAX, kind: 8 }));
}

#[test]
fn session_starts_with_reset_codes() {
    let mut s = State::new();
    assert_eq!(s.take_output(), vec![0x0C, 0x1B, b'q', 0x1B, b'V', 0x1B, b'Q']);
    assert!(s.take_output().is_empty());
}

#[test]
fn exit_flag_is_read_once() {
    let mut s = State::new();
    assert!(!s.take_exit());
    s.exit();
    assert!(s.take_exit());
    assert!(!s.take_exit());
}

#[test]
fn state_redraw_resends_everything() {
    let mut s = State::new();
    s.take_output();
    s.draw();
    assert!(s.take_output().is_empty());
    s.redraw();
    assert_eq!(s.take_output().len(), 320);
}
