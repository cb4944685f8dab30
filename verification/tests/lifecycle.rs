use std::sync::atomic::{AtomicU32, Ordering};
use wupf::{Handler, Plugin};

#[derive(Debug, PartialEq)]
struct Counter {
    starts: u32,
    exits: u32,
    deinits: u32,
}

impl Plugin for Counter {
    fn on_init() -> Self {
        Counter { starts: 0, exits: 0, deinits: 0 }
    }

    fn on_deinit(&mut self) {
        self.deinits += 1;
    }

    fn on_start(&mut self) {
        self.starts += 1;
    }

    fn on_exit(&mut self) {
        self.exits += 1;
    }
}

static BUILT: AtomicU32 = AtomicU32::new(0);

/// A plugin whose every construction is told apart from the others.
#[derive(Debug, PartialEq)]
struct Numbered {
    serial: u32,
}

impl Plugin for Numbered {
    fn on_init() -> Self {
        Numbered { serial: BUILT.fetch_add(1, Ordering::SeqCst) + 1 }
    }

    fn on_deinit(&mut self) {}

    fn on_start(&mut self) {}

    fn on_exit(&mut self) {}
}

#[test]
fn init_installs_the_state_that_on_init_built() {
    let mut handler: Handler<Counter> = Handler::new();
    assert!(!handler.is_set());
    Counter::ffi_on_init(&mut handler);
    assert!(handler.is_set());
    assert_eq!(*handler.get(), Counter { starts: 0, exits: 0, deinits: 0 });
}

#[test]
fn repeated_init_keeps_the_first_state() {
    let mut handler: Handler<Numbered> = Handler::new();
    Numbered::ffi_on_init(&mut handler);
    let first = handler.get().serial;
    for _ in 0..5 {
        Numbered::ffi_on_init(&mut handler);
        assert_eq!(handler.get().serial, first);
    }
    assert!(BUILT.load(Ordering::SeqCst) >= first + 5);
}

#[test]
fn repeated_init_does_not_reset_the_state() {
    let mut handler: Handler<Counter> = Handler::new();
    Counter::ffi_on_init(&mut handler);
    Counter::ffi_on_start(&mut handler);
    Counter::ffi_on_init(&mut handler);
    assert_eq!(*handler.get(), Counter { starts: 1, exits: 0, deinits: 0 });
}

#[test]
fn start_and_exit_reach_the_plugin() {
    let mut handler: Handler<Counter> = Handler::new();
    Counter::ffi_on_init(&mut handler);
    Counter::ffi_on_start(&mut handler);
    assert_eq!(*handler.get(), Counter { starts: 1, exits: 0, deinits: 0 });
    Counter::ffi_on_exit(&mut handler);
    assert_eq!(*handler.get(), Counter { starts: 1, exits: 1, deinits: 0 });
}

#[test]
fn sessions_repeat_without_a_new_init() {
    let mut handler: Handler<Counter> = Handler::new();
    Counter::ffi_on_init(&mut handler);
    for session in 1..=20 {
        Counter::ffi_on_start(&mut handler);
        assert!(handler.is_set());
        assert_eq!(handler.get().starts, session);
        assert_eq!(handler.get().exits, session - 1);
        Counter::ffi_on_exit(&mut handler);
        assert!(handler.is_set());
        assert_eq!(handler.get().exits, session);
    }
    assert_eq!(*handler.get(), Counter { starts: 20, exits: 20, deinits: 0 });
}

#[test]
fn deinit_runs_on_the_installed_state_and_leaves_it_in_place() {
    let mut handler: Handler<Counter> = Handler::new();
    Counter::ffi_on_init(&mut handler);
    Counter::ffi_on_start(&mut handler);
    Counter::ffi_on_deinit(&mut handler);
    assert!(handler.is_set());
    assert_eq!(*handler.get(), Counter { starts: 1, exits: 0, deinits: 1 });
}

#[test]
fn deinit_may_come_between_sessions() {
    let mut handler: Handler<Counter> = Handler::new();
    Counter::ffi_on_init(&mut handler);
    Counter::ffi_on_start(&mut handler);
    Counter::ffi_on_exit(&mut handler);
    Counter::ffi_on_deinit(&mut handler);
    assert_eq!(*handler.get(), Counter { starts: 1, exits: 1, deinits: 1 });
}
