use wupf::{Handler, OnUpdate, Plugin};

struct Frames {
    seen: u64,
    running: bool,
}

impl Plugin for Frames {
    fn on_init() -> Self {
        Frames { seen: 0, running: false }
    }

    fn on_deinit(&mut self) {}

    fn on_start(&mut self) {
        self.running = true;
    }

    fn on_exit(&mut self) {
        self.running = false;
    }
}

impl OnUpdate for Frames {
    fn on_update(&mut self) {
        self.seen += 1;
    }
}

#[test]
fn update_reaches_the_plugin_once_per_tick() {
    let mut handler: Handler<Frames> = Handler::new();
    Frames::ffi_on_init(&mut handler);
    for tick in 1..=60u64 {
        Frames::ffi_on_update(&mut handler);
        assert_eq!(handler.get().seen, tick);
    }
}

#[test]
fn update_sees_the_state_that_the_lifecycle_left() {
    let mut handler: Handler<Frames> = Handler::new();
    Frames::ffi_on_init(&mut handler);
    Frames::ffi_on_start(&mut handler);
    Frames::ffi_on_update(&mut handler);
    assert!(handler.get().running);
    Frames::ffi_on_exit(&mut handler);
    Frames::ffi_on_update(&mut handler);
    assert!(!handler.get().running);
    assert_eq!(handler.get().seen, 2);
}
