//! The lifecycle contract: what a plugin provides, and the entry points that
//! carry a host event to it.

use vstd::prelude::*;
use crate::handler::{set_model, Handler};

verus! {

/// A plugin: the four lifecycle callbacks, each with the relation that says
/// which states it may leave behind.
///
/// A relation that a plugin does not state for itself holds of every state,
/// so that callback then promises nothing.
pub trait Plugin: Sized {
    /// The states that `on_init` may build.
    open spec fn initial(app: Self) -> bool {
        true
    }

    /// The states `post` that `on_deinit` may leave when it finds `pre`.
    open spec fn deinit_step(pre: Self, post: Self) -> bool {
        true
    }

    /// The states `post` that `on_start` may leave when it finds `pre`.
    open spec fn start_step(pre: Self, post: Self) -> bool {
        true
    }

    /// The states `post` that `on_exit` may leave when it finds `pre`.
    open spec fn exit_step(pre: Self, post: Self) -> bool {
        true
    }

    /// Called when plugin is initialized / loaded.
    ///
    /// The value returned is used as initial state of the plugin.
    fn on_init() -> (app: Self)
        ensures
            Self::initial(app),
    ;

    /// Called when plugin is deinitialized / unloaded.
    fn on_deinit(&mut self)
        ensures
            Self::deinit_step(*old(self), *final(self)),
    ;

    /// Called when an application is started.
    fn on_start(&mut self)
        ensures
            Self::start_step(*old(self), *final(self)),
    ;

    /// Called when an application is exited.
    fn on_exit(&mut self)
        ensures
            Self::exit_step(*old(self), *final(self)),
    ;

    /// Entry point for the host's initialization event: builds the state
    /// with `on_init` and installs it, unless a state is installed already.
    fn ffi_on_init(handler: &mut Handler<Self>)
        ensures
            final(handler).is_set(),
            exists|app: Self| #[trigger]
                Self::initial(app) && final(handler)@ == set_model(old(handler)@, app),
    {
        let app = Self::on_init();
        let ghost built = app;
        handler.set(app);
        assert(Self::initial(built) && handler@ == set_model(old(handler)@, built));
    }

    /// Entry point for the host's deinitialization event.
    fn ffi_on_deinit(handler: &mut Handler<Self>)
        requires
            old(handler).is_set(),
        ensures
            final(handler).is_set(),
            Self::deinit_step(old(handler).value(), final(handler).value()),
    {
        let app = handler.get();
        app.on_deinit();
    }

    /// Entry point for the host's event that an application starts.
    fn ffi_on_start(handler: &mut Handler<Self>)
        requires
            old(handler).is_set(),
        ensures
            final(handler).is_set(),
            Self::start_step(old(handler).value(), final(handler).value()),
    {
        let app = handler.get();
        app.on_start();
    }

    /// Entry point for the host's event that an application asks to exit.
    fn ffi_on_exit(handler: &mut Handler<Self>)
        requires
            old(handler).is_set(),
        ensures
            final(handler).is_set(),
            Self::exit_step(old(handler).value(), final(handler).value()),
    {
        let app = handler.get();
        app.on_exit();
    }
}

/// Whether `after` is a handler as `ffi_on_init` leaves it when it finds
/// `before`: `set` was called once, with a state that `on_init` built.
pub open spec fn init_step<A: Plugin>(before: Handler<A>, after: Handler<A>) -> bool {
    exists|app: A| #[trigger] A::initial(app) && after@ == set_model(before@, app)
}

/// Whether `slots` is a run of initializations: each handler follows from
/// the one before it as `ffi_on_init` leaves it.
pub open spec fn init_run<A: Plugin>(slots: Seq<Handler<A>>) -> bool {
    forall|i: int| 0 <= i < slots.len() - 1 ==> #[trigger] init_step(slots[i], slots[i + 1])
}

/// However often the host signals initialization, the plugin is installed
/// once: after the first signal the handler holds a state that `on_init`
/// built, and after every later one it holds that same state.
pub proof fn lemma_init_repeats<A: Plugin>(slots: Seq<Handler<A>>)
    requires
        slots.len() >= 2,
        !slots[0].is_set(),
        init_run(slots),
    ensures
        slots[1].is_set(),
        A::initial(slots[1].value()),
        forall|i: int| 1 <= i < slots.len() ==> (#[trigger] slots[i])@ == slots[1]@,
{
    let first: int = 0;
    assert(init_step(slots[first], slots[first + 1]));
    assert forall|i: int| 1 <= i < slots.len() implies (#[trigger] slots[i])@ == slots[1]@ by {
        lemma_init_keeps(slots, i);
    }
}

proof fn lemma_init_keeps<A: Plugin>(slots: Seq<Handler<A>>, i: int)
    requires
        1 <= i < slots.len(),
        !slots[0].is_set(),
        init_run(slots),
    ensures
        slots[i]@ == slots[1]@,
        slots[i].is_set(),
    decreases i,
{
    assert(init_step(slots[i - 1], slots[i - 1 + 1]));
    if i > 1 {
        lemma_init_keeps(slots, i - 1);
    }
}

/// Whether `after` is a handler as a call of `ffi_on_start` (for an even
/// `step`) or of `ffi_on_exit` (for an odd `step`) may leave it when it
/// finds `before`. Of a call on a handler that holds no state, which the
/// entry point does not allow, nothing is known.
pub open spec fn session_step<A: Plugin>(step: int, before: Handler<A>, after: Handler<A>) -> bool {
    before.is_set() ==> {
        &&& after.is_set()
        &&& if step % 2 == 0 {
            A::start_step(before.value(), after.value())
        } else {
            A::exit_step(before.value(), after.value())
        }
    }
}

/// Whether `slots` is a run of sessions: a start, an end, a start, an end
/// and so on, each call on the handler as the call before it left it.
pub open spec fn session_run<A: Plugin>(slots: Seq<Handler<A>>) -> bool {
    forall|i: int|
        0 <= i < slots.len() - 1 ==> #[trigger] session_step(i, slots[i], slots[i + 1])
}

/// Sessions may start and end any number of times after one
/// initialization: if the first handler of a run of sessions holds a state,
/// every handler of the run holds one. So each entry point of the run is
/// called as it requires, on the state that the call before it left.
pub proof fn lemma_sessions_repeat<A: Plugin>(slots: Seq<Handler<A>>)
    requires
        slots.len() >= 1,
        slots[0].is_set(),
        session_run(slots),
    ensures
        forall|i: int| 0 <= i < slots.len() ==> (#[trigger] slots[i]).is_set(),
{
    assert forall|i: int| 0 <= i < slots.len() implies (#[trigger] slots[i]).is_set() by {
        lemma_session_keeps(slots, i);
    }
}

proof fn lemma_session_keeps<A: Plugin>(slots: Seq<Handler<A>>, i: int)
    requires
        0 <= i < slots.len(),
        slots[0].is_set(),
        session_run(slots),
    ensures
        slots[i].is_set(),
    decreases i,
{
    if i > 0 {
        lemma_session_keeps(slots, i - 1);
        assert(session_step(i - 1, slots[i - 1], slots[i - 1 + 1]));
    }
}

} // verus!
