//! Per-frame update: a plugin is called once for each frame that the host
//! has shown.

use vstd::prelude::*;
use crate::handler::Handler;
use crate::plugin::Plugin;

verus! {

/// A plugin that does work every frame.
pub trait OnUpdate: Plugin {
    /// The states `post` that `on_update` may leave when it finds `pre`.
    open spec fn update_step(pre: Self, post: Self) -> bool {
        true
    }

    /// Called after the system updates the screen / every frame.
    fn on_update(&mut self)
        ensures
            Self::update_step(*old(self), *final(self)),
    ;

    /// Entry point for the host's frame tick.
    fn ffi_on_update(handler: &mut Handler<Self>)
        requires
            old(handler).is_set(),
        ensures
            final(handler).is_set(),
            Self::update_step(old(handler).value(), final(handler).value()),
    {
        let app = handler.get();
        app.on_update();
    }
}

} // verus!
