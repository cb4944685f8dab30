//! Input interception: a plugin sees each input record that the host has
//! read and answers with the bits it lets through.

use vstd::prelude::*;
use crate::gamepad::{Port, State};
use crate::handler::Handler;
use crate::plugin::Plugin;

verus! {

/// A plugin that looks at controller input.
pub trait OnInput: Plugin {
    /// The states `post` and answers `returned` that `on_input` may give
    /// when it finds `pre` and is handed `port` and `state`.
    open spec fn input_step(pre: Self, port: Port, state: State, post: Self, returned: State)
        -> bool {
        true
    }

    /// Called when the system reads the controller input.
    ///
    /// Can be called multiple times per frame.
    ///
    /// The value returned masks the controller input for the system: a
    /// button that it leaves out is hidden from the system.
    fn on_input(&mut self, port: Port, state: State) -> (returned: State)
        ensures
            Self::input_step(*old(self), port, state, *final(self), returned),
    ;

    /// Entry point for a read of the gamepad with the built-in screen.
    ///
    /// `buffer` is the record that the host read and `error` says whether
    /// the host reported the read as failed. After a failed read nothing is
    /// touched. Otherwise the plugin is asked once, as port `Drc`, and its
    /// answer is merged into the record.
    fn ffi_on_vpad(handler: &mut Handler<Self>, buffer: &mut State, error: bool)
        requires
            !error ==> old(handler).is_set(),
        ensures
            error ==> final(handler)@ == old(handler)@ && *final(buffer) == *old(buffer),
            !error ==> final(handler).is_set() && exists|returned: State| #[trigger]
                Self::input_step(
                    old(handler).value(),
                    Port::Drc,
                    *old(buffer),
                    final(handler).value(),
                    returned,
                ) && *final(buffer) == old(buffer).masked(returned),
            final(buffer).within(*old(buffer)),
    {
        if error {
            proof {
                crate::gamepad::lemma_within_self(*buffer);
            }
            return;
        }
        let app = handler.get();
        let returned = app.on_input(Port::Drc, *buffer);
        buffer.merge(returned);
        assert(Self::input_step(
            old(handler).value(),
            Port::Drc,
            *old(buffer),
            handler.value(),
            returned,
        ));
    }

    /// Entry point for a read of a remote controller on channel `chan`.
    ///
    /// `data` is the record that the host read and `error` says whether the
    /// host reported the read as failed. After a failed read nothing is
    /// touched. Otherwise the plugin is asked once, as port `Remote(chan)`,
    /// and its answer is merged into the record.
    fn ffi_on_kpad(handler: &mut Handler<Self>, chan: u32, data: &mut State, error: bool)
        requires
            !error ==> old(handler).is_set(),
        ensures
            error ==> final(handler)@ == old(handler)@ && *final(data) == *old(data),
            !error ==> final(handler).is_set() && exists|returned: State| #[trigger]
                Self::input_step(
                    old(handler).value(),
                    Port::Remote(chan),
                    *old(data),
                    final(handler).value(),
                    returned,
                ) && *final(data) == old(data).masked(returned),
            final(data).within(*old(data)),
    {
        if error {
            proof {
                crate::gamepad::lemma_within_self(*data);
            }
            return;
        }
        let app = handler.get();
        let returned = app.on_input(Port::Remote(chan), *data);
        data.merge(returned);
        assert(Self::input_step(
            old(handler).value(),
            Port::Remote(chan),
            *old(data),
            handler.value(),
            returned,
        ));
    }
}

} // verus!
