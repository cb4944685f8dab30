//! The slot that holds the single instance of application state.

use vstd::prelude::*;

verus! {

/// Plugin handler.
///
/// Holds the state of the plugin: empty until the first `set`, and holding
/// that first value ever after.
pub struct Handler<P> {
    inner: Option<P>,
}

impl<P> View for Handler<P> {
    type V = Option<P>;

    closed spec fn view(&self) -> Option<P> {
        self.inner
    }
}

impl<P> Handler<P> {
    /// Whether a value has been installed.
    pub open spec fn spec_is_set(&self) -> bool {
        self@ is Some
    }

    /// The installed value; meaningful only when `spec_is_set()`.
    pub open spec fn value(&self) -> P {
        self@->0
    }

    /// Create new plugin handler, holding nothing.
    pub fn new() -> (h: Self)
        ensures
            h@ is None,
    {
        Handler { inner: None }
    }

    /// Whether a value has been installed.
    #[verifier::when_used_as_spec(spec_is_set)]
    pub fn is_set(&self) -> (b: bool)
        ensures
            b == self.spec_is_set(),
    {
        self.inner.is_some()
    }

    /// Installs `p` if the handler is empty; otherwise drops `p` and leaves
    /// the handler as it was.
    pub fn set(&mut self, p: P)
        ensures
            final(self)@ == set_model(old(self)@, p),
    {
        if self.inner.is_none() {
            self.inner = Some(p);
        }
    }

    /// Exclusive access to the installed value.
    pub fn get(&mut self) -> (app: &mut P)
        requires
            old(self).is_set(),
        ensures
            *app == old(self).value(),
            final(self)@ == Some(*final(app)),
    {
        match &mut self.inner {
            Some(p) => p,
            None => vstd::pervasive::unreached(),
        }
    }
}

/// What a slot holds after `set` of `p`: the first writer wins.
pub open spec fn set_model<P>(slot: Option<P>, p: P) -> Option<P> {
    if slot is Some {
        slot
    } else {
        Some(p)
    }
}

/// What a slot holds after `set` of each of `values`, first to last.
pub open spec fn set_all<P>(slot: Option<P>, values: Seq<P>) -> Option<P>
    decreases values.len(),
{
    if values.len() == 0 {
        slot
    } else {
        set_all(set_model(slot, values[0]), values.skip(1))
    }
}

/// How many of those `set`s found the slot empty and installed their value.
pub open spec fn installs<P>(slot: Option<P>, values: Seq<P>) -> nat
    decreases values.len(),
{
    if values.len() == 0 {
        0
    } else {
        let here: nat = if slot is None {
            1
        } else {
            0
        };
        here + installs(set_model(slot, values[0]), values.skip(1))
    }
}

/// Once a slot holds a value, no number of further `set`s changes it, and
/// none of them installs anything.
pub proof fn lemma_set_is_discarded<P>(slot: Option<P>, values: Seq<P>)
    requires
        slot is Some,
    ensures
        set_all(slot, values) == slot,
        installs(slot, values) == 0,
    decreases values.len(),
{
    if values.len() > 0 {
        lemma_set_is_discarded(set_model(slot, values[0]), values.skip(1));
    }
}

/// Of one or more `set`s on an empty slot exactly one installs its value,
/// and the slot then holds the value of the first.
pub proof fn lemma_first_set_wins<P>(values: Seq<P>)
    requires
        values.len() >= 1,
    ensures
        set_all(None, values) == Some(values[0]),
        installs(None::<P>, values) == 1,
{
    lemma_set_is_discarded(Some(values[0]), values.skip(1));
}

} // verus!
