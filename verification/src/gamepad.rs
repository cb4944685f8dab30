//! The values that an input callback sees: which controller was read, and
//! the button bits of one input record.

use vstd::prelude::*;

verus! {

/// The controller that an input record was read from.
#[derive(Clone, Copy, Debug, PartialEq, Eq, Structural)]
pub enum Port {
    /// The gamepad with the built-in screen.
    Drc,
    /// A remote controller, by the channel number the host gave.
    Remote(u32),
}

/// The button bits of one input record: one bit per button in each field.
#[derive(Clone, Copy, Debug, PartialEq, Eq, Structural)]
pub struct State {
    /// Buttons held down.
    pub hold: u32,
    /// Buttons pressed since the last record.
    pub trigger: u32,
    /// Buttons released since the last record.
    pub release: u32,
}

/// Whether bit `i` of `bits` is set.
pub open spec fn bit(bits: u32, i: u32) -> bool {
    (bits >> i) & 1 == 1
}

impl State {
    /// This state with every bit cleared that `mask` does not have.
    pub open spec fn masked(self, mask: State) -> State {
        State {
            hold: self.hold & mask.hold,
            trigger: self.trigger & mask.trigger,
            release: self.release & mask.release,
        }
    }

    /// Whether every bit set in this state is also set in `limit`.
    pub open spec fn within(self, limit: State) -> bool {
        &&& self.hold & !limit.hold == 0
        &&& self.trigger & !limit.trigger == 0
        &&& self.release & !limit.release == 0
    }

    /// Combines the state that a callback returned into this one: a bit
    /// stays set only if the callback kept it. The callback can clear bits
    /// and cannot set one that was clear.
    pub fn merge(&mut self, returned: State)
        ensures
            *final(self) == old(self).masked(returned),
            final(self).within(*old(self)),
            final(self).within(returned),
    {
        proof {
            lemma_masked_within(*self, returned);
        }
        self.hold = self.hold & returned.hold;
        self.trigger = self.trigger & returned.trigger;
        self.release = self.release & returned.release;
    }
}

/// Bit by bit, `b & r` has exactly the bits that both `b` and `r` have.
pub proof fn lemma_and_bitwise(b: u32, r: u32)
    ensures
        forall|i: u32| i < 32 ==> (#[trigger] bit(b & r, i) <==> bit(b, i) && bit(r, i)),
        (b & r) & !b == 0,
        (b & r) & !r == 0,
{
    assert forall|i: u32| i < 32 implies (#[trigger] bit(b & r, i) <==> bit(b, i) && bit(r, i)) by {
        assert(i < 32 ==> ((((b & r) >> i) & 1 == 1) <==> ((b >> i) & 1 == 1) && ((r >> i) & 1
            == 1))) by (bit_vector);
    }
    assert((b & r) & !b == 0) by (bit_vector);
    assert((b & r) & !r == 0) by (bit_vector);
}

/// Every state lies within itself.
pub proof fn lemma_within_self(state: State)
    ensures
        state.within(state),
{
    let h = state.hold;
    let t = state.trigger;
    let r = state.release;
    assert(h & !h == 0) by (bit_vector);
    assert(t & !t == 0) by (bit_vector);
    assert(r & !r == 0) by (bit_vector);
}

/// The merge is a mask: in every field, the merged state has a bit exactly
/// where both the state that was read and the returned state have it, so it
/// lies within each of them.
pub proof fn lemma_masked_within(read: State, returned: State)
    ensures
        read.masked(returned).within(read),
        read.masked(returned).within(returned),
        forall|i: u32|
            i < 32 ==> (#[trigger] bit(read.masked(returned).hold, i) <==> bit(read.hold, i)
                && bit(returned.hold, i)),
        forall|i: u32|
            i < 32 ==> (#[trigger] bit(read.masked(returned).trigger, i) <==> bit(
                read.trigger,
                i,
            ) && bit(returned.trigger, i)),
        forall|i: u32|
            i < 32 ==> (#[trigger] bit(read.masked(returned).release, i) <==> bit(
                read.release,
                i,
            ) && bit(returned.release, i)),
{
    lemma_and_bitwise(read.hold, returned.hold);
    lemma_and_bitwise(read.trigger, returned.trigger);
    lemma_and_bitwise(read.release, returned.release);
}

} // verus!
