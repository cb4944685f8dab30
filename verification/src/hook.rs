//! Hook composition: a plugin entry point that is chained after a function
//! of the host runs once that function has done its work, and the host gets
//! that function's status back as it was.

use vstd::prelude::*;

verus! {

/// Runs `hooked` on `buffer`, then `plugin` on what `hooked` left, and
/// returns the status of `hooked` beside what `plugin` left.
///
/// `hooked` stands for the host's own function, `buffer` for what that
/// function fills, and `plugin` for the entry point chained after it. The
/// plugin never sees the buffer before the host's function is done, and has
/// no say in the status.
pub fn chain_after<B, S, F, G>(buffer: B, hooked: F, plugin: G) -> (res: (S, B)) where
    F: FnOnce(B) -> (S, B),
    G: FnOnce(B) -> B,

    requires
        call_requires(hooked, (buffer,)),
        forall|status: S, filled: B| #[trigger]
            call_ensures(hooked, (buffer,), (status, filled)) ==> call_requires(
                plugin,
                (filled,),
            ),
    ensures
        exists|filled: B| #[trigger]
            call_ensures(hooked, (buffer,), (res.0, filled)) && call_ensures(
                plugin,
                (filled,),
                res.1,
            ),
{
    let (status, filled) = hooked(buffer);
    let ghost seen = filled;
    let res = (status, plugin(filled));
    assert(call_ensures(hooked, (buffer,), (res.0, seen)) && call_ensures(
        plugin,
        (seen,),
        res.1,
    ));
    res
}

} // verus!
