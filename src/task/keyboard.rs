//! Line editing and hook registration for keyboard input.
use vstd::prelude::*;

verus! {

/// Callbacks run on every key without a character, in the order they were registered
/// (`F` is the callback type, a plain `fn()` in the kernel).
pub struct KeyboardHooks<F> {
    pub hooks: Vec<F>,
}

impl<F> KeyboardHooks<F> {
    /// No hooks.
    pub fn new() -> (r: KeyboardHooks<F>)
        ensures
            r.hooks@.len() == 0,
    {
        KeyboardHooks { hooks: Vec::new() }
    }

    /// Adds `hook` after the ones already registered.
    pub fn register(&mut self, hook: F)
        ensures
            final(self).hooks@ == old(self).hooks@.push(hook),
    {
        self.hooks.push(hook);
    }
}

/// The line without its last byte: what a backspace leaves.
pub fn rmvec(v: Vec<u8>) -> (r: Vec<u8>)
    requires
        v@.len() > 0,
    ensures
        r@ == v@.drop_last(),
{
    let mut i: usize = 0;
    let mut buf: Vec<u8> = Vec::new();
    while i < v.len() - 1
        invariant
            v@.len() > 0,
            i <= v@.len() - 1,
            buf@ == v@.subrange(0, i as int),
        decreases v@.len() - 1 - i,
    {
        buf.push(v[i]);
        i = i + 1;
    }
    assert(buf@ =~= v@.drop_last());
    buf
}

} // verus!
