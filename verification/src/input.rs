//! Keyboard input state shared with the presentation layer: a queue of
//! single-byte key codes, pushed by the window's event handler and consumed
//! by the engine through its syscall interface.

use vstd::prelude::*;

verus! {

/// The presentation-side input state: key codes not yet consumed, oldest
/// first.
pub struct MyState {
    pub key_buffer: Vec<u8>,
}

impl MyState {
    /// An empty key queue.
    pub fn new() -> (r: Self)
        ensures
            r.key_buffer@ == Seq::<u8>::empty(),
    {
        let r = MyState { key_buffer: Vec::new() };
        assert(r.key_buffer@ =~= Seq::<u8>::empty());
        r
    }

    /// Queue one key code at the back.
    pub fn push_key(&mut self, key: u8)
        ensures
            final(self).key_buffer@ == old(self).key_buffer@.push(key),
    {
        self.key_buffer.push(key);
    }

    /// Take the oldest queued key code, if any.
    pub fn pop_key(&mut self) -> (r: Option<u8>)
        ensures
            match r {
                Some(k) => old(self).key_buffer@.len() > 0 && k == old(self).key_buffer@[0]
                    && final(self).key_buffer@ == old(self).key_buffer@.drop_first(),
                None => old(self).key_buffer@.len() == 0 && final(self).key_buffer@ == old(
                    self,
                ).key_buffer@,
            },
    {
        if self.key_buffer.len() == 0 {
            Option::None
        } else {
            let k = self.key_buffer.remove(0);
            assert(self.key_buffer@ =~= old(self).key_buffer@.drop_first());
            Option::Some(k)
        }
    }
}

} // verus!
