//! Handing the bytes of a newly chosen image file to the render thread.

use vstd::prelude::*;

verus! {

/// The place where loaded files wait for the render thread. It has room for
/// one payload: a payload that arrives before the last one was taken
/// replaces it.
#[derive(Debug)]
pub struct PendingLoad {
    pub payload: Option<Vec<u8>>,
}

impl View for PendingLoad {
    type V = Option<Seq<u8>>;

    open spec fn view(&self) -> Option<Seq<u8>> {
        match self.payload {
            Some(bytes) => Some(bytes@),
            None => None,
        }
    }
}

/// What waits after `bytes` were left, whatever waited before.
pub open spec fn after_send(waiting: Option<Seq<u8>>, bytes: Seq<u8>) -> Option<Seq<u8>> {
    Some(bytes)
}

/// What the render thread gets when it takes what waits.
pub open spec fn taken(waiting: Option<Seq<u8>>) -> Option<Seq<u8>> {
    waiting
}

/// What waits after the render thread took what waited: nothing.
pub open spec fn after_take(waiting: Option<Seq<u8>>) -> Option<Seq<u8>> {
    None
}

impl PendingLoad {
    /// Nothing waits.
    pub fn new() -> (slot: PendingLoad)
        ensures
            slot@ is None,
    {
        PendingLoad { payload: None }
    }

    /// Leaves `bytes` for the render thread, in place of what waited.
    pub fn send(&mut self, bytes: Vec<u8>)
        ensures
            final(self)@ == after_send(old(self)@, bytes@),
    {
        self.payload = Some(bytes);
    }

    /// Takes what waits, if anything does. Never blocks.
    pub fn try_next(&mut self) -> (bytes: Option<Vec<u8>>)
        ensures
            final(self)@ == after_take(old(self)@),
            match bytes {
                Some(b) => taken(old(self)@) == Some(b@),
                None => taken(old(self)@) is None,
            },
    {
        self.payload.take()
    }
}

/// Of two payloads that are left before either is taken, the render thread
/// gets the later one, once: the earlier one is dropped.
pub proof fn lemma_last_write_wins(waiting: Option<Seq<u8>>, first: Seq<u8>, second: Seq<u8>)
    ensures
        taken(after_send(after_send(waiting, first), second)) == Some(second),
        taken(after_take(after_send(after_send(waiting, first), second))) is None,
{
}

impl Default for PendingLoad {
    /// Nothing waits.
    fn default() -> (slot: PendingLoad)
        ensures
            slot@ is None,
    {
        PendingLoad::new()
    }
}

} // verus!
