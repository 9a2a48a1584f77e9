//! The persisted image: one slot standing for the single file at the
//! fixed path. Every capture stores into this slot whole; the windowing
//! layer writes the slot's bytes to disk, truncating whatever was there.

use vstd::prelude::*;

verus! {

/// What the slot holds after a store: the new bytes, whatever it held
/// before. There is no append and no versioning.
pub open spec fn slot_after(prior: Option<Seq<u8>>, bytes: Seq<u8>) -> Option<Seq<u8>> {
    Some(bytes)
}

/// The one persisted image. `None` until the first capture completes.
pub struct PersistedSlot {
    pub contents: Option<Vec<u8>>,
}

impl View for PersistedSlot {
    type V = Option<Seq<u8>>;

    open spec fn view(&self) -> Option<Seq<u8>> {
        match self.contents {
            Some(v) => Some(v@),
            None => None,
        }
    }
}

impl PersistedSlot {
    /// An empty slot: nothing persisted yet.
    pub fn new() -> (s: PersistedSlot)
        ensures
            s@ == None::<Seq<u8>>,
    {
        PersistedSlot { contents: None }
    }

    /// Persist a new image, replacing whatever the slot held.
    pub fn store(&mut self, bytes: Vec<u8>)
        ensures
            final(self)@ == slot_after(old(self)@, bytes@),
    {
        self.contents = Some(bytes);
    }
}

/// Two successive stores leave the slot exactly as the second store
/// alone would: the earlier image is gone, and what remains is the
/// second image's bytes.
pub proof fn lemma_store_overwrites(prior: Option<Seq<u8>>, first: Seq<u8>, second: Seq<u8>)
    ensures
        slot_after(slot_after(prior, first), second) == slot_after(prior, second),
        slot_after(slot_after(prior, first), second) == Some(second),
{
}

} // verus!
