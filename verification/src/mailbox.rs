//! The single-slot hand-off from the worker to the consumer.
//!
//! Publishing overwrites what the slot holds, so a slow consumer finds the
//! most recent item and nothing older, and a publisher never has to wait for
//! room.

use vstd::prelude::*;

verus! {

/// A slot that holds at most one item, the last one published.
pub struct Mailbox<T> {
    slot: Option<T>,
}

impl<T> View for Mailbox<T> {
    type V = Option<T>;

    closed spec fn view(&self) -> Option<T> {
        self.slot
    }
}

/// What a slot that held `held` holds after `items` were published in order.
pub open spec fn after_publishing<T>(held: Option<T>, items: Seq<T>) -> Option<T>
    decreases items.len(),
{
    if items.len() == 0 {
        held
    } else {
        after_publishing(Some(items[0]), items.skip(1))
    }
}

impl<T> Mailbox<T> {
    /// An empty slot.
    pub fn new() -> (mailbox: Self)
        ensures
            mailbox@ is None,
    {
        Mailbox { slot: None }
    }

    /// Puts `item` into the slot in place of whatever it held.
    pub fn publish(&mut self, item: T)
        ensures
            final(self)@ == Some(item),
            final(self)@ == after_publishing(old(self)@, seq![item]),
    {
        self.slot = Some(item);
        assert(after_publishing(Some(item), seq![item].skip(1)) == Some(item));
    }

    /// Takes out what the slot holds and leaves it empty.
    pub fn take(&mut self) -> (item: Option<T>)
        ensures
            item == old(self)@,
            final(self)@ is None,
    {
        self.slot.take()
    }

    /// Whether the slot holds nothing.
    pub fn is_empty(&self) -> (empty: bool)
        ensures
            empty == (self@ is None),
    {
        self.slot.is_none()
    }
}

/// However many items were published since the consumer last looked, the
/// slot holds the last of them and none of the earlier ones.
pub proof fn lemma_slot_holds_latest<T>(held: Option<T>, items: Seq<T>)
    requires
        items.len() > 0,
    ensures
        after_publishing(held, items) == Some(items.last()),
    decreases items.len(),
{
    if items.len() > 1 {
        lemma_slot_holds_latest(Some(items[0]), items.skip(1));
    } else {
        assert(after_publishing(Some(items[0]), items.skip(1)) == Some(items[0]));
    }
}

/// Publishing one more item gives the same slot as publishing the whole
/// sequence at once.
pub proof fn lemma_publishing_step<T>(held: Option<T>, items: Seq<T>, item: T)
    ensures
        after_publishing(held, items.push(item)) == after_publishing(
            after_publishing(held, items),
            seq![item],
        ),
{
    lemma_slot_holds_latest(held, items.push(item));
    lemma_slot_holds_latest(after_publishing(held, items), seq![item]);
}

} // verus!
