use vstd::prelude::*;

use crate::bytes::copy_range;

verus! {

/// The content of a slot after `frame` is published into one holding `prev`.
pub open spec fn published(prev: Option<Seq<u8>>, frame: Seq<u8>) -> Option<Seq<u8>> {
    Some(frame)
}

/// The content of a slot holding `start` after the frames `ps` are published
/// into it in order.
pub open spec fn after_publishes(start: Option<Seq<u8>>, ps: Seq<Seq<u8>>) -> Option<Seq<u8>>
    decreases ps.len(),
{
    if ps.len() == 0 {
        start
    } else {
        published(after_publishes(start, ps.drop_last()), ps.last())
    }
}

/// A latest-wins cell holding the most recently published encoded frame.
///
/// There is no queue and no history: a publish replaces the whole value. The
/// cell is meant to sit behind a reader-writer lock, so that `latest` never
/// observes a publish half done.
pub struct SharedFrameSlot {
    frame: Option<Vec<u8>>,
}

impl View for SharedFrameSlot {
    type V = Option<Seq<u8>>;

    closed spec fn view(&self) -> Option<Seq<u8>> {
        match self.frame {
            Some(f) => Some(f@),
            None => None,
        }
    }
}

impl SharedFrameSlot {
    /// A slot into which nothing was published yet.
    pub fn new() -> (s: SharedFrameSlot)
        ensures
            s@ == None::<Seq<u8>>,
    {
        SharedFrameSlot { frame: None }
    }

    /// Replaces the held frame with `frame`.
    pub fn publish(&mut self, frame: Vec<u8>)
        ensures
            final(self)@ == published(old(self)@, frame@),
    {
        self.frame = Some(frame);
    }

    /// A copy of the held frame, or `None` before the first publish.
    pub fn latest(&self) -> (r: Option<Vec<u8>>)
        ensures
            r is None <==> self@ is None,
            r is Some ==> self@ == Some(r->Some_0@),
    {
        match &self.frame {
            Some(f) => Some(copy_range(f, 0, f.len())),
            None => None,
        }
    }
}

/// After one or more publishes, the slot holds exactly the last frame published,
/// whatever it held before.
pub proof fn lemma_latest_is_last_published(start: Option<Seq<u8>>, ps: Seq<Seq<u8>>)
    requires
        ps.len() > 0,
    ensures
        after_publishes(start, ps) == Some(ps.last()),
{
}

} // verus!
