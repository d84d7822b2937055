//! Handing block definitions to the spawner.
//!
//! Extracting the definitions from the configuration yields a plan; the
//! queue here releases the plan's entries one at a time, and its contract
//! pins the release order to the plan's own order — the declaration order of
//! the blocks. Each definition is handed out exactly once.

use vstd::prelude::*;

verus! {

/// A queue that releases block definitions for spawning, strictly in
/// declaration order.
pub struct SpawnQueue<T> {
    remaining: Vec<T>,
    released: usize,
    plan: Ghost<Seq<T>>,
}

impl<T> SpawnQueue<T> {
    /// The full plan: every definition, in declaration order.
    pub closed spec fn plan(self) -> Seq<T> {
        self.plan@
    }

    /// How many definitions have been handed out so far.
    pub closed spec fn position(self) -> nat {
        self.released as nat
    }

    /// The definitions handed out so far, in the order they went out.
    pub open spec fn emitted(self) -> Seq<T> {
        self.plan().take(self.position() as int)
    }

    /// Internal consistency: what is still queued is exactly the unreleased
    /// tail of the plan.
    pub closed spec fn wf(self) -> bool {
        &&& self.released <= self.plan().len() <= usize::MAX
        &&& self.remaining@ == self.plan().skip(self.released as int)
    }

    /// Queue up the extracted definitions.
    pub fn new(definitions: Vec<T>) -> (q: SpawnQueue<T>)
        ensures
            q.wf(),
            q.plan() == definitions@,
            q.position() == 0,
    {
        let n = definitions.len();
        let ghost p = definitions@;
        let q = SpawnQueue { remaining: definitions, released: 0, plan: Ghost(p) };
        proof {
            assert(q.remaining@ =~= p.skip(0));
        }
        q
    }

    /// Release the next definition, or nothing once every definition has
    /// been handed out. Definitions come out in declaration order, each one
    /// exactly once.
    pub fn next_definition(&mut self) -> (r: Option<T>)
        requires
            old(self).wf(),
        ensures
            final(self).wf(),
            final(self).plan() == old(self).plan(),
            old(self).position() < old(self).plan().len() ==> {
                &&& r == Some(old(self).plan()[old(self).position() as int])
                &&& final(self).position() == old(self).position() + 1
                &&& final(self).emitted() == old(self).emitted().push(
                    old(self).plan()[old(self).position() as int],
                )
            },
            old(self).position() >= old(self).plan().len() ==> {
                &&& r is None
                &&& *final(self) == *old(self)
            },
    {
        if self.remaining.len() > 0 {
            let ghost before = *self;
            let item = self.remaining.remove(0);
            self.released = self.released + 1;
            proof {
                assert(self.remaining@ =~= self.plan().skip(self.released as int));
                assert(self.emitted() =~= before.emitted().push(
                    before.plan()[before.position() as int],
                ));
            }
            Some(item)
        } else {
            None
        }
    }
}

/// Spawn order equals declaration order: at every point of the spawning
/// phase, the definitions handed out are exactly the leading definitions of
/// the plan, each at its declared place.
pub proof fn lemma_spawn_order<T>(q: SpawnQueue<T>)
    requires
        q.wf(),
    ensures
        q.emitted().len() == q.position(),
        forall|i: int| 0 <= i < q.emitted().len() ==> q.emitted()[i] == q.plan()[i],
{
}

} // verus!
