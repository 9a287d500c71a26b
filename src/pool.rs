use vstd::prelude::*;

use crate::error::PoolCreationError;

verus! {

/// The ids `0, 1, ..., n - 1`, in ascending order.
pub open spec fn ids(n: nat) -> Seq<usize> {
    Seq::new(n, |i: int| i as usize)
}

/// The abstract state of a roster.
pub ghost struct RosterView {
    /// The number of workers, fixed for the pool's lifetime.
    pub size: nat,
    /// Whether shutdown has begun; it never ends once begun.
    pub shutting_down: bool,
    /// How many workers have been handed out for joining so far.
    pub joined: nat,
}

/// The workers of a pool, and the progress of its shutdown.
///
/// Workers carry the ids `0..size`. Shutdown marks the pool as shutting
/// down once, then hands out each id for joining exactly once, in ascending
/// order.
pub struct Roster {
    size: usize,
    shutting_down: bool,
    joined: usize,
}

impl View for Roster {
    type V = RosterView;

    closed spec fn view(&self) -> RosterView {
        RosterView { size: self.size as nat, shutting_down: self.shutting_down, joined: self.joined as nat }
    }
}

impl Roster {
    /// No worker is joined before shutdown begins, nor any twice.
    pub open spec fn wf(&self) -> bool {
        &&& self@.size >= 1
        &&& self@.joined <= self@.size
        &&& self@.joined > 0 ==> self@.shutting_down
    }

    /// The ids handed out for joining so far, in the order handed out.
    pub open spec fn joined_ids(&self) -> Seq<usize> {
        ids(self@.size).take(self@.joined as int)
    }

    /// Whether every worker has been handed out for joining.
    pub open spec fn finished(&self) -> bool {
        self@.shutting_down && self@.joined == self@.size
    }

    /// A roster of `size` active workers; `InvalidSize` exactly when
    /// `size` is zero.
    pub fn build(size: usize) -> (r: Result<Roster, PoolCreationError>)
        ensures
            size == 0 <==> r == Err::<Roster, PoolCreationError>(PoolCreationError::InvalidSize),
            r is Ok ==> r->Ok_0.wf()
                && r->Ok_0@ == (RosterView { size: size as nat, shutting_down: false, joined: 0 }),
    {
        if size == 0 {
            return Err(PoolCreationError::InvalidSize);
        }
        Ok(Roster { size, shutting_down: false, joined: 0 })
    }

    /// The number of workers.
    pub fn size(&self) -> (r: usize)
        ensures
            r == self@.size,
    {
        self.size
    }

    /// The id of every worker, ascending: one worker is spawned for each.
    pub fn worker_ids(&self) -> (r: Vec<usize>)
        ensures
            r@ == ids(self@.size),
    {
        let mut r: Vec<usize> = Vec::with_capacity(self.size);
        let mut i: usize = 0;
        while i < self.size
            invariant
                i <= self.size,
                r@ == ids(i as nat),
            decreases self.size - i,
        {
            r.push(i);
            i = i + 1;
            assert(r@ =~= ids(i as nat));
        }
        assert(r@ =~= ids(self@.size));
        r
    }

    /// Whether submissions are still accepted.
    pub fn is_active(&self) -> (r: bool)
        ensures
            r == !self@.shutting_down,
    {
        !self.shutting_down
    }

    /// Marks the pool as shutting down. Returns whether this call did so,
    /// which is true for the first call only.
    pub fn begin_shutdown(&mut self) -> (first: bool)
        requires
            old(self).wf(),
        ensures
            final(self).wf(),
            first == !old(self)@.shutting_down,
            final(self)@ == (RosterView { shutting_down: true, ..old(self)@ }),
    {
        let first = !self.shutting_down;
        self.shutting_down = true;
        first
    }

    /// The next worker to join: the lowest id not yet handed out, once
    /// shutdown has begun. `None` before shutdown and once all are joined.
    pub fn next_to_join(&mut self) -> (r: Option<usize>)
        requires
            old(self).wf(),
        ensures
            final(self).wf(),
            final(self)@.size == old(self)@.size,
            final(self)@.shutting_down == old(self)@.shutting_down,
            old(self)@.shutting_down && old(self)@.joined < old(self)@.size ==> r == Some(
                old(self)@.joined as usize,
            ) && final(self)@.joined == old(self)@.joined + 1 && final(self).joined_ids()
                == old(self).joined_ids().push(old(self)@.joined as usize),
            !(old(self)@.shutting_down && old(self)@.joined < old(self)@.size) ==> r is None
                && final(self)@ == old(self)@,
    {
        if self.shutting_down && self.joined < self.size {
            let id = self.joined;
            self.joined = self.joined + 1;
            assert(self.joined_ids() =~= ids(self@.size).take(id as int).push(id));
            Some(id)
        } else {
            None
        }
    }
}

/// Once shutdown has handed out every worker, each id of the pool was handed
/// out exactly once, in ascending order.
pub proof fn lemma_shutdown_joins_each_once(r: Roster)
    requires
        r.wf(),
        r.finished(),
    ensures
        r.joined_ids() == ids(r@.size),
        r.joined_ids().no_duplicates(),
{
    assert(r.joined_ids() =~= ids(r@.size));
}

} // verus!
