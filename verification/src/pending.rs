//! Bounded, run-length encoded hotkey input shared by native event loops.

use std::collections::VecDeque;

use vstd::prelude::*;

verus! {

broadcast use vstd::std_specs::vecdeque::group_vec_dequeue_axioms;

/// Maximum number of key presses retained while the native event loop is busy.
pub const MAX_PENDING_HOTKEY_PRESSES: usize = 1_024;

/// `count` copies of `id`.
pub open spec fn repeated(id: u32, count: nat) -> Seq<u32> {
    Seq::new(count, |i: int| id)
}

/// The presses that a sequence of `(hotkey id, repeats)` runs stands for,
/// in order.
pub open spec fn expand_runs(runs: Seq<(u32, usize)>) -> Seq<u32>
    decreases runs.len(),
{
    if runs.len() == 0 {
        Seq::empty()
    } else {
        expand_runs(runs.drop_last()) + repeated(runs.last().0, runs.last().1 as nat)
    }
}

/// Runs are maximal: every run holds at least one press, and neighbouring
/// runs are for different hotkeys.
pub open spec fn runs_are_maximal(runs: Seq<(u32, usize)>) -> bool {
    &&& forall|i: int| 0 <= i < runs.len() ==> (#[trigger] runs[i]).1 >= 1
    &&& forall|i: int| 0 < i < runs.len() ==> (#[trigger] runs[i]).0 != runs[i - 1].0
}

/// Pending hotkey presses, kept as maximal runs of equal hotkey ids.
///
/// The first accepted press schedules a wake-up. Further presses join the
/// pending batch without posting redundant events. Once the bound is reached,
/// newest presses are ignored until the batch is drained.
#[derive(Debug)]
pub struct PendingHotkeys {
    runs: VecDeque<(u32, usize)>,
    pending_presses: usize,
    max_pending_presses: usize,
    wake_scheduled: bool,
}

impl PendingHotkeys {
    /// The pending presses, oldest first.
    pub closed spec fn presses(&self) -> Seq<u32> {
        expand_runs(self.runs@)
    }

    /// The most presses that are kept before newer ones are ignored.
    pub closed spec fn capacity(&self) -> nat {
        self.max_pending_presses as nat
    }

    /// Whether a wake-up has been requested for the current batch.
    pub closed spec fn is_wake_scheduled(&self) -> bool {
        self.wake_scheduled
    }

    /// The internal consistency of the queue.
    pub closed spec fn well_formed(&self) -> bool {
        &&& runs_are_maximal(self.runs@)
        &&& self.pending_presses as nat == expand_runs(self.runs@).len()
        &&& 1 <= self.max_pending_presses
        &&& self.pending_presses <= self.max_pending_presses
        &&& self.wake_scheduled == (self.pending_presses > 0)
    }

    /// An empty queue that keeps at most `max_pending_presses` presses (at
    /// least one).
    pub fn with_capacity(max_pending_presses: usize) -> (queue: Self)
        ensures
            queue.well_formed(),
            queue.presses() == Seq::<u32>::empty(),
            queue.capacity() == if max_pending_presses >= 1 { max_pending_presses as nat } else { 1 },
            !queue.is_wake_scheduled(),
    {
        let max = if max_pending_presses >= 1 { max_pending_presses } else { 1 };
        let queue = PendingHotkeys {
            runs: VecDeque::new(),
            pending_presses: 0,
            max_pending_presses: max,
            wake_scheduled: false,
        };
        proof {
            assert(expand_runs(queue.runs@) =~= Seq::<u32>::empty());
        }
        queue
    }

    /// Adds one press and returns whether the caller must post a wake-up.
    ///
    /// A press is accepted while fewer than the capacity are pending; only
    /// the first accepted press of a batch asks for a wake-up.
    pub fn enqueue(&mut self, hotkey_id: u32) -> (should_wake: bool)
        requires
            old(self).well_formed(),
        ensures
            final(self).well_formed(),
            final(self).capacity() == old(self).capacity(),
            old(self).presses().len() >= old(self).capacity() ==> {
                &&& final(self).presses() == old(self).presses()
                &&& final(self).is_wake_scheduled() == old(self).is_wake_scheduled()
                &&& !should_wake
            },
            old(self).presses().len() < old(self).capacity() ==> {
                &&& final(self).presses() == old(self).presses().push(hotkey_id)
                &&& final(self).is_wake_scheduled()
                &&& should_wake == !old(self).is_wake_scheduled()
            },
            should_wake <==> old(self).presses().len() == 0,
    {
        if self.pending_presses >= self.max_pending_presses {
            return false;
        }
        let ghost old_runs = self.runs@;
        let len = self.runs.len();
        if len > 0 && self.runs[len - 1].0 == hotkey_id {
            let last = self.runs.pop_back().unwrap();
            proof {
                lemma_expand_len_bound(old_runs, old_runs.len() - 1);
            }
            self.runs.push_back((last.0, last.1 + 1));
            proof {
                lemma_extend_last_run(old_runs);
                assert(self.runs@ =~= old_runs.drop_last().push((last.0, (last.1 + 1) as usize)));
                assert forall|i: int| 0 < i < self.runs@.len() implies (#[trigger] self.runs@[i]).0
                    != self.runs@[i - 1].0 by {
                    assert(old_runs[i].0 == self.runs@[i].0);
                    assert(old_runs[i - 1].0 == self.runs@[i - 1].0);
                }
            }
        } else {
            self.runs.push_back((hotkey_id, 1));
            proof {
                assert(self.runs@.drop_last() =~= old_runs);
                assert(repeated(hotkey_id, 1) =~= seq![hotkey_id]);
            }
        }
        self.pending_presses = self.pending_presses + 1;
        if self.wake_scheduled {
            false
        } else {
            self.wake_scheduled = true;
            true
        }
    }

    /// Takes every pending run, oldest first, and lets the next press
    /// schedule a wake-up again.
    pub fn drain(&mut self) -> (runs: Vec<(u32, usize)>)
        requires
            old(self).well_formed(),
        ensures
            final(self).well_formed(),
            final(self).capacity() == old(self).capacity(),
            final(self).presses() == Seq::<u32>::empty(),
            !final(self).is_wake_scheduled(),
            expand_runs(runs@) == old(self).presses(),
            runs_are_maximal(runs@),
    {
        let mut runs: Vec<(u32, usize)> = Vec::new();
        let len = self.runs.len();
        let mut i: usize = 0;
        while i < len
            invariant
                len == self.runs@.len(),
                i <= len,
                runs@ =~= self.runs@.subrange(0, i as int),
            decreases len - i,
        {
            runs.push(self.runs[i]);
            i = i + 1;
        }
        proof {
            assert(runs@ =~= self.runs@);
        }
        self.runs.clear();
        self.pending_presses = 0;
        self.wake_scheduled = false;
        proof {
            assert(expand_runs(self.runs@) =~= Seq::<u32>::empty());
        }
        runs
    }

    /// The number of pending presses.
    pub fn pending_press_count(&self) -> (count: usize)
        requires
            self.well_formed(),
        ensures
            count as nat == self.presses().len(),
    {
        self.pending_presses
    }
}

/// A consistent queue never holds more presses than its capacity, keeps
/// room for at least one, and has a wake-up scheduled exactly while presses
/// are pending.
pub proof fn lemma_pending_presses_stay_bounded(queue: PendingHotkeys)
    requires
        queue.well_formed(),
    ensures
        queue.presses().len() <= queue.capacity(),
        queue.capacity() >= 1,
        queue.is_wake_scheduled() <==> queue.presses().len() > 0,
{
}

impl Default for PendingHotkeys {
    fn default() -> (queue: Self)
        ensures
            queue.well_formed(),
            queue.presses() == Seq::<u32>::empty(),
            queue.capacity() == MAX_PENDING_HOTKEY_PRESSES as nat,
            !queue.is_wake_scheduled(),
    {
        Self::with_capacity(MAX_PENDING_HOTKEY_PRESSES)
    }
}

/// Each run contributes at most the total number of presses.
proof fn lemma_expand_len_bound(runs: Seq<(u32, usize)>, i: int)
    requires
        0 <= i < runs.len(),
    ensures
        runs[i].1 as nat <= expand_runs(runs).len(),
    decreases runs.len(),
{
    if i < runs.len() - 1 {
        lemma_expand_len_bound(runs.drop_last(), i);
        assert(runs.drop_last()[i] == runs[i]);
    }
}

/// Adding one press to the last run appends that press to the expansion.
proof fn lemma_extend_last_run(runs: Seq<(u32, usize)>)
    requires
        runs.len() > 0,
        runs.last().1 < usize::MAX,
    ensures
        expand_runs(runs.drop_last().push((runs.last().0, (runs.last().1 + 1) as usize)))
            == expand_runs(runs).push(runs.last().0),
{
    let last = runs.last();
    let extended = runs.drop_last().push((last.0, (last.1 + 1) as usize));
    assert(extended.drop_last() =~= runs.drop_last());
    assert(repeated(last.0, (last.1 + 1) as nat) =~= repeated(last.0, last.1 as nat).push(last.0));
    assert(expand_runs(extended) =~= expand_runs(runs).push(last.0));
}

} // verus!
