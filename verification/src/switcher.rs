//! The camera switcher: exactly one camera entity renders at a time, and a
//! change of the lock-to-player flag swaps which one, in a single step that
//! never leaves a tick with zero or two active cameras.

use vstd::prelude::*;

verus! {

/// Exactly one flag of the sequence is set.
pub open spec fn exactly_one_active(s: Seq<bool>) -> bool {
    exists|i: int| 0 <= i < s.len() && s[i] && (forall|j: int| 0 <= j < s.len() && j != i ==> !s[j])
}

/// The activity flags of the known cameras, one per camera, with the
/// invariant that exactly one is set.
pub struct CameraActivity {
    pub flags: Vec<bool>,
    pub active: usize,
}

impl CameraActivity {
    /// The recorded index is in range, set, and alone in being set.
    pub open spec fn wf(self) -> bool {
        &&& self.active < self.flags.len()
        &&& self.flags@[self.active as int]
        &&& forall|j: int| 0 <= j < self.flags@.len() && j != self.active ==> !self.flags@[j]
    }

    pub open spec fn spec_flags(self) -> Seq<bool> {
        self.flags@
    }

    pub open spec fn spec_active(self) -> usize {
        self.active
    }

    /// Runtime check of [`CameraActivity::wf`], for callers outside
    /// verified code.
    pub fn is_wf(&self) -> (r: bool)
        ensures
            r == self.wf(),
    {
        if self.active >= self.flags.len() {
            return false;
        }
        if !self.flags[self.active] {
            return false;
        }
        let mut j: usize = 0;
        while j < self.flags.len()
            invariant
                0 <= j <= self.flags@.len(),
                self.active < self.flags@.len(),
                self.flags@[self.active as int],
                forall|k: int| 0 <= k < j && k != self.active ==> !self.flags@[k],
            decreases self.flags@.len() - j,
        {
            if j != self.active && self.flags[j] {
                return false;
            }
            j = j + 1;
        }
        true
    }

    /// `count` cameras, with the first one active.
    pub fn new(count: usize) -> (r: CameraActivity)
        requires
            count >= 1,
        ensures
            r.spec_flags().len() == count,
            r.spec_active() == 0,
            r.wf(),
            exactly_one_active(r.spec_flags()),
    {
        let mut flags: Vec<bool> = Vec::new();
        flags.push(true);
        let mut i: usize = 1;
        while i < count
            invariant
                1 <= i <= count,
                flags@.len() == i,
                flags@[0],
                forall|j: int| 1 <= j < i ==> !flags@[j],
            decreases count - i,
        {
            flags.push(false);
            i = i + 1;
        }
        let r = CameraActivity { flags, active: 0 };
        proof {
            assert(r.wf());
            lemma_wf_exactly_one(r);
        }
        r
    }

    /// Which camera is active.
    pub fn active(&self) -> (r: usize)
        ensures
            r == self.spec_active(),
    {
        self.active
    }

    /// Whether camera `i` is active.
    pub fn is_active(&self, i: usize) -> (r: bool)
        requires
            i < self.spec_flags().len(),
        ensures
            r == self.spec_flags()[i as int],
    {
        self.flags[i]
    }

    /// Makes camera `i` the one that renders: `i` is marked active and
    /// every other camera inactive, in one step.
    pub fn set_active(&mut self, i: usize)
        requires
            old(self).wf(),
            i < old(self).spec_flags().len(),
        ensures
            final(self).spec_flags().len() == old(self).spec_flags().len(),
            final(self).spec_active() == i,
            final(self).spec_flags()[i as int],
            forall|j: int|
                0 <= j < final(self).spec_flags().len() && j != i
                    ==> !(final(self).spec_flags()[j]),
            final(self).wf(),
            exactly_one_active(final(self).spec_flags()),
    {
        let prev = self.active;
        self.flags.set(prev, false);
        self.flags.set(i, true);
        self.active = i;
        proof {
            lemma_wf_exactly_one(*self);
        }
    }

    /// Reacts to the lock-to-player flag: on a change of edge — and only
    /// then — the rendering role swaps between the free camera and the
    /// follow camera, atomically.
    pub fn switch_on_lock_edge(&mut self, was_locked: bool, locked: bool, free_cam: usize,
        follow_cam: usize)
        requires
            old(self).wf(),
            free_cam < old(self).spec_flags().len(),
            follow_cam < old(self).spec_flags().len(),
        ensures
            final(self).spec_flags().len() == old(self).spec_flags().len(),
            was_locked == locked ==> *final(self) == *old(self),
            was_locked != locked && locked ==> final(self).spec_active() == follow_cam,
            was_locked != locked && !locked ==> final(self).spec_active() == free_cam,
            final(self).wf(),
            exactly_one_active(final(self).spec_flags()),
    {
        if was_locked != locked {
            if locked {
                self.set_active(follow_cam);
            } else {
                self.set_active(free_cam);
            }
        } else {
            proof {
                lemma_wf_exactly_one(*self);
            }
        }
    }
}

/// The recorded-index invariant yields the one-camera property.
proof fn lemma_wf_exactly_one(c: CameraActivity)
    requires
        c.wf(),
    ensures
        exactly_one_active(c.spec_flags()),
{
    assert(0 <= c.spec_active() < c.spec_flags().len() && c.spec_flags()[c.spec_active() as int]
        && (forall|j: int| 0 <= j < c.spec_flags().len() && j != c.spec_active()
            ==> !c.spec_flags()[j]));
}

} // verus!
