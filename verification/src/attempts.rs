//! Which processes have an attempt under way. A process takes one attempt at
//! a time; attempts on different processes do not hinder each other.

use vstd::prelude::*;

verus! {

/// The pids with an attempt under way.
#[derive(Debug)]
pub struct Attempts {
    pids: Vec<u32>,
}

impl View for Attempts {
    type V = Set<u32>;

    closed spec fn view(&self) -> Set<u32> {
        Set::new(|pid: u32| self.pids@.contains(pid))
    }
}

impl Attempts {
    /// No pid is listed twice.
    pub closed spec fn wf(&self) -> bool {
        self.pids@.no_duplicates()
    }

    /// No attempt is under way.
    pub fn new() -> (r: Attempts)
        ensures
            r.wf(),
            r@ == Set::<u32>::empty(),
    {
        let r = Attempts { pids: Vec::new() };
        assert(r@ =~= Set::<u32>::empty());
        r
    }

    fn position(&self, pid: u32) -> (r: Option<usize>)
        ensures
            match r {
                Some(i) => i < self.pids@.len() && self.pids@[i as int] == pid,
                None => !self.pids@.contains(pid),
            },
    {
        let mut i: usize = 0;
        while i < self.pids.len()
            invariant
                0 <= i <= self.pids.len(),
                forall|j: int| 0 <= j < i ==> self.pids@[j] != pid,
            decreases self.pids.len() - i,
        {
            if self.pids[i] == pid {
                return Some(i);
            }
            i = i + 1;
        }
        None
    }

    /// Whether an attempt on `pid` is under way.
    pub fn is_busy(&self, pid: u32) -> (r: bool)
        ensures
            r == self@.contains(pid),
    {
        self.position(pid).is_some()
    }

    /// Claims `pid` for an attempt. Returns `true` and marks the pid when no
    /// attempt on it is under way; returns `false` and changes nothing when
    /// one is.
    pub fn try_begin(&mut self, pid: u32) -> (r: bool)
        requires
            old(self).wf(),
        ensures
            final(self).wf(),
            r == !old(self)@.contains(pid),
            final(self)@ == old(self)@.insert(pid),
    {
        match self.position(pid) {
            Some(_) => {
                assert(self@.insert(pid) =~= self@);
                false
            },
            None => {
                let ghost before = self.pids@;
                self.pids.push(pid);
                proof {
                    assert(self.pids@[before.len() as int] == pid);
                    assert forall|x: u32| self.pids@.contains(x) <==> (before.contains(x) || x
                        == pid) by {
                        if before.contains(x) {
                            let k = choose|k: int| 0 <= k < before.len() && before[k] == x;
                            assert(self.pids@[k] == x);
                        }
                    }
                    assert(self@ =~= old(self)@.insert(pid));
                }
                true
            },
        }
    }

    /// Marks the attempt on `pid` as over. Does nothing when none was under
    /// way.
    pub fn finish(&mut self, pid: u32)
        requires
            old(self).wf(),
        ensures
            final(self).wf(),
            final(self)@ == old(self)@.remove(pid),
    {
        match self.position(pid) {
            Some(i) => {
                let ghost before = self.pids@;
                let _ = self.pids.remove(i);
                proof {
                    let after = self.pids@;
                    assert(after == before.remove(i as int));
                    assert forall|k: int| 0 <= k < after.len() implies #[trigger] after[k]
                        == before[if k < i {
                        k
                    } else {
                        k + 1
                    }] by {}
                    assert forall|x: u32| after.contains(x) <==> (before.contains(x) && x
                        != pid) by {
                        if after.contains(x) {
                            let k = choose|k: int| 0 <= k < after.len() && after[k] == x;
                            let o = if k < i {
                                k
                            } else {
                                k + 1
                            };
                            assert(before[o] == x);
                        }
                        if before.contains(x) && x != pid {
                            let o = choose|o: int| 0 <= o < before.len() && before[o] == x;
                            let k = if o < i {
                                o
                            } else {
                                o - 1
                            };
                            assert(after[k] == x);
                        }
                    }
                    assert(self@ =~= old(self)@.remove(pid));
                }
            },
            None => {
                assert(self@.remove(pid) =~= self@);
            },
        }
    }
}

/// While an attempt on a process is under way, a second claim on the same
/// process is turned down, and a claim on any other process is granted or
/// turned down as if the first had never been made.
pub proof fn lemma_one_attempt_per_process(busy: Set<u32>, pid: u32, other: u32)
    requires
        pid != other,
    ensures
        busy.insert(pid).contains(pid),
        busy.insert(pid).contains(other) == busy.contains(other),
        busy.insert(pid).remove(pid).contains(other) == busy.contains(other),
        !busy.insert(pid).remove(pid).contains(pid),
{
}

} // verus!
