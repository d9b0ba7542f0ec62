//! The process singleton guard: one lock per process identifier, so that
//! the engine initializes once however often it is loaded into a process.

use vstd::prelude::*;
use crate::platform::Platform;
use crate::text::{decimal, decimal_text};

verus! {

/// The locks that are held, as a set of process identifiers, after `pid`
/// asked for its lock, and whether it got the lock: it does where the lock
/// is not held.
pub open spec fn acquired(held: Set<u32>, pid: u32) -> (Set<u32>, bool) {
    (held.insert(pid), !held.contains(pid))
}

/// The locks that are held after the lock of `pid` was given back.
pub open spec fn released(held: Set<u32>, pid: u32) -> Set<u32> {
    held.remove(pid)
}

/// The locks that the system holds, by the identifier of the process that
/// took them.
pub struct ProcessLocks {
    pub held: Vec<u32>,
}

impl View for ProcessLocks {
    type V = Set<u32>;

    open spec fn view(&self) -> Set<u32> {
        Set::new(|pid: u32| self.held@.contains(pid))
    }
}

impl ProcessLocks {
    /// A system in which no lock is held.
    pub fn new() -> (locks: ProcessLocks)
        ensures
            locks@ == Set::<u32>::empty(),
    {
        let locks = ProcessLocks { held: Vec::new() };
        assert(locks@ =~= Set::<u32>::empty());
        locks
    }

    /// Whether the lock of `pid` is held.
    pub fn is_held(&self, pid: u32) -> (held: bool)
        ensures
            held == self@.contains(pid),
    {
        let mut i: usize = 0;
        while i < self.held.len()
            invariant
                i <= self.held@.len(),
                forall|k: int| 0 <= k < i ==> self.held@[k] != pid,
            decreases self.held.len() - i,
        {
            if self.held[i] == pid {
                return true;
            }
            i = i + 1;
        }
        false
    }

    /// Gives back the lock of `pid`, as the system does when the process
    /// ends.
    pub fn release(&mut self, pid: u32)
        ensures
            final(self)@ == released(old(self)@, pid),
    {
        let mut kept: Vec<u32> = Vec::new();
        let mut i: usize = 0;
        while i < self.held.len()
            invariant
                i <= self.held@.len(),
                forall|k: int| 0 <= k < kept@.len() ==> kept@[k] != pid && self.held@.contains(
                    #[trigger] kept@[k],
                ),
                forall|k: int|
                    0 <= k < i && self.held@[k] != pid ==> kept@.contains(#[trigger] self.held@[k]),
            decreases self.held.len() - i,
        {
            let value = self.held[i];
            if value != pid {
                let ghost before = kept@;
                kept.push(value);
                proof {
                    assert(kept@[kept@.len() - 1] == value);
                    assert forall|k: int| 0 <= k < i + 1 && self.held@[k] != pid implies kept@.contains(
                        #[trigger] self.held@[k],
                    ) by {
                        if k < i {
                            let at = choose|at: int|
                                0 <= at < before.len() && before[at] == self.held@[k];
                            assert(kept@[at] == self.held@[k]);
                        }
                    }
                }
            }
            i = i + 1;
        }
        proof {
            let after = Set::new(|p: u32| kept@.contains(p));
            assert forall|p: u32| after.contains(p) <==> released(old(self)@, pid).contains(
                p,
            ) by {
                if kept@.contains(p) {
                    let at = choose|at: int| 0 <= at < kept@.len() && kept@[at] == p;
                    assert(self.held@.contains(kept@[at]));
                }
                if self.held@.contains(p) && p != pid {
                    let at = choose|at: int| 0 <= at < self.held@.len() && self.held@[at] == p;
                    assert(kept@.contains(self.held@[at]));
                }
            }
            assert(after =~= released(old(self)@, pid));
        }
        self.held = kept;
    }
}

/// Takes the lock of the process `pid`. Says whether the process got it:
/// it does not where the lock is held already, which tells the engine that
/// it was loaded into the process before.
pub fn ensure_single_instance(locks: &mut ProcessLocks, pid: u32) -> (first: bool)
    ensures
        (final(locks)@, first) == acquired(old(locks)@, pid),
{
    if locks.is_held(pid) {
        assert(locks@ =~= locks@.insert(pid));
        false
    } else {
        let ghost before = locks.held@;
        locks.held.push(pid);
        proof {
            assert forall|p: u32| locks@.contains(p) <==> old(locks)@.insert(pid).contains(
                p,
            ) by {
                if before.contains(p) {
                    let at = choose|at: int| 0 <= at < before.len() && before[at] == p;
                    assert(locks.held@[at] == p);
                }
                if p == pid {
                    assert(locks.held@[locks.held@.len() - 1] == pid);
                }
            }
            assert(locks@ =~= old(locks)@.insert(pid));
        }
        true
    }
}

/// A lock that is held is refused to a second request. Once it was given
/// back, the next request gets it.
pub proof fn lemma_singleton_guard(held: Set<u32>, pid: u32)
    ensures
        !acquired(acquired(held, pid).0, pid).1,
        acquired(released(acquired(held, pid).0, pid), pid).1,
        acquired(released(acquired(acquired(held, pid).0, pid).0, pid), pid).1,
{
}

/// The name of the lock of a process: a named mutex on Windows, a file
/// elsewhere.
pub open spec fn lock_name_text(platform: Platform, pid: u32) -> Seq<char> {
    match platform {
        Platform::Windows => "Local\\doorstop-"@ + decimal_text(pid as nat),
        _ => "/tmp/doorstop-"@ + decimal_text(pid as nat),
    }
}

/// The name of the lock of the process `pid`.
pub fn lock_name(platform: Platform, pid: u32) -> (name: String)
    ensures
        name@ == lock_name_text(platform, pid),
{
    let mut name = match platform {
        Platform::Windows => String::from_str("Local\\doorstop-"),
        _ => String::from_str("/tmp/doorstop-"),
    };
    let digits = decimal(pid);
    name.append(digits.as_str());
    name
}

} // verus!
