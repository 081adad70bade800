//! The ticket directory: the single owner of the bidirectional mapping
//! between platform-A thread identifiers (`u64`) and platform-B session
//! identifiers (`i64`), plus the platform-A send capability handle.
//!
//! Both directions of the mapping are updated together, never independently,
//! so that a forward lookup followed by a reverse lookup returns the original
//! key, or both report absence.

use vstd::prelude::*;
use std::collections::HashMap;

verus! {

broadcast use vstd::std_specs::hash::group_hash_axioms;

/// Errors the directory itself can report.
#[derive(Debug, Clone, Copy, PartialEq, Eq, Structural)]
pub enum DirectoryError {
    /// One of the two identifiers is already mapped to a different counterpart.
    Conflict,
    /// No mapping exists for the given key.
    NotFound,
    /// The forward entry existed but the reverse entry was missing or
    /// disagreed; the mapping is cleared defensively when this is reported.
    Inconsistent,
}

/// The two map directions agree: every forward entry has a matching reverse
/// entry and vice versa.
pub open spec fn maps_agree(f: Map<u64, i64>, r: Map<i64, u64>) -> bool {
    &&& forall|t: u64|
        #[trigger] f.contains_key(t) ==> r.contains_key(f[t]) && r[f[t]] == t
    &&& forall|s: i64|
        #[trigger] r.contains_key(s) ==> f.contains_key(r[s]) && f[r[s]] == s
}

/// A commit of `t <-> s` succeeds exactly when neither identifier is already
/// mapped to a different counterpart.
pub open spec fn can_commit(f: Map<u64, i64>, r: Map<i64, u64>, t: u64, s: i64) -> bool {
    &&& f.contains_key(t) ==> f[t] == s
    &&& r.contains_key(s) ==> r[s] == t
}

/// The abstract state of a [`Directory`].
pub ghost struct DirectoryView<H> {
    /// platform-A thread id -> platform-B session id
    pub forward: Map<u64, i64>,
    /// platform-B session id -> platform-A thread id
    pub reverse: Map<i64, u64>,
    /// the platform-A send capability, once installed
    pub capability: Option<H>,
}

impl<H> DirectoryView<H> {
    /// Well-formedness: the two directions agree.
    pub open spec fn wf(self) -> bool {
        maps_agree(self.forward, self.reverse)
    }
}

/// The bidirectional ticket mapping store. `H` is the platform-A send
/// capability handle installed by the embedding program once that side is
/// ready.
pub struct Directory<H> {
    forward: HashMap<u64, i64>,
    reverse: HashMap<i64, u64>,
    capability: Option<H>,
}

impl<H> View for Directory<H> {
    type V = DirectoryView<H>;

    closed spec fn view(&self) -> DirectoryView<H> {
        DirectoryView {
            forward: self.forward@,
            reverse: self.reverse@,
            capability: self.capability,
        }
    }
}

impl<H> Directory<H> {
    /// An empty directory: no tickets, no capability.
    pub fn new() -> (d: Self)
        ensures
            d@.forward == Map::<u64, i64>::empty(),
            d@.reverse == Map::<i64, u64>::empty(),
            d@.capability is None,
            d@.wf(),
    {
        Directory { forward: HashMap::new(), reverse: HashMap::new(), capability: None }
    }

    /// Forward lookup: the session a platform-A thread is tied to, if any.
    pub fn lookup_by_thread(&self, thread_id: u64) -> (r: Option<i64>)
        ensures
            r == (if self@.forward.contains_key(thread_id) {
                Some(self@.forward[thread_id])
            } else {
                None::<i64>
            }),
    {
        match self.forward.get(&thread_id) {
            Some(s) => Some(*s),
            None => None,
        }
    }

    /// Reverse lookup: the platform-A thread a session is tied to, if any.
    pub fn lookup_by_session(&self, session_id: i64) -> (r: Option<u64>)
        ensures
            r == (if self@.reverse.contains_key(session_id) {
                Some(self@.reverse[session_id])
            } else {
                None::<u64>
            }),
    {
        match self.reverse.get(&session_id) {
            Some(t) => Some(*t),
            None => None,
        }
    }

    /// Install both directions of the mapping `thread_id <-> session_id`
    /// atomically, or report `Conflict` if either identifier is already
    /// mapped to a different counterpart (in which case nothing changes).
    pub fn commit(&mut self, thread_id: u64, session_id: i64) -> (r: Result<(), DirectoryError>)
        ensures
            r is Ok <==> can_commit(old(self)@.forward, old(self)@.reverse, thread_id, session_id),
            r is Ok ==> {
                &&& final(self)@.forward == old(self)@.forward.insert(thread_id, session_id)
                &&& final(self)@.reverse == old(self)@.reverse.insert(session_id, thread_id)
            },
            r is Err ==> r == Err::<(), DirectoryError>(DirectoryError::Conflict)
                && final(self)@ == old(self)@,
            final(self)@.capability == old(self)@.capability,
            old(self)@.wf() ==> final(self)@.wf(),
    {
        let forward_free = match self.forward.get(&thread_id) {
            Some(s) => *s == session_id,
            None => true,
        };
        let reverse_free = match self.reverse.get(&session_id) {
            Some(t) => *t == thread_id,
            None => true,
        };
        if forward_free && reverse_free {
            proof {
                if old(self)@.wf() {
                    lemma_commit_preserves_agreement(
                        old(self)@.forward,
                        old(self)@.reverse,
                        thread_id,
                        session_id,
                    );
                }
            }
            self.forward.insert(thread_id, session_id);
            self.reverse.insert(session_id, thread_id);
            Ok(())
        } else {
            Err(DirectoryError::Conflict)
        }
    }

    /// Remove both directions of the mapping for `thread_id` transactionally
    /// and return the session it was tied to. Reports `NotFound` when no
    /// forward entry exists. If the forward entry exists but the reverse
    /// entry is missing or disagrees, that is reported as `Inconsistent` and
    /// the mapping is still cleared defensively; a well-formed directory
    /// never reports it.
    pub fn remove(&mut self, thread_id: u64) -> (r: Result<i64, DirectoryError>)
        ensures
            !old(self)@.forward.contains_key(thread_id) ==> {
                &&& r == Err::<i64, DirectoryError>(DirectoryError::NotFound)
                &&& final(self)@ == old(self)@
            },
            old(self)@.forward.contains_key(thread_id) ==> {
                let s = old(self)@.forward[thread_id];
                &&& final(self)@.forward == old(self)@.forward.remove(thread_id)
                &&& final(self)@.reverse == old(self)@.reverse.remove(s)
                &&& if old(self)@.reverse.contains_key(s) && old(self)@.reverse[s] == thread_id {
                    r == Ok::<i64, DirectoryError>(s)
                } else {
                    r == Err::<i64, DirectoryError>(DirectoryError::Inconsistent)
                }
            },
            old(self)@.wf() && old(self)@.forward.contains_key(thread_id) ==> r == Ok::<
                i64,
                DirectoryError,
            >(old(self)@.forward[thread_id]),
            final(self)@.capability == old(self)@.capability,
            old(self)@.wf() ==> final(self)@.wf(),
    {
        proof {
            if old(self)@.wf() && old(self)@.forward.contains_key(thread_id) {
                lemma_remove_preserves_agreement(old(self)@.forward, old(self)@.reverse, thread_id);
            }
        }
        match self.forward.remove(&thread_id) {
            None => {
                proof {
                    assert(self.forward@ =~= old(self)@.forward);
                }
                Err(DirectoryError::NotFound)
            },
            Some(session_id) => {
                match self.reverse.remove(&session_id) {
                    Some(back) => {
                        if back == thread_id {
                            Ok(session_id)
                        } else {
                            Err(DirectoryError::Inconsistent)
                        }
                    },
                    None => Err(DirectoryError::Inconsistent),
                }
            },
        }
    }

    /// Install the platform-A send capability. The mapping is untouched.
    pub fn set_capability(&mut self, handle: H)
        ensures
            final(self)@.capability == Some(handle),
            final(self)@.forward == old(self)@.forward,
            final(self)@.reverse == old(self)@.reverse,
    {
        self.capability = Some(handle);
    }

    /// The installed platform-A send capability, if any.
    pub fn get_capability(&self) -> (r: &Option<H>)
        ensures
            *r == self@.capability,
    {
        &self.capability
    }

    /// Whether the platform-A send capability has been installed.
    pub fn has_capability(&self) -> (r: bool)
        ensures
            r == (self@.capability is Some),
    {
        self.capability.is_some()
    }
}

/// A successful commit keeps the two directions in agreement.
pub proof fn lemma_commit_preserves_agreement(f: Map<u64, i64>, r: Map<i64, u64>, t: u64, s: i64)
    requires
        maps_agree(f, r),
        can_commit(f, r, t, s),
    ensures
        maps_agree(f.insert(t, s), r.insert(s, t)),
{
    let f1 = f.insert(t, s);
    let r1 = r.insert(s, t);
    assert forall|t2: u64| #[trigger] f1.contains_key(t2) implies r1.contains_key(f1[t2])
        && r1[f1[t2]] == t2 by {
        if t2 != t {
            assert(f.contains_key(t2));
            if f[t2] == s {
                // then r maps s back to t2, but can_commit forces r[s] == t
                assert(r[s] == t2);
                assert(t2 == t);
            }
        }
    }
    assert forall|s2: i64| #[trigger] r1.contains_key(s2) implies f1.contains_key(r1[s2])
        && f1[r1[s2]] == s2 by {
        if s2 != s {
            assert(r.contains_key(s2));
            if r[s2] == t {
                assert(f[t] == s2);
                assert(s2 == s);
            }
        }
    }
}

/// Removing a mapped pair from both directions keeps them in agreement.
pub proof fn lemma_remove_preserves_agreement(f: Map<u64, i64>, r: Map<i64, u64>, t: u64)
    requires
        maps_agree(f, r),
        f.contains_key(t),
    ensures
        maps_agree(f.remove(t), r.remove(f[t])),
{
    let s = f[t];
    let f1 = f.remove(t);
    let r1 = r.remove(s);
    assert forall|t2: u64| #[trigger] f1.contains_key(t2) implies r1.contains_key(f1[t2])
        && r1[f1[t2]] == t2 by {
        assert(f.contains_key(t2));
        if f[t2] == s {
            assert(r[s] == t2);
            assert(r[s] == t);
        }
    }
    assert forall|s2: i64| #[trigger] r1.contains_key(s2) implies f1.contains_key(r1[s2])
        && f1[r1[s2]] == s2 by {
        assert(r.contains_key(s2));
        if r[s2] == t {
            assert(f[t] == s2);
        }
    }
}

} // verus!
