//! The laws the ticket directory obeys, stated over the abstract maps that
//! the executable contracts speak of. `f` is always the forward direction
//! (thread -> session) and `r` the reverse one (session -> thread); a
//! successful commit turns `(f, r)` into `(f.insert(t, s), r.insert(s, t))`
//! and a removal into `(f.remove(t), r.remove(s))`, exactly as the contracts
//! of [`Directory::commit`] and [`Directory::remove`] state.

use vstd::prelude::*;
use crate::coordinator::{forward_after_thread_deletion, reverse_after_thread_deletion};
use crate::directory::{can_commit, maps_agree, lemma_commit_preserves_agreement};

verus! {

/// After `commit(t, s)` succeeds, the forward lookup of `t` gives `s` and
/// the reverse lookup of `s` gives `t`.
pub proof fn lemma_commit_establishes_mapping(f: Map<u64, i64>, r: Map<i64, u64>, t: u64, s: i64)
    requires
        can_commit(f, r, t, s),
    ensures
        f.insert(t, s).contains_key(t) && f.insert(t, s)[t] == s,
        r.insert(s, t).contains_key(s) && r.insert(s, t)[s] == t,
{
}

/// The mapping established by a commit holds until a remove affects it: a
/// later successful commit of a different pair leaves both lookups intact.
pub proof fn lemma_mapping_survives_other_commit(
    f: Map<u64, i64>,
    r: Map<i64, u64>,
    t: u64,
    s: i64,
    t2: u64,
    s2: i64,
)
    requires
        f.contains_key(t) && f[t] == s,
        r.contains_key(s) && r[s] == t,
        t2 != t,
        s2 != s,
    ensures
        f.insert(t2, s2).contains_key(t) && f.insert(t2, s2)[t] == s,
        r.insert(s2, t2).contains_key(s) && r.insert(s2, t2)[s] == t,
{
}

/// The mapping established by a commit also survives the removal of any
/// other ticket: in an agreeing directory, removing thread `t2 != t` (and
/// with it the session it maps to) leaves the lookups of `t` and `s` intact.
pub proof fn lemma_mapping_survives_other_remove(
    f: Map<u64, i64>,
    r: Map<i64, u64>,
    t: u64,
    s: i64,
    t2: u64,
)
    requires
        maps_agree(f, r),
        f.contains_key(t) && f[t] == s,
        f.contains_key(t2),
        t2 != t,
    ensures
        f.remove(t2).contains_key(t) && f.remove(t2)[t] == s,
        r.remove(f[t2]).contains_key(s) && r.remove(f[t2])[s] == t,
{
    assert(r.contains_key(s) && r[s] == t);
    if f[t2] == s {
        assert(r[s] == t2);
    }
}

/// `remove(t)` clears both directions: afterwards neither the thread nor the
/// session it mapped to can be looked up — no dangling half-entry.
pub proof fn lemma_remove_clears_both(f: Map<u64, i64>, r: Map<i64, u64>, t: u64)
    requires
        f.contains_key(t),
    ensures
        !f.remove(t).contains_key(t),
        !r.remove(f[t]).contains_key(f[t]),
{
}

/// Closing by thread deletion is idempotent: a second close for the same
/// thread changes nothing (and, by the contract of
/// [`close_ticket_by_thread_deletion`], reports no error either).
pub proof fn lemma_thread_deletion_idempotent(f: Map<u64, i64>, r: Map<i64, u64>, t: u64)
    ensures
        forward_after_thread_deletion(forward_after_thread_deletion(f, t), t)
            == forward_after_thread_deletion(f, t),
        reverse_after_thread_deletion(
            forward_after_thread_deletion(f, t),
            reverse_after_thread_deletion(f, r, t),
            t,
        ) == reverse_after_thread_deletion(f, r, t),
{
}

/// Two racing opens for one session have exactly one winner: once the first
/// commit of `t1 <-> s` has gone through, a second commit of any other
/// thread `t2` for the same session must fail, and the session maps to
/// exactly the one thread `t1`.
pub proof fn lemma_open_race_single_winner(
    f: Map<u64, i64>,
    r: Map<i64, u64>,
    t1: u64,
    t2: u64,
    s: i64,
)
    requires
        maps_agree(f, r),
        !r.contains_key(s),
        !f.contains_key(t1),
        t2 != t1,
    ensures
        can_commit(f, r, t1, s),
        !can_commit(f.insert(t1, s), r.insert(s, t1), t2, s),
        r.insert(s, t1)[s] == t1,
        maps_agree(f.insert(t1, s), r.insert(s, t1)),
{
    lemma_commit_preserves_agreement(f, r, t1, s);
}

} // verus!
