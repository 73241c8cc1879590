//! Identity pool: the shared registry from which unique 32-bit object
//! identifiers are drawn and to which they are returned.
//!
//! The pool guarantees that no two live entries share a value at the same
//! time, and that a value is recycled only after an explicit release.

use rand::Rng;
use vstd::prelude::*;

verus! {

use crate::EngineError;
use vstd::set_lib::{set_int_range, lemma_int_range, lemma_len_subset};
use vstd::seq_lib::seq_to_set_is_finite;

/// Relies on rand::thread_rng and rand::Rng::gen_range over the half-open
/// range of all 32-bit values but the largest: the draw is uniform, the
/// range is not empty (so the call does not panic), and the result lies
/// below the excluded upper bound.
#[verifier::external_body]
fn random_id_candidate() -> (r: u32)
    ensures
        r < 0xFFFF_FFFFu32,
{
    rand::thread_rng().gen_range(0..u32::MAX)
}

/// A pool of unique 32-bit identifiers.
///
/// A fresh value is found by drawing uniformly random candidates and, if the
/// pool is so crowded that the draws keep colliding, by a deterministic scan
/// for the smallest free value.
pub struct IdPool {
    ids: Vec<u32>,
}

/// If every value below `c` occurs in `s`, then `s` holds at least `c`
/// entries: the values below `c` are `c` distinct elements of `s`.
proof fn lemma_full_prefix_bounds_len(s: Seq<u32>, c: u32)
    requires
        forall|v: u32| v < c ==> s.contains(v),
    ensures
        c as int <= s.len(),
{
    broadcast use seq_to_set_is_finite;

    let ints = s.map_values(|x: u32| x as int);
    assert forall|i: int| 0 <= i < c implies ints.to_set().contains(i) by {
        let v = i as u32;
        assert(s.contains(v));
        let j = choose|j: int| 0 <= j < s.len() && s[j] == v;
        assert(ints[j] == i);
        assert(ints.contains(i));
    }
    assert(set_int_range(0, c as int).subset_of(ints.to_set()));
    lemma_int_range(0, c as int);
    ints.lemma_cardinality_of_set();
    lemma_len_subset(set_int_range(0, c as int), ints.to_set());
}

impl IdPool {
    /// The identifiers currently allocated from this pool, oldest first.
    pub closed spec fn ids(&self) -> Seq<u32> {
        self.ids@
    }

    /// Whether `id` is currently allocated.
    pub open spec fn contains(&self, id: u32) -> bool {
        self.ids().contains(id)
    }

    /// Id uniqueness: no value appears twice among the live identifiers.
    pub closed spec fn wf(&self) -> bool {
        self.ids@.no_duplicates()
    }

    /// An empty pool.
    pub fn new() -> (pool: IdPool)
        ensures
            pool.wf(),
            pool.ids() === Seq::empty(),
    {
        IdPool { ids: Vec::new() }
    }

    /// How many identifiers are currently allocated.
    pub fn len(&self) -> (n: usize)
        ensures
            n == self.ids().len(),
    {
        self.ids.len()
    }

    /// Whether `id` is currently allocated.
    pub fn is_allocated(&self, id: u32) -> (r: bool)
        ensures
            r == self.contains(id),
    {
        let mut i: usize = 0;
        while i < self.ids.len()
            invariant
                i <= self.ids@.len(),
                forall|k: int| 0 <= k < i ==> self.ids@[k] != id,
            decreases self.ids@.len() - i,
        {
            if self.ids[i] == id {
                return true;
            }
            i += 1;
        }
        false
    }

    /// The smallest value not currently allocated.
    fn first_free(&self) -> (id: u32)
        requires
            self.wf(),
            self.ids().len() < 0xFFFF_FFFF,
        ensures
            !self.contains(id),
    {
        let mut candidate: u32 = 0;
        loop
            invariant
                self.wf(),
                self.ids().len() < 0xFFFF_FFFF,
                forall|v: u32| v < candidate ==> self.ids@.contains(v),
                candidate as int <= self.ids@.len(),
            ensures
                !self.contains(candidate),
            decreases self.ids@.len() - candidate,
        {
            if !self.is_allocated(candidate) {
                return candidate;
            }
            proof {
                lemma_full_prefix_bounds_len(self.ids@, (candidate + 1) as u32);
            }
            candidate += 1;
        }
    }

    /// Allocate a fresh identifier: a value not currently present in the
    /// pool is found, inserted, and returned.
    ///
    /// Candidates are drawn uniformly at random and redrawn on collision;
    /// after a fixed number of colliding draws the smallest free value is
    /// taken instead, so that the call provably terminates.
    pub fn allocate(&mut self) -> (id: u32)
        requires
            old(self).wf(),
            old(self).ids().len() < 0xFFFF_FFFF,
        ensures
            final(self).wf(),
            !old(self).contains(id),
            final(self).contains(id),
            final(self).ids() === old(self).ids().push(id),
            forall|x: u32|
                final(self).contains(x) <==> old(self).contains(x) || x == id,
    {
        let mut candidate: u32 = random_id_candidate();
        let mut tries: u32 = 0;
        while tries < 15 && self.is_allocated(candidate)
            invariant
                self.wf(),
                self.ids().len() < 0xFFFF_FFFF,
                tries <= 15,
            decreases 15 - tries,
        {
            candidate = random_id_candidate();
            tries += 1;
        }
        if self.is_allocated(candidate) {
            candidate = self.first_free();
        }
        self.ids.push(candidate);
        proof {
            let s = old(self).ids();
            let t = self.ids@;
            assert(t[s.len() as int] == candidate);
            assert(t.contains(candidate));
            assert forall|x: u32| t.contains(x) implies s.contains(x) || x == candidate by {
                let k = choose|k: int| 0 <= k < t.len() && t[k] == x;
                if k < s.len() {
                    assert(s[k] == x);
                }
            }
            assert forall|x: u32| s.contains(x) implies t.contains(x) by {
                let k = choose|k: int| 0 <= k < s.len() && s[k] == x;
                assert(t[k] == x);
            }
        }
        candidate
    }

    /// Release `id`, removing exactly one occurrence of it from the pool.
    ///
    /// Releasing a value that is not currently allocated signals a double
    /// release or a corrupted lifecycle: the pool is left unchanged and the
    /// violation is reported.
    pub fn release(&mut self, id: u32) -> (r: Result<(), EngineError>)
        requires
            old(self).wf(),
        ensures
            final(self).wf(),
            match r {
                Ok(()) => {
                    &&& old(self).contains(id)
                    &&& !final(self).contains(id)
                    &&& final(self).ids() === old(self).ids().remove(old(self).ids().index_of(id))
                    &&& forall|x: u32|
                        final(self).contains(x) <==> old(self).contains(x) && x != id
                },
                Err(e) => {
                    &&& e === EngineError::InvariantViolation
                    &&& !old(self).contains(id)
                    &&& final(self).ids() === old(self).ids()
                },
            },
    {
        let mut i: usize = 0;
        while i < self.ids.len()
            invariant
                self.wf(),
                self.ids@ === old(self).ids@,
                i <= self.ids@.len(),
                forall|k: int| 0 <= k < i ==> self.ids@[k] != id,
            decreases self.ids@.len() - i,
        {
            if self.ids[i] == id {
                proof {
                    let s = self.ids@;
                    assert(s[i as int] == id);
                    assert(s.contains(id));
                    let j = s.index_of(id);
                    assert(0 <= j < s.len() && s[j] == id);
                    if j != i as int {
                        assert(s[j] != s[i as int]);
                        assert(false);
                    }
                    lemma_remove_unique(s, i as int, id);
                }
                self.ids.remove(i);
                return Ok(());
            }
            i += 1;
        }
        proof {
            assert(!old(self).ids@.contains(id));
        }
        Err(EngineError::InvariantViolation)
    }
}

/// Removing the index at which `id` sits from a duplicate-free sequence
/// removes its only occurrence, keeps every other value, and keeps the
/// sequence duplicate-free.
proof fn lemma_remove_unique(s: Seq<u32>, i: int, id: u32)
    requires
        s.no_duplicates(),
        0 <= i < s.len(),
        s[i] == id,
    ensures
        s.remove(i).no_duplicates(),
        !s.remove(i).contains(id),
        forall|x: u32| s.remove(i).contains(x) <==> s.contains(x) && x != id,
{
    let t = s.remove(i);
    assert forall|p: int, q: int| 0 <= p < q < t.len() implies t[p] != t[q] by {
        let sp: int = if p < i { p } else { p + 1 };
        let sq: int = if q < i { q } else { q + 1 };
        assert(t[p] == s[sp]);
        assert(t[q] == s[sq]);
    }
    assert forall|k: int| 0 <= k < t.len() implies t[k] != id by {
        let sk: int = if k < i { k } else { k + 1 };
        assert(t[k] == s[sk]);
    }
    assert forall|x: u32| t.contains(x) implies s.contains(x) && x != id by {
        let k = choose|k: int| 0 <= k < t.len() && t[k] == x;
        let sk: int = if k < i { k } else { k + 1 };
        assert(t[k] == s[sk]);
    }
    assert forall|x: u32| s.contains(x) && x != id implies t.contains(x) by {
        let j = choose|j: int| 0 <= j < s.len() && s[j] == x;
        let tj: int = if j < i { j } else { j - 1 };
        assert(t[tj] == s[j]);
    }
}

/// Id uniqueness, as a law over the pool's view: in a well-formed pool no
/// value appears at two distinct positions among the live identifiers, and
/// every operation of `IdPool` keeps the pool well-formed.
pub proof fn lemma_id_uniqueness(pool: IdPool, i: int, j: int)
    requires
        pool.wf(),
        0 <= i < pool.ids().len(),
        0 <= j < pool.ids().len(),
        i != j,
    ensures
        pool.ids()[i] != pool.ids()[j],
{
}

/// Id reuse: while a value is live, `allocate` never returns it (its
/// freshness clause excludes every live value); once `release(id)` succeeds
/// the value is no longer live, so nothing excludes a later `allocate` from
/// returning `id` again.
pub proof fn lemma_id_reuse(before: IdPool, after: IdPool, id: u32)
    requires
        before.wf(),
        before.contains(id),
        after.wf(),
        after.ids() === before.ids().remove(before.ids().index_of(id)),
    ensures
        !after.contains(id),
{
    let i = before.ids().index_of(id);
    assert(before.ids()[i] == id);
    lemma_remove_unique(before.ids(), i, id);
}

} // verus!
