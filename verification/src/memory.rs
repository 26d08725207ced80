//! The in-process backend: a single owner of the authoritative
//! records.
//!
//! A `MemoryStore` holds the records in one collection with pairwise
//! distinct identifiers.  Its abstract value is the map from
//! identifier to record model, and every operation is proved to
//! transform that map exactly as [`crate::semantics`] demands.  The
//! store owns the authoritative copy: callers receive cloned
//! snapshots, never references into it.  An embedding program that
//! serves concurrent callers guards one `MemoryStore` with one
//! mutual-exclusion lock held for a whole operation, which makes every
//! operation atomic and linearizes the history.

use vstd::prelude::*;

use crate::errors::StoreError;
use crate::record::{Question, QuestionModel};
use crate::semantics::{
    create_result, create_state, delete_result, delete_state, get_result, question_result_model,
    replace_result, replace_state, set_answer_result, set_answer_state, state_wf, Contents,
};

verus! {

/// The records `s`, read as a map from identifier to record model.
/// Later records shadow earlier ones; the store keeps identifiers
/// distinct, so no shadowing ever happens.
pub open spec fn seq_contents(s: Seq<Question>) -> Contents
    decreases s.len(),
{
    if s.len() == 0 {
        Map::empty()
    } else {
        seq_contents(s.drop_last()).insert(s.last()@.id, s.last()@)
    }
}

/// The records carry pairwise distinct identifiers.
pub open spec fn distinct_ids(s: Seq<Question>) -> bool {
    forall|i: int, j: int|
        0 <= i < j < s.len() ==> (#[trigger] s[i])@.id != (#[trigger] s[j])@.id
}

/// Every record carries a non-empty prompt.
pub open spec fn all_wf(s: Seq<Question>) -> bool {
    forall|i: int| 0 <= i < s.len() ==> (#[trigger] s[i])@.wf()
}

proof fn lemma_prefix_distinct(s: Seq<Question>)
    requires
        s.len() > 0,
        distinct_ids(s),
    ensures
        distinct_ids(s.drop_last()),
{
    assert forall|i: int, j: int|
        0 <= i < j < s.drop_last().len() implies (#[trigger] s.drop_last()[i])@.id != (
    #[trigger] s.drop_last()[j])@.id by {
        assert(s.drop_last()[i] == s[i]);
        assert(s.drop_last()[j] == s[j]);
    }
}

/// An identifier is in the domain of `seq_contents(s)` exactly when
/// some record of `s` carries it; the domain is finite.
proof fn lemma_contents_dom(s: Seq<Question>)
    ensures
        seq_contents(s).dom().finite(),
        forall|id: u128| #[trigger]
            seq_contents(s).contains_key(id) <==> exists|i: int|
                0 <= i < s.len() && (#[trigger] s[i])@.id == id,
    decreases s.len(),
{
    if s.len() == 0 {
    } else {
        lemma_contents_dom(s.drop_last());
        assert forall|id: u128| #[trigger]
            seq_contents(s).contains_key(id) implies exists|i: int|
            0 <= i < s.len() && (#[trigger] s[i])@.id == id by {
            if id == s.last()@.id {
                assert(s[s.len() - 1]@.id == id);
            } else {
                let i = choose|i: int|
                    0 <= i < s.drop_last().len() && (#[trigger] s.drop_last()[i])@.id == id;
                assert(s[i]@.id == id);
            }
        }
        assert forall|id: u128|
            exists|i: int|
                0 <= i < s.len() && (#[trigger] s[i])@.id
                    == id implies #[trigger] seq_contents(s).contains_key(id) by {
            let i = choose|i: int| 0 <= i < s.len() && (#[trigger] s[i])@.id == id;
            if i == s.len() - 1 {
            } else {
                assert(s.drop_last()[i]@.id == id);
            }
        }
    }
}

/// Under distinct identifiers, record `i` of `s` is what
/// `seq_contents(s)` holds under its identifier.
proof fn lemma_contents_index(s: Seq<Question>, i: int)
    requires
        distinct_ids(s),
        0 <= i < s.len(),
    ensures
        seq_contents(s).contains_key(s[i]@.id),
        seq_contents(s)[s[i]@.id] == s[i]@,
    decreases s.len(),
{
    if i == s.len() - 1 {
    } else {
        lemma_prefix_distinct(s);
        lemma_contents_index(s.drop_last(), i);
        assert(s.drop_last()[i] == s[i]);
        assert(s[i]@.id != s.last()@.id);
    }
}

/// Appending a record inserts it into the contents.
proof fn lemma_contents_push(s: Seq<Question>, q: Question)
    ensures
        seq_contents(s.push(q)) == seq_contents(s).insert(q@.id, q@),
{
    assert(s.push(q).drop_last() =~= s);
    assert(s.push(q).last() == q);
}

/// Overwriting record `i` with a record carrying the same identifier
/// inserts the new record into the contents.
proof fn lemma_contents_update(s: Seq<Question>, i: int, q: Question)
    requires
        distinct_ids(s),
        0 <= i < s.len(),
        q@.id == s[i]@.id,
    ensures
        seq_contents(s.update(i, q)) == seq_contents(s).insert(q@.id, q@),
    decreases s.len(),
{
    let t = s.update(i, q);
    if i == s.len() - 1 {
        assert(t.drop_last() =~= s.drop_last());
        assert(t.last() == q);
        assert(seq_contents(s.drop_last()).insert(s.last()@.id, s.last()@).insert(q@.id, q@)
            =~= seq_contents(s.drop_last()).insert(q@.id, q@));
    } else {
        lemma_prefix_distinct(s);
        assert(t.drop_last() =~= s.drop_last().update(i, q));
        assert(t.last() == s.last());
        assert(s.drop_last()[i] == s[i]);
        lemma_contents_update(s.drop_last(), i, q);
        assert(s.last()@.id != q@.id);
        assert(seq_contents(s.drop_last()).insert(q@.id, q@).insert(s.last()@.id, s.last()@)
            =~= seq_contents(s.drop_last()).insert(s.last()@.id, s.last()@).insert(q@.id, q@));
    }
}

/// Removing record `i` removes its identifier from the contents.
proof fn lemma_contents_remove(s: Seq<Question>, i: int)
    requires
        distinct_ids(s),
        0 <= i < s.len(),
    ensures
        seq_contents(s.remove(i)) == seq_contents(s).remove(s[i]@.id),
    decreases s.len(),
{
    let id = s[i]@.id;
    if i == s.len() - 1 {
        assert(s.remove(i) =~= s.drop_last());
        lemma_contents_dom(s.drop_last());
        assert forall|j: int| 0 <= j < s.drop_last().len() implies (#[trigger] s.drop_last()[j])@.id
            != id by {
            assert(s.drop_last()[j] == s[j]);
        }
        assert(!seq_contents(s.drop_last()).contains_key(id));
        assert(seq_contents(s.drop_last()).insert(id, s.last()@).remove(id) =~= seq_contents(
            s.drop_last(),
        ));
    } else {
        lemma_prefix_distinct(s);
        assert(s.remove(i).drop_last() =~= s.drop_last().remove(i));
        assert(s.remove(i).last() == s.last());
        assert(s.drop_last()[i] == s[i]);
        lemma_contents_remove(s.drop_last(), i);
        assert(s.last()@.id != id);
        assert(seq_contents(s.drop_last()).remove(id).insert(s.last()@.id, s.last()@)
            =~= seq_contents(s.drop_last()).insert(s.last()@.id, s.last()@).remove(id));
    }
}

/// Under distinct identifiers the contents hold exactly one entry per
/// record.
proof fn lemma_contents_len(s: Seq<Question>)
    requires
        distinct_ids(s),
    ensures
        seq_contents(s).len() == s.len(),
    decreases s.len(),
{
    if s.len() == 0 {
    } else {
        lemma_prefix_distinct(s);
        lemma_contents_len(s.drop_last());
        lemma_contents_dom(s.drop_last());
        assert forall|j: int| 0 <= j < s.drop_last().len() implies (#[trigger] s.drop_last()[j])@.id
            != s.last()@.id by {
            assert(s.drop_last()[j] == s[j]);
        }
        assert(!seq_contents(s.drop_last()).contains_key(s.last()@.id));
        vstd::set::axiom_set_insert_len(seq_contents(s.drop_last()).dom(), s.last()@.id);
    }
}

/// Well-kept records denote a well-formed state.
proof fn lemma_contents_state_wf(s: Seq<Question>)
    requires
        distinct_ids(s),
        all_wf(s),
    ensures
        state_wf(seq_contents(s)),
{
    lemma_contents_dom(s);
    assert forall|id: u128| seq_contents(s).contains_key(id) implies (#[trigger] seq_contents(
        s,
    )[id]).id == id && seq_contents(s)[id].wf() by {
        let i = choose|i: int| 0 <= i < s.len() && (#[trigger] s[i])@.id == id;
        lemma_contents_index(s, i);
    }
}

/// The in-process store.  Its abstract value (`self@`) is the map from
/// identifier to record model.
pub struct MemoryStore {
    records: Vec<Question>,
}

impl View for MemoryStore {
    type V = Contents;

    closed spec fn view(&self) -> Contents {
        seq_contents(self.records@)
    }
}

impl MemoryStore {
    /// The store is well kept: identifiers pairwise distinct and
    /// prompts non-empty.  `new` establishes this and every operation
    /// preserves it; the representation is private, so no caller can
    /// break it.
    pub closed spec fn wf(&self) -> bool {
        distinct_ids(self.records@) && all_wf(self.records@)
    }

    /// An empty store.
    pub fn new() -> (r: MemoryStore)
        ensures
            r@ == Map::<u128, QuestionModel>::empty(),
            r.wf(),
    {
        MemoryStore { records: Vec::new() }
    }

    /// The index of the record carrying `id`, if any.
    fn index_of(&self, id: u128) -> (r: Option<usize>)
        ensures
            match r {
                Some(i) => i < self.records@.len() && self.records@[i as int]@.id == id,
                None => forall|i: int|
                    0 <= i < self.records@.len() ==> (#[trigger] self.records@[i])@.id != id,
            },
    {
        let mut i: usize = 0;
        while i < self.records.len()
            invariant
                i <= self.records@.len(),
                forall|j: int| 0 <= j < i ==> (#[trigger] self.records@[j])@.id != id,
            decreases self.records@.len() - i,
        {
            if self.records[i].id == id {
                return Some(i);
            }
            i = i + 1;
        }
        None
    }

    /// Returns a snapshot of the record under `id`, or `NotFound`.
    pub fn get(&self, id: u128) -> (r: Result<Question, StoreError>)
        requires
            self.wf(),
        ensures
            question_result_model(r) == get_result(self@, id),
    {
        proof {
            lemma_contents_dom(self.records@);
        }
        match self.index_of(id) {
            Some(i) => {
                proof {
                    lemma_contents_index(self.records@, i as int);
                }
                Ok(self.records[i].clone())
            },
            None => Err(StoreError::NotFound),
        }
    }

    /// Creates the record carried by `q`, with its answer absent.
    /// Fails with `InvalidInput` on an empty prompt and with
    /// `Conflict` when a record already holds `q.id`; on failure the
    /// store is untouched.
    pub fn create(&mut self, q: Question) -> (r: Result<u128, StoreError>)
        requires
            old(self).wf(),
        ensures
            r == create_result(old(self)@, q@),
            final(self)@ == create_state(old(self)@, q@),
            final(self).wf(),
            state_wf(final(self)@),
    {
        proof {
            lemma_contents_dom(self.records@);
            lemma_contents_state_wf(self.records@);
        }
        if q.text.as_str().is_empty() {
            return Err(StoreError::InvalidInput);
        }
        let id = q.id;
        match self.index_of(id) {
            Some(_) => Err(StoreError::Conflict),
            None => {
                let mut fresh = q;
                fresh.answer = None;
                proof {
                    lemma_contents_push(self.records@, fresh);
                }
                let ghost pushed = self.records@.push(fresh);
                self.records.push(fresh);
                proof {
                    assert forall|i: int, j: int| 0 <= i < j < pushed.len() implies (
                    #[trigger] pushed[i])@.id != (#[trigger] pushed[j])@.id by {
                        if j < pushed.len() - 1 {
                            assert(pushed[i] == self.records@[i]);
                        }
                    }
                    lemma_contents_state_wf(self.records@);
                }
                Ok(id)
            },
        }
    }

    /// Replaces every field but the identity of the record under `id`
    /// with the payload's fields — the answer too, so a payload with
    /// the answer absent clears it.  Fails with `InvalidInput` on an
    /// empty prompt and with `NotFound` when no record holds `id`; on
    /// failure the store is untouched.
    pub fn replace(&mut self, id: u128, q: Question) -> (r: Result<(), StoreError>)
        requires
            old(self).wf(),
        ensures
            r == replace_result(old(self)@, id, q@),
            final(self)@ == replace_state(old(self)@, id, q@),
            final(self).wf(),
            state_wf(final(self)@),
    {
        proof {
            lemma_contents_dom(self.records@);
            lemma_contents_state_wf(self.records@);
        }
        if q.text.as_str().is_empty() {
            return Err(StoreError::InvalidInput);
        }
        match self.index_of(id) {
            None => Err(StoreError::NotFound),
            Some(i) => {
                let mut next = q;
                next.id = id;
                proof {
                    lemma_contents_index(self.records@, i as int);
                    lemma_contents_update(self.records@, i as int, next);
                }
                let ghost updated = self.records@.update(i as int, next);
                self.records[i] = next;
                proof {
                    assert forall|a: int, b: int| 0 <= a < b < updated.len() implies (
                    #[trigger] updated[a])@.id != (#[trigger] updated[b])@.id by {
                        assert(updated[a]@.id == old(self).records@[a]@.id);
                        assert(updated[b]@.id == old(self).records@[b]@.id);
                    }
                    lemma_contents_state_wf(self.records@);
                }
                Ok(())
            },
        }
    }

    /// Deletes the record under `id`.  Fails with `NotFound` when no
    /// record holds `id`; the store is then untouched.
    pub fn delete(&mut self, id: u128) -> (r: Result<(), StoreError>)
        requires
            old(self).wf(),
        ensures
            r == delete_result(old(self)@, id),
            final(self)@ == delete_state(old(self)@, id),
            final(self).wf(),
            state_wf(final(self)@),
    {
        proof {
            lemma_contents_dom(self.records@);
            lemma_contents_state_wf(self.records@);
        }
        match self.index_of(id) {
            None => Err(StoreError::NotFound),
            Some(i) => {
                proof {
                    lemma_contents_index(self.records@, i as int);
                    lemma_contents_remove(self.records@, i as int);
                }
                let ghost shrunk = self.records@.remove(i as int);
                self.records.remove(i);
                proof {
                    assert forall|a: int, b: int| 0 <= a < b < shrunk.len() implies (
                    #[trigger] shrunk[a])@.id != (#[trigger] shrunk[b])@.id by {
                        let sa: int = if a < i as int {
                            a
                        } else {
                            a + 1
                        };
                        let sb: int = if b < i as int {
                            b
                        } else {
                            b + 1
                        };
                        assert(shrunk[a] == old(self).records@[sa]);
                        assert(shrunk[b] == old(self).records@[sb]);
                    }
                    assert forall|a: int| 0 <= a < shrunk.len() implies (
                    #[trigger] shrunk[a])@.wf() by {
                        let sa: int = if a < i as int {
                            a
                        } else {
                            a + 1
                        };
                        assert(shrunk[a] == old(self).records@[sa]);
                    }
                    lemma_contents_state_wf(self.records@);
                }
                Ok(())
            },
        }
    }

    /// Sets the answer of the record under `id` to exactly `answer`,
    /// leaving every other field unchanged.  Fails with `NotFound`
    /// when no record holds `id`; the store is then untouched.
    pub fn set_answer(&mut self, id: u128, answer: String) -> (r: Result<(), StoreError>)
        requires
            old(self).wf(),
        ensures
            r == set_answer_result(old(self)@, id, answer@),
            final(self)@ == set_answer_state(old(self)@, id, answer@),
            final(self).wf(),
            state_wf(final(self)@),
    {
        proof {
            lemma_contents_dom(self.records@);
            lemma_contents_state_wf(self.records@);
        }
        match self.index_of(id) {
            None => Err(StoreError::NotFound),
            Some(i) => {
                let mut next = self.records[i].clone();
                next.answer = Some(answer);
                proof {
                    lemma_contents_index(self.records@, i as int);
                    lemma_contents_update(self.records@, i as int, next);
                }
                let ghost updated = self.records@.update(i as int, next);
                self.records[i] = next;
                proof {
                    assert forall|a: int, b: int| 0 <= a < b < updated.len() implies (
                    #[trigger] updated[a])@.id != (#[trigger] updated[b])@.id by {
                        assert(updated[a]@.id == old(self).records@[a]@.id);
                        assert(updated[b]@.id == old(self).records@[b]@.id);
                    }
                    lemma_contents_state_wf(self.records@);
                }
                Ok(())
            },
        }
    }

    /// A point-in-time snapshot: one clone of every stored record,
    /// each under its identifier in the contents, with no identifier
    /// repeated.  No ordering is promised.
    pub fn list(&self) -> (r: Vec<Question>)
        requires
            self.wf(),
        ensures
            r@.len() == self@.len(),
            forall|i: int|
                0 <= i < r@.len() ==> self@.contains_key((#[trigger] r@[i])@.id) && self@[r@[i]@.id]
                    == r@[i]@,
            forall|i: int, j: int|
                0 <= i < j < r@.len() ==> (#[trigger] r@[i])@.id != (#[trigger] r@[j])@.id,
    {
        proof {
            lemma_contents_len(self.records@);
        }
        let mut out: Vec<Question> = Vec::new();
        let mut i: usize = 0;
        while i < self.records.len()
            invariant
                i <= self.records@.len(),
                out@.len() == i,
                forall|j: int| 0 <= j < i ==> #[trigger] out@[j] == self.records@[j],
            decreases self.records@.len() - i,
        {
            out.push(self.records[i].clone());
            i = i + 1;
        }
        proof {
            assert forall|j: int| 0 <= j < out@.len() implies self@.contains_key(
                (#[trigger] out@[j])@.id,
            ) && self@[out@[j]@.id] == out@[j]@ by {
                lemma_contents_index(self.records@, j);
            }
        }
        out
    }
}

} // verus!
