//! The store-wide guarantees, stated and proved once over the
//! canonical semantics.
//!
//! Every backend operation is verified against the spec functions of
//! [`crate::semantics`] (the in-memory store directly, the relational
//! backend through its table model), so each law below holds of both
//! backends.

use vstd::prelude::*;

use crate::errors::StoreError;
use crate::persistent::{db_run_results, db_run_state, db_step_result, db_step_state};
use crate::record::QuestionModel;
use crate::semantics::{
    create_result, create_state, delete_result, delete_state, get_result, lemma_step_preserves_wf,
    replace_result, replace_state, run_results, run_state, set_answer_result, set_answer_state,
    state_wf, step_result, step_state, Contents, Op, OpOutcome,
};

verus! {

/// Round trip: when a create is accepted, a lookup of the created
/// identifier returns the payload with its answer absent.
pub proof fn round_trip_create_get(s: Contents, q: QuestionModel)
    requires
        create_result(s, q) is Ok,
    ensures
        get_result(create_state(s, q), q.id) == Ok::<QuestionModel, StoreError>(q.fresh()),
{
}

/// Not-found symmetry: on an identifier for which no record was ever
/// created, lookup, replace (with a valid payload), delete and
/// set-answer all report `NotFound` — never `Conflict` or
/// `InvalidInput` — and none of them moves the state.
pub proof fn not_found_symmetry(s: Contents, id: u128, q: QuestionModel, answer: Seq<char>)
    requires
        !s.contains_key(id),
        q.text.len() > 0,
    ensures
        get_result(s, id) == Err::<QuestionModel, StoreError>(StoreError::NotFound),
        replace_result(s, id, q) == Err::<(), StoreError>(StoreError::NotFound),
        delete_result(s, id) == Err::<(), StoreError>(StoreError::NotFound),
        set_answer_result(s, id, answer) == Err::<(), StoreError>(StoreError::NotFound),
        replace_state(s, id, q) == s,
        delete_state(s, id) == s,
        set_answer_state(s, id, answer) == s,
{
}

/// Duplicate create: a create (with a valid payload) naming an
/// identifier that already exists reports `Conflict`, and the record
/// stored under that identifier remains exactly what it was.
pub proof fn duplicate_create_rejected(s: Contents, q: QuestionModel)
    requires
        s.contains_key(q.id),
        q.text.len() > 0,
    ensures
        create_result(s, q) == Err::<u128, StoreError>(StoreError::Conflict),
        create_state(s, q) == s,
        get_result(create_state(s, q), q.id) == Ok::<QuestionModel, StoreError>(s[q.id]),
{
}

/// A replace whose payload carries no answer leaves the stored record
/// unanswered: explicitly absent clears.
pub proof fn replace_clears_answer(s: Contents, id: u128, q: QuestionModel)
    requires
        s.contains_key(id),
        q.text.len() > 0,
        q.answer is None,
    ensures
        replace_state(s, id, q).contains_key(id),
        replace_state(s, id, q)[id].answer is None,
        replace_state(s, id, q)[id].text == q.text,
{
}

/// The set-answer operations on one identifier, as a sequence.
pub open spec fn set_answer_ops(id: u128, answers: Seq<Seq<char>>) -> Seq<Op> {
    answers.map_values(|a: Seq<char>| Op::SetAnswer(id, a))
}

/// No lost updates: any number of set-answer calls against one
/// existing identifier, linearized in any order (the in-memory store's
/// lock and the database's per-row atomicity each force some order),
/// all succeed and leave the record exactly as the last of them wrote
/// it — one of the submitted texts, never a mix — with every other
/// field and every other record untouched.
pub proof fn no_lost_updates(s: Contents, id: u128, answers: Seq<Seq<char>>)
    requires
        s.contains_key(id),
        answers.len() > 0,
    ensures
        run_state(s, set_answer_ops(id, answers)) == s.insert(
            id,
            s[id].with_answer(answers.last()),
        ),
        exists|i: int|
            0 <= i < answers.len() && run_state(s, set_answer_ops(id, answers))[id].answer == Some(
                #[trigger] answers[i],
            ),
        run_results(s, set_answer_ops(id, answers)).len() == answers.len(),
        forall|i: int|
            0 <= i < answers.len() ==> run_results(s, set_answer_ops(id, answers))[i] == Ok::<
                OpOutcome,
                StoreError,
            >(OpOutcome::Changed),
    decreases answers.len(),
{
    let ops = set_answer_ops(id, answers);
    assert(ops.last() == Op::SetAnswer(id, answers.last()));
    if answers.len() == 1 {
        assert(ops.drop_last() =~= Seq::<Op>::empty());
        assert(run_state(s, ops.drop_last()) == s);
        assert(s.insert(id, s[id].with_answer(answers.last())) =~= set_answer_state(
            s,
            id,
            answers.last(),
        ));
        assert(run_results(s, ops) == run_results(s, ops.drop_last()).push(
            step_result(s, ops.last()),
        ));
        assert(run_results(s, ops.drop_last()).len() == 0);
        assert(step_result(s, ops.last()) == Ok::<OpOutcome, StoreError>(OpOutcome::Changed));
    } else {
        let prev = answers.drop_last();
        let prev_ops = set_answer_ops(id, prev);
        assert(ops.drop_last() =~= prev_ops);
        no_lost_updates(s, id, prev);
        let t = run_state(s, prev_ops);
        assert(t.contains_key(id));
        assert(t[id] == s[id].with_answer(prev.last()));
        assert(run_state(s, ops) == set_answer_state(t, id, answers.last()));
        assert(t[id].with_answer(answers.last()) == s[id].with_answer(answers.last()));
        assert(t.insert(id, t[id].with_answer(answers.last())) =~= s.insert(
            id,
            s[id].with_answer(answers.last()),
        ));
        assert(run_results(s, ops) == run_results(s, prev_ops).push(
            step_result(t, ops.last()),
        ));
        assert(step_result(t, ops.last()) == Ok::<OpOutcome, StoreError>(OpOutcome::Changed));
        assert forall|i: int| 0 <= i < answers.len() implies run_results(s, ops)[i] == Ok::<
            OpOutcome,
            StoreError,
        >(OpOutcome::Changed) by {
            if i < answers.len() - 1 {
                assert(run_results(s, prev_ops)[i] == Ok::<OpOutcome, StoreError>(
                    OpOutcome::Changed,
                ));
                assert(run_results(s, ops)[i] == run_results(s, prev_ops)[i]);
            } else {
                assert(run_results(s, ops)[i] == step_result(t, ops.last()));
            }
        }
    }
    assert(run_state(s, ops)[id].answer == Some(answers[answers.len() - 1]));
}

/// Every operation leaves a well-formed state well formed; so does a
/// whole sequence.
pub proof fn run_preserves_wf(s: Contents, ops: Seq<Op>)
    requires
        state_wf(s),
    ensures
        state_wf(run_state(s, ops)),
    decreases ops.len(),
{
    if ops.len() > 0 {
        run_preserves_wf(s, ops.drop_last());
        lemma_step_preserves_wf(run_state(s, ops.drop_last()), ops.last());
    }
}

/// Backend parity for one operation: on a well-formed state, the
/// relational backend's single statement, interpreted as specified,
/// returns exactly the result the canonical semantics demand and
/// leaves exactly the state they demand.
pub proof fn backend_parity_step(s: Contents, op: Op)
    requires
        state_wf(s),
    ensures
        db_step_result(s, op) == step_result(s, op),
        db_step_state(s, op) == step_state(s, op),
{
    match op {
        Op::Get(id) => {
            if s.contains_key(id) {
                assert(s[id].id == id);
            }
        },
        Op::Replace(id, q) => {
            if s.contains_key(id) {
                assert(s[id].id == id);
            }
        },
        _ => {},
    }
}

/// Backend parity: one sequence of operations, replayed against the
/// in-memory semantics and against the relational backend's table
/// model from the same well-formed initial state, produces the same
/// results in the same order and ends in the same state.
pub proof fn backend_parity(s: Contents, ops: Seq<Op>)
    requires
        state_wf(s),
    ensures
        db_run_results(s, ops) == run_results(s, ops),
        db_run_state(s, ops) == run_state(s, ops),
    decreases ops.len(),
{
    if ops.len() > 0 {
        backend_parity(s, ops.drop_last());
        run_preserves_wf(s, ops.drop_last());
        backend_parity_step(run_state(s, ops.drop_last()), ops.last());
        assert(db_run_results(s, ops) =~= run_results(s, ops));
    }
}

} // verus!
