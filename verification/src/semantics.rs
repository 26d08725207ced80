//! The CRUD state machine every backend must implement.
//!
//! A store's authoritative state is modelled as a map from identifier
//! to record model.  Each operation is described by two spec
//! functions: one for the result it must return and one for the state
//! it must leave behind.  The in-memory backend is verified against
//! these functions directly; the relational backend is verified
//! against them through a model of its statements.  That both reduce
//! to the same functions is what makes the backends interchangeable.

use vstd::prelude::*;

use crate::errors::StoreError;
use crate::record::{Question, QuestionModel};

verus! {

/// The authoritative state of a store: one record per identifier.
pub type Contents = Map<u128, QuestionModel>;

/// A well-formed state: every record sits under its own identifier and
/// has a non-empty prompt.
pub open spec fn state_wf(s: Contents) -> bool {
    forall|id: u128| s.contains_key(id) ==> (#[trigger] s[id]).id == id && s[id].wf()
}

/// What a lookup must return: the record under `id`, or `NotFound`
/// when the state holds none.
pub open spec fn get_result(s: Contents, id: u128) -> Result<QuestionModel, StoreError> {
    if s.contains_key(id) {
        Ok(s[id])
    } else {
        Err(StoreError::NotFound)
    }
}

/// What a create must return: the payload's identifier on success,
/// `InvalidInput` for an empty prompt, and `Conflict` when a record
/// with that identifier already exists.  Validation is checked before
/// the identifier, mirroring a service that validates payloads before
/// it touches the store.
pub open spec fn create_result(s: Contents, q: QuestionModel) -> Result<u128, StoreError> {
    if q.text.len() == 0 {
        Err(StoreError::InvalidInput)
    } else if s.contains_key(q.id) {
        Err(StoreError::Conflict)
    } else {
        Ok(q.id)
    }
}

/// The state after a create: on success the payload is stored with its
/// answer absent; on any failure the state is untouched.
pub open spec fn create_state(s: Contents, q: QuestionModel) -> Contents {
    if create_result(s, q) is Ok {
        s.insert(q.id, q.fresh())
    } else {
        s
    }
}

/// What a replace must return: `InvalidInput` for an empty prompt,
/// `NotFound` when no record exists under `id`, success otherwise.
pub open spec fn replace_result(s: Contents, id: u128, q: QuestionModel) -> Result<
    (),
    StoreError,
> {
    if q.text.len() == 0 {
        Err(StoreError::InvalidInput)
    } else if !s.contains_key(id) {
        Err(StoreError::NotFound)
    } else {
        Ok(())
    }
}

/// The state after a replace: on success every field of the stored
/// record is taken from the payload — the answer too, so a payload
/// with the answer absent clears it — while the identity is kept.
pub open spec fn replace_state(s: Contents, id: u128, q: QuestionModel) -> Contents {
    if replace_result(s, id, q) is Ok {
        s.insert(id, s[id].replaced_with(q))
    } else {
        s
    }
}

/// What a delete must return: success exactly when a record exists
/// under `id`.
pub open spec fn delete_result(s: Contents, id: u128) -> Result<(), StoreError> {
    if s.contains_key(id) {
        Ok(())
    } else {
        Err(StoreError::NotFound)
    }
}

/// The state after a delete: the record is gone; a failed delete
/// changes nothing.
pub open spec fn delete_state(s: Contents, id: u128) -> Contents {
    if s.contains_key(id) {
        s.remove(id)
    } else {
        s
    }
}

/// What setting an answer must return: success exactly when a record
/// exists under `id`.
pub open spec fn set_answer_result(s: Contents, id: u128, answer: Seq<char>) -> Result<
    (),
    StoreError,
> {
    if s.contains_key(id) {
        Ok(())
    } else {
        Err(StoreError::NotFound)
    }
}

/// The state after setting an answer: only the record's answer field
/// changes, to exactly the supplied text.
pub open spec fn set_answer_state(s: Contents, id: u128, answer: Seq<char>) -> Contents {
    if s.contains_key(id) {
        s.insert(id, s[id].with_answer(answer))
    } else {
        s
    }
}

/// One operation of the store, at the model level.  Used to reason
/// about whole operation sequences.
pub ghost enum Op {
    Get(u128),
    Create(QuestionModel),
    Replace(u128, QuestionModel),
    Delete(u128),
    SetAnswer(u128, Seq<char>),
}

/// What a successful operation hands back.
pub ghost enum OpOutcome {
    Fetched(QuestionModel),
    Created(u128),
    Changed,
}

/// The result one operation must produce on state `s`.
pub open spec fn step_result(s: Contents, op: Op) -> Result<OpOutcome, StoreError> {
    match op {
        Op::Get(id) => match get_result(s, id) {
            Ok(q) => Ok(OpOutcome::Fetched(q)),
            Err(e) => Err(e),
        },
        Op::Create(q) => match create_result(s, q) {
            Ok(id) => Ok(OpOutcome::Created(id)),
            Err(e) => Err(e),
        },
        Op::Replace(id, q) => match replace_result(s, id, q) {
            Ok(_) => Ok(OpOutcome::Changed),
            Err(e) => Err(e),
        },
        Op::Delete(id) => match delete_result(s, id) {
            Ok(_) => Ok(OpOutcome::Changed),
            Err(e) => Err(e),
        },
        Op::SetAnswer(id, answer) => match set_answer_result(s, id, answer) {
            Ok(_) => Ok(OpOutcome::Changed),
            Err(e) => Err(e),
        },
    }
}

/// The state one operation must leave behind.
pub open spec fn step_state(s: Contents, op: Op) -> Contents {
    match op {
        Op::Get(_) => s,
        Op::Create(q) => create_state(s, q),
        Op::Replace(id, q) => replace_state(s, id, q),
        Op::Delete(id) => delete_state(s, id),
        Op::SetAnswer(id, answer) => set_answer_state(s, id, answer),
    }
}

/// The state after a whole sequence of operations, applied in order.
pub open spec fn run_state(s: Contents, ops: Seq<Op>) -> Contents
    decreases ops.len(),
{
    if ops.len() == 0 {
        s
    } else {
        step_state(run_state(s, ops.drop_last()), ops.last())
    }
}

/// The results a whole sequence of operations must produce, in order.
pub open spec fn run_results(s: Contents, ops: Seq<Op>) -> Seq<Result<OpOutcome, StoreError>>
    decreases ops.len(),
{
    if ops.len() == 0 {
        Seq::empty()
    } else {
        run_results(s, ops.drop_last()).push(step_result(run_state(s, ops.drop_last()), ops.last()))
    }
}

/// The model of a fallible exec result that carries a record: the
/// record is replaced by its model so the result can be compared with
/// what the state machine demands.
pub open spec fn question_result_model(r: Result<Question, StoreError>) -> Result<
    QuestionModel,
    StoreError,
> {
    match r {
        Ok(q) => Ok(q@),
        Err(e) => Err(e),
    }
}

/// Every operation preserves well-formedness of the state: stored
/// records keep sitting under their own identifier with a non-empty
/// prompt.
pub proof fn lemma_step_preserves_wf(s: Contents, op: Op)
    requires
        state_wf(s),
    ensures
        state_wf(step_state(s, op)),
{
}

} // verus!
