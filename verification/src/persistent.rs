//! The relational backend: planning and interpretation around a table
//! `questions(id TEXT PRIMARY KEY, question TEXT, answer TEXT NULL,
//! source TEXT NULL)`.
//!
//! Every operation maps to one parameterized single-row statement.
//! The statement itself is executed by an embedding program over a
//! pooled connection; what this module owns, and what is verified, is
//! everything around that execution: which statement to run with which
//! parameters ([`plan_get`] and friends), and what each execution
//! outcome means ([`interpret_get`] and friends).  A zero affected-row
//! count means `NotFound`; a unique-key violation on insert means
//! `Conflict`; a connection that could not be had, or timed out, means
//! `Unavailable` — never `NotFound`.
//!
//! The `table_*` spec functions model what the database itself does:
//! what a point lookup returns and how a keyed insert, update or
//! delete moves the table.  Composed with the interpretation spec
//! functions they give the backend's observable behaviour
//! ([`db_step_result`], [`db_step_state`]), which
//! [`crate::laws::backend_parity`] proves identical to the canonical
//! semantics of [`crate::semantics`].

use vstd::prelude::*;

use crate::errors::StoreError;
use crate::ident::{id_text, id_text_of, parsed_id_of};
use crate::record::{opt_model, Question, QuestionModel};
use crate::semantics::{question_result_model, Contents, Op, OpOutcome};

verus! {

/// The statements the backend ever executes, one per operation.
#[derive(Clone, Copy, Debug, PartialEq, Eq, Structural)]
pub enum Statement {
    SelectById,
    SelectAll,
    InsertQuestion,
    UpdateQuestion,
    UpdateAnswer,
    DeleteById,
}

/// One planned statement execution: which statement, with which
/// parameters, in statement order.  `None` is the SQL null.
pub struct DbCommand {
    pub statement: Statement,
    pub params: Vec<Option<String>>,
}

/// The parameters read as character sequences.
pub open spec fn params_model(ps: Seq<Option<String>>) -> Seq<Option<Seq<char>>> {
    ps.map_values(|p: Option<String>| opt_model(p))
}

/// The columns of a fetched row, beyond the key it was looked up by.
pub struct QuestionRow {
    pub text: String,
    pub answer: Option<String>,
    pub source: Option<String>,
}

/// The record a row denotes once reunited with the key it was looked
/// up by.
pub open spec fn row_model(id: u128, row: QuestionRow) -> QuestionModel {
    QuestionModel { id, text: row.text@, answer: opt_model(row.answer), source: opt_model(row.source) }
}

/// What executing a point lookup produced.
pub enum FetchOutcome {
    /// The row under the key, as the database returned it.
    Found(QuestionRow),
    /// The lookup ran and no row holds the key.
    Missing,
    /// No connection could be had, or the statement timed out.
    Failed,
}

/// What executing the keyed insert produced.
pub enum CreateOutcome {
    /// The row went in.
    Inserted,
    /// The primary key is already taken.
    DuplicateKey,
    /// No connection could be had, or the statement timed out.
    Failed,
}

/// What executing a keyed update or delete produced.
pub enum WriteOutcome {
    /// The statement ran and touched this many rows.
    Affected(u64),
    /// No connection could be had, or the statement timed out.
    Failed,
}

/// Assembles the record under `id` from the columns of its row.
pub fn row_to_question(id: u128, row: QuestionRow) -> (r: Question)
    ensures
        r@ == row_model(id, row),
{
    Question { id, text: row.text, answer: row.answer, source: row.source }
}

/// Plans the point lookup for `id`.
pub fn plan_get(id: u128) -> (r: DbCommand)
    ensures
        r.statement == Statement::SelectById,
        params_model(r.params@) == seq![Some(id_text_of(id))],
{
    let mut params: Vec<Option<String>> = Vec::new();
    params.push(Some(id_text(id)));
    let r = DbCommand { statement: Statement::SelectById, params };
    proof {
        assert(params_model(r.params@) =~= seq![Some(id_text_of(id))]);
    }
    r
}

/// Plans the insert for payload `q`, with the answer column null: a
/// created record has no answer until one is set.  An empty prompt is
/// rejected as `InvalidInput` before any statement is planned.
pub fn plan_create(q: &Question) -> (r: Result<DbCommand, StoreError>)
    ensures
        match r {
            Ok(cmd) => q@.text.len() > 0 && cmd.statement == Statement::InsertQuestion
                && params_model(cmd.params@) == seq![
                Some(id_text_of(q.id)),
                Some(q@.text),
                None,
                opt_model(q.source),
            ],
            Err(e) => e == StoreError::InvalidInput && q@.text.len() == 0,
        },
{
    if q.text.as_str().is_empty() {
        return Err(StoreError::InvalidInput);
    }
    let mut params: Vec<Option<String>> = Vec::new();
    params.push(Some(id_text(q.id)));
    params.push(Some(q.text.clone()));
    params.push(None);
    params.push(clone_opt(&q.source));
    let cmd = DbCommand { statement: Statement::InsertQuestion, params };
    proof {
        assert(params_model(cmd.params@) =~= seq![
            Some(id_text_of(q.id)),
            Some(q@.text),
            None,
            opt_model(q.source),
        ]);
    }
    Ok(cmd)
}

/// Plans the whole-row update for `id` with payload `q`: prompt,
/// answer and provenance are all set from the payload — the answer
/// too, so a payload with the answer absent clears the column.  An
/// empty prompt is rejected as `InvalidInput` before any statement is
/// planned.
pub fn plan_replace(id: u128, q: &Question) -> (r: Result<DbCommand, StoreError>)
    ensures
        match r {
            Ok(cmd) => q@.text.len() > 0 && cmd.statement == Statement::UpdateQuestion
                && params_model(cmd.params@) == seq![
                Some(q@.text),
                opt_model(q.answer),
                opt_model(q.source),
                Some(id_text_of(id)),
            ],
            Err(e) => e == StoreError::InvalidInput && q@.text.len() == 0,
        },
{
    if q.text.as_str().is_empty() {
        return Err(StoreError::InvalidInput);
    }
    let mut params: Vec<Option<String>> = Vec::new();
    params.push(Some(q.text.clone()));
    params.push(clone_opt(&q.answer));
    params.push(clone_opt(&q.source));
    params.push(Some(id_text(id)));
    let cmd = DbCommand { statement: Statement::UpdateQuestion, params };
    proof {
        assert(params_model(cmd.params@) =~= seq![
            Some(q@.text),
            opt_model(q.answer),
            opt_model(q.source),
            Some(id_text_of(id)),
        ]);
    }
    Ok(cmd)
}

/// Plans the answer-column update for `id`.
pub fn plan_set_answer(id: u128, answer: &String) -> (r: DbCommand)
    ensures
        r.statement == Statement::UpdateAnswer,
        params_model(r.params@) == seq![Some(answer@), Some(id_text_of(id))],
{
    let mut params: Vec<Option<String>> = Vec::new();
    params.push(Some(answer.clone()));
    params.push(Some(id_text(id)));
    let r = DbCommand { statement: Statement::UpdateAnswer, params };
    proof {
        assert(params_model(r.params@) =~= seq![Some(answer@), Some(id_text_of(id))]);
    }
    r
}

/// Plans the keyed delete for `id`.
pub fn plan_delete(id: u128) -> (r: DbCommand)
    ensures
        r.statement == Statement::DeleteById,
        params_model(r.params@) == seq![Some(id_text_of(id))],
{
    let mut params: Vec<Option<String>> = Vec::new();
    params.push(Some(id_text(id)));
    let r = DbCommand { statement: Statement::DeleteById, params };
    proof {
        assert(params_model(r.params@) =~= seq![Some(id_text_of(id))]);
    }
    r
}

/// Plans the whole-table scan behind a listing.
pub fn plan_list() -> (r: DbCommand)
    ensures
        r.statement == Statement::SelectAll,
        params_model(r.params@) == Seq::<Option<Seq<char>>>::empty(),
{
    let r = DbCommand { statement: Statement::SelectAll, params: Vec::new() };
    proof {
        assert(params_model(r.params@) =~= Seq::<Option<Seq<char>>>::empty());
    }
    r
}

/// What the lookup's outcome means: a found row is the record under
/// the key, no row is `NotFound`, a failed execution is `Unavailable`.
pub fn interpret_get(id: u128, outcome: FetchOutcome) -> (r: Result<Question, StoreError>)
    ensures
        question_result_model(r) == match outcome {
            FetchOutcome::Found(row) => Result::<QuestionModel, StoreError>::Ok(row_model(id, row)),
            FetchOutcome::Missing => Err(StoreError::NotFound),
            FetchOutcome::Failed => Err(StoreError::Unavailable),
        },
{
    match outcome {
        FetchOutcome::Found(row) => Ok(row_to_question(id, row)),
        FetchOutcome::Missing => Err(StoreError::NotFound),
        FetchOutcome::Failed => Err(StoreError::Unavailable),
    }
}

/// What the insert's outcome means: a taken key is a `Conflict`, a
/// failed execution is `Unavailable`, success returns the identifier.
pub fn interpret_create(id: u128, outcome: CreateOutcome) -> (r: Result<u128, StoreError>)
    ensures
        r == match outcome {
            CreateOutcome::Inserted => Result::<u128, StoreError>::Ok(id),
            CreateOutcome::DuplicateKey => Err(StoreError::Conflict),
            CreateOutcome::Failed => Err(StoreError::Unavailable),
        },
{
    match outcome {
        CreateOutcome::Inserted => Ok(id),
        CreateOutcome::DuplicateKey => Err(StoreError::Conflict),
        CreateOutcome::Failed => Err(StoreError::Unavailable),
    }
}

/// The meaning of an affected-row count from a keyed update or
/// delete: exactly one row means success, zero rows means the key
/// named no record.
pub open spec fn spec_interpret_write(affected: nat) -> Result<(), StoreError> {
    if affected == 1 {
        Ok(())
    } else {
        Err(StoreError::NotFound)
    }
}

/// What a keyed update's or delete's outcome means: the affected-row
/// count decides between success and `NotFound`; a failed execution
/// is `Unavailable`.
pub fn interpret_write(outcome: WriteOutcome) -> (r: Result<(), StoreError>)
    ensures
        r == match outcome {
            WriteOutcome::Affected(n) => spec_interpret_write(n as nat),
            WriteOutcome::Failed => Err(StoreError::Unavailable),
        },
{
    match outcome {
        WriteOutcome::Affected(n) => {
            if n == 1 {
                Ok(())
            } else {
                Err(StoreError::NotFound)
            }
        },
        WriteOutcome::Failed => Err(StoreError::Unavailable),
    }
}

/// What the rows of a whole-table scan mean: each row, reunited with
/// the identifier its key text denotes, in the order the scan returned
/// them (no order is promised).  A key text in no accepted form means
/// the table holds something this backend never wrote, and surfaces as
/// `Unavailable`.
pub fn interpret_list(rows: Vec<(String, QuestionRow)>) -> (r: Result<Vec<Question>, StoreError>)
    ensures
        match r {
            Ok(v) => v@.len() == rows@.len() && forall|i: int|
                0 <= i < rows@.len() ==> parsed_id_of(rows@[i].0@) == Some((#[trigger] v@[i])@.id)
                    && v@[i]@ == row_model(v@[i]@.id, rows@[i].1),
            Err(e) => e == StoreError::Unavailable && exists|i: int|
                0 <= i < rows@.len() && parsed_id_of((#[trigger] rows@[i]).0@) is None,
        },
{
    let mut out: Vec<Question> = Vec::new();
    let mut i: usize = 0;
    while i < rows.len()
        invariant
            i <= rows@.len(),
            out@.len() == i,
            forall|j: int|
                0 <= j < i ==> parsed_id_of(rows@[j].0@) == Some((#[trigger] out@[j])@.id)
                    && out@[j]@ == row_model(out@[j]@.id, rows@[j].1),
        decreases rows@.len() - i,
    {
        let entry = &rows[i];
        match crate::ident::text_to_id(entry.0.as_str()) {
            Some(id) => {
                let row = QuestionRow {
                    text: entry.1.text.clone(),
                    answer: clone_opt(&entry.1.answer),
                    source: clone_opt(&entry.1.source),
                };
                out.push(row_to_question(id, row));
            },
            None => {
                return Err(StoreError::Unavailable);
            },
        }
        i = i + 1;
    }
    Ok(out)
}

/// A clone of an optional text column.
fn clone_opt(o: &Option<String>) -> (r: Option<String>)
    ensures
        r == *o,
{
    match o {
        Some(s) => Some(s.clone()),
        None => None,
    }
}

// What the database itself does, with the table read as a map from
// identifier to record.  Point lookups, keyed updates and keyed
// deletes touch exactly the rows whose primary key matches; a keyed
// insert refuses a taken key.

/// What the point lookup for `id` returns.
pub open spec fn table_select(s: Contents, id: u128) -> Option<QuestionModel> {
    if s.contains_key(id) {
        Some(s[id])
    } else {
        None
    }
}

/// How many rows a statement keyed on `id` touches.
pub open spec fn table_key_count(s: Contents, id: u128) -> nat {
    if s.contains_key(id) {
        1
    } else {
        0
    }
}

/// The table after the keyed insert of `row`: unchanged when the key
/// is taken, else extended by the row.
pub open spec fn table_insert(s: Contents, row: QuestionModel) -> Contents {
    if s.contains_key(row.id) {
        s
    } else {
        s.insert(row.id, row)
    }
}

/// The table after a keyed update that sets the matched row to `row`.
pub open spec fn table_update(s: Contents, id: u128, row: QuestionModel) -> Contents {
    if s.contains_key(id) {
        s.insert(id, row)
    } else {
        s
    }
}

/// The table after the keyed delete of `id`.
pub open spec fn table_delete(s: Contents, id: u128) -> Contents {
    if s.contains_key(id) {
        s.remove(id)
    } else {
        s
    }
}

// The backend's observable behaviour per operation: validation first,
// then one statement, then interpretation of its outcome.

/// The result the relational backend returns for one operation on
/// table `s`, when the statement executes (an execution failure
/// surfaces as `Unavailable` instead and leaves the table untouched).
pub open spec fn db_step_result(s: Contents, op: Op) -> Result<OpOutcome, StoreError> {
    match op {
        Op::Get(id) => match table_select(s, id) {
            Some(row) => Ok(
                OpOutcome::Fetched(
                    QuestionModel { id, text: row.text, answer: row.answer, source: row.source },
                ),
            ),
            None => Err(StoreError::NotFound),
        },
        Op::Create(q) => if q.text.len() == 0 {
            Err(StoreError::InvalidInput)
        } else if s.contains_key(q.id) {
            Err(StoreError::Conflict)
        } else {
            Ok(OpOutcome::Created(q.id))
        },
        Op::Replace(id, q) => if q.text.len() == 0 {
            Err(StoreError::InvalidInput)
        } else {
            match spec_interpret_write(table_key_count(s, id)) {
                Ok(_) => Ok(OpOutcome::Changed),
                Err(e) => Err(e),
            }
        },
        Op::Delete(id) => match spec_interpret_write(table_key_count(s, id)) {
            Ok(_) => Ok(OpOutcome::Changed),
            Err(e) => Err(e),
        },
        Op::SetAnswer(id, _) => match spec_interpret_write(table_key_count(s, id)) {
            Ok(_) => Ok(OpOutcome::Changed),
            Err(e) => Err(e),
        },
    }
}

/// The table the relational backend leaves behind for one operation,
/// when the statement executes.
pub open spec fn db_step_state(s: Contents, op: Op) -> Contents {
    match op {
        Op::Get(_) => s,
        Op::Create(q) => if q.text.len() == 0 {
            s
        } else {
            table_insert(s, QuestionModel { answer: None, ..q })
        },
        Op::Replace(id, q) => if q.text.len() == 0 {
            s
        } else {
            table_update(
                s,
                id,
                QuestionModel { id, text: q.text, answer: q.answer, source: q.source },
            )
        },
        Op::Delete(id) => table_delete(s, id),
        Op::SetAnswer(id, answer) => if s.contains_key(id) {
            table_update(s, id, QuestionModel { answer: Some(answer), ..s[id] })
        } else {
            s
        },
    }
}

/// The table after a whole sequence of operations against the
/// relational backend, applied in order.
pub open spec fn db_run_state(s: Contents, ops: Seq<Op>) -> Contents
    decreases ops.len(),
{
    if ops.len() == 0 {
        s
    } else {
        db_step_state(db_run_state(s, ops.drop_last()), ops.last())
    }
}

/// The results of a whole sequence of operations against the
/// relational backend, in order.
pub open spec fn db_run_results(s: Contents, ops: Seq<Op>) -> Seq<Result<OpOutcome, StoreError>>
    decreases ops.len(),
{
    if ops.len() == 0 {
        Seq::empty()
    } else {
        db_run_results(s, ops.drop_last()).push(
            db_step_result(db_run_state(s, ops.drop_last()), ops.last()),
        )
    }
}

} // verus!
