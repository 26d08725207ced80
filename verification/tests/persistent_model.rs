//! The relational backend's planning and interpretation, exercised
//! against a scripted table.

use qa_store::errors::StoreError;
use qa_store::ident::id_text;
use qa_store::persistent::{
    interpret_create, interpret_get, interpret_list, interpret_write, plan_create, plan_delete,
    plan_get, plan_list, plan_replace, plan_set_answer, row_to_question, CreateOutcome, DbCommand,
    FetchOutcome, QuestionRow, Statement, WriteOutcome,
};
use qa_store::record::Question;

fn q(id: u128, text: &str, answer: Option<&str>, source: Option<&str>) -> Question {
    Question {
        id,
        text: text.to_string(),
        answer: answer.map(|a| a.to_string()),
        source: source.map(|s| s.to_string()),
    }
}

#[test]
fn plan_get_names_the_lookup_statement() {
    let cmd = plan_get(42);
    assert_eq!(cmd.statement, Statement::SelectById);
    assert_eq!(cmd.params, vec![Some(id_text(42))]);
}

#[test]
fn plan_create_sends_a_null_answer() {
    let cmd = plan_create(&q(42, "How?", Some("ignored"), Some("book"))).unwrap();
    assert_eq!(cmd.statement, Statement::InsertQuestion);
    assert_eq!(
        cmd.params,
        vec![
            Some(id_text(42)),
            Some("How?".to_string()),
            None,
            Some("book".to_string()),
        ]
    );
}

#[test]
fn plan_create_rejects_an_empty_prompt() {
    assert!(matches!(
        plan_create(&q(42, "", None, None)),
        Err(StoreError::InvalidInput)
    ));
}

#[test]
fn plan_replace_sends_every_column_then_the_key() {
    let cmd = plan_replace(42, &q(999, "New?", None, Some("web"))).unwrap();
    assert_eq!(cmd.statement, Statement::UpdateQuestion);
    assert_eq!(
        cmd.params,
        vec![
            Some("New?".to_string()),
            None,
            Some("web".to_string()),
            Some(id_text(42)),
        ]
    );
}

#[test]
fn plan_replace_rejects_an_empty_prompt() {
    assert!(matches!(
        plan_replace(42, &q(42, "", None, None)),
        Err(StoreError::InvalidInput)
    ));
}

#[test]
fn plan_set_answer_and_delete_and_list() {
    let cmd = plan_set_answer(7, &"Like this.".to_string());
    assert_eq!(cmd.statement, Statement::UpdateAnswer);
    assert_eq!(
        cmd.params,
        vec![Some("Like this.".to_string()), Some(id_text(7))]
    );
    let cmd = plan_delete(7);
    assert_eq!(cmd.statement, Statement::DeleteById);
    assert_eq!(cmd.params, vec![Some(id_text(7))]);
    let cmd = plan_list();
    assert_eq!(cmd.statement, Statement::SelectAll);
    assert!(cmd.params.is_empty());
}

#[test]
fn row_to_question_reunites_key_and_columns() {
    let row = QuestionRow {
        text: "How?".to_string(),
        answer: Some("Yes.".to_string()),
        source: None,
    };
    assert_eq!(row_to_question(9, row), q(9, "How?", Some("Yes."), None));
}

#[test]
fn interpret_get_covers_every_outcome() {
    let row = QuestionRow {
        text: "How?".to_string(),
        answer: None,
        source: Some("book".to_string()),
    };
    assert_eq!(
        interpret_get(3, FetchOutcome::Found(row)),
        Ok(q(3, "How?", None, Some("book")))
    );
    assert_eq!(
        interpret_get(3, FetchOutcome::Missing),
        Err(StoreError::NotFound)
    );
    assert_eq!(
        interpret_get(3, FetchOutcome::Failed),
        Err(StoreError::Unavailable)
    );
}

#[test]
fn interpret_create_covers_every_outcome() {
    assert_eq!(interpret_create(3, CreateOutcome::Inserted), Ok(3));
    assert_eq!(
        interpret_create(3, CreateOutcome::DuplicateKey),
        Err(StoreError::Conflict)
    );
    assert_eq!(
        interpret_create(3, CreateOutcome::Failed),
        Err(StoreError::Unavailable)
    );
}

#[test]
fn interpret_write_goes_by_the_affected_count() {
    assert_eq!(interpret_write(WriteOutcome::Affected(1)), Ok(()));
    assert_eq!(
        interpret_write(WriteOutcome::Affected(0)),
        Err(StoreError::NotFound)
    );
    assert_eq!(
        interpret_write(WriteOutcome::Affected(2)),
        Err(StoreError::NotFound)
    );
    assert_eq!(
        interpret_write(WriteOutcome::Failed),
        Err(StoreError::Unavailable)
    );
}

#[test]
fn interpret_list_parses_every_key() {
    let rows = vec![
        (
            id_text(1),
            QuestionRow {
                text: "A?".to_string(),
                answer: None,
                source: None,
            },
        ),
        (
            id_text(2),
            QuestionRow {
                text: "B?".to_string(),
                answer: Some("b".to_string()),
                source: None,
            },
        ),
    ];
    let out = interpret_list(rows).unwrap();
    assert_eq!(out, vec![q(1, "A?", None, None), q(2, "B?", Some("b"), None)]);

    let rows = vec![(
        "not-an-identifier".to_string(),
        QuestionRow {
            text: "A?".to_string(),
            answer: None,
            source: None,
        },
    )];
    assert_eq!(interpret_list(rows), Err(StoreError::Unavailable));
}

/// A scripted table playing the database: single-row statements over a
/// primary-key column, exactly as the planner assumes them.
struct FakeTable {
    rows: Vec<(String, String, Option<String>, Option<String>)>,
}

impl FakeTable {
    fn new() -> FakeTable {
        FakeTable { rows: Vec::new() }
    }

    fn position(&self, key: &Option<String>) -> Option<usize> {
        let key = key.as_ref().expect("keys are never null");
        self.rows.iter().position(|r| &r.0 == key)
    }

    fn fetch(&self, cmd: &DbCommand) -> FetchOutcome {
        assert_eq!(cmd.statement, Statement::SelectById);
        match self.position(&cmd.params[0]) {
            Some(i) => {
                let row = &self.rows[i];
                FetchOutcome::Found(QuestionRow {
                    text: row.1.clone(),
                    answer: row.2.clone(),
                    source: row.3.clone(),
                })
            }
            None => FetchOutcome::Missing,
        }
    }

    fn insert(&mut self, cmd: &DbCommand) -> CreateOutcome {
        assert_eq!(cmd.statement, Statement::InsertQuestion);
        if self.position(&cmd.params[0]).is_some() {
            return CreateOutcome::DuplicateKey;
        }
        self.rows.push((
            cmd.params[0].clone().unwrap(),
            cmd.params[1].clone().unwrap(),
            cmd.params[2].clone(),
            cmd.params[3].clone(),
        ));
        CreateOutcome::Inserted
    }

    fn write(&mut self, cmd: &DbCommand) -> WriteOutcome {
        match cmd.statement {
            Statement::UpdateQuestion => match self.position(&cmd.params[3]) {
                Some(i) => {
                    self.rows[i].1 = cmd.params[0].clone().unwrap();
                    self.rows[i].2 = cmd.params[1].clone();
                    self.rows[i].3 = cmd.params[2].clone();
                    WriteOutcome::Affected(1)
                }
                None => WriteOutcome::Affected(0),
            },
            Statement::UpdateAnswer => match self.position(&cmd.params[1]) {
                Some(i) => {
                    self.rows[i].2 = cmd.params[0].clone();
                    WriteOutcome::Affected(1)
                }
                None => WriteOutcome::Affected(0),
            },
            Statement::DeleteById => match self.position(&cmd.params[0]) {
                Some(i) => {
                    self.rows.remove(i);
                    WriteOutcome::Affected(1)
                }
                None => WriteOutcome::Affected(0),
            },
            _ => panic!("not a write statement"),
        }
    }

    fn scan(&self) -> Vec<(String, QuestionRow)> {
        self.rows
            .iter()
            .map(|r| {
                (
                    r.0.clone(),
                    QuestionRow {
                        text: r.1.clone(),
                        answer: r.2.clone(),
                        source: r.3.clone(),
                    },
                )
            })
            .collect()
    }
}

/// One operation of the shared sequence replayed against both
/// backends.
enum TestOp {
    Get(u128),
    Create(Question),
    Replace(u128, Question),
    Delete(u128),
    SetAnswer(u128, String),
}

/// A backend-independent summary of one result, for comparison.
#[derive(Debug, PartialEq)]
enum Summary {
    GotRecord(Question),
    CreatedId(u128),
    Changed,
    Failed(StoreError),
}

fn run_memory(ops: &[TestOp]) -> (Vec<Summary>, Vec<Question>) {
    let mut store = qa_store::memory::MemoryStore::new();
    let mut out = Vec::new();
    for op in ops {
        out.push(match op {
            TestOp::Get(id) => match store.get(*id) {
                Ok(r) => Summary::GotRecord(r),
                Err(e) => Summary::Failed(e),
            },
            TestOp::Create(p) => match store.create(clone_q(p)) {
                Ok(id) => Summary::CreatedId(id),
                Err(e) => Summary::Failed(e),
            },
            TestOp::Replace(id, p) => match store.replace(*id, clone_q(p)) {
                Ok(()) => Summary::Changed,
                Err(e) => Summary::Failed(e),
            },
            TestOp::Delete(id) => match store.delete(*id) {
                Ok(()) => Summary::Changed,
                Err(e) => Summary::Failed(e),
            },
            TestOp::SetAnswer(id, a) => match store.set_answer(*id, a.clone()) {
                Ok(()) => Summary::Changed,
                Err(e) => Summary::Failed(e),
            },
        });
    }
    (out, store.list())
}

fn run_table(ops: &[TestOp]) -> (Vec<Summary>, Vec<Question>) {
    let mut table = FakeTable::new();
    let mut out = Vec::new();
    for op in ops {
        out.push(match op {
            TestOp::Get(id) => match interpret_get(*id, table.fetch(&plan_get(*id))) {
                Ok(r) => Summary::GotRecord(r),
                Err(e) => Summary::Failed(e),
            },
            TestOp::Create(p) => match plan_create(p) {
                Err(e) => Summary::Failed(e),
                Ok(cmd) => match interpret_create(p.id, table.insert(&cmd)) {
                    Ok(id) => Summary::CreatedId(id),
                    Err(e) => Summary::Failed(e),
                },
            },
            TestOp::Replace(id, p) => match plan_replace(*id, p) {
                Err(e) => Summary::Failed(e),
                Ok(cmd) => match interpret_write(table.write(&cmd)) {
                    Ok(()) => Summary::Changed,
                    Err(e) => Summary::Failed(e),
                },
            },
            TestOp::Delete(id) => match interpret_write(table.write(&plan_delete(*id))) {
                Ok(()) => Summary::Changed,
                Err(e) => Summary::Failed(e),
            },
            TestOp::SetAnswer(id, a) => {
                match interpret_write(table.write(&plan_set_answer(*id, a))) {
                    Ok(()) => Summary::Changed,
                    Err(e) => Summary::Failed(e),
                }
            }
        });
    }
    (out, interpret_list(table.scan()).unwrap())
}

fn clone_q(p: &Question) -> Question {
    Question {
        id: p.id,
        text: p.text.clone(),
        answer: p.answer.clone(),
        source: p.source.clone(),
    }
}

#[test]
fn backend_parity_on_one_operation_sequence() {
    let ops = vec![
        TestOp::Get(1),
        TestOp::Create(q(1, "How?", Some("dropped"), Some("book"))),
        TestOp::Create(q(1, "Again?", None, None)),
        TestOp::Create(q(2, "", None, None)),
        TestOp::Create(q(2, "Second?", None, None)),
        TestOp::Get(1),
        TestOp::SetAnswer(1, "Like this.".to_string()),
        TestOp::SetAnswer(3, "nobody".to_string()),
        TestOp::Get(1),
        TestOp::Replace(1, q(1, "New?", None, None)),
        TestOp::Replace(3, q(3, "Missing?", None, None)),
        TestOp::Replace(2, q(2, "", None, None)),
        TestOp::Get(1),
        TestOp::Delete(2),
        TestOp::Delete(2),
        TestOp::Get(2),
    ];
    let (mem_results, mem_final) = run_memory(&ops);
    let (tbl_results, tbl_final) = run_table(&ops);
    assert_eq!(mem_results, tbl_results);

    let mut mem_final: Vec<Question> = mem_final;
    let mut tbl_final: Vec<Question> = tbl_final;
    mem_final.sort_by_key(|r| r.id);
    tbl_final.sort_by_key(|r| r.id);
    assert_eq!(mem_final, tbl_final);
}

fn q_owned(id: u128, text: &str) -> Question {
    q(id, text, None, None)
}

#[test]
fn backend_parity_under_answer_races() {
    let ops = vec![
        TestOp::Create(q_owned(9, "Race?")),
        TestOp::SetAnswer(9, "one".to_string()),
        TestOp::SetAnswer(9, "two".to_string()),
        TestOp::SetAnswer(9, "three".to_string()),
        TestOp::Get(9),
    ];
    let (mem_results, _) = run_memory(&ops);
    let (tbl_results, _) = run_table(&ops);
    assert_eq!(mem_results, tbl_results);
    assert_eq!(
        mem_results[4],
        Summary::GotRecord(q(9, "Race?", Some("three"), None))
    );
}
