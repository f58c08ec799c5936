use write_only::engine::{Action, Engine, Event, FatalError, Notice, Phase};
use write_only::fingerprint::fingerprint;
use write_only::registry::Registry;

/// A database in memory: the ledger's table and the batches run so far,
/// as committed and as the open transaction sees them.
struct Db {
    table: Option<Vec<String>>,
    schema: Vec<String>,
    open_table: Option<Vec<String>>,
    open_schema: Vec<String>,
    actions: Vec<Action>,
}

impl Db {
    fn new(table: Option<Vec<String>>) -> Db {
        Db {
            table: table.clone(),
            schema: Vec::new(),
            open_table: table,
            open_schema: Vec::new(),
            actions: Vec::new(),
        }
    }

    /// A batch is malformed if it holds the word `MALFORMED`.
    fn perform(&mut self, engine: &Engine, action: Action) -> Event {
        self.actions.push(action);
        match action {
            Action::Begin => {
                self.open_table = self.table.clone();
                self.open_schema = self.schema.clone();
                Event::Done
            }
            Action::ProbeLedger => Event::Count(if self.open_table.is_some() { 1 } else { 0 }),
            Action::CreateLedger => match self.open_table {
                Some(_) => Event::Failed,
                None => {
                    self.open_table = Some(Vec::new());
                    Event::Done
                }
            },
            Action::ListApplied => match &self.open_table {
                Some(rows) => Event::Rows(rows.clone()),
                None => Event::Failed,
            },
            Action::Execute { position } => {
                let text = engine.text(position).unwrap();
                if text.contains("MALFORMED") {
                    Event::Failed
                } else {
                    self.open_schema.push(text.clone());
                    Event::Done
                }
            }
            Action::Record { position } => {
                let fp = engine.fingerprint(position).unwrap().clone();
                match &mut self.open_table {
                    Some(rows) if !rows.contains(&fp) => {
                        rows.push(fp);
                        Event::Done
                    }
                    _ => Event::Failed,
                }
            }
            Action::Commit => {
                self.table = self.open_table.clone();
                self.schema = self.open_schema.clone();
                Event::Done
            }
            Action::Finish | Action::Abort => Event::Done,
        }
    }

    fn run(&mut self, texts: &[&str]) -> (Result<usize, FatalError>, Vec<Notice>) {
        self.actions.clear();
        let registry = Registry::new(texts.iter().map(|t| t.to_string()).collect());
        let mut engine = Engine::new(registry);
        let mut action = engine.action();
        let mut steps = 0;
        while action != Action::Finish && action != Action::Abort {
            let event = self.perform(&engine, action);
            action = engine.step(event);
            steps += 1;
            assert!(steps <= 2 * texts.len() + 5);
        }
        (engine.outcome().unwrap(), engine.notices().clone())
    }

    fn ledger(&self) -> Option<Vec<String>> {
        self.table.clone().map(|mut rows| {
            rows.sort();
            rows
        })
    }
}

fn sorted(mut fps: Vec<String>) -> Option<Vec<String>> {
    fps.sort();
    Some(fps)
}

const A: &str = "CREATE TABLE author (email text PRIMARY KEY);";
const B: &str = "CREATE TABLE topic (topic text, author text REFERENCES author);";
const C: &str = "CREATE TABLE post (topic text, body text);";

#[test]
fn second_run_applies_nothing() {
    let mut db = Db::new(None);
    assert_eq!(db.run(&[A, B]).0, Ok(2));
    let ledger = db.ledger();
    let schema = db.schema.clone();
    let (outcome, notices) = db.run(&[A, B]);
    assert_eq!(outcome, Ok(0));
    assert_eq!(notices, vec![Notice::AlreadyApplied(0), Notice::AlreadyApplied(1)]);
    assert_eq!(db.ledger(), ledger);
    assert_eq!(db.schema, schema);
    assert!(!db.actions.iter().any(|a| matches!(a, Action::Execute { .. } | Action::Record { .. })));
}

#[test]
fn scripts_are_applied_in_registry_order() {
    let mut db = Db::new(Some(Vec::new()));
    let (outcome, notices) = db.run(&[A, B, C]);
    assert_eq!(outcome, Ok(3));
    assert_eq!(db.ledger(), sorted(vec![fingerprint(A), fingerprint(B), fingerprint(C)]));
    assert_eq!(notices, vec![Notice::Applying(0), Notice::Applying(1), Notice::Applying(2)]);
    assert_eq!(db.schema, vec![A.to_string(), B.to_string(), C.to_string()]);
    assert_eq!(
        db.actions,
        vec![
            Action::Begin,
            Action::ProbeLedger,
            Action::ListApplied,
            Action::Execute { position: 0 },
            Action::Record { position: 0 },
            Action::Execute { position: 1 },
            Action::Record { position: 1 },
            Action::Execute { position: 2 },
            Action::Record { position: 2 },
            Action::Commit,
        ]
    );
}

#[test]
fn run_resumes_after_what_is_recorded() {
    let mut db = Db::new(Some(vec![fingerprint(A)]));
    let (outcome, notices) = db.run(&[A, B]);
    assert_eq!(outcome, Ok(1));
    assert_eq!(db.ledger(), sorted(vec![fingerprint(A), fingerprint(B)]));
    assert_eq!(notices, vec![Notice::AlreadyApplied(0), Notice::Applying(1)]);
    assert_eq!(db.schema, vec![B.to_string()]);
}

#[test]
fn pending_script_between_recorded_ones_is_applied() {
    let mut db = Db::new(Some(vec![fingerprint(C), fingerprint(A)]));
    let (outcome, notices) = db.run(&[A, B, C]);
    assert_eq!(outcome, Ok(1));
    assert_eq!(
        notices,
        vec![Notice::AlreadyApplied(0), Notice::Applying(1), Notice::AlreadyApplied(2)]
    );
    assert_eq!(db.schema, vec![B.to_string()]);
    assert_eq!(db.ledger(), sorted(vec![fingerprint(A), fingerprint(B), fingerprint(C)]));
}

#[test]
fn edited_script_is_detected() {
    let edited = "CREATE TABLE author (email text PRIMARY KEY, name text);";
    let mut db = Db::new(Some(vec![fingerprint(A)]));
    let (outcome, notices) = db.run(&[edited]);
    assert_eq!(
        outcome,
        Err(FatalError::Integrity { position: 0, fingerprint: fingerprint(A) })
    );
    assert!(notices.is_empty());
    assert_eq!(db.ledger(), sorted(vec![fingerprint(A)]));
    assert!(db.schema.is_empty());
    assert_eq!(db.actions, vec![Action::Begin, Action::ProbeLedger, Action::ListApplied]);
}

#[test]
fn removed_script_is_detected_at_its_place_in_the_listing() {
    let mut db = Db::new(Some(vec![fingerprint(B), fingerprint(A), fingerprint(C)]));
    let (outcome, _) = db.run(&[B, C]);
    assert_eq!(
        outcome,
        Err(FatalError::Integrity { position: 1, fingerprint: fingerprint(A) })
    );
    assert!(db.schema.is_empty());
}

#[test]
fn failed_batch_rolls_back_the_whole_run() {
    let mut db = Db::new(Some(Vec::new()));
    let (outcome, notices) = db.run(&[A, "MALFORMED;"]);
    assert_eq!(outcome, Err(FatalError::Execution { position: 1 }));
    assert_eq!(notices, vec![Notice::Applying(0), Notice::Applying(1)]);
    assert_eq!(db.ledger(), Some(Vec::new()));
    assert!(db.schema.is_empty());
    assert!(!db.actions.contains(&Action::Commit));
}

#[test]
fn failed_batch_rolls_back_the_new_table_too() {
    let mut db = Db::new(None);
    let (outcome, _) = db.run(&["MALFORMED;"]);
    assert_eq!(outcome, Err(FatalError::Execution { position: 0 }));
    assert_eq!(db.ledger(), None);
}

#[test]
fn fresh_install_creates_the_ledger() {
    let mut db = Db::new(None);
    let (outcome, notices) = db.run(&[A]);
    assert_eq!(outcome, Ok(1));
    assert_eq!(notices, vec![Notice::Applying(0)]);
    assert_eq!(db.ledger(), sorted(vec![fingerprint(A)]));
    assert_eq!(
        db.actions,
        vec![
            Action::Begin,
            Action::ProbeLedger,
            Action::CreateLedger,
            Action::ListApplied,
            Action::Execute { position: 0 },
            Action::Record { position: 0 },
            Action::Commit,
        ]
    );
    let (outcome, notices) = db.run(&[A]);
    assert_eq!(outcome, Ok(0));
    assert_eq!(notices, vec![Notice::AlreadyApplied(0)]);
    assert!(!db.actions.contains(&Action::CreateLedger));
    assert_eq!(db.ledger(), sorted(vec![fingerprint(A)]));
}

#[test]
fn empty_registry_commits_nothing_new() {
    let mut db = Db::new(None);
    let (outcome, notices) = db.run(&[]);
    assert_eq!(outcome, Ok(0));
    assert!(notices.is_empty());
    assert_eq!(db.ledger(), Some(Vec::new()));
}

#[test]
fn same_text_twice_fails_on_the_second_record() {
    let mut db = Db::new(Some(Vec::new()));
    let (outcome, _) = db.run(&[A, A]);
    assert_eq!(outcome, Err(FatalError::LedgerWrite { recording: Some(1) }));
    assert_eq!(db.ledger(), Some(Vec::new()));
    assert!(db.schema.is_empty());
}

#[test]
fn same_text_twice_is_skipped_twice_once_recorded() {
    let mut db = Db::new(Some(vec![fingerprint(A)]));
    let (outcome, notices) = db.run(&[A, A]);
    assert_eq!(outcome, Ok(0));
    assert_eq!(notices, vec![Notice::AlreadyApplied(0), Notice::AlreadyApplied(1)]);
}

fn engine_over(texts: &[&str]) -> Engine {
    Engine::new(Registry::new(texts.iter().map(|t| t.to_string()).collect()))
}

#[test]
fn run_starts_by_opening_the_transaction() {
    let engine = engine_over(&[A]);
    assert_eq!(engine.phase(), Phase::Start);
    assert_eq!(engine.action(), Action::Begin);
    assert_eq!(engine.outcome(), None);
    assert_eq!(engine.applied(), 0);
    assert_eq!(engine.len(), 1);
}

#[test]
fn failure_to_begin_is_a_connectivity_fault() {
    let mut engine = engine_over(&[A]);
    assert_eq!(engine.step(Event::Failed), Action::Abort);
    assert_eq!(engine.phase(), Phase::Aborted);
    assert_eq!(engine.outcome(), Some(Err(FatalError::Connectivity)));
}

#[test]
fn failure_to_probe_or_list_is_a_connectivity_fault() {
    let mut engine = engine_over(&[A]);
    assert_eq!(engine.step(Event::Done), Action::ProbeLedger);
    assert_eq!(engine.step(Event::Failed), Action::Abort);
    assert_eq!(engine.outcome(), Some(Err(FatalError::Connectivity)));

    let mut engine = engine_over(&[A]);
    engine.step(Event::Done);
    assert_eq!(engine.step(Event::Count(1)), Action::ListApplied);
    assert_eq!(engine.phase(), Phase::TableEnsured);
    assert_eq!(engine.step(Event::Failed), Action::Abort);
    assert_eq!(engine.outcome(), Some(Err(FatalError::Connectivity)));
}

#[test]
fn failure_to_create_the_table_is_a_ledger_write_fault() {
    let mut engine = engine_over(&[A]);
    engine.step(Event::Done);
    assert_eq!(engine.step(Event::Count(0)), Action::CreateLedger);
    assert_eq!(engine.phase(), Phase::Creating);
    assert_eq!(engine.step(Event::Failed), Action::Abort);
    assert_eq!(engine.outcome(), Some(Err(FatalError::LedgerWrite { recording: None })));
}

#[test]
fn failure_to_record_is_a_ledger_write_fault() {
    let mut engine = engine_over(&[A, B]);
    engine.step(Event::Done);
    engine.step(Event::Count(1));
    assert_eq!(engine.step(Event::Rows(vec![fingerprint(A)])), Action::Execute { position: 1 });
    assert_eq!(engine.phase(), Phase::Applying { position: 1, executed: false });
    assert_eq!(engine.step(Event::Done), Action::Record { position: 1 });
    assert_eq!(engine.phase(), Phase::Applying { position: 1, executed: true });
    assert_eq!(engine.applied(), 0);
    assert_eq!(engine.step(Event::Failed), Action::Abort);
    assert_eq!(engine.outcome(), Some(Err(FatalError::LedgerWrite { recording: Some(1) })));
}

#[test]
fn failure_to_commit_is_a_connectivity_fault() {
    let mut engine = engine_over(&[A]);
    engine.step(Event::Done);
    engine.step(Event::Count(1));
    assert_eq!(engine.step(Event::Rows(vec![fingerprint(A)])), Action::Commit);
    assert_eq!(engine.phase(), Phase::Committing);
    assert_eq!(engine.outcome(), None);
    assert_eq!(engine.step(Event::Failed), Action::Abort);
    assert_eq!(engine.outcome(), Some(Err(FatalError::Connectivity)));
}

#[test]
fn answer_of_the_wrong_kind_counts_as_failure() {
    let mut engine = engine_over(&[A]);
    engine.step(Event::Done);
    assert_eq!(engine.step(Event::Done), Action::Abort);
    assert_eq!(engine.outcome(), Some(Err(FatalError::Connectivity)));

    let mut engine = engine_over(&[A]);
    engine.step(Event::Done);
    engine.step(Event::Count(7));
    engine.step(Event::Rows(Vec::new()));
    assert_eq!(engine.step(Event::Count(1)), Action::Abort);
    assert_eq!(engine.outcome(), Some(Err(FatalError::Execution { position: 0 })));
}

#[test]
fn finished_run_stays_finished() {
    let mut engine = engine_over(&[]);
    engine.step(Event::Done);
    engine.step(Event::Count(1));
    assert_eq!(engine.step(Event::Rows(Vec::new())), Action::Commit);
    assert_eq!(engine.step(Event::Done), Action::Finish);
    assert_eq!(engine.phase(), Phase::Committed);
    assert_eq!(engine.step(Event::Failed), Action::Finish);
    assert_eq!(engine.step(Event::Rows(vec!["x".to_string()])), Action::Finish);
    assert_eq!(engine.outcome(), Some(Ok(0)));
}

#[test]
fn aborted_run_stays_aborted() {
    let mut engine = engine_over(&[A]);
    engine.step(Event::Failed);
    assert_eq!(engine.step(Event::Done), Action::Abort);
    assert_eq!(engine.step(Event::Count(1)), Action::Abort);
    assert_eq!(engine.outcome(), Some(Err(FatalError::Connectivity)));
}

#[test]
fn engine_hands_out_texts_and_fingerprints_by_position() {
    let engine = engine_over(&[A, B]);
    assert_eq!(engine.text(1).map(|t| t.as_str()), Some(B));
    assert_eq!(engine.fingerprint(0), Some(&fingerprint(A)));
    assert_eq!(engine.text(2), None);
    assert_eq!(engine.fingerprint(2), None);
}
