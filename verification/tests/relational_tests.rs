use blog_rust::error::StorageError;
use blog_rust::post::Post;
use blog_rust::relational::{
    delete_finish, delete_start, find_all_finish, find_all_start, find_by_id_finish,
    find_by_id_start, into_posts, save_start, save_step, update_start, update_step, Answer,
    Command, NewPostModel, PostModel, SaveState, Step, UpdateState,
};

fn model(id: i32, title: &str, slug: &str, body: &str) -> PostModel {
    PostModel { id, title: title.to_string(), slug: slug.to_string(), body: body.to_string() }
}

fn stored(id: i32, title: &str, slug: &str, body: &str) -> Post {
    Post::with_id(id, title.to_string(), slug.to_string(), body.to_string())
}

fn failed(cause: &str) -> Answer {
    Answer::Failed(cause.to_string())
}

fn aborted<T>(cause: &str) -> Result<T, StorageError> {
    Err(StorageError::TransactionAborted(cause.to_string()))
}

fn query_failed<T>(cause: &str) -> Result<T, StorageError> {
    Err(StorageError::QueryFailed(cause.to_string()))
}

/// A table in memory that answers statements as the store would.
struct Table {
    rows: Vec<PostModel>,
    last_id: i32,
    log: Vec<Command>,
    snapshot: Option<(Vec<(i32, String, String, String)>, i32)>,
    fail_at: Option<usize>,
}

impl Table {
    fn new() -> Self {
        Table { rows: vec![], last_id: 0, log: vec![], snapshot: None, fail_at: None }
    }

    fn plain(&self) -> Vec<(i32, String, String, String)> {
        self.rows
            .iter()
            .map(|r| (r.id, r.title.clone(), r.slug.clone(), r.body.clone()))
            .collect()
    }

    fn row(&self, id: i32) -> Option<PostModel> {
        self.rows.iter().find(|r| r.id == id).map(|r| model(r.id, &r.title, &r.slug, &r.body))
    }

    fn run(&mut self, command: Command) -> Answer {
        let at = self.log.len();
        let text = format!("{:?}", command);
        let answer = if self.fail_at == Some(at) {
            failed(&format!("statement {} failed", at))
        } else {
            match &command {
                Command::Begin => {
                    self.snapshot = Some((self.plain(), self.last_id));
                    Answer::Done
                }
                Command::Insert { title, slug, body } => {
                    self.last_id += 1;
                    self.rows.push(model(self.last_id, title, slug, body));
                    Answer::Affected(1)
                }
                Command::LastInsertId => Answer::Id(self.last_id),
                Command::SelectById(id) => match self.row(*id) {
                    Some(row) => Answer::Row(row),
                    None => Answer::NoRow,
                },
                Command::SelectAll => Answer::Rows(
                    self.plain().iter().map(|r| model(r.0, &r.1, &r.2, &r.3)).collect(),
                ),
                Command::Update { id, title, body } => {
                    let mut n = 0;
                    for r in self.rows.iter_mut() {
                        if r.id == *id {
                            r.title = title.clone();
                            r.body = body.clone();
                            n += 1;
                        }
                    }
                    Answer::Affected(n)
                }
                Command::Delete(id) => {
                    let before = self.rows.len();
                    self.rows.retain(|r| r.id != *id);
                    Answer::Affected(before - self.rows.len())
                }
                Command::Commit => {
                    self.snapshot = None;
                    Answer::Done
                }
                Command::Rollback => {
                    let (rows, last_id) = self.snapshot.take().unwrap();
                    self.rows = rows.iter().map(|r| model(r.0, &r.1, &r.2, &r.3)).collect();
                    self.last_id = last_id;
                    Answer::Done
                }
            }
        };
        assert!(!text.is_empty());
        self.log.push(command);
        answer
    }

    fn save(&mut self, post: Post) -> Result<Post, StorageError> {
        let (mut state, mut command) = save_start(post);
        loop {
            let answer = self.run(command);
            match save_step(state, answer) {
                Step::Run(next, then) => {
                    state = next;
                    command = then;
                }
                Step::Finish(result) => return result,
            }
        }
    }

    fn update(&mut self, id: i32, post: Post) -> Result<Option<Post>, StorageError> {
        let (mut state, mut command) = update_start(id, post);
        loop {
            let answer = self.run(command);
            match update_step(state, answer) {
                Step::Run(next, then) => {
                    state = next;
                    command = then;
                }
                Step::Finish(result) => return result,
            }
        }
    }

    fn delete(&mut self, id: i32) -> Result<bool, StorageError> {
        let answer = self.run(delete_start(id));
        delete_finish(answer)
    }

    fn find_by_id(&mut self, id: i32) -> Result<Option<Post>, StorageError> {
        let answer = self.run(find_by_id_start(id));
        find_by_id_finish(answer)
    }

    fn find_all(&mut self) -> Result<Vec<Post>, StorageError> {
        let answer = self.run(find_all_start());
        find_all_finish(answer)
    }
}

fn draft() -> Post {
    Post::new("Hello".to_string(), "hello".to_string(), "World".to_string())
}

#[test]
fn row_becomes_post_with_its_id() {
    assert_eq!(Post::from(model(4, "a", "b", "c")), stored(4, "a", "b", "c"));
}

#[test]
fn new_row_borrows_the_three_texts() {
    let p = stored(4, "a", "b", "c");
    let n = NewPostModel::from(&p);
    assert_eq!(n.title, "a");
    assert_eq!(n.slug, "b");
    assert_eq!(n.body, "c");
}

#[test]
fn save_runs_five_statements_in_order() {
    let mut table = Table::new();
    assert_eq!(table.save(draft()), Ok(stored(1, "Hello", "hello", "World")));
    assert_eq!(
        table.log,
        vec![
            Command::Begin,
            Command::Insert {
                title: "Hello".to_string(),
                slug: "hello".to_string(),
                body: "World".to_string()
            },
            Command::LastInsertId,
            Command::SelectById(1),
            Command::Commit,
        ]
    );
    assert!(table.snapshot.is_none());
    assert_eq!(table.find_by_id(1), Ok(Some(stored(1, "Hello", "hello", "World"))));
}

#[test]
fn save_never_sends_the_identifier_it_was_given() {
    let mut table = Table::new();
    table.save(draft()).unwrap();
    assert_eq!(
        table.save(stored(1, "again", "hello", "World")),
        Ok(stored(2, "again", "hello", "World"))
    );
}

#[test]
fn save_start_opens_a_transaction() {
    assert_eq!(save_start(draft()), (SaveState::Opening(draft()), Command::Begin));
}

#[test]
fn save_that_cannot_open_a_transaction_ends_at_once() {
    assert_eq!(
        save_step(SaveState::Opening(draft()), failed("busy")),
        Step::Finish(aborted("busy"))
    );
}

#[test]
fn save_rolls_back_on_a_failure_inside_the_transaction() {
    for at in 1..4 {
        let mut table = Table::new();
        table.save(draft()).unwrap();
        table.log.clear();
        table.fail_at = Some(at);
        assert_eq!(table.save(draft()), aborted(&format!("statement {} failed", at)));
        assert_eq!(table.log.len(), at + 2);
        assert_eq!(table.log[at + 1], Command::Rollback);
        assert!(!table.log.contains(&Command::Commit));
        assert_eq!(table.plain().len(), 1);
    }
}

#[test]
fn save_steps_one_by_one() {
    assert_eq!(
        save_step(SaveState::Inserting, Answer::Affected(1)),
        Step::Run(SaveState::ReadingId, Command::LastInsertId)
    );
    assert_eq!(
        save_step(SaveState::ReadingId, Answer::Id(12)),
        Step::Run(SaveState::Fetching, Command::SelectById(12))
    );
    assert_eq!(
        save_step(SaveState::Fetching, Answer::Row(model(12, "a", "b", "c"))),
        Step::Run(SaveState::Committing(stored(12, "a", "b", "c")), Command::Commit)
    );
    assert_eq!(
        save_step(SaveState::Committing(stored(12, "a", "b", "c")), Answer::Done),
        Step::Finish(Ok(stored(12, "a", "b", "c")))
    );
}

#[test]
fn save_returns_what_was_fetched_not_what_was_sent() {
    let (state, _) = save_start(draft());
    let step = save_step(state, Answer::Done);
    assert!(matches!(step, Step::Run(SaveState::Inserting, Command::Insert { .. })));
    let fetched = model(3, "Hello", "hello", "World (as stored)");
    assert_eq!(
        save_step(SaveState::Fetching, Answer::Row(fetched)),
        Step::Run(
            SaveState::Committing(stored(3, "Hello", "hello", "World (as stored)")),
            Command::Commit
        )
    );
}

#[test]
fn save_rolls_back_when_the_new_row_is_not_found() {
    assert_eq!(
        save_step(SaveState::Fetching, Answer::NoRow),
        Step::Run(
            SaveState::Aborting(StorageError::TransactionAborted("Record not found".to_string())),
            Command::Rollback
        )
    );
}

#[test]
fn save_reports_the_failure_after_the_rollback() {
    let e = StorageError::TransactionAborted("locked".to_string());
    assert_eq!(
        save_step(SaveState::Aborting(e.clone()), Answer::Done),
        Step::Finish(Err(e.clone()))
    );
    assert_eq!(
        save_step(SaveState::Aborting(e.clone()), failed("rollback failed")),
        Step::Finish(Err(e))
    );
}

#[test]
fn save_fails_when_the_commit_fails() {
    assert_eq!(
        save_step(SaveState::Committing(stored(1, "a", "b", "c")), failed("disk full")),
        Step::Finish(aborted("disk full"))
    );
}

#[test]
fn save_rolls_back_on_an_answer_that_does_not_fit() {
    assert_eq!(
        save_step(SaveState::Inserting, Answer::Id(3)),
        Step::Run(
            SaveState::Aborting(StorageError::TransactionAborted(
                "unexpected answer from the store".to_string()
            )),
            Command::Rollback
        )
    );
    assert_eq!(
        save_step(SaveState::ReadingId, Answer::Done),
        Step::Run(
            SaveState::Aborting(StorageError::TransactionAborted(
                "unexpected answer from the store".to_string()
            )),
            Command::Rollback
        )
    );
}

#[test]
fn update_start_sends_title_and_body() {
    assert_eq!(
        update_start(5, stored(9, "t", "s", "b")),
        (
            UpdateState::Updating(5),
            Command::Update { id: 5, title: "t".to_string(), body: "b".to_string() }
        )
    );
}

#[test]
fn update_that_touches_no_row_fetches_nothing() {
    assert_eq!(update_step(UpdateState::Updating(5), Answer::Affected(0)), Step::Finish(Ok(None)));
    let mut table = Table::new();
    assert_eq!(table.update(5, draft()), Ok(None));
    assert_eq!(table.log.len(), 1);
}

#[test]
fn update_fetches_the_row_it_touched() {
    assert_eq!(
        update_step(UpdateState::Updating(5), Answer::Affected(1)),
        Step::Run(UpdateState::Fetching, Command::SelectById(5))
    );
    let mut table = Table::new();
    table.save(draft()).unwrap();
    table.log.clear();
    assert_eq!(
        table.update(1, stored(8, "Hello2", "other", "World2")),
        Ok(Some(stored(1, "Hello2", "hello", "World2")))
    );
    assert_eq!(
        table.log,
        vec![
            Command::Update { id: 1, title: "Hello2".to_string(), body: "World2".to_string() },
            Command::SelectById(1),
        ]
    );
}

#[test]
fn update_is_none_when_the_row_went_in_between() {
    assert_eq!(update_step(UpdateState::Fetching, Answer::NoRow), Step::Finish(Ok(None)));
    assert_eq!(
        update_step(UpdateState::Fetching, Answer::Row(model(5, "a", "b", "c"))),
        Step::Finish(Ok(Some(stored(5, "a", "b", "c"))))
    );
}

#[test]
fn update_failures_keep_the_cause() {
    assert_eq!(
        update_step(UpdateState::Updating(5), failed("locked")),
        Step::Finish(query_failed("locked"))
    );
    assert_eq!(
        update_step(UpdateState::Fetching, failed("gone")),
        Step::Finish(query_failed("gone"))
    );
    assert_eq!(
        update_step(UpdateState::Fetching, Answer::Affected(1)),
        Step::Finish(query_failed("unexpected answer from the store"))
    );
    assert_eq!(
        update_step(UpdateState::Updating(5), Answer::NoRow),
        Step::Finish(query_failed("unexpected answer from the store"))
    );
}

#[test]
fn delete_says_whether_a_row_was_touched() {
    assert_eq!(delete_start(4), Command::Delete(4));
    assert_eq!(delete_finish(Answer::Affected(0)), Ok(false));
    assert_eq!(delete_finish(Answer::Affected(1)), Ok(true));
    assert_eq!(delete_finish(Answer::Affected(2)), Ok(true));
    assert_eq!(delete_finish(failed("locked")), query_failed("locked"));
    assert_eq!(delete_finish(Answer::Done), query_failed("unexpected answer from the store"));
    let mut table = Table::new();
    table.save(draft()).unwrap();
    assert_eq!(table.delete(1), Ok(true));
    assert_eq!(table.delete(1), Ok(false));
    assert_eq!(table.find_by_id(1), Ok(None));
}

#[test]
fn find_by_id_takes_no_row_for_none() {
    assert_eq!(find_by_id_start(4), Command::SelectById(4));
    assert_eq!(find_by_id_finish(Answer::NoRow), Ok(None));
    assert_eq!(
        find_by_id_finish(Answer::Row(model(4, "a", "b", "c"))),
        Ok(Some(stored(4, "a", "b", "c")))
    );
    assert_eq!(find_by_id_finish(failed("io")), query_failed("io"));
}

#[test]
fn find_all_keeps_the_order_of_the_rows() {
    assert_eq!(find_all_start(), Command::SelectAll);
    assert_eq!(find_all_finish(Answer::Rows(vec![])), Ok(vec![]));
    assert_eq!(
        find_all_finish(Answer::Rows(vec![
            model(2, "d", "e", "f"),
            model(1, "a", "b", "c"),
            model(3, "g", "h", "i")
        ])),
        Ok(vec![stored(2, "d", "e", "f"), stored(1, "a", "b", "c"), stored(3, "g", "h", "i")])
    );
    assert_eq!(find_all_finish(failed("io")), query_failed("io"));
    assert_eq!(
        into_posts(vec![model(2, "d", "e", "f"), model(1, "a", "b", "c")]),
        vec![stored(2, "d", "e", "f"), stored(1, "a", "b", "c")]
    );
    let mut table = Table::new();
    table.save(draft()).unwrap();
    assert_eq!(table.find_all(), Ok(vec![stored(1, "Hello", "hello", "World")]));
}
