use crate::post::Post;
use crate::relational::{
    post_of, save_step_spec, update_step_spec, Answer, Command, PostModel, SaveState, Step,
    UpdateState,
};
use crate::repository::{after_save, after_update, Rows};
use vstd::prelude::*;

verus! {

/// The table of posts as one connection sees it, for reasoning only.
pub struct Table {
    /// The rows as this connection sees them.
    pub rows: Map<i32, PostModel>,
    /// While a transaction is open: the rows as they were when it was opened,
    /// which is what every other reader still sees.
    pub held: Option<Map<i32, PostModel>>,
    /// The identifier that the last insert on this connection got.
    pub last_id: i32,
}

impl Table {
    /// The rows that other readers see: those of the last commit.
    pub open spec fn visible(self) -> Map<i32, PostModel> {
        match self.held {
            Some(rows) => rows,
            None => self.rows,
        }
    }
}

/// The posts that rows stand for, by identifier.
pub open spec fn posts_in(rows: Map<i32, PostModel>) -> Rows {
    rows.map_values(|model: PostModel| model@)
}

/// The row that an insert of `post` makes under `id`.
pub open spec fn row_of(id: i32, post: Post) -> PostModel {
    PostModel { id, title: post.title, slug: post.slug, body: post.body }
}

/// The row under `id`, if there is one.
pub open spec fn row_at(rows: Map<i32, PostModel>, id: i32) -> Option<PostModel> {
    if rows.contains_key(id) {
        Some(rows[id])
    } else {
        None
    }
}

/// Whether the store may answer `command` with `answer` and so turn `before`
/// into `after`.
///
/// Any statement may fail, and then changes nothing. An insert picks a
/// positive identifier that is not in use. A rollback puts back the rows of
/// the time when the transaction was opened.
pub open spec fn runs(before: Table, command: Command, after: Table, answer: Answer) -> bool {
    ||| answer is Failed && after == before
    ||| match command {
        Command::Begin => {
            &&& before.held is None
            &&& after == (Table {
                rows: before.rows,
                held: Some(before.rows),
                last_id: before.last_id,
            })
            &&& answer is Done
        },
        Command::Insert { title, slug, body } => {
            &&& after.last_id > 0
            &&& !before.rows.contains_key(after.last_id)
            &&& after.rows == before.rows.insert(
                after.last_id,
                PostModel { id: after.last_id, title, slug, body },
            )
            &&& after.held == before.held
            &&& answer == Answer::Affected(1)
        },
        Command::LastInsertId => after == before && answer == Answer::Id(before.last_id),
        Command::SelectById(id) => after == before && answer == match row_at(before.rows, id) {
            Some(model) => Answer::Row(model),
            None => Answer::NoRow,
        },
        Command::SelectAll => after == before && answer is Rows,
        Command::Update { id, title, body } => {
            &&& after.held == before.held
            &&& after.last_id == before.last_id
            &&& if before.rows.contains_key(id) {
                &&& answer == Answer::Affected(1)
                &&& after.rows == before.rows.insert(
                    id,
                    PostModel { id, title, slug: before.rows[id].slug, body },
                )
            } else {
                &&& answer == Answer::Affected(0)
                &&& after.rows == before.rows
            }
        },
        Command::Delete(id) => {
            &&& after.held == before.held
            &&& after.last_id == before.last_id
            &&& after.rows == before.rows.remove(id)
            &&& answer == Answer::Affected(
                if before.rows.contains_key(id) {
                    1
                } else {
                    0
                },
            )
        },
        Command::Commit => {
            &&& before.held is Some
            &&& after == (Table { rows: before.rows, held: None, last_id: before.last_id })
            &&& answer is Done
        },
        Command::Rollback => {
            &&& before.held matches Some(rows)
            &&& after == (Table { rows, held: None, last_id: before.last_id })
            &&& answer is Done
        },
    }
}

/// What holds of the table while `post` is being stored, in `state` and
/// before the store has run `command`. `start` are the rows that were there
/// when the operation began.
pub open spec fn storing(
    state: SaveState,
    command: Command,
    table: Table,
    start: Map<i32, PostModel>,
    post: Post,
) -> bool {
    match state {
        SaveState::Opening(held) => {
            &&& held == post
            &&& command == Command::Begin
            &&& table.held is None
            &&& table.rows == start
        },
        SaveState::Inserting => {
            &&& command == Command::Insert { title: post.title, slug: post.slug, body: post.body }
            &&& table.held == Some(start)
            &&& table.rows == start
        },
        SaveState::ReadingId => {
            &&& command == Command::LastInsertId
            &&& table.held == Some(start)
            &&& inserted(table, start, post)
        },
        SaveState::Fetching => {
            &&& command == Command::SelectById(table.last_id)
            &&& table.held == Some(start)
            &&& inserted(table, start, post)
        },
        SaveState::Committing(fetched) => {
            &&& command == Command::Commit
            &&& table.held == Some(start)
            &&& inserted(table, start, post)
            &&& fetched == post_of(row_of(table.last_id, post))
        },
        SaveState::Aborting(_) => {
            &&& command == Command::Rollback
            &&& table.held == Some(start)
        },
    }
}

/// `table` holds the rows of `start` and the row of `post`, under the
/// identifier that the last insert got, which is positive and new.
pub open spec fn inserted(table: Table, start: Map<i32, PostModel>, post: Post) -> bool {
    &&& table.last_id > 0
    &&& !start.contains_key(table.last_id)
    &&& table.rows == start.insert(table.last_id, row_of(table.last_id, post))
}

/// Storing a post is all or nothing, at every step.
///
/// While the operation runs, other readers see the rows as they were. Where
/// it ends with a post, that post is what was sent, under a positive
/// identifier that was not in use, no transaction is left open, and the
/// rows are those of before and this one. Where it ends with a failure, the
/// rows that readers see are those of before.
pub proof fn law_save_is_atomic(
    state: SaveState,
    command: Command,
    table: Table,
    start: Map<i32, PostModel>,
    post: Post,
    answer: Answer,
    after: Table,
    step: Step<SaveState, Post>,
)
    requires
        storing(state, command, table, start, post),
        runs(table, command, after, answer),
        save_step_spec(state, answer, step),
    ensures
        match step {
            Step::Run(next, then) => storing(next, then, after, start, post) && after.visible()
                == start,
            Step::Finish(Ok(stored)) => {
                &&& stored@.id matches Some(id)
                &&& id > 0
                &&& !start.contains_key(id)
                &&& stored@ == post@.stored_as(id)
                &&& after.held is None
                &&& after.visible() == start.insert(id, row_of(id, post))
                &&& posts_in(after.visible()) == after_save(posts_in(start), id, post@)
            },
            Step::Finish(Err(_)) => after.visible() == start,
        },
{
    if step matches Step::Finish(Ok(stored)) {
        let id = table.last_id;
        assert(posts_in(start.insert(id, row_of(id, post))) =~= after_save(
            posts_in(start),
            id,
            post@,
        ));
    }
}

/// What holds of the table during an update of the row under `id` with
/// `post`, where nobody else writes in between.
pub open spec fn updating(
    state: UpdateState,
    command: Command,
    table: Table,
    start: Map<i32, PostModel>,
    id: i32,
    post: Post,
) -> bool {
    &&& table.held is None
    &&& match state {
        UpdateState::Updating(target) => {
            &&& target == id
            &&& command == Command::Update { id, title: post.title, body: post.body }
            &&& table.rows == start
        },
        UpdateState::Fetching => {
            &&& command == Command::SelectById(id)
            &&& start.contains_key(id)
            &&& table.rows == start.insert(
                id,
                PostModel { id, title: post.title, slug: start[id].slug, body: post.body },
            )
        },
    }
}

/// An update changes title and body of the one row and nothing else, and
/// returns the row as it then stands; where there is no such row it returns
/// `None` and changes nothing. Where it fails, the row is as it was or
/// changed.
pub proof fn law_update_changes_one_row(
    state: UpdateState,
    command: Command,
    table: Table,
    start: Map<i32, PostModel>,
    id: i32,
    post: Post,
    answer: Answer,
    after: Table,
    step: Step<UpdateState, Option<Post>>,
)
    requires
        forall|k: i32| #[trigger] start.contains_key(k) ==> start[k].id == k,
        updating(state, command, table, start, id, post),
        runs(table, command, after, answer),
        update_step_spec(state, answer, step),
    ensures
        match step {
            Step::Run(next, then) => updating(next, then, after, start, id, post),
            Step::Finish(Ok(Some(stored))) => {
                &&& start.contains_key(id)
                &&& stored@ == start[id]@.revised(post@.title, post@.body)
                &&& posts_in(after.rows) == after_update(
                    posts_in(start),
                    id,
                    post@.title,
                    post@.body,
                )
            },
            Step::Finish(Ok(None)) => !start.contains_key(id) && after.rows == start,
            Step::Finish(Err(_)) => {
                ||| posts_in(after.rows) == posts_in(start)
                ||| posts_in(after.rows) == after_update(
                    posts_in(start),
                    id,
                    post@.title,
                    post@.body,
                )
            },
        },
{
    if start.contains_key(id) {
        let changed = PostModel { id, title: post.title, slug: start[id].slug, body: post.body };
        assert(posts_in(start.insert(id, changed)) =~= after_update(
            posts_in(start),
            id,
            post@.title,
            post@.body,
        ));
    }
}

} // verus!
