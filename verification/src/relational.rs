use crate::error::StorageError;
use crate::post::{Post, PostView};
use vstd::prelude::*;

verus! {

/// A row of the table of posts: the identifier is always there.
#[derive(Debug, PartialEq, Eq)]
pub struct PostModel {
    pub id: i32,
    pub title: String,
    pub slug: String,
    pub body: String,
}

/// The columns that an insert sends; the store picks the identifier.
#[derive(Debug, PartialEq, Eq)]
pub struct NewPostModel<'a> {
    pub title: &'a str,
    pub body: &'a str,
    pub slug: &'a str,
}

/// The post that a row stands for.
pub open spec fn post_of(model: PostModel) -> Post {
    Post { id: Some(model.id), title: model.title, slug: model.slug, body: model.body }
}

impl View for PostModel {
    type V = PostView;

    open spec fn view(&self) -> PostView {
        post_of(*self)@
    }
}

impl From<PostModel> for Post {
    fn from(model: PostModel) -> (r: Post)
        ensures
            r == post_of(model),
    {
        Post { id: Some(model.id), title: model.title, slug: model.slug, body: model.body }
    }
}

impl vstd::std_specs::convert::FromSpecImpl<PostModel> for Post {
    open spec fn obeys_from_spec() -> bool {
        true
    }

    open spec fn from_spec(model: PostModel) -> Post {
        post_of(model)
    }
}

impl<'a> From<&'a Post> for NewPostModel<'a> {
    /// The columns of `post`, borrowed; its identifier is left out.
    fn from(post: &'a Post) -> (r: NewPostModel<'a>)
        ensures
            r.title@ == post.title@,
            r.slug@ == post.slug@,
            r.body@ == post.body@,
    {
        NewPostModel {
            title: post.title.as_str(),
            slug: post.slug.as_str(),
            body: post.body.as_str(),
        }
    }
}

/// The borrowed texts have no name in specifications, so the conversion is
/// described by the clauses on `from` alone.
impl<'a> vstd::std_specs::convert::FromSpecImpl<&'a Post> for NewPostModel<'a> {
    open spec fn obeys_from_spec() -> bool {
        false
    }

    open spec fn from_spec(post: &'a Post) -> NewPostModel<'a> {
        arbitrary()
    }
}

/// One statement for the store. Each is run on the one connection that the
/// operation holds from its first statement to its last.
#[derive(Debug, PartialEq, Eq)]
pub enum Command {
    /// Open a transaction.
    Begin,
    /// Insert a row with these columns.
    Insert { title: String, slug: String, body: String },
    /// Ask for the identifier that the last insert on this connection got.
    LastInsertId,
    /// Select the row with this identifier.
    SelectById(i32),
    /// Select all rows.
    SelectAll,
    /// Set title and body of the row with this identifier.
    Update { id: i32, title: String, body: String },
    /// Delete the row with this identifier.
    Delete(i32),
    /// Commit the open transaction.
    Commit,
    /// Roll the open transaction back.
    Rollback,
}

/// What the store said to a statement.
#[derive(Debug, PartialEq, Eq)]
pub enum Answer {
    /// The transaction was opened, committed or rolled back.
    Done,
    /// The number of rows that an insert, update or delete touched.
    Affected(usize),
    /// The identifier of the last inserted row.
    Id(i32),
    /// The row that was asked for.
    Row(PostModel),
    /// There is no row such as was asked for.
    NoRow,
    /// All rows.
    Rows(Vec<PostModel>),
    /// The statement failed, for this cause.
    Failed(String),
}

/// What comes next in an operation: one more statement, or its result.
#[derive(Debug, PartialEq, Eq)]
pub enum Step<S, T> {
    Run(S, Command),
    Finish(Result<T, StorageError>),
}

/// The cause given where the store answers a statement with something that
/// cannot be an answer to it.
pub open spec fn unexpected() -> Seq<char> {
    "unexpected answer from the store"@
}

/// The cause given where a row that was just inserted is not found.
pub open spec fn not_found() -> Seq<char> {
    "Record not found"@
}

/// The cause of a statement's failure: the store's words where it gave any.
pub open spec fn cause_of(answer: Answer) -> Seq<char> {
    match answer {
        Answer::Failed(cause) => cause@,
        _ => unexpected(),
    }
}

/// Takes the store's words out of a failure; any other answer is unexpected.
fn into_cause(answer: Answer) -> (r: String)
    ensures
        r@ == cause_of(answer),
{
    match answer {
        Answer::Failed(cause) => cause,
        _ => "unexpected answer from the store".to_string(),
    }
}

/// Where storing a post stands. Each state names the statement whose answer
/// is awaited.
#[derive(Debug, PartialEq, Eq)]
pub enum SaveState {
    /// `Begin`; the post waits to be inserted.
    Opening(Post),
    /// `Insert`.
    Inserting,
    /// `LastInsertId`.
    ReadingId,
    /// `SelectById`, of the identifier that was read.
    Fetching,
    /// `Commit`; the post as it was fetched.
    Committing(Post),
    /// `Rollback`; the failure that led to it.
    Aborting(StorageError),
}

impl SaveState {
    /// Whether a transaction is open that has seen no failure.
    pub open spec fn in_transaction(self) -> bool {
        self is Inserting || self is ReadingId || self is Fetching
    }
}

/// Whether `step` is what follows in `state` on `answer` when a post is stored.
///
/// The transaction is opened; the row is inserted; the identifier it got is
/// read on the same connection; the row is fetched under it; then the
/// transaction is committed and the fetched post returned. A failure before
/// the transaction is open ends the operation; one inside it leads to a
/// rollback, after which the operation ends with that failure; every failure
/// is a `TransactionAborted` with the store's cause.
pub open spec fn save_step_spec(
    state: SaveState,
    answer: Answer,
    step: Step<SaveState, Post>,
) -> bool {
    match state {
        SaveState::Opening(post) => match answer {
            Answer::Done => step == Step::<SaveState, Post>::Run(
                SaveState::Inserting,
                Command::Insert { title: post.title, slug: post.slug, body: post.body },
            ),
            _ => step matches Step::Finish(Err(StorageError::TransactionAborted(cause)))
                && cause@ == cause_of(answer),
        },
        SaveState::Inserting => match answer {
            Answer::Affected(_) => step == Step::<SaveState, Post>::Run(
                SaveState::ReadingId,
                Command::LastInsertId,
            ),
            _ => aborts(step, cause_of(answer)),
        },
        SaveState::ReadingId => match answer {
            Answer::Id(id) => step == Step::<SaveState, Post>::Run(
                SaveState::Fetching,
                Command::SelectById(id),
            ),
            _ => aborts(step, cause_of(answer)),
        },
        SaveState::Fetching => match answer {
            Answer::Row(model) => step == Step::<SaveState, Post>::Run(
                SaveState::Committing(post_of(model)),
                Command::Commit,
            ),
            Answer::NoRow => aborts(step, not_found()),
            _ => aborts(step, cause_of(answer)),
        },
        SaveState::Committing(post) => match answer {
            Answer::Done => step == Step::<SaveState, Post>::Finish(Ok(post)),
            _ => step matches Step::Finish(Err(StorageError::TransactionAborted(cause)))
                && cause@ == cause_of(answer),
        },
        SaveState::Aborting(error) => step == Step::<SaveState, Post>::Finish(Err(error)),
    }
}

/// `step` rolls the transaction back and keeps `cause` for the result.
pub open spec fn aborts(step: Step<SaveState, Post>, cause: Seq<char>) -> bool {
    step matches Step::Run(
        SaveState::Aborting(StorageError::TransactionAborted(kept)),
        Command::Rollback,
    ) && kept@ == cause
}

/// The step that rolls back after a failure inside the transaction.
fn abort(cause: String) -> (r: Step<SaveState, Post>)
    ensures
        aborts(r, cause@),
{
    Step::Run(SaveState::Aborting(StorageError::TransactionAborted(cause)), Command::Rollback)
}

/// Starts storing `post`: the first statement opens a transaction. The
/// identifier that `post` came with is never sent.
pub fn save_start(post: Post) -> (r: (SaveState, Command))
    ensures
        r == (SaveState::Opening(post), Command::Begin),
{
    (SaveState::Opening(post), Command::Begin)
}

/// The next step in storing a post, from where it stands and what the store
/// said to the last statement.
pub fn save_step(state: SaveState, answer: Answer) -> (r: Step<SaveState, Post>)
    ensures
        save_step_spec(state, answer, r),
{
    match state {
        SaveState::Opening(post) => match answer {
            Answer::Done => Step::Run(
                SaveState::Inserting,
                Command::Insert { title: post.title, slug: post.slug, body: post.body },
            ),
            other => Step::Finish(Err(StorageError::TransactionAborted(into_cause(other)))),
        },
        SaveState::Inserting => match answer {
            Answer::Affected(_) => Step::Run(SaveState::ReadingId, Command::LastInsertId),
            other => abort(into_cause(other)),
        },
        SaveState::ReadingId => match answer {
            Answer::Id(id) => Step::Run(SaveState::Fetching, Command::SelectById(id)),
            other => abort(into_cause(other)),
        },
        SaveState::Fetching => match answer {
            Answer::Row(model) => Step::Run(
                SaveState::Committing(Post::from(model)),
                Command::Commit,
            ),
            Answer::NoRow => abort("Record not found".to_string()),
            other => abort(into_cause(other)),
        },
        SaveState::Committing(post) => match answer {
            Answer::Done => Step::Finish(Ok(post)),
            other => Step::Finish(Err(StorageError::TransactionAborted(into_cause(other)))),
        },
        SaveState::Aborting(error) => Step::Finish(Err(error)),
    }
}

/// Where an update stands.
#[derive(Debug, PartialEq, Eq)]
pub enum UpdateState {
    /// `Update` of the row with this identifier.
    Updating(i32),
    /// `SelectById`, after the update touched a row.
    Fetching,
}

/// Whether `step` is what follows in `state` on `answer` in an update.
///
/// Where the update touched no row, the result is `None` and nothing is
/// fetched. Else the row is fetched, and what is found is the result: `None`
/// again where the row has gone in between. A failure is a `QueryFailed` with
/// the store's cause.
pub open spec fn update_step_spec(
    state: UpdateState,
    answer: Answer,
    step: Step<UpdateState, Option<Post>>,
) -> bool {
    match (state, answer) {
        (UpdateState::Updating(id), Answer::Affected(n)) => if n == 0 {
            step == Step::<UpdateState, Option<Post>>::Finish(Ok(None))
        } else {
            step == Step::<UpdateState, Option<Post>>::Run(
                UpdateState::Fetching,
                Command::SelectById(id),
            )
        },
        (UpdateState::Fetching, Answer::Row(model)) => step == Step::<
            UpdateState,
            Option<Post>,
        >::Finish(Ok(Some(post_of(model)))),
        (UpdateState::Fetching, Answer::NoRow) => step == Step::<
            UpdateState,
            Option<Post>,
        >::Finish(Ok(None)),
        _ => step matches Step::Finish(Err(StorageError::QueryFailed(cause))) && cause@
            == cause_of(answer),
    }
}

/// Starts an update: title and body of `post` are sent for the row under
/// `id`, nothing else of it.
pub fn update_start(id: i32, post: Post) -> (r: (UpdateState, Command))
    ensures
        r == (
            UpdateState::Updating(id),
            Command::Update { id, title: post.title, body: post.body },
        ),
{
    (UpdateState::Updating(id), Command::Update { id, title: post.title, body: post.body })
}

/// The next step in an update.
pub fn update_step(state: UpdateState, answer: Answer) -> (r: Step<UpdateState, Option<Post>>)
    ensures
        update_step_spec(state, answer, r),
{
    match (state, answer) {
        (UpdateState::Updating(id), Answer::Affected(n)) => {
            if n == 0 {
                Step::Finish(Ok(None))
            } else {
                Step::Run(UpdateState::Fetching, Command::SelectById(id))
            }
        },
        (UpdateState::Fetching, Answer::Row(model)) => Step::Finish(Ok(Some(Post::from(model)))),
        (UpdateState::Fetching, Answer::NoRow) => Step::Finish(Ok(None)),
        (_, other) => Step::Finish(Err(StorageError::QueryFailed(into_cause(other)))),
    }
}

/// The one statement of a delete.
pub fn delete_start(id: i32) -> (r: Command)
    ensures
        r == Command::Delete(id),
{
    Command::Delete(id)
}

/// The result of a delete: whether a row was touched.
pub fn delete_finish(answer: Answer) -> (r: Result<bool, StorageError>)
    ensures
        match answer {
            Answer::Affected(n) => r == Ok::<bool, StorageError>(n > 0),
            _ => r matches Err(StorageError::QueryFailed(cause)) && cause@ == cause_of(answer),
        },
{
    match answer {
        Answer::Affected(n) => Ok(n > 0),
        other => Err(StorageError::QueryFailed(into_cause(other))),
    }
}

/// The one statement that looks a post up.
pub fn find_by_id_start(id: i32) -> (r: Command)
    ensures
        r == Command::SelectById(id),
{
    Command::SelectById(id)
}

/// The result of a lookup: the post of the row, or `None` where the store
/// says that there is no such row. That a row is absent is no failure.
pub fn find_by_id_finish(answer: Answer) -> (r: Result<Option<Post>, StorageError>)
    ensures
        match answer {
            Answer::Row(model) => r == Ok::<Option<Post>, StorageError>(Some(post_of(model))),
            Answer::NoRow => r == Ok::<Option<Post>, StorageError>(None),
            _ => r matches Err(StorageError::QueryFailed(cause)) && cause@ == cause_of(answer),
        },
{
    match answer {
        Answer::Row(model) => Ok(Some(Post::from(model))),
        Answer::NoRow => Ok(None),
        other => Err(StorageError::QueryFailed(into_cause(other))),
    }
}

/// The one statement that lists the posts.
pub fn find_all_start() -> (r: Command)
    ensures
        r == Command::SelectAll,
{
    Command::SelectAll
}

/// The posts of `models`, in their order.
pub open spec fn posts_of(models: Seq<PostModel>) -> Seq<Post> {
    models.map_values(|model: PostModel| post_of(model))
}

/// Turns rows into posts, one for one and in order.
pub fn into_posts(models: Vec<PostModel>) -> (r: Vec<Post>)
    ensures
        r@ == posts_of(models@),
{
    let ghost all = models@;
    let mut models = models;
    let mut stack: Vec<Post> = Vec::new();
    while models.len() > 0
        invariant
            stack@.len() + models@.len() == all.len(),
            models@ == all.subrange(0, models@.len() as int),
            forall|i: int|
                0 <= i < stack@.len() ==> #[trigger] stack@[i] == post_of(all[all.len() - 1 - i]),
        decreases models@.len(),
    {
        let ghost before = models@;
        let model = models.pop().unwrap();
        assert(models@ =~= all.subrange(0, models@.len() as int));
        assert(model == before[before.len() - 1]);
        stack.push(Post::from(model));
    }
    let mut posts: Vec<Post> = Vec::new();
    let ghost turned = stack@;
    while stack.len() > 0
        invariant
            turned.len() == all.len(),
            posts@.len() + stack@.len() == all.len(),
            stack@ == turned.subrange(0, stack@.len() as int),
            forall|i: int|
                0 <= i < turned.len() ==> #[trigger] turned[i] == post_of(all[all.len() - 1 - i]),
            forall|i: int| 0 <= i < posts@.len() ==> #[trigger] posts@[i] == post_of(all[i]),
        decreases stack@.len(),
    {
        let ghost before = stack@;
        let post = stack.pop().unwrap();
        assert(stack@ =~= turned.subrange(0, stack@.len() as int));
        assert(post == before[before.len() - 1]);
        assert(post == turned[before.len() - 1]);
        posts.push(post);
    }
    assert(posts@ =~= posts_of(all));
    posts
}

/// The result of listing: the posts of the rows that came, in their order.
pub fn find_all_finish(answer: Answer) -> (r: Result<Vec<Post>, StorageError>)
    ensures
        match answer {
            Answer::Rows(models) => r matches Ok(posts) && posts@ == posts_of(models@),
            _ => r matches Err(StorageError::QueryFailed(cause)) && cause@ == cause_of(answer),
        },
{
    match answer {
        Answer::Rows(models) => Ok(into_posts(models)),
        other => Err(StorageError::QueryFailed(into_cause(other))),
    }
}

} // verus!
