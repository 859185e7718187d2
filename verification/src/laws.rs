use crate::error::StorageError;
use crate::memory::InMemoryPostRepository;
use crate::post::{Post, PostView};
use crate::relational::{
    aborts, post_of, save_step_spec, update_step_spec, Answer, Command, SaveState, Step,
    UpdateState,
};
use crate::repository::{
    after_delete, after_save, after_update, lookup, rows_well_formed, PostRepository, Rows,
};
use vstd::prelude::*;

verus! {

/// A post that was stored is found under the identifier it was given, equal
/// to what was stored: the three texts as they were handed in. Other rows
/// are found as before.
pub proof fn law_save_then_find(rows: Rows, id: i32, post: PostView, other: i32)
    requires
        other != id,
    ensures
        lookup(after_save(rows, id, post), id) == Some(post.stored_as(id)),
        post.stored_as(id).title == post.title,
        post.stored_as(id).slug == post.slug,
        post.stored_as(id).body == post.body,
        lookup(after_save(rows, id, post), other) == lookup(rows, other),
{
}

/// Storing keeps well-formed rows well-formed, given a positive identifier.
pub proof fn law_save_keeps_rows_well_formed(rows: Rows, id: i32, post: PostView)
    requires
        rows_well_formed(rows),
        id > 0,
    ensures
        rows_well_formed(after_save(rows, id, post)),
{
}

/// Nothing is found in an empty store, and nothing under an identifier that
/// has no row; neither is an error.
pub proof fn law_find_absent(rows: Rows, id: i32)
    ensures
        lookup(Map::<i32, PostView>::empty(), id) is None,
        !rows.contains_key(id) ==> lookup(rows, id) is None,
{
}

/// A store in memory holds no row under an identifier that it has not handed
/// out yet.
pub proof fn law_find_never_created(store: &InMemoryPostRepository, id: i32)
    requires
        store.inv(),
        id > store.last_id() || id <= 0,
    ensures
        lookup(store.rows(), id) is None,
{
    store.no_row_outside(id);
}

/// Updating under an identifier that has no row changes nothing.
pub proof fn law_update_absent(rows: Rows, id: i32, title: Seq<char>, body: Seq<char>)
    requires
        !rows.contains_key(id),
    ensures
        after_update(rows, id, title, body) == rows,
        lookup(after_update(rows, id, title, body), id) is None,
{
}

/// After an update the post is found with the new title and body and with
/// the identifier and slug that it had. Other rows are found as before.
pub proof fn law_update_then_find(
    rows: Rows,
    id: i32,
    title: Seq<char>,
    body: Seq<char>,
    other: i32,
)
    requires
        rows.contains_key(id),
        other != id,
    ensures
        lookup(after_update(rows, id, title, body), id) == Some(rows[id].revised(title, body)),
        rows[id].revised(title, body).id == rows[id].id,
        rows[id].revised(title, body).slug == rows[id].slug,
        rows[id].revised(title, body).title == title,
        rows[id].revised(title, body).body == body,
        lookup(after_update(rows, id, title, body), other) == lookup(rows, other),
{
}

/// After a delete the post is not found any more, a second delete of the
/// same identifier finds nothing to remove and changes nothing, and other
/// rows are found as before.
pub proof fn law_delete_then_find(rows: Rows, id: i32, other: i32)
    requires
        other != id,
    ensures
        lookup(after_delete(rows, id), id) is None,
        !after_delete(rows, id).contains_key(id),
        after_delete(after_delete(rows, id), id) == after_delete(rows, id),
        lookup(after_delete(rows, id), other) == lookup(rows, other),
{
    assert(after_delete(after_delete(rows, id), id) =~= after_delete(rows, id));
}

/// Storing a post succeeds only in answer to a commit that went through,
/// and with the post that was held for it.
pub proof fn law_save_succeeds_only_on_commit(
    state: SaveState,
    answer: Answer,
    step: Step<SaveState, Post>,
    post: Post,
)
    requires
        save_step_spec(state, answer, step),
        step == Step::<SaveState, Post>::Finish(Ok(post)),
    ensures
        state == SaveState::Committing(post),
        answer is Done,
{
}

/// A commit is sent only for a row that was fetched, and the post of that
/// row is held for the result.
pub proof fn law_commit_follows_fetch(
    state: SaveState,
    answer: Answer,
    step: Step<SaveState, Post>,
)
    requires
        save_step_spec(state, answer, step),
        step matches Step::Run(_, Command::Commit),
    ensures
        state is Fetching,
        answer matches Answer::Row(model) && step == Step::<SaveState, Post>::Run(
            SaveState::Committing(post_of(model)),
            Command::Commit,
        ),
{
}

/// A failure inside the transaction is answered with a rollback, and its
/// cause is kept.
pub proof fn law_failure_in_transaction_rolls_back(
    state: SaveState,
    cause: String,
    step: Step<SaveState, Post>,
)
    requires
        state.in_transaction(),
        save_step_spec(state, Answer::Failed(cause), step),
    ensures
        aborts(step, cause@),
{
}

/// After the rollback the operation ends with the failure that led to it,
/// whatever the store said to the rollback.
pub proof fn law_rollback_ends_with_the_failure(
    error: StorageError,
    answer: Answer,
    step: Step<SaveState, Post>,
)
    requires
        save_step_spec(SaveState::Aborting(error), answer, step),
    ensures
        step == Step::<SaveState, Post>::Finish(Err(error)),
{
}

/// No step of storing a post ends in success while the transaction is still
/// open, and no step sends a second insert.
pub proof fn law_save_does_not_end_early(
    state: SaveState,
    answer: Answer,
    step: Step<SaveState, Post>,
)
    requires
        save_step_spec(state, answer, step),
        !(state is Committing),
    ensures
        !(step matches Step::Finish(Ok(_))),
        step matches Step::Run(_, Command::Insert { .. }) ==> state is Opening,
{
}

/// An update that touched no row ends with `None` and fetches nothing; one
/// that touched a row fetches the row under the same identifier.
pub proof fn law_update_fetches_only_what_it_touched(
    id: i32,
    touched: usize,
    step: Step<UpdateState, Option<Post>>,
)
    requires
        update_step_spec(UpdateState::Updating(id), Answer::Affected(touched), step),
    ensures
        touched == 0 ==> step == Step::<UpdateState, Option<Post>>::Finish(Ok(None)),
        touched > 0 ==> step == Step::<UpdateState, Option<Post>>::Run(
            UpdateState::Fetching,
            Command::SelectById(id),
        ),
{
}

} // verus!
