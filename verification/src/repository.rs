use crate::error::StorageError;
use crate::post::{Post, PostView};
use vstd::prelude::*;

verus! {

/// What a store holds: the posts by identifier.
pub type Rows = Map<i32, PostView>;

/// A number of posts that a store is sure to take.
pub type Headroom = nat;

/// Every row stands under its own, positive identifier.
pub open spec fn rows_well_formed(rows: Rows) -> bool {
    forall|k: i32| #[trigger] rows.contains_key(k) ==> k > 0 && rows[k].id == Some(k)
}

/// The row under `id`, if there is one.
pub open spec fn lookup(rows: Rows, id: i32) -> Option<PostView> {
    if rows.contains_key(id) {
        Some(rows[id])
    } else {
        None
    }
}

/// The store after `post` was stored under `id`.
pub open spec fn after_save(rows: Rows, id: i32, post: PostView) -> Rows {
    rows.insert(id, post.stored_as(id))
}

/// The store after the row under `id`, if any, got another title and body.
pub open spec fn after_update(rows: Rows, id: i32, title: Seq<char>, body: Seq<char>) -> Rows {
    if rows.contains_key(id) {
        rows.insert(id, rows[id].revised(title, body))
    } else {
        rows
    }
}

/// The store after the row under `id`, if any, was removed.
pub open spec fn after_delete(rows: Rows, id: i32) -> Rows {
    rows.remove(id)
}

/// `posts` lists `rows`: each row once, and nothing else.
pub open spec fn is_listing(posts: Seq<Post>, rows: Rows) -> bool {
    &&& forall|i: int|
        0 <= i < posts.len() ==> (#[trigger] posts[i])@.id is Some && lookup(
            rows,
            posts[i]@.id->0,
        ) == Some(posts[i]@)
    &&& forall|i: int, j: int|
        0 <= i < j < posts.len() ==> (#[trigger] posts[i])@.id != (#[trigger] posts[j])@.id
    &&& forall|k: i32| #[trigger]
        rows.contains_key(k) ==> exists|i: int|
            0 <= i < posts.len() && (#[trigger] posts[i])@.id == Some(k)
}

/// The operations that the use cases need of a store, whatever the store is.
///
/// A store is described by the rows it holds. Every operation may fail with
/// a `StorageError`, unless the store has `headroom`: the number of posts
/// that it is sure to take. While that is positive no operation fails, and
/// only a `save` uses it up. A store that can fail at any time has none. An
/// absent row is `None` or `false`, never an error.
///
/// The clauses speak of a store that nobody else writes to while an
/// operation runs; what a store does under writers that race is its own
/// affair.
///
/// `rows`, `inv` and `headroom` describe a store and are never run: an
/// implementation outside verified code gives each a body that cannot be
/// reached.
pub trait PostRepository {
    /// The rows in the store.
    spec fn rows(&self) -> Rows;

    /// The store's own consistency.
    spec fn inv(&self) -> bool;

    /// The number of posts that the store is sure to take.
    spec fn headroom(&self) -> Headroom;

    /// All rows, each once.
    fn find_all(&self) -> (r: Result<Vec<Post>, StorageError>)
        requires
            self.inv(),
        ensures
            r matches Ok(posts) ==> is_listing(posts@, self.rows()),
            self.headroom() > 0 ==> r is Ok,
    ;

    /// The row under `id`, or `None` where there is none.
    fn find_by_id(&self, id: i32) -> (r: Result<Option<Post>, StorageError>)
        requires
            self.inv(),
        ensures
            r matches Ok(found) ==> match found {
                Some(post) => lookup(self.rows(), id) == Some(post@) && post@.id == Some(id),
                None => lookup(self.rows(), id) is None,
            },
            self.headroom() > 0 ==> r is Ok,
    ;

    /// Stores `post` under an identifier that the store picks, positive and
    /// not in use, and returns the post as stored. The identifier that `post`
    /// came with is not read. On failure the store is as it was.
    fn save(&mut self, post: Post) -> (r: Result<Post, StorageError>)
        requires
            old(self).inv(),
        ensures
            final(self).inv(),
            match r {
                Ok(stored) => {
                    &&& stored@.id matches Some(id)
                    &&& id > 0
                    &&& !old(self).rows().contains_key(id)
                    &&& stored@ == post@.stored_as(id)
                    &&& final(self).rows() == after_save(old(self).rows(), id, post@)
                },
                Err(_) => final(self).rows() == old(self).rows(),
            },
            old(self).headroom() > 0 ==> r is Ok,
            final(self).headroom() + 1 >= old(self).headroom(),
    ;

    /// Gives the row under `id` the title and body of `post` and returns the
    /// row as it then stands; `None`, and nothing changed, where there is no
    /// such row. On failure the row is either as it was or changed.
    fn update(&mut self, id: i32, post: Post) -> (r: Result<Option<Post>, StorageError>)
        requires
            old(self).inv(),
        ensures
            final(self).inv(),
            match r {
                Ok(Some(stored)) => {
                    &&& old(self).rows().contains_key(id)
                    &&& stored@ == old(self).rows()[id].revised(post@.title, post@.body)
                    &&& stored@.id == Some(id)
                    &&& final(self).rows() == after_update(
                        old(self).rows(),
                        id,
                        post@.title,
                        post@.body,
                    )
                },
                Ok(None) => {
                    &&& !old(self).rows().contains_key(id)
                    &&& final(self).rows() == old(self).rows()
                },
                Err(_) => {
                    ||| final(self).rows() == old(self).rows()
                    ||| final(self).rows() == after_update(
                        old(self).rows(),
                        id,
                        post@.title,
                        post@.body,
                    )
                },
            },
            old(self).headroom() > 0 ==> r is Ok,
            final(self).headroom() >= old(self).headroom(),
    ;

    /// Removes the row under `id` and says whether there was one. On failure
    /// the store is as it was.
    fn delete(&mut self, id: i32) -> (r: Result<bool, StorageError>)
        requires
            old(self).inv(),
        ensures
            final(self).inv(),
            match r {
                Ok(removed) => {
                    &&& removed == old(self).rows().contains_key(id)
                    &&& final(self).rows() == after_delete(old(self).rows(), id)
                },
                Err(_) => final(self).rows() == old(self).rows(),
            },
            old(self).headroom() > 0 ==> r is Ok,
            final(self).headroom() >= old(self).headroom(),
    ;
}

} // verus!
