use crate::error::StorageError;
use crate::post::{Post, PostView};
use crate::repository::{
    after_delete, after_save, after_update, lookup, rows_well_formed, Headroom, PostRepository,
    Rows,
};
use vstd::prelude::*;

verus! {

/// The identifier of a stored post.
pub open spec fn key_of(post: Post) -> i32 {
    post.id->0
}

/// Stored posts in the order of their identifiers, all of them positive and
/// none above `last_id`.
pub open spec fn ascending(posts: Seq<Post>, last_id: i32) -> bool {
    &&& forall|i: int|
        0 <= i < posts.len() ==> (#[trigger] posts[i]).id is Some && 0 < key_of(posts[i])
            <= last_id
    &&& forall|i: int, j: int|
        0 <= i < j < posts.len() ==> key_of(#[trigger] posts[i]) < key_of(#[trigger] posts[j])
}

/// Whether one of `posts` has the identifier `id`.
pub open spec fn holds(posts: Seq<Post>, id: i32) -> bool {
    exists|i: int| 0 <= i < posts.len() && (#[trigger] posts[i]).id == Some(id)
}

/// The place of the post with the identifier `id`.
pub open spec fn place_of(posts: Seq<Post>, id: i32) -> int {
    choose|i: int| 0 <= i < posts.len() && (#[trigger] posts[i]).id == Some(id)
}

/// The rows that `posts` stand for.
pub open spec fn rows_of(posts: Seq<Post>) -> Rows {
    Map::new(|k: i32| holds(posts, k), |k: i32| posts[place_of(posts, k)]@)
}

/// In an ascending sequence a post is found at its own place and nowhere else.
proof fn lemma_place(posts: Seq<Post>, last_id: i32, i: int)
    requires
        ascending(posts, last_id),
        0 <= i < posts.len(),
    ensures
        holds(posts, key_of(posts[i])),
        place_of(posts, key_of(posts[i])) == i,
        lookup(rows_of(posts), key_of(posts[i])) == Some(posts[i]@),
{
    let k = key_of(posts[i]);
    assert(posts[i].id == Some(k));
    let p = place_of(posts, k);
    assert(0 <= p < posts.len() && posts[p].id == Some(k));
    if p < i {
        assert(key_of(posts[p]) < key_of(posts[i]));
    }
    if i < p {
        assert(key_of(posts[i]) < key_of(posts[p]));
    }
}

/// A store kept in memory: the posts in the order in which they were stored.
/// Identifiers are handed out from one upwards and never used twice.
pub struct InMemoryPostRepository {
    posts: Vec<Post>,
    last_id: i32,
}

impl InMemoryPostRepository {
    /// The highest identifier handed out so far; zero before the first.
    pub closed spec fn last_id(&self) -> i32 {
        self.last_id
    }

    /// The stored posts in the order of their identifiers.
    pub closed spec fn listing(&self) -> Seq<Post> {
        self.posts@
    }

    /// An empty store.
    pub fn new() -> (r: Self)
        ensures
            r.inv(),
            r.rows() == Map::<i32, PostView>::empty(),
            r.last_id() == 0,
            r.headroom() == i32::MAX,
    {
        let r = InMemoryPostRepository { posts: Vec::new(), last_id: 0 };
        assert(r.rows() =~= Map::<i32, PostView>::empty());
        r
    }

    /// Every row stands under its own, positive identifier.
    pub proof fn rows_are_well_formed(&self)
        requires
            self.inv(),
        ensures
            rows_well_formed(self.rows()),
    {
        assert forall|k: i32| #[trigger] self.rows().contains_key(k) implies k > 0
            && self.rows()[k].id == Some(k) by {
            let p = place_of(self.posts@, k);
            assert(self.posts@[p].id == Some(k));
        }
    }

    /// No row stands under an identifier that was never handed out.
    pub proof fn no_row_outside(&self, id: i32)
        requires
            self.inv(),
            id > self.last_id() || id <= 0,
        ensures
            !self.rows().contains_key(id),
    {
        if holds(self.posts@, id) {
            let p = place_of(self.posts@, id);
            assert(key_of(self.posts@[p]) == id);
        }
    }

    /// The number of rows.
    pub fn len(&self) -> (n: usize)
        requires
            self.inv(),
        ensures
            n == self.rows().len(),
            self.rows().dom().finite(),
    {
        proof {
            lemma_rows_len(self.posts@, self.last_id);
        }
        self.posts.len()
    }

    /// The place of the row under `id`, if there is one.
    fn position(&self, id: i32) -> (r: Option<usize>)
        requires
            self.inv(),
        ensures
            match r {
                Some(i) => i < self.posts@.len() && self.posts@[i as int].id == Some(id),
                None => !holds(self.posts@, id),
            },
    {
        let mut i: usize = 0;
        while i < self.posts.len()
            invariant
                i <= self.posts@.len(),
                forall|j: int| 0 <= j < i ==> (#[trigger] self.posts@[j]).id != Some(id),
            decreases self.posts@.len() - i,
        {
            if self.posts[i].id == Some(id) {
                return Some(i);
            }
            i += 1;
        }
        None
    }
}

/// An ascending sequence stands for as many rows as it is long.
proof fn lemma_rows_len(posts: Seq<Post>, last_id: i32)
    requires
        ascending(posts, last_id),
    ensures
        rows_of(posts).dom().finite(),
        rows_of(posts).len() == posts.len(),
    decreases posts.len(),
{
    if posts.len() == 0 {
        assert(rows_of(posts).dom() =~= Set::<i32>::empty());
    } else {
        let front = posts.drop_last();
        let k = key_of(posts.last());
        lemma_rows_len(front, last_id);
        assert forall|x: i32| rows_of(posts).dom().contains(x) <==> rows_of(front).dom().insert(
            k,
        ).contains(x) by {
            if holds(posts, x) {
                let p = place_of(posts, x);
                if p < posts.len() - 1 {
                    assert(front[p].id == Some(x));
                }
            }
            if holds(front, x) {
                let p = place_of(front, x);
                assert(posts[p].id == Some(x));
            }
            if x == k {
                assert(posts[posts.len() - 1].id == Some(x));
            }
        }
        assert(rows_of(posts).dom() =~= rows_of(front).dom().insert(k));
        if holds(front, k) {
            let p = place_of(front, k);
            assert(key_of(posts[p]) < key_of(posts[posts.len() - 1]));
        }
    }
}

impl Default for InMemoryPostRepository {
    fn default() -> (r: Self)
        ensures
            r.inv(),
            r.rows() == Map::<i32, PostView>::empty(),
    {
        InMemoryPostRepository::new()
    }
}

impl PostRepository for InMemoryPostRepository {
    closed spec fn rows(&self) -> Rows {
        rows_of(self.posts@)
    }

    closed spec fn inv(&self) -> bool {
        &&& 0 <= self.last_id
        &&& ascending(self.posts@, self.last_id)
    }

    /// The identifiers that are left. Only `save` can fail, and only when
    /// none is.
    open spec fn headroom(&self) -> Headroom {
        (i32::MAX - self.last_id()) as nat
    }

    /// The rows in the order of their identifiers. Never fails.
    fn find_all(&self) -> (r: Result<Vec<Post>, StorageError>)
        ensures
            r is Ok,
            r->Ok_0@ == self.listing(),
            ascending(r->Ok_0@, self.last_id()),
    {
        let mut out: Vec<Post> = Vec::new();
        let mut i: usize = 0;
        while i < self.posts.len()
            invariant
                i <= self.posts@.len(),
                out@ == self.posts@.subrange(0, i as int),
            decreases self.posts@.len() - i,
        {
            out.push(self.posts[i].clone());
            assert(out@ =~= self.posts@.subrange(0, i + 1));
            i += 1;
        }
        proof {
            assert(out@ =~= self.posts@);
            assert forall|j: int| 0 <= j < out@.len() implies (#[trigger] out@[j])@.id is Some
                && lookup(self.rows(), out@[j]@.id->0) == Some(out@[j]@) by {
                lemma_place(self.posts@, self.last_id, j);
            }
            assert forall|k: i32| #[trigger] self.rows().contains_key(k) implies exists|j: int|
                0 <= j < out@.len() && (#[trigger] out@[j])@.id == Some(k) by {
                let p = place_of(self.posts@, k);
                assert(out@[p]@.id == Some(k));
            }
            assert forall|a: int, b: int| 0 <= a < b < out@.len() implies (#[trigger] out@[a])@.id
                != (#[trigger] out@[b])@.id by {
                assert(key_of(self.posts@[a]) < key_of(self.posts@[b]));
            }
        }
        Ok(out)
    }

    /// Never fails.
    fn find_by_id(&self, id: i32) -> (r: Result<Option<Post>, StorageError>)
        ensures
            r is Ok,
    {
        match self.position(id) {
            Some(i) => {
                proof {
                    lemma_place(self.posts@, self.last_id, i as int);
                }
                Ok(Some(self.posts[i].clone()))
            },
            None => Ok(None),
        }
    }

    /// Hands out the identifier after the last one. Fails, with the store
    /// unchanged, exactly when the identifiers have run out.
    fn save(&mut self, post: Post) -> (r: Result<Post, StorageError>)
        ensures
            r is Ok <==> old(self).last_id() < i32::MAX,
            r matches Ok(stored) ==> stored@.id == Some((old(self).last_id() + 1) as i32)
                && final(self).last_id() == old(self).last_id() + 1,
            r matches Err(e) ==> e is QueryFailed && final(self).last_id() == old(self).last_id(),
    {
        if self.last_id == i32::MAX {
            return Err(StorageError::QueryFailed("no identifier is left".to_string()));
        }
        let id: i32 = self.last_id + 1;
        let stored = Post::with_id(id, post.title, post.slug, post.body);
        let ghost before = self.posts@;
        self.posts.push(stored.clone());
        self.last_id = id;
        proof {
            let after = self.posts@;
            assert(!holds(before, id)) by {
                if holds(before, id) {
                    let p = place_of(before, id);
                    assert(key_of(before[p]) <= id - 1);
                }
            }
            assert(ascending(after, id)) by {
                assert forall|i: int, j: int| 0 <= i < j < after.len() implies key_of(
                    #[trigger] after[i],
                ) < key_of(#[trigger] after[j]) by {
                    assert(after[i] == before[i]);
                    if j < before.len() {
                        assert(after[j] == before[j]);
                    }
                }
            }
            assert forall|k: i32| #[trigger]
                rows_of(after).contains_key(k) <==> after_save(
                rows_of(before),
                id,
                post@,
            ).contains_key(k) by {
                if holds(after, k) {
                    let p = place_of(after, k);
                    if p < before.len() {
                        assert(before[p].id == Some(k));
                    }
                }
                if holds(before, k) {
                    let p = place_of(before, k);
                    assert(after[p].id == Some(k));
                }
                if k == id {
                    assert(after[after.len() - 1].id == Some(k));
                }
            }
            assert forall|k: i32| #[trigger]
                rows_of(after).contains_key(k) implies rows_of(after)[k] == after_save(
                rows_of(before),
                id,
                post@,
            )[k] by {
                let p = place_of(after, k);
                lemma_place(after, id, p);
                if p < before.len() {
                    lemma_place(before, (id - 1) as i32, p);
                }
            }
            assert(rows_of(after) =~= after_save(rows_of(before), id, post@));
        }
        Ok(stored)
    }

    /// Never fails.
    fn update(&mut self, id: i32, post: Post) -> (r: Result<Option<Post>, StorageError>)
        ensures
            r is Ok,
            final(self).last_id() == old(self).last_id(),
    {
        match self.position(id) {
            None => Ok(None),
            Some(i) => {
                let ghost before = self.posts@;
                let mut stored = self.posts[i].clone();
                stored.update(post.title, post.body);
                self.posts.set(i, stored.clone());
                proof {
                    let after = self.posts@;
                    let last = self.last_id;
                    lemma_place(before, last, i as int);
                    assert(ascending(after, last)) by {
                        assert forall|a: int| 0 <= a < after.len() implies key_of(
                            #[trigger] after[a],
                        ) == key_of(before[a]) && after[a].id is Some by {}
                        assert forall|a: int, b: int| 0 <= a < b < after.len() implies key_of(
                            #[trigger] after[a],
                        ) < key_of(#[trigger] after[b]) by {
                            assert(key_of(before[a]) < key_of(before[b]));
                        }
                    }
                    let goal = after_update(rows_of(before), id, post@.title, post@.body);
                    assert forall|k: i32| #[trigger]
                        rows_of(after).contains_key(k) <==> goal.contains_key(k) by {
                        if holds(after, k) {
                            let p = place_of(after, k);
                            assert(before[p].id == Some(k));
                        }
                        if holds(before, k) {
                            let p = place_of(before, k);
                            assert(after[p].id == Some(k));
                        }
                    }
                    assert forall|k: i32| #[trigger]
                        rows_of(after).contains_key(k) implies rows_of(after)[k] == goal[k] by {
                        let p = place_of(after, k);
                        lemma_place(after, last, p);
                        lemma_place(before, last, p);
                    }
                    assert(rows_of(after) =~= goal);
                }
                Ok(Some(stored))
            },
        }
    }

    /// Never fails.
    fn delete(&mut self, id: i32) -> (r: Result<bool, StorageError>)
        ensures
            r is Ok,
            final(self).last_id() == old(self).last_id(),
    {
        match self.position(id) {
            None => {
                assert(after_delete(self.rows(), id) =~= self.rows());
                Ok(false)
            },
            Some(i) => {
                let ghost before = self.posts@;
                let _ = self.posts.remove(i);
                proof {
                    let after = self.posts@;
                    let last = self.last_id;
                    lemma_place(before, last, i as int);
                    assert forall|a: int| 0 <= a < after.len() implies #[trigger] after[a] == before[if a
                        < i { a } else { a + 1 }] by {}
                    assert(ascending(after, last)) by {
                        assert forall|a: int, b: int| 0 <= a < b < after.len() implies key_of(
                            #[trigger] after[a],
                        ) < key_of(#[trigger] after[b]) by {
                            let first = if a < i { a } else { a + 1 };
                            let second = if b < i { b } else { b + 1 };
                            assert(key_of(before[first]) < key_of(before[second]));
                        }
                    }
                    let goal = after_delete(rows_of(before), id);
                    assert forall|k: i32| #[trigger]
                        rows_of(after).contains_key(k) <==> goal.contains_key(k) by {
                        if holds(after, k) {
                            let p = place_of(after, k);
                            let origin = if p < i { p } else { p + 1 };
                            assert(before[origin].id == Some(k));
                            lemma_place(before, last, origin);
                        }
                        if holds(before, k) && k != id {
                            let p = place_of(before, k);
                            let moved = if p < i { p } else { p - 1 };
                            assert(after[moved].id == Some(k));
                        }
                    }
                    assert forall|k: i32| #[trigger]
                        rows_of(after).contains_key(k) implies rows_of(after)[k] == goal[k] by {
                        let p = place_of(after, k);
                        let origin = if p < i { p } else { p + 1 };
                        lemma_place(after, last, p);
                        lemma_place(before, last, origin);
                    }
                    assert(rows_of(after) =~= goal);
                }
                Ok(true)
            },
        }
    }
}

} // verus!
