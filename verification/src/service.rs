use crate::error::{ServiceError, StorageError};
use crate::post::{Post, PostView, ValidationError};
use crate::repository::{
    after_delete, after_save, after_update, is_listing, lookup, PostRepository, Rows,
};
use vstd::prelude::*;

verus! {

/// The post that a caller's three texts describe, before it is stored.
pub open spec fn draft(title: Seq<char>, slug: Seq<char>, body: Seq<char>) -> PostView {
    PostView { id: None, title, slug, body }
}

/// An identifier is usable when it is positive.
pub open spec fn is_valid_id(id: i32) -> bool {
    id > 0
}

/// Checks an identifier before the store is asked.
pub fn check_id(id: i32) -> (r: Result<(), ValidationError>)
    ensures
        r == if is_valid_id(id) {
            Ok::<(), ValidationError>(())
        } else {
            Err(ValidationError::InvalidId)
        },
{
    if id <= 0 {
        Err(ValidationError::InvalidId)
    } else {
        Ok(())
    }
}

/// Hands a store's answer on: a value as it is, a failure as a `ServiceError`
/// around the same `StorageError`.
pub fn storage_result<T>(answer: Result<T, StorageError>) -> (r: Result<T, ServiceError>)
    ensures
        r == match answer {
            Ok(value) => Ok::<T, ServiceError>(value),
            Err(e) => Err(ServiceError::Storage(e)),
        },
{
    match answer {
        Ok(value) => Ok(value),
        Err(e) => Err(ServiceError::Storage(e)),
    }
}

/// The use cases on posts, over any store. Input is checked before the store
/// is asked; what the store answers is handed on unchanged.
pub struct PostService<R: PostRepository> {
    repository: R,
}

impl<R: PostRepository> PostService<R> {
    /// The store that the service works on.
    pub closed spec fn store(&self) -> R {
        self.repository
    }

    /// The rows in the store.
    pub open spec fn rows(&self) -> Rows {
        self.store().rows()
    }

    /// The number of posts that the store is sure to take.
    pub open spec fn headroom(&self) -> nat {
        self.store().headroom()
    }

    /// The service is consistent when its store is.
    pub open spec fn inv(&self) -> bool {
        self.store().inv()
    }

    pub fn new(repository: R) -> (r: Self)
        ensures
            r.store() == repository,
    {
        PostService { repository }
    }

    /// The store, to look at.
    pub fn repository(&self) -> (r: &R)
        ensures
            *r == self.store(),
    {
        &self.repository
    }

    /// Gives the store back.
    pub fn into_repository(self) -> (r: R)
        ensures
            r == self.store(),
    {
        self.repository
    }

    /// All posts, each once. Fails only where the store does.
    pub fn get_all_posts(&self) -> (r: Result<Vec<Post>, ServiceError>)
        requires
            self.inv(),
        ensures
            match r {
                Ok(posts) => is_listing(posts@, self.rows()),
                Err(e) => e is Storage,
            },
            self.headroom() > 0 ==> r is Ok,
    {
        storage_result(self.repository.find_all())
    }

    /// The post under `id`, or `None` where there is none. An identifier that
    /// is not positive is turned away and the store is not asked.
    pub fn get_post_by_id(&self, id: i32) -> (r: Result<Option<Post>, ServiceError>)
        requires
            self.inv(),
        ensures
            match r {
                Ok(Some(post)) => is_valid_id(id) && lookup(self.rows(), id) == Some(post@)
                    && post@.id == Some(id),
                Ok(None) => is_valid_id(id) && lookup(self.rows(), id) is None,
                Err(ServiceError::Validation(e)) => !is_valid_id(id) && e
                    == ValidationError::InvalidId,
                Err(ServiceError::Storage(_)) => is_valid_id(id),
            },
            !is_valid_id(id) ==> r is Err,
            is_valid_id(id) && self.headroom() > 0 ==> r is Ok,
    {
        match check_id(id) {
            Err(e) => Err(ServiceError::Validation(e)),
            Ok(()) => storage_result(self.repository.find_by_id(id)),
        }
    }

    /// Stores a new post made of the three texts and returns it with the
    /// identifier that the store gave it. A blank text is turned away, the
    /// first one in the order title, slug, body being named, and the store is
    /// not touched. Whether the slug is already in use is not looked at.
    pub fn create_post(&mut self, title: String, slug: String, body: String) -> (r: Result<
        Post,
        ServiceError,
    >)
        requires
            old(self).inv(),
        ensures
            final(self).inv(),
            match r {
                Ok(post) => {
                    &&& draft(title@, slug@, body@).is_valid()
                    &&& post@.id matches Some(id)
                    &&& id > 0
                    &&& !old(self).rows().contains_key(id)
                    &&& post@ == draft(title@, slug@, body@).stored_as(id)
                    &&& final(self).rows() == after_save(
                        old(self).rows(),
                        id,
                        draft(title@, slug@, body@),
                    )
                },
                Err(ServiceError::Validation(e)) => {
                    &&& draft(title@, slug@, body@).validation() == Err::<(), ValidationError>(e)
                    &&& final(self).store() == old(self).store()
                },
                Err(ServiceError::Storage(_)) => {
                    &&& draft(title@, slug@, body@).is_valid()
                    &&& final(self).rows() == old(self).rows()
                },
            },
            !draft(title@, slug@, body@).is_valid() ==> r is Err,
            draft(title@, slug@, body@).is_valid() && old(self).headroom() > 0 ==> r is Ok,
            final(self).headroom() + 1 >= old(self).headroom(),
    {
        let post = Post::new(title, slug, body);
        match post.validate() {
            Err(e) => Err(ServiceError::Validation(e)),
            Ok(()) => storage_result(self.repository.save(post)),
        }
    }

    /// Gives the post under `id` another title and body and returns it as it
    /// is then stored; `None`, with the store untouched, where there is no
    /// such post. Identifier and slug stay. An identifier that is not
    /// positive is turned away before the store is asked; a post that would
    /// be invalid with the new texts is turned away before anything is
    /// written.
    pub fn update_post(&mut self, id: i32, title: String, body: String) -> (r: Result<
        Option<Post>,
        ServiceError,
    >)
        requires
            old(self).inv(),
        ensures
            final(self).inv(),
            match r {
                Ok(Some(post)) => {
                    &&& is_valid_id(id)
                    &&& old(self).rows().contains_key(id)
                    &&& post@ == old(self).rows()[id].revised(title@, body@)
                    &&& post@.id == Some(id)
                    &&& post@.is_valid()
                    &&& final(self).rows() == after_update(old(self).rows(), id, title@, body@)
                },
                Ok(None) => {
                    &&& is_valid_id(id)
                    &&& !old(self).rows().contains_key(id)
                    &&& final(self).store() == old(self).store()
                },
                Err(ServiceError::Validation(e)) => {
                    &&& final(self).store() == old(self).store()
                    &&& if is_valid_id(id) {
                        &&& old(self).rows().contains_key(id)
                        &&& old(self).rows()[id].revised(title@, body@).validation() == Err::<
                            (),
                            ValidationError,
                        >(e)
                    } else {
                        e == ValidationError::InvalidId
                    }
                },
                Err(ServiceError::Storage(_)) => {
                    &&& is_valid_id(id)
                    &&& (final(self).rows() == old(self).rows() || final(self).rows()
                        == after_update(old(self).rows(), id, title@, body@))
                },
            },
            !is_valid_id(id) ==> r is Err,
            is_valid_id(id) && old(self).headroom() > 0 ==> !(r matches Err(
                ServiceError::Storage(_),
            )),
            final(self).headroom() >= old(self).headroom(),
    {
        match check_id(id) {
            Err(e) => {
                return Err(ServiceError::Validation(e));
            },
            Ok(()) => {},
        }
        let existing = match self.repository.find_by_id(id) {
            Err(e) => {
                return Err(ServiceError::Storage(e));
            },
            Ok(found) => found,
        };
        match existing {
            None => Ok(None),
            Some(mut post) => {
                post.update(title, body);
                match post.validate() {
                    Err(e) => Err(ServiceError::Validation(e)),
                    Ok(()) => storage_result(self.repository.update(id, post)),
                }
            },
        }
    }

    /// Removes the post under `id` and says whether there was one. An
    /// identifier that is not positive is turned away and the store is not
    /// touched.
    pub fn delete_post(&mut self, id: i32) -> (r: Result<bool, ServiceError>)
        requires
            old(self).inv(),
        ensures
            final(self).inv(),
            match r {
                Ok(removed) => {
                    &&& is_valid_id(id)
                    &&& removed == old(self).rows().contains_key(id)
                    &&& final(self).rows() == after_delete(old(self).rows(), id)
                },
                Err(ServiceError::Validation(e)) => {
                    &&& !is_valid_id(id)
                    &&& e == ValidationError::InvalidId
                    &&& final(self).store() == old(self).store()
                },
                Err(ServiceError::Storage(_)) => {
                    &&& is_valid_id(id)
                    &&& final(self).rows() == old(self).rows()
                },
            },
            !is_valid_id(id) ==> r is Err,
            is_valid_id(id) && old(self).headroom() > 0 ==> r is Ok,
            final(self).headroom() >= old(self).headroom(),
    {
        match check_id(id) {
            Err(e) => Err(ServiceError::Validation(e)),
            Ok(()) => storage_result(self.repository.delete(id)),
        }
    }
}

} // verus!
