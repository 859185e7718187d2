use crate::error::ServiceError;
use crate::post::{Post, ValidationError};
use crate::repository::{after_delete, after_save, after_update, is_listing, PostRepository, Rows};
use crate::service::{is_valid_id, PostService};
use vstd::prelude::*;

verus! {

/// What a caller sends to have a post made.
#[derive(Debug, PartialEq, Eq)]
pub struct CreatePostRequest {
    pub title: String,
    pub body: String,
    pub slug: String,
}

/// What a caller sends to have a post changed.
#[derive(Debug, PartialEq, Eq)]
pub struct UpdatePostRequest {
    pub title: String,
    pub body: String,
}

/// A post as it is shown to a caller: the identifier is always there.
#[derive(Debug, PartialEq, Eq)]
pub struct PostResponse {
    pub id: i32,
    pub title: String,
    pub slug: String,
    pub body: String,
}

/// The answer that shows `post`; a post without identifier is shown under
/// zero.
pub open spec fn response_of(post: Post) -> PostResponse {
    PostResponse {
        id: match post.id {
            Some(id) => id,
            None => 0,
        },
        title: post.title,
        slug: post.slug,
        body: post.body,
    }
}

impl From<Post> for PostResponse {
    fn from(post: Post) -> (r: PostResponse)
        ensures
            r == response_of(post),
    {
        PostResponse {
            id: match post.id {
                Some(id) => id,
                None => 0,
            },
            title: post.title,
            slug: post.slug,
            body: post.body,
        }
    }
}

impl vstd::std_specs::convert::FromSpecImpl<Post> for PostResponse {
    open spec fn obeys_from_spec() -> bool {
        true
    }

    open spec fn from_spec(post: Post) -> PostResponse {
        response_of(post)
    }
}

/// The post that a request asks for, not stored yet.
pub open spec fn requested(request: CreatePostRequest) -> Post {
    Post { id: None, title: request.title, slug: request.slug, body: request.body }
}

impl From<CreatePostRequest> for Post {
    fn from(request: CreatePostRequest) -> (r: Post)
        ensures
            r == requested(request),
    {
        Post { id: None, title: request.title, slug: request.slug, body: request.body }
    }
}

impl vstd::std_specs::convert::FromSpecImpl<CreatePostRequest> for Post {
    open spec fn obeys_from_spec() -> bool {
        true
    }

    open spec fn from_spec(request: CreatePostRequest) -> Post {
        requested(request)
    }
}

/// The kinds of answer, as the transport tells them apart.
#[derive(Clone, Copy, Debug, PartialEq, Eq, Structural)]
pub enum Status {
    Success,
    Created,
    BadRequest,
    NotFound,
    InternalServerError,
}

/// What an answer carries.
#[derive(Debug, PartialEq, Eq)]
pub enum Payload {
    Post(PostResponse),
    Posts(Vec<PostResponse>),
    /// A sentence that says what was done.
    Message(String),
    /// A sentence that says what went wrong.
    Error(String),
}

/// An answer to a caller.
#[derive(Debug, PartialEq, Eq)]
pub struct Reply {
    pub status: Status,
    pub payload: Payload,
}

/// The status that belongs to a failure: bad input is the caller's fault,
/// a failing store is not.
pub open spec fn status_of(error: ServiceError) -> Status {
    match error {
        ServiceError::Validation(_) => Status::BadRequest,
        ServiceError::Storage(_) => Status::InternalServerError,
    }
}

/// `reply` reports `error`: its status, and its sentence unchanged.
pub open spec fn reports(reply: Reply, error: ServiceError) -> bool {
    &&& reply.status == status_of(error)
    &&& reply.payload matches Payload::Error(text)
    &&& text@ == error.message_text()
}

/// `reply` says that there is no such post.
pub open spec fn says_not_found(reply: Reply) -> bool {
    &&& reply.status == Status::NotFound
    &&& reply.payload matches Payload::Error(text)
    &&& text@ == "Post not found"@
}

/// `reply` shows `post` under `status`.
pub open spec fn shows(reply: Reply, status: Status, post: Post) -> bool {
    reply == (Reply { status, payload: Payload::Post(response_of(post)) })
}

/// The answers that show `posts`, in their order.
pub open spec fn responses_of(posts: Seq<Post>) -> Seq<PostResponse> {
    posts.map_values(|post: Post| response_of(post))
}

/// The answer that reports a failure.
pub fn failure_reply(error: ServiceError) -> (r: Reply)
    ensures
        reports(r, error),
{
    let text = error.message();
    match error {
        ServiceError::Validation(_) => Reply {
            status: Status::BadRequest,
            payload: Payload::Error(text),
        },
        ServiceError::Storage(_) => Reply {
            status: Status::InternalServerError,
            payload: Payload::Error(text),
        },
    }
}

/// The answer for a post that is not there.
pub fn not_found_reply() -> (r: Reply)
    ensures
        says_not_found(r),
{
    Reply { status: Status::NotFound, payload: Payload::Error("Post not found".to_string()) }
}

/// Turns posts into what is shown of them, one for one and in order.
pub fn into_responses(posts: Vec<Post>) -> (r: Vec<PostResponse>)
    ensures
        r@ == responses_of(posts@),
{
    let ghost all = posts@;
    let mut posts = posts;
    let mut stack: Vec<PostResponse> = Vec::new();
    while posts.len() > 0
        invariant
            stack@.len() + posts@.len() == all.len(),
            posts@ == all.subrange(0, posts@.len() as int),
            forall|i: int|
                0 <= i < stack@.len() ==> #[trigger] stack@[i] == response_of(
                    all[all.len() - 1 - i],
                ),
        decreases posts@.len(),
    {
        let ghost before = posts@;
        let post = posts.pop().unwrap();
        assert(posts@ =~= all.subrange(0, posts@.len() as int));
        assert(post == before[before.len() - 1]);
        stack.push(PostResponse::from(post));
    }
    let mut shown: Vec<PostResponse> = Vec::new();
    let ghost turned = stack@;
    while stack.len() > 0
        invariant
            turned.len() == all.len(),
            shown@.len() + stack@.len() == all.len(),
            stack@ == turned.subrange(0, stack@.len() as int),
            forall|i: int|
                0 <= i < turned.len() ==> #[trigger] turned[i] == response_of(
                    all[all.len() - 1 - i],
                ),
            forall|i: int| 0 <= i < shown@.len() ==> #[trigger] shown@[i] == response_of(all[i]),
        decreases stack@.len(),
    {
        let ghost before = stack@;
        let response = stack.pop().unwrap();
        assert(stack@ =~= turned.subrange(0, stack@.len() as int));
        assert(response == before[before.len() - 1]);
        assert(response == turned[before.len() - 1]);
        shown.push(response);
    }
    assert(shown@ =~= responses_of(all));
    shown
}

/// The answer to a listing: the posts, or the failure.
pub fn list_reply(result: Result<Vec<Post>, ServiceError>) -> (r: Reply)
    ensures
        match result {
            Ok(posts) => {
                &&& r.status == Status::Success
                &&& r.payload matches Payload::Posts(shown)
                &&& shown@ == responses_of(posts@)
            },
            Err(error) => reports(r, error),
        },
{
    match result {
        Ok(posts) => Reply {
            status: Status::Success,
            payload: Payload::Posts(into_responses(posts)),
        },
        Err(error) => failure_reply(error),
    }
}

/// The answer to a lookup or an update: the post under `found`, "not found"
/// where there is none, or the failure.
pub fn post_reply(result: Result<Option<Post>, ServiceError>) -> (r: Reply)
    ensures
        match result {
            Ok(Some(post)) => shows(r, Status::Success, post),
            Ok(None) => says_not_found(r),
            Err(error) => reports(r, error),
        },
{
    match result {
        Ok(Some(post)) => Reply {
            status: Status::Success,
            payload: Payload::Post(PostResponse::from(post)),
        },
        Ok(None) => not_found_reply(),
        Err(error) => failure_reply(error),
    }
}

/// The answer to a request to make a post: the post under `Created`, or the
/// failure.
pub fn created_reply(result: Result<Post, ServiceError>) -> (r: Reply)
    ensures
        match result {
            Ok(post) => shows(r, Status::Created, post),
            Err(error) => reports(r, error),
        },
{
    match result {
        Ok(post) => Reply {
            status: Status::Created,
            payload: Payload::Post(PostResponse::from(post)),
        },
        Err(error) => failure_reply(error),
    }
}

/// `reply` says that the post was deleted.
pub open spec fn says_deleted(reply: Reply) -> bool {
    &&& reply.status == Status::Success
    &&& reply.payload matches Payload::Message(text)
    &&& text@ == "Post deleted successfully"@
}

/// The answer to a delete: that it was done, "not found" where nothing was
/// there to delete, or the failure.
pub fn deleted_reply(result: Result<bool, ServiceError>) -> (r: Reply)
    ensures
        match result {
            Ok(true) => says_deleted(r),
            Ok(false) => says_not_found(r),
            Err(error) => reports(r, error),
        },
{
    match result {
        Ok(true) => Reply {
            status: Status::Success,
            payload: Payload::Message("Post deleted successfully".to_string()),
        },
        Ok(false) => not_found_reply(),
        Err(error) => failure_reply(error),
    }
}

/// Turns requests into calls of the use cases and their results into
/// answers.
pub struct PostHandler<R: PostRepository> {
    post_service: PostService<R>,
}

impl<R: PostRepository> PostHandler<R> {
    /// The use cases that the handler calls.
    pub closed spec fn service(&self) -> PostService<R> {
        self.post_service
    }

    /// The rows in the store.
    pub open spec fn rows(&self) -> Rows {
        self.service().rows()
    }

    pub open spec fn inv(&self) -> bool {
        self.service().inv()
    }

    pub fn new(post_service: PostService<R>) -> (r: Self)
        ensures
            r.service() == post_service,
    {
        PostHandler { post_service }
    }

    /// Lists the posts. `Success` with all posts, or the store's failure.
    pub fn get_all_posts(&self) -> (r: Reply)
        requires
            self.inv(),
        ensures
            r.status == Status::Success || r.status == Status::InternalServerError,
            r.status == Status::Success ==> {
                &&& r.payload matches Payload::Posts(shown)
                &&& exists|posts: Seq<Post>|
                    is_listing(posts, self.rows()) && shown@ == #[trigger] responses_of(posts)
            },
            r.status != Status::Success ==> r.payload is Error,
            self.service().headroom() > 0 ==> r.status == Status::Success,
    {
        list_reply(self.post_service.get_all_posts())
    }

    /// Shows the post under `id`: `Success` with the post, `NotFound` where there
    /// is none, `BadRequest` for an identifier that is not positive.
    pub fn get_post_by_id(&self, id: i32) -> (r: Reply)
        requires
            self.inv(),
        ensures
            match r.status {
                Status::Success => {
                    &&& is_valid_id(id)
                    &&& self.rows().contains_key(id)
                    &&& r.payload matches Payload::Post(shown)
                    &&& shown.id == id
                    &&& shown.title@ == self.rows()[id].title
                    &&& shown.slug@ == self.rows()[id].slug
                    &&& shown.body@ == self.rows()[id].body
                },
                Status::NotFound => is_valid_id(id) && !self.rows().contains_key(id)
                    && says_not_found(r),
                Status::BadRequest => !is_valid_id(id) && reports(
                    r,
                    ServiceError::Validation(ValidationError::InvalidId),
                ),
                Status::InternalServerError => is_valid_id(id) && r.payload is Error,
                Status::Created => false,
            },
            !is_valid_id(id) ==> r.status == Status::BadRequest,
            is_valid_id(id) && self.service().headroom() > 0 ==> r.status
                != Status::InternalServerError,
    {
        post_reply(self.post_service.get_post_by_id(id))
    }

    /// Makes a post: `Created` with the post as stored, `BadRequest` where
    /// one of the texts is blank.
    pub fn create_post(&mut self, request: CreatePostRequest) -> (r: Reply)
        requires
            old(self).inv(),
        ensures
            final(self).inv(),
            match r.status {
                Status::Created => {
                    &&& requested(request)@.is_valid()
                    &&& r.payload matches Payload::Post(shown)
                    &&& shown.id > 0
                    &&& !old(self).rows().contains_key(shown.id)
                    &&& shown.title@ == request.title@
                    &&& shown.slug@ == request.slug@
                    &&& shown.body@ == request.body@
                    &&& final(self).rows() == after_save(
                        old(self).rows(),
                        shown.id,
                        requested(request)@,
                    )
                },
                Status::BadRequest => {
                    &&& requested(request)@.validation() matches Err(e)
                    &&& reports(r, ServiceError::Validation(e))
                    &&& final(self).rows() == old(self).rows()
                },
                Status::InternalServerError => requested(request)@.is_valid() && r.payload is Error
                    && final(self).rows() == old(self).rows(),
                _ => false,
            },
            !requested(request)@.is_valid() ==> r.status == Status::BadRequest,
            requested(request)@.is_valid() && old(self).service().headroom() > 0 ==> r.status
                == Status::Created,
    {
        created_reply(self.post_service.create_post(request.title, request.slug, request.body))
    }

    /// Changes a post: `Success` with the post as it is then stored, `NotFound`
    /// where there is none, `BadRequest` for an identifier that is not
    /// positive or a blank text.
    pub fn update_post(&mut self, id: i32, request: UpdatePostRequest) -> (r: Reply)
        requires
            old(self).inv(),
        ensures
            final(self).inv(),
            match r.status {
                Status::Success => {
                    &&& is_valid_id(id)
                    &&& old(self).rows().contains_key(id)
                    &&& r.payload matches Payload::Post(shown)
                    &&& shown.id == id
                    &&& shown.title@ == request.title@
                    &&& shown.body@ == request.body@
                    &&& shown.slug@ == old(self).rows()[id].slug
                    &&& final(self).rows() == after_update(
                        old(self).rows(),
                        id,
                        request.title@,
                        request.body@,
                    )
                },
                Status::NotFound => is_valid_id(id) && !old(self).rows().contains_key(id)
                    && final(self).rows() == old(self).rows() && says_not_found(r),
                Status::BadRequest => {
                    &&& final(self).rows() == old(self).rows()
                    &&& if is_valid_id(id) {
                        &&& old(self).rows().contains_key(id)
                        &&& old(self).rows()[id].revised(
                            request.title@,
                            request.body@,
                        ).validation() matches Err(e)
                        &&& reports(r, ServiceError::Validation(e))
                    } else {
                        reports(r, ServiceError::Validation(ValidationError::InvalidId))
                    }
                },
                Status::InternalServerError => is_valid_id(id) && r.payload is Error,
                Status::Created => false,
            },
            !is_valid_id(id) ==> r.status == Status::BadRequest,
            is_valid_id(id) && old(self).service().headroom() > 0 ==> r.status
                != Status::InternalServerError,
    {
        post_reply(self.post_service.update_post(id, request.title, request.body))
    }

    /// Deletes a post: `Success` where there was one, `NotFound` where there was
    /// none, `BadRequest` for an identifier that is not positive.
    pub fn delete_post(&mut self, id: i32) -> (r: Reply)
        requires
            old(self).inv(),
        ensures
            final(self).inv(),
            match r.status {
                Status::Success => {
                    &&& is_valid_id(id)
                    &&& old(self).rows().contains_key(id)
                    &&& final(self).rows() == after_delete(old(self).rows(), id)
                    &&& says_deleted(r)
                },
                Status::NotFound => {
                    &&& is_valid_id(id)
                    &&& !old(self).rows().contains_key(id)
                    &&& final(self).rows() == old(self).rows()
                    &&& says_not_found(r)
                },
                Status::BadRequest => !is_valid_id(id) && final(self).rows() == old(self).rows()
                    && reports(r, ServiceError::Validation(ValidationError::InvalidId)),
                Status::InternalServerError => {
                    &&& is_valid_id(id)
                    &&& r.payload is Error
                    &&& final(self).rows() == old(self).rows()
                },
                Status::Created => false,
            },
            !is_valid_id(id) ==> r.status == Status::BadRequest,
            is_valid_id(id) && old(self).service().headroom() > 0 ==> r.status
                != Status::InternalServerError,
    {
        deleted_reply(self.post_service.delete_post(id))
    }
}

} // verus!
