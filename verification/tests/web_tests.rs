use blog_rust::error::{ServiceError, StorageError};
use blog_rust::memory::InMemoryPostRepository;
use blog_rust::post::{Post, ValidationError};
use blog_rust::service::PostService;
use blog_rust::web::{
    created_reply, deleted_reply, failure_reply, into_responses, list_reply, not_found_reply,
    post_reply, CreatePostRequest, Payload, PostHandler, PostResponse, Reply, Status,
    UpdatePostRequest,
};

fn stored(id: i32, title: &str, slug: &str, body: &str) -> Post {
    Post::with_id(id, title.to_string(), slug.to_string(), body.to_string())
}

fn shown(id: i32, title: &str, slug: &str, body: &str) -> PostResponse {
    PostResponse { id, title: title.to_string(), slug: slug.to_string(), body: body.to_string() }
}

fn error(status: Status, text: &str) -> Reply {
    Reply { status, payload: Payload::Error(text.to_string()) }
}

fn handler() -> PostHandler<InMemoryPostRepository> {
    PostHandler::new(PostService::new(InMemoryPostRepository::new()))
}

fn create(title: &str, slug: &str, body: &str) -> CreatePostRequest {
    CreatePostRequest { title: title.to_string(), slug: slug.to_string(), body: body.to_string() }
}

fn update(title: &str, body: &str) -> UpdatePostRequest {
    UpdatePostRequest { title: title.to_string(), body: body.to_string() }
}

#[test]
fn response_shows_all_four_fields() {
    assert_eq!(PostResponse::from(stored(4, "a", "b", "c")), shown(4, "a", "b", "c"));
}

#[test]
fn response_of_an_unstored_post_has_id_zero() {
    let p = Post::new("a".to_string(), "b".to_string(), "c".to_string());
    assert_eq!(PostResponse::from(p), shown(0, "a", "b", "c"));
}

#[test]
fn request_becomes_a_post_without_id() {
    assert_eq!(
        Post::from(create("a", "b", "c")),
        Post::new("a".to_string(), "b".to_string(), "c".to_string())
    );
}

#[test]
fn failures_get_the_status_of_their_kind() {
    assert_eq!(
        failure_reply(ServiceError::Validation(ValidationError::InvalidId)),
        error(Status::BadRequest, "Invalid post ID")
    );
    assert_eq!(
        failure_reply(ServiceError::Validation(ValidationError::EmptyTitle)),
        error(Status::BadRequest, "Title cannot be empty")
    );
    assert_eq!(
        failure_reply(ServiceError::Storage(StorageError::QueryFailed("io".to_string()))),
        error(Status::InternalServerError, "Database error: io")
    );
    assert_eq!(not_found_reply(), error(Status::NotFound, "Post not found"));
}

#[test]
fn replies_to_results() {
    assert_eq!(
        list_reply(Ok(vec![stored(2, "d", "e", "f"), stored(1, "a", "b", "c")])),
        Reply {
            status: Status::Success,
            payload: Payload::Posts(vec![shown(2, "d", "e", "f"), shown(1, "a", "b", "c")])
        }
    );
    assert_eq!(
        into_responses(vec![stored(2, "d", "e", "f"), stored(1, "a", "b", "c")]),
        vec![shown(2, "d", "e", "f"), shown(1, "a", "b", "c")]
    );
    assert_eq!(
        post_reply(Ok(Some(stored(1, "a", "b", "c")))),
        Reply { status: Status::Success, payload: Payload::Post(shown(1, "a", "b", "c")) }
    );
    assert_eq!(post_reply(Ok(None)), error(Status::NotFound, "Post not found"));
    assert_eq!(
        created_reply(Ok(stored(1, "a", "b", "c"))),
        Reply { status: Status::Created, payload: Payload::Post(shown(1, "a", "b", "c")) }
    );
    assert_eq!(
        deleted_reply(Ok(true)),
        Reply {
            status: Status::Success,
            payload: Payload::Message("Post deleted successfully".to_string())
        }
    );
    assert_eq!(deleted_reply(Ok(false)), error(Status::NotFound, "Post not found"));
    assert_eq!(
        deleted_reply(Err(ServiceError::Storage(StorageError::ConnectionAcquisitionFailed))),
        error(Status::InternalServerError, "Database error: no connection available")
    );
}

#[test]
fn handler_walks_through_a_post_s_life() {
    let mut h = handler();
    assert_eq!(
        h.get_all_posts(),
        Reply { status: Status::Success, payload: Payload::Posts(vec![]) }
    );
    assert_eq!(
        h.create_post(create("Hello", "hello", "World")),
        Reply { status: Status::Created, payload: Payload::Post(shown(1, "Hello", "hello", "World")) }
    );
    assert_eq!(
        h.get_post_by_id(1),
        Reply { status: Status::Success, payload: Payload::Post(shown(1, "Hello", "hello", "World")) }
    );
    assert_eq!(
        h.update_post(1, update("Hello2", "World2")),
        Reply {
            status: Status::Success,
            payload: Payload::Post(shown(1, "Hello2", "hello", "World2"))
        }
    );
    assert_eq!(
        h.get_all_posts(),
        Reply {
            status: Status::Success,
            payload: Payload::Posts(vec![shown(1, "Hello2", "hello", "World2")])
        }
    );
    assert_eq!(
        h.delete_post(1),
        Reply {
            status: Status::Success,
            payload: Payload::Message("Post deleted successfully".to_string())
        }
    );
    assert_eq!(h.delete_post(1), error(Status::NotFound, "Post not found"));
    assert_eq!(h.get_post_by_id(1), error(Status::NotFound, "Post not found"));
    assert_eq!(h.update_post(1, update("a", "b")), error(Status::NotFound, "Post not found"));
}

#[test]
fn handler_turns_bad_input_away() {
    let mut h = handler();
    assert_eq!(h.get_post_by_id(0), error(Status::BadRequest, "Invalid post ID"));
    assert_eq!(h.update_post(-3, update("a", "b")), error(Status::BadRequest, "Invalid post ID"));
    assert_eq!(h.delete_post(0), error(Status::BadRequest, "Invalid post ID"));
    assert_eq!(
        h.create_post(create("Hello", "hello", " ")),
        error(Status::BadRequest, "Body cannot be empty")
    );
    h.create_post(create("Hello", "hello", "World"));
    assert_eq!(
        h.update_post(1, update("", "b")),
        error(Status::BadRequest, "Title cannot be empty")
    );
}
