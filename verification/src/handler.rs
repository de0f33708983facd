//! The handlers of the service, one for each endpoint. A handler gets what
//! the request carried and the store, and returns the reply.

use crate::ident::is_uuid_v4_text;
use crate::model::{option_view, Timestamp, Todo};
use crate::response::{
    alive_reply, duplicate_reply, empty_title_reply, fail, missing_reply, single_reply, Body,
    BodyView, GenericResponse, Response, ResponseView, SingleTodoResponse, StatusCode, TodoData,
    TodoListResponse,
};
use crate::schema::QueryOptions;
use crate::semantics::{
    all_assigned, create_reply, find_reply, has_id, has_title, is_assigned, list_reply,
    update_reply,
};
use crate::store::{created_view, DuplicateTitle, Store};
use vstd::prelude::*;
use vstd::string::StringExecFns;

verus! {

/// The reply to a failed request, with the message `message`.
fn failure(code: StatusCode, message: String) -> (r: Response)
    ensures
        r@ == (ResponseView { code, body: BodyView::Message { status: fail(), message: message@ } }),
{
    Response {
        code,
        body: Body::Message(GenericResponse { status: "fail".to_owned(), message }),
    }
}

/// The reply that carries `todo` under the status code `code`.
fn single(code: StatusCode, todo: Todo) -> (r: Response)
    ensures
        r@ == single_reply(code, todo@),
{
    Response {
        code,
        body: Body::Single(
            SingleTodoResponse { status: "success".to_owned(), data: TodoData { todo } },
        ),
    }
}

/// The reply to a request for a record with the id `id` that is not there.
fn missing(id: &String) -> (r: Response)
    ensures
        r@ == missing_reply(id@),
{
    let mut message = String::from_str("Todo with id: '");
    message.append(id.as_str());
    message.append("' not found");
    failure(StatusCode::NotFound, message)
}

/// Says that the service is up.
pub fn health_check_handler() -> (r: Response)
    ensures
        r@ == alive_reply(),
{
    Response {
        code: StatusCode::Success,
        body: Body::Message(
            GenericResponse {
                status: "success".to_owned(),
                message: "Alive and kicking.".to_owned(),
            },
        ),
    }
}

/// Lists one page of the stored records. The page is the first and holds
/// ten records unless `opts` says otherwise; a page that starts behind the
/// last record is empty, and so is page 0, which lies before the first.
pub fn todo_list_handler(opts: QueryOptions, db: &Store) -> (r: Response)
    ensures
        r@ == list_reply(db@, opts),
        r@.body matches BodyView::List { todos, .. } && all_assigned(todos),
{
    let limit = opts.limit.unwrap_or(10);
    let page = opts.page.unwrap_or(1);
    proof {
        db.lemma_len_fits();
    }
    let todos = if page == 0 {
        Vec::new()
    } else {
        match (page - 1).checked_mul(limit) {
            Some(offset) => db.list(offset, limit),
            None => Vec::new(),
        }
    };
    let r = Response {
        code: StatusCode::Success,
        body: Body::List(
            TodoListResponse { status: "success".to_owned(), results: todos.len(), todos },
        ),
    };
    assert(r@.body->List_todos =~= list_reply(db@, opts).body->List_todos);
    r
}

/// The reply to a creation, from what the store returned.
pub fn created_response(outcome: Result<Todo, DuplicateTitle>) -> (r: Response)
    ensures
        r@ == match created_view(outcome) {
            Ok(stored) => single_reply(StatusCode::Created, stored),
            Err(title) => duplicate_reply(title),
        },
{
    match outcome {
        Ok(stored) => single(StatusCode::Created, stored),
        Err(taken) => {
            let mut message = String::from_str("Todo with title: '");
            message.append(taken.title.as_str());
            message.append("' already exists");
            failure(StatusCode::Conflict, message)
        },
    }
}

/// Creates a record from the submitted `body`. A body without a title is
/// turned away, and so is one whose title a stored record has; in both
/// cases the store stays as it is. Otherwise the record enters the store
/// with a fresh id, not completed, created and updated at the time of the
/// call, and the reply carries it.
///
/// Only the title is looked at: a body with a title and an empty content is
/// accepted, although the message of the refusal speaks of both.
pub fn create_todo_handler(body: Todo, db: &mut Store) -> (r: Response)
    ensures
        exists|id: Seq<char>, now: Timestamp|
            (final(db)@, r@) == #[trigger] create_reply(old(db)@, body@, id, now),
        body.title@.len() == 0 ==> r@ == empty_title_reply() && final(db)@ == old(db)@,
        body.title@.len() > 0 && has_title(old(db)@, body.title@) ==> r@ == duplicate_reply(
            body.title@,
        ) && final(db)@ == old(db)@,
        body.title@.len() > 0 && !has_title(old(db)@, body.title@) ==> r@.code
            == StatusCode::Created,
        r@.body matches BodyView::Single { todo, .. } ==> is_assigned(todo) && is_uuid_v4_text(
            todo.id->0,
        ) && todo.created_at->0.is_normal(),
{
    if body.title.as_str().is_empty() {
        let r = failure(StatusCode::BadRequest, "Title and Body cannot be empty".to_owned());
        assert((db@, r@) == create_reply(
            old(db)@,
            body@,
            Seq::<char>::empty(),
            Timestamp { secs: 0, nanos: 0 },
        ));
        return r;
    }
    let ghost submitted = body@;
    let outcome = db.create(body);
    let r = created_response(outcome);
    proof {
        let (id, now) = choose|id: Seq<char>, now: Timestamp|
            (db@, created_view(outcome)) == #[trigger] crate::semantics::create(
                old(db)@,
                submitted,
                id,
                now,
            );
        assert((db@, r@) == create_reply(old(db)@, submitted, id, now));
    }
    r
}

/// The reply to a lookup or an update of the record with the id `id`, from
/// what the store returned.
pub fn found_response(id: &String, found: Option<Todo>) -> (r: Response)
    ensures
        r@ == match option_view(found) {
            Some(stored) => single_reply(StatusCode::Success, stored),
            None => missing_reply(id@),
        },
{
    match found {
        Some(stored) => single(StatusCode::Success, stored),
        None => missing(id),
    }
}

/// Looks up the record with the id `id`.
pub fn find_single_todo_handler(id: String, db: &Store) -> (r: Response)
    ensures
        r@ == find_reply(db@, id@),
        !has_id(db@, id@) ==> r@ == missing_reply(id@),
        has_id(db@, id@) ==> r@.code == StatusCode::Success,
        r@.body matches BodyView::Single { todo, .. } ==> todo.id == Some(id@) && is_assigned(todo),
{
    let found = db.find(&id);
    found_response(&id, found)
}

/// Overwrites the title, the content and the completion flag of the record
/// with the id `id` by those of `body`, and sets its time of last update to
/// the time of the call. Where no record has the id, the store stays as it
/// is.
pub fn update_todo_handler(id: String, body: Todo, db: &mut Store) -> (r: Response)
    ensures
        exists|now: Timestamp|
            (final(db)@, r@) == #[trigger] update_reply(old(db)@, id@, body@, now),
        !has_id(old(db)@, id@) ==> r@ == missing_reply(id@) && final(db)@ == old(db)@,
        has_id(old(db)@, id@) ==> r@.code == StatusCode::Success,
        r@.body matches BodyView::Single { todo, .. } ==> todo.id == Some(id@) && is_assigned(todo)
            && todo.updated_at->0.is_normal(),
{
    let ghost changes = body@;
    let updated = db.update(&id, body);
    let r = found_response(&id, updated);
    proof {
        let now = choose|now: Timestamp|
            (db@, option_view(updated)) == #[trigger] crate::semantics::update(
                old(db)@,
                id@,
                changes,
                now,
            );
        assert((db@, r@) == update_reply(old(db)@, id@, changes, now));
        crate::semantics::lemma_position_of_id(old(db)@, id@);
    }
    r
}

} // verus!
