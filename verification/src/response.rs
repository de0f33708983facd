//! The replies of the service: a status code and one of three envelopes.

use crate::model::{views, Todo, TodoView};
use vstd::prelude::*;

verus! {

/// The status codes that the service replies with.
#[derive(Clone, Copy, Debug, PartialEq, Eq, Structural)]
pub enum StatusCode {
    Success,
    Created,
    BadRequest,
    NotFound,
    Conflict,
}

impl StatusCode {
    /// The number of the status code.
    pub open spec fn number(self) -> u16 {
        match self {
            StatusCode::Success => 200,
            StatusCode::Created => 201,
            StatusCode::BadRequest => 400,
            StatusCode::NotFound => 404,
            StatusCode::Conflict => 409,
        }
    }

    /// The number of the status code.
    pub fn as_u16(&self) -> (n: u16)
        ensures
            n == self.number(),
    {
        match self {
            StatusCode::Success => 200,
            StatusCode::Created => 201,
            StatusCode::BadRequest => 400,
            StatusCode::NotFound => 404,
            StatusCode::Conflict => 409,
        }
    }
}

/// An envelope that carries a message and no record.
#[derive(Debug, PartialEq, Eq)]
pub struct GenericResponse {
    pub status: String,
    pub message: String,
}

/// The payload of an envelope that carries one record.
#[derive(Debug, PartialEq, Eq)]
pub struct TodoData {
    pub todo: Todo,
}

/// An envelope that carries one record.
#[derive(Debug, PartialEq, Eq)]
pub struct SingleTodoResponse {
    pub status: String,
    pub data: TodoData,
}

/// An envelope that carries a page of records and their number.
#[derive(Debug, PartialEq, Eq)]
pub struct TodoListResponse {
    pub status: String,
    pub results: usize,
    pub todos: Vec<Todo>,
}

/// The envelope of a reply.
#[derive(Debug, PartialEq, Eq)]
pub enum Body {
    Message(GenericResponse),
    Single(SingleTodoResponse),
    List(TodoListResponse),
}

/// A reply: the status code and the envelope to send with it.
#[derive(Debug, PartialEq, Eq)]
pub struct Response {
    pub code: StatusCode,
    pub body: Body,
}

/// What an envelope holds.
pub enum BodyView {
    Message { status: Seq<char>, message: Seq<char> },
    Single { status: Seq<char>, todo: TodoView },
    List { status: Seq<char>, results: nat, todos: Seq<TodoView> },
}

/// What a reply holds.
pub struct ResponseView {
    pub code: StatusCode,
    pub body: BodyView,
}

impl View for Body {
    type V = BodyView;

    open spec fn view(&self) -> BodyView {
        match self {
            Body::Message(m) => BodyView::Message { status: m.status@, message: m.message@ },
            Body::Single(s) => BodyView::Single { status: s.status@, todo: s.data.todo@ },
            Body::List(l) => BodyView::List {
                status: l.status@,
                results: l.results as nat,
                todos: views(l.todos@),
            },
        }
    }
}

impl View for Response {
    type V = ResponseView;

    open spec fn view(&self) -> ResponseView {
        ResponseView { code: self.code, body: self.body@ }
    }
}

/// The status text of an envelope that reports success.
pub open spec fn success() -> Seq<char> {
    "success"@
}

/// The status text of an envelope that reports a failure.
pub open spec fn fail() -> Seq<char> {
    "fail"@
}

/// The message of a failed creation whose title was taken.
pub open spec fn duplicate_message(title: Seq<char>) -> Seq<char> {
    "Todo with title: '"@ + title + "' already exists"@
}

/// The message of a lookup that found no record with the id.
pub open spec fn missing_message(id: Seq<char>) -> Seq<char> {
    "Todo with id: '"@ + id + "' not found"@
}

/// The reply to a health check.
pub open spec fn alive_reply() -> ResponseView {
    ResponseView {
        code: StatusCode::Success,
        body: BodyView::Message { status: success(), message: "Alive and kicking."@ },
    }
}

/// The reply to a creation without a title.
pub open spec fn empty_title_reply() -> ResponseView {
    ResponseView {
        code: StatusCode::BadRequest,
        body: BodyView::Message { status: fail(), message: "Title and Body cannot be empty"@ },
    }
}

/// The reply to a creation whose title was taken.
pub open spec fn duplicate_reply(title: Seq<char>) -> ResponseView {
    ResponseView {
        code: StatusCode::Conflict,
        body: BodyView::Message { status: fail(), message: duplicate_message(title) },
    }
}

/// The reply to a lookup that found no record with the id.
pub open spec fn missing_reply(id: Seq<char>) -> ResponseView {
    ResponseView {
        code: StatusCode::NotFound,
        body: BodyView::Message { status: fail(), message: missing_message(id) },
    }
}

/// The reply that carries the record `todo` under the status code `code`.
pub open spec fn single_reply(code: StatusCode, todo: TodoView) -> ResponseView {
    ResponseView { code, body: BodyView::Single { status: success(), todo } }
}

/// The reply that carries the page `todos`.
pub open spec fn page_reply(todos: Seq<TodoView>) -> ResponseView {
    ResponseView {
        code: StatusCode::Success,
        body: BodyView::List { status: success(), results: todos.len(), todos },
    }
}

} // verus!
