//! The todo record and the points in time that it carries.

use crate::store::Store;
use vstd::prelude::*;

verus! {

/// A point in time: whole seconds since 1970-01-01T00:00:00Z and the
/// nanoseconds that have passed since that second began.
#[derive(Clone, Copy, Debug, PartialEq, Eq, Structural)]
pub struct Timestamp {
    pub secs: i64,
    pub nanos: u32,
}

impl Timestamp {
    /// The nanoseconds stay below one second, as they do wherever the second
    /// is not a leap second.
    pub open spec fn is_normal(self) -> bool {
        self.nanos < 1_000_000_000
    }

    /// `self` is not earlier than `other`.
    pub open spec fn at_or_after(self, other: Timestamp) -> bool {
        self.secs > other.secs || (self.secs == other.secs && self.nanos >= other.nanos)
    }
}

/// One task. A record that a client submits carries a title and a content;
/// the other fields are assigned when the record enters the store.
#[derive(Debug, PartialEq, Eq)]
pub struct Todo {
    pub id: Option<String>,
    pub title: String,
    pub content: String,
    pub completed: Option<bool>,
    pub created_at: Option<Timestamp>,
    pub updated_at: Option<Timestamp>,
}

/// What a `Todo` holds, with its strings as sequences of characters.
pub struct TodoView {
    pub id: Option<Seq<char>>,
    pub title: Seq<char>,
    pub content: Seq<char>,
    pub completed: Option<bool>,
    pub created_at: Option<Timestamp>,
    pub updated_at: Option<Timestamp>,
}

impl View for Todo {
    type V = TodoView;

    open spec fn view(&self) -> TodoView {
        TodoView {
            id: match self.id {
                Some(s) => Some(s@),
                None => None,
            },
            title: self.title@,
            content: self.content@,
            completed: self.completed,
            created_at: self.created_at,
            updated_at: self.updated_at,
        }
    }
}

impl Clone for Todo {
    fn clone(&self) -> (copy: Self)
        ensures
            copy@ == self@,
    {
        Todo {
            id: match &self.id {
                Some(s) => Some(s.clone()),
                None => None,
            },
            title: self.title.clone(),
            content: self.content.clone(),
            completed: self.completed,
            created_at: self.created_at,
            updated_at: self.updated_at,
        }
    }
}

/// The store that a service starts with: it holds no record.
pub fn init_todo_db() -> (db: Store)
    ensures
        db@ == Seq::<TodoView>::empty(),
{
    Store::new()
}

/// The views of the records of `v`, in order.
pub open spec fn views(v: Seq<Todo>) -> Seq<TodoView> {
    Seq::new(v.len(), |i: int| v[i]@)
}

/// The view of the record in `o`, if there is one.
pub open spec fn option_view(o: Option<Todo>) -> Option<TodoView> {
    match o {
        Some(t) => Some(t@),
        None => None,
    }
}

} // verus!
