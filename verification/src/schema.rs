//! What a client sends besides a record.

use vstd::prelude::*;

verus! {

/// The query of a listing: which page, and how many records a page holds.
/// Pages are numbered from 1.
#[derive(Clone, Copy, Debug, PartialEq, Eq)]
pub struct QueryOptions {
    pub page: Option<usize>,
    pub limit: Option<usize>,
}

/// The fields of a record that a client may send for an update.
#[derive(Debug, PartialEq, Eq)]
pub struct UpdateTodoSchema {
    pub title: Option<String>,
    pub content: Option<String>,
    pub completed: Option<bool>,
}

/// What an `UpdateTodoSchema` holds, with its strings as sequences of
/// characters.
pub struct UpdateTodoSchemaView {
    pub title: Option<Seq<char>>,
    pub content: Option<Seq<char>>,
    pub completed: Option<bool>,
}

/// The characters of the string in `o`, if there is one.
pub open spec fn text_view(o: Option<String>) -> Option<Seq<char>> {
    match o {
        Some(s) => Some(s@),
        None => None,
    }
}

impl View for UpdateTodoSchema {
    type V = UpdateTodoSchemaView;

    open spec fn view(&self) -> UpdateTodoSchemaView {
        UpdateTodoSchemaView {
            title: text_view(self.title),
            content: text_view(self.content),
            completed: self.completed,
        }
    }
}

impl Clone for UpdateTodoSchema {
    fn clone(&self) -> (copy: Self)
        ensures
            copy@ == self@,
    {
        UpdateTodoSchema {
            title: match &self.title {
                Some(s) => Some(s.clone()),
                None => None,
            },
            content: match &self.content {
                Some(s) => Some(s.clone()),
                None => None,
            },
            completed: self.completed,
        }
    }
}

} // verus!
