//! What the operations on the collection of todos mean, as functions on
//! sequences of record views. The executable operations are specified
//! against these.

use crate::model::{Timestamp, TodoView};
use crate::response::{
    duplicate_reply, empty_title_reply, missing_reply, page_reply, single_reply, ResponseView,
    StatusCode,
};
use crate::schema::QueryOptions;
use vstd::prelude::*;

verus! {

/// Some record of `s` has the title `title`.
pub open spec fn has_title(s: Seq<TodoView>, title: Seq<char>) -> bool {
    exists|i: int| 0 <= i < s.len() && (#[trigger] s[i]).title == title
}

/// Some record of `s` has the id `id`.
pub open spec fn has_id(s: Seq<TodoView>, id: Seq<char>) -> bool {
    exists|i: int| 0 <= i < s.len() && (#[trigger] s[i]).id == Some(id)
}

/// The record at `i` is the first of `s` with the id `id`.
pub open spec fn is_first_with_id(s: Seq<TodoView>, id: Seq<char>, i: int) -> bool {
    &&& 0 <= i < s.len()
    &&& s[i].id == Some(id)
    &&& forall|j: int| 0 <= j < i ==> (#[trigger] s[j]).id != Some(id)
}

/// Where the first record with the id `id` stands in `s`, if there is one.
pub open spec fn position_of_id(s: Seq<TodoView>, id: Seq<char>) -> Option<int> {
    if exists|i: int| is_first_with_id(s, id, i) {
        Some(choose|i: int| is_first_with_id(s, id, i))
    } else {
        None
    }
}

/// `x` moved into the range from 0 to `len`.
pub open spec fn clip(x: int, len: int) -> int {
    if x < 0 {
        0
    } else if x > len {
        len
    } else {
        x
    }
}

/// The records of `s` at the positions from `offset` up to, and without,
/// `offset + limit`, in the order of `s`. Positions outside `s` hold
/// nothing.
pub open spec fn window(s: Seq<TodoView>, offset: int, limit: int) -> Seq<TodoView>
    recommends
        limit >= 0,
{
    s.subrange(clip(offset, s.len() as int), clip(offset + limit, s.len() as int))
}

/// Where page `page` starts when pages hold `limit` records and the first
/// page has the number 1.
pub open spec fn page_offset(page: int, limit: int) -> int {
    (page - 1) * limit
}

/// The record that enters the collection for the submitted `candidate`:
/// its title and content, not completed, with the id `id`, created and last
/// updated at `now`. Whatever else the candidate carried is dropped.
pub open spec fn new_todo(candidate: TodoView, id: Seq<char>, now: Timestamp) -> TodoView {
    TodoView {
        id: Some(id),
        title: candidate.title,
        content: candidate.content,
        completed: Some(false),
        created_at: Some(now),
        updated_at: Some(now),
    }
}

/// Creating a record from `candidate` in `s`: the collection afterwards, and
/// either the stored record or, where a record of `s` already has the
/// candidate's title, that title.
pub open spec fn create(s: Seq<TodoView>, candidate: TodoView, id: Seq<char>, now: Timestamp) -> (
    Seq<TodoView>,
    Result<TodoView, Seq<char>>,
) {
    if has_title(s, candidate.title) {
        (s, Err(candidate.title))
    } else {
        (s.push(new_todo(candidate, id, now)), Ok(new_todo(candidate, id, now)))
    }
}

/// The first record of `s` with the id `id`.
pub open spec fn find(s: Seq<TodoView>, id: Seq<char>) -> Option<TodoView> {
    match position_of_id(s, id) {
        Some(i) => Some(s[i]),
        None => None,
    }
}

/// `current` with its title, content and completion flag replaced by those
/// of `changes` and its time of last update set to `now`. The id and the
/// time of creation stay.
pub open spec fn changed(current: TodoView, changes: TodoView, now: Timestamp) -> TodoView {
    TodoView {
        id: current.id,
        title: changes.title,
        content: changes.content,
        completed: changes.completed,
        created_at: current.created_at,
        updated_at: Some(now),
    }
}

/// Updating the first record with the id `id` in `s`: the collection
/// afterwards and the record as it then stands, or `s` as it was and nothing
/// where no record has that id.
pub open spec fn update(s: Seq<TodoView>, id: Seq<char>, changes: TodoView, now: Timestamp) -> (
    Seq<TodoView>,
    Option<TodoView>,
) {
    match position_of_id(s, id) {
        Some(i) => (s.update(i, changed(s[i], changes, now)), Some(changed(s[i], changes, now))),
        None => (s, None),
    }
}

/// The page that `opts` asks for; the first one where it names none.
pub open spec fn page_of(opts: QueryOptions) -> int {
    match opts.page {
        Some(page) => page as int,
        None => 1,
    }
}

/// How many records a page holds by `opts`; ten where it does not say.
pub open spec fn limit_of(opts: QueryOptions) -> int {
    match opts.limit {
        Some(limit) => limit as int,
        None => 10,
    }
}

/// The reply to a listing of `s` by `opts`: the records of the page that
/// was asked for, with their number.
pub open spec fn list_reply(s: Seq<TodoView>, opts: QueryOptions) -> ResponseView {
    page_reply(window(s, page_offset(page_of(opts), limit_of(opts)), limit_of(opts)))
}

/// Handling the submission of `body` for creation in `s`: the collection
/// afterwards and the reply. A submission without a title is turned away
/// before the collection is looked at.
pub open spec fn create_reply(s: Seq<TodoView>, body: TodoView, id: Seq<char>, now: Timestamp) -> (
    Seq<TodoView>,
    ResponseView,
) {
    if body.title.len() == 0 {
        (s, empty_title_reply())
    } else {
        match create(s, body, id, now) {
            (after, Ok(stored)) => (after, single_reply(StatusCode::Created, stored)),
            (after, Err(title)) => (after, duplicate_reply(title)),
        }
    }
}

/// The reply to a lookup of the id `id` in `s`.
pub open spec fn find_reply(s: Seq<TodoView>, id: Seq<char>) -> ResponseView {
    match find(s, id) {
        Some(found) => single_reply(StatusCode::Success, found),
        None => missing_reply(id),
    }
}

/// Handling the update of the record with the id `id` in `s` by `body`: the
/// collection afterwards and the reply.
pub open spec fn update_reply(s: Seq<TodoView>, id: Seq<char>, body: TodoView, now: Timestamp) -> (
    Seq<TodoView>,
    ResponseView,
) {
    match update(s, id, body, now) {
        (after, Some(stored)) => (after, single_reply(StatusCode::Success, stored)),
        (after, None) => (after, missing_reply(id)),
    }
}

/// The record has an id, a time of creation and a time of last update.
pub open spec fn is_assigned(t: TodoView) -> bool {
    t.id is Some && t.created_at is Some && t.updated_at is Some
}

/// Every record of `s` is assigned.
pub open spec fn all_assigned(s: Seq<TodoView>) -> bool {
    forall|i: int| 0 <= i < s.len() ==> is_assigned(#[trigger] s[i])
}

/// A first record with the id `id` exists as soon as any record has it.
proof fn lemma_first_exists(s: Seq<TodoView>, id: Seq<char>, j: int)
    requires
        0 <= j < s.len(),
        s[j].id == Some(id),
    ensures
        exists|i: int| is_first_with_id(s, id, i),
    decreases j,
{
    if forall|k: int| 0 <= k < j ==> (#[trigger] s[k]).id != Some(id) {
        assert(is_first_with_id(s, id, j));
    } else {
        let k = choose|k: int| 0 <= k < j && (#[trigger] s[k]).id == Some(id);
        lemma_first_exists(s, id, k);
    }
}

/// `position_of_id` gives the first position that holds the id, and gives
/// none exactly when no record holds it.
pub proof fn lemma_position_of_id(s: Seq<TodoView>, id: Seq<char>)
    ensures
        position_of_id(s, id) is Some <==> has_id(s, id),
        position_of_id(s, id) matches Some(i) ==> is_first_with_id(s, id, i),
{
    if has_id(s, id) {
        let j = choose|j: int| 0 <= j < s.len() && (#[trigger] s[j]).id == Some(id);
        lemma_first_exists(s, id, j);
    }
}

/// The first position that holds an id is the only one that is first.
pub proof fn lemma_first_is_position(s: Seq<TodoView>, id: Seq<char>, i: int)
    requires
        is_first_with_id(s, id, i),
    ensures
        position_of_id(s, id) == Some(i),
{
    let first = choose|k: int| is_first_with_id(s, id, k);
    assert(first == i) by {
        // Of two first positions neither can stand before the other.
        assert(s[first].id == Some(id) && s[i].id == Some(id));
    }
}

} // verus!
