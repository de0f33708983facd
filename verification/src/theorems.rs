//! What holds of the operations on the collection of todos, across calls
//! and for every collection.

use crate::model::{Timestamp, TodoView};
use crate::response::{duplicate_reply, empty_title_reply, missing_reply};
use crate::semantics::{
    all_assigned, create, create_reply, find, find_reply, has_id, has_title,
    lemma_first_is_position, lemma_position_of_id, new_todo, position_of_id, update,
    update_reply, window,
};
use vstd::prelude::*;

verus! {

/// One creation: what the client submitted, and the id and the time that
/// the new record is to get.
pub struct Submission {
    pub body: TodoView,
    pub id: Seq<char>,
    pub now: Timestamp,
}

/// The collection after the creations `subs`, made in order on `s`.
pub open spec fn create_all(s: Seq<TodoView>, subs: Seq<Submission>) -> Seq<TodoView>
    decreases subs.len(),
{
    if subs.len() == 0 {
        s
    } else {
        create(
            create_all(s, subs.drop_last()),
            subs.last().body,
            subs.last().id,
            subs.last().now,
        ).0
    }
}

/// No two of the submissions have the same title.
pub open spec fn distinct_titles(subs: Seq<Submission>) -> bool {
    forall|i: int, j: int|
        0 <= i < j < subs.len() ==> (#[trigger] subs[i]).body.title != (#[trigger] subs[j]).body.title
}

/// No two records of `s` have the same title.
pub open spec fn unique_titles(s: Seq<TodoView>) -> bool {
    forall|i: int, j: int| 0 <= i < j < s.len() ==> (#[trigger] s[i]).title != (#[trigger] s[j]).title
}

/// Creations with distinct titles on an empty collection all succeed: the
/// collection then holds one record for each, in the order of the
/// creations.
proof fn lemma_distinct_creates(subs: Seq<Submission>)
    requires
        distinct_titles(subs),
    ensures
        create_all(Seq::empty(), subs).len() == subs.len(),
        forall|i: int|
            0 <= i < subs.len() ==> (#[trigger] create_all(Seq::empty(), subs)[i]) == new_todo(
                subs[i].body,
                subs[i].id,
                subs[i].now,
            ),
    decreases subs.len(),
{
    if subs.len() > 0 {
        lemma_distinct_creates(subs.drop_last());
    }
}

/// After any number of creations with distinct titles on an empty
/// collection, the collection holds as many records as there were
/// creations, each creation's record stands at that creation's place, and a
/// listing from the start with a limit of at least that number returns them
/// all in that order.
pub proof fn theorem_distinct_creates_all_stored(subs: Seq<Submission>, limit: int)
    requires
        distinct_titles(subs),
        limit >= subs.len(),
    ensures
        create_all(Seq::empty(), subs).len() == subs.len(),
        forall|i: int|
            0 <= i < subs.len() ==> (#[trigger] create_all(Seq::empty(), subs)[i]) == new_todo(
                subs[i].body,
                subs[i].id,
                subs[i].now,
            ),
        window(create_all(Seq::empty(), subs), 0, limit) == create_all(Seq::empty(), subs),
{
    lemma_distinct_creates(subs);
}

/// Each of a run of creations with distinct titles on an empty collection
/// succeeds.
pub proof fn theorem_distinct_creates_succeed(subs: Seq<Submission>, k: int)
    requires
        distinct_titles(subs),
        0 <= k < subs.len(),
    ensures
        create(create_all(Seq::empty(), subs.take(k)), subs[k].body, subs[k].id, subs[k].now).1
            == Ok::<TodoView, Seq<char>>(new_todo(subs[k].body, subs[k].id, subs[k].now)),
{
    lemma_distinct_creates(subs.take(k));
}

/// A creation whose title a record of the collection has is refused with
/// that title, and the collection stays as it is, whatever else was
/// submitted. Through the handler the reply is the one for a taken title,
/// unless the title is empty.
pub proof fn theorem_taken_title_refused(
    s: Seq<TodoView>,
    body: TodoView,
    id: Seq<char>,
    now: Timestamp,
)
    requires
        has_title(s, body.title),
    ensures
        create(s, body, id, now) == (s, Err::<TodoView, Seq<char>>(body.title)),
        body.title.len() > 0 ==> create_reply(s, body, id, now) == (s, duplicate_reply(body.title)),
{
}

/// A submission without a title is turned away, and the collection stays as
/// it is.
pub proof fn theorem_empty_title_refused(
    s: Seq<TodoView>,
    body: TodoView,
    id: Seq<char>,
    now: Timestamp,
)
    requires
        body.title.len() == 0,
    ensures
        create_reply(s, body, id, now) == (s, empty_title_reply()),
{
}

/// A collection whose records have pairwise different titles still has
/// after a creation, whether the creation succeeds or not.
pub proof fn theorem_create_keeps_titles_unique(
    s: Seq<TodoView>,
    body: TodoView,
    id: Seq<char>,
    now: Timestamp,
)
    requires
        unique_titles(s),
    ensures
        unique_titles(create(s, body, id, now).0),
{
}

/// Updating a record with the title, content and completion flag that it
/// has changes nothing in the collection but that record's time of last
/// update, which becomes the time of the update. So the time of last update
/// does not go back unless the clock did. Updating once more with the same
/// values at the same time changes nothing at all.
pub proof fn theorem_update_with_same_values(
    s: Seq<TodoView>,
    id: Seq<char>,
    changes: TodoView,
    now: Timestamp,
)
    requires
        position_of_id(s, id) matches Some(i) && changes.title == s[i].title && changes.content
            == s[i].content && changes.completed == s[i].completed,
    ensures
        ({
            let i = position_of_id(s, id)->0;
            let stored = TodoView { updated_at: Some(now), ..s[i] };
            let after = update(s, id, changes, now).0;
            &&& update(s, id, changes, now) == (s.update(i, stored), Some(stored))
            &&& update(after, id, changes, now) == (after, Some(stored))
            &&& s[i].updated_at matches Some(before) ==> (now.at_or_after(before)
                ==> after[i].updated_at->0.at_or_after(before))
        }),
{
    let i = position_of_id(s, id)->0;
    lemma_position_of_id(s, id);
    lemma_first_is_position(update(s, id, changes, now).0, id, i);
}

/// An update leaves every record but the first with the given id as it
/// was, and leaves that record its id and its time of creation.
pub proof fn theorem_update_touches_one_record(
    s: Seq<TodoView>,
    id: Seq<char>,
    changes: TodoView,
    now: Timestamp,
)
    ensures
        update(s, id, changes, now).0.len() == s.len(),
        forall|j: int|
            0 <= j < s.len() && position_of_id(s, id) != Some(j) ==> (#[trigger] update(
                s,
                id,
                changes,
                now,
            ).0[j]) == s[j],
        forall|j: int|
            0 <= j < s.len() ==> (#[trigger] update(s, id, changes, now).0[j]).id == s[j].id
                && update(s, id, changes, now).0[j].created_at == s[j].created_at,
{
    lemma_position_of_id(s, id);
}

/// Looking up or updating an id that no record has finds nothing and
/// leaves the collection as it is; the reply says that the id is missing.
pub proof fn theorem_missing_id(s: Seq<TodoView>, id: Seq<char>, changes: TodoView, now: Timestamp)
    requires
        !has_id(s, id),
    ensures
        find(s, id) == None::<TodoView>,
        update(s, id, changes, now) == (s, None::<TodoView>),
        find_reply(s, id) == missing_reply(id),
        update_reply(s, id, changes, now) == (s, missing_reply(id)),
{
    lemma_position_of_id(s, id);
}

/// A record that was created is the one that a lookup of its id finds,
/// unless an older record has that id.
pub proof fn theorem_created_record_is_found(
    s: Seq<TodoView>,
    body: TodoView,
    id: Seq<char>,
    now: Timestamp,
)
    requires
        !has_title(s, body.title),
        !has_id(s, id),
    ensures
        find(create(s, body, id, now).0, id) == Some(new_todo(body, id, now)),
{
    lemma_first_is_position(create(s, body, id, now).0, id, s.len() as int);
}

/// After an update, a lookup of the id finds the record as the update
/// returned it.
pub proof fn theorem_updated_record_is_found(
    s: Seq<TodoView>,
    id: Seq<char>,
    changes: TodoView,
    now: Timestamp,
)
    ensures
        find(update(s, id, changes, now).0, id) == update(s, id, changes, now).1,
{
    lemma_position_of_id(s, id);
    if position_of_id(s, id) is Some {
        lemma_first_is_position(update(s, id, changes, now).0, id, position_of_id(s, id)->0);
    }
}

/// A collection of assigned records stays one under creation and under
/// update.
pub proof fn theorem_records_stay_assigned(
    s: Seq<TodoView>,
    id: Seq<char>,
    body: TodoView,
    now: Timestamp,
)
    requires
        all_assigned(s),
    ensures
        all_assigned(create(s, body, id, now).0),
        all_assigned(update(s, id, body, now).0),
{
    lemma_position_of_id(s, id);
}

} // verus!
