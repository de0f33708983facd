//! The collection of todos, in the order in which they were created.

use crate::clock::now;
use crate::ident::{fresh_id, is_uuid_v4_text};
use crate::model::{option_view, views, Timestamp, Todo, TodoView};
use crate::semantics;
use crate::semantics::{all_assigned, has_title, is_assigned, position_of_id, window};
use vstd::prelude::*;

verus! {

/// Why a record could not be created: a stored record already has its title.
#[derive(Debug, PartialEq, Eq)]
pub struct DuplicateTitle {
    pub title: String,
}

/// The view of what creating a record returned: the stored record, or the
/// title that was already taken.
pub open spec fn created_view(r: Result<Todo, DuplicateTitle>) -> Result<TodoView, Seq<char>> {
    match r {
        Ok(t) => Ok(t@),
        Err(e) => Err(e.title@),
    }
}

/// The todos of one service, oldest first. Its view is the sequence of the
/// views of its records.
pub struct Store {
    todos: Vec<Todo>,
}

impl View for Store {
    type V = Seq<TodoView>;

    closed spec fn view(&self) -> Seq<TodoView> {
        views(self.todos@)
    }
}

impl Store {
    /// Every stored record has its id and both of its times.
    #[verifier::type_invariant]
    pub open spec fn assigned(&self) -> bool {
        all_assigned(self@)
    }

    /// A store without records.
    pub fn new() -> (store: Store)
        ensures
            store@ == Seq::<TodoView>::empty(),
    {
        let store = Store { todos: Vec::new() };
        store
    }

    /// The records of a store can be counted in a `usize`.
    pub proof fn lemma_len_fits(&self)
        ensures
            self@.len() <= usize::MAX,
    {
        vstd::std_specs::vec::axiom_spec_len(&self.todos);
    }

    /// The number of stored records.
    pub fn len(&self) -> (n: usize)
        ensures
            n == self@.len(),
    {
        self.todos.len()
    }

    /// Whether a stored record has the title `title`.
    pub fn holds_title(&self, title: &String) -> (found: bool)
        ensures
            found == has_title(self@, title@),
    {
        let mut i: usize = 0;
        while i < self.todos.len()
            invariant
                i <= self.todos@.len(),
                forall|j: int| 0 <= j < i ==> (#[trigger] self@[j]).title != title@,
            decreases self.todos@.len() - i,
        {
            if self.todos[i].title == *title {
                assert(self@[i as int].title == title@);
                return true;
            }
            i += 1;
        }
        false
    }

    /// Appends the record made from `candidate`, `id` and `now`, and returns
    /// a copy of it.
    fn push_new(&mut self, candidate: Todo, id: String, now: Timestamp) -> (stored: Todo)
        ensures
            stored@ == semantics::new_todo(candidate@, id@, now),
            final(self)@ == old(self)@.push(stored@),
    {
        proof {
            use_type_invariant(&*self);
        }
        let record = Todo {
            id: Some(id),
            title: candidate.title,
            content: candidate.content,
            completed: Some(false),
            created_at: Some(now),
            updated_at: Some(now),
        };
        let stored = record.clone();
        // The records leave the store while one is appended: `push` may
        // unwind, and must not do so on a store that is half changed.
        let mut todos: Vec<Todo> = Vec::new();
        core::mem::swap(&mut self.todos, &mut todos);
        todos.push(record);
        assert(views(todos@) =~= old(self)@.push(stored@));
        core::mem::swap(&mut self.todos, &mut todos);
        stored
    }

    /// Creates a record from `candidate` with the id `id` at the time `now`,
    /// unless a stored record already has the candidate's title.
    pub fn create_with(&mut self, candidate: Todo, id: String, now: Timestamp) -> (r: Result<
        Todo,
        DuplicateTitle,
    >)
        ensures
            (final(self)@, created_view(r)) == semantics::create(
                old(self)@,
                candidate@,
                id@,
                now,
            ),
    {
        if self.holds_title(&candidate.title) {
            Err(DuplicateTitle { title: candidate.title })
        } else {
            Ok(self.push_new(candidate, id, now))
        }
    }

    /// Creates a record from `candidate`, unless a stored record already has
    /// the candidate's title. The id of the new record is drawn at random
    /// and its times are read from the wall clock.
    pub fn create(&mut self, candidate: Todo) -> (r: Result<Todo, DuplicateTitle>)
        ensures
            exists|id: Seq<char>, now: Timestamp|
                (final(self)@, created_view(r)) == #[trigger] semantics::create(
                    old(self)@,
                    candidate@,
                    id,
                    now,
                ),
            has_title(old(self)@, candidate.title@) ==> final(self)@ == old(self)@ && created_view(r)
                == Err::<TodoView, Seq<char>>(candidate.title@),
            !has_title(old(self)@, candidate.title@) ==> r is Ok,
            r matches Ok(t) ==> is_assigned(t@) && is_uuid_v4_text(t@.id->0)
                && t@.created_at->0.is_normal(),
    {
        if self.holds_title(&candidate.title) {
            let ghost anyone = candidate@;
            let r = Err(DuplicateTitle { title: candidate.title });
            assert((self@, created_view(r)) == semantics::create(
                old(self)@,
                anyone,
                Seq::<char>::empty(),
                Timestamp { secs: 0, nanos: 0 },
            ));
            r
        } else {
            let id = fresh_id();
            let at = now();
            let ghost candidate_view = candidate@;
            let r = Ok(self.push_new(candidate, id, at));
            assert((self@, created_view(r)) == semantics::create(
                old(self)@,
                candidate_view,
                id@,
                at,
            ));
            r
        }
    }

    /// Where the first stored record with the id `id` stands.
    fn position(&self, id: &String) -> (at: Option<usize>)
        ensures
            match at {
                Some(i) => i < self@.len() && position_of_id(self@, id@) == Some(i as int),
                None => position_of_id(self@, id@) is None,
            },
    {
        let mut i: usize = 0;
        while i < self.todos.len()
            invariant
                i <= self.todos@.len(),
                forall|j: int| 0 <= j < i ==> (#[trigger] self@[j]).id != Some(id@),
            decreases self.todos@.len() - i,
        {
            let same = match &self.todos[i].id {
                Some(stored) => *stored == *id,
                None => false,
            };
            if same {
                proof {
                    semantics::lemma_first_is_position(self@, id@, i as int);
                }
                return Some(i);
            }
            i += 1;
        }
        proof {
            semantics::lemma_position_of_id(self@, id@);
        }
        None
    }

    /// A copy of the first stored record with the id `id`.
    pub fn find(&self, id: &String) -> (found: Option<Todo>)
        ensures
            option_view(found) == semantics::find(self@, id@),
            found is Some <==> semantics::has_id(self@, id@),
            found matches Some(t) ==> t@.id == Some(id@) && is_assigned(t@),
    {
        proof {
            use_type_invariant(self);
            semantics::lemma_position_of_id(self@, id@);
        }
        match self.position(id) {
            Some(i) => Some(self.todos[i].clone()),
            None => None,
        }
    }

    /// Copies of up to `limit` stored records, starting with the one at
    /// `offset`, in the order of the store. There are none where `offset`
    /// lies behind the last record.
    pub fn list(&self, offset: usize, limit: usize) -> (page: Vec<Todo>)
        ensures
            views(page@) == window(self@, offset as int, limit as int),
            all_assigned(views(page@)),
    {
        proof {
            use_type_invariant(self);
        }
        let len = self.todos.len();
        let from = if offset < len {
            offset
        } else {
            len
        };
        let to = if limit < len - from {
            from + limit
        } else {
            len
        };
        let mut page: Vec<Todo> = Vec::new();
        let mut i: usize = from;
        while i < to
            invariant
                from <= i <= to <= self.todos@.len(),
                page@.len() == i - from,
                forall|k: int| 0 <= k < page@.len() ==> (#[trigger] page@[k])@ == self.todos@[from + k]@,
            decreases to - i,
        {
            page.push(self.todos[i].clone());
            i += 1;
        }
        page
    }

    /// Overwrites the record at `i` with the title, content and completion
    /// flag of `changes`, sets its time of last update to `now`, and returns
    /// a copy of it.
    fn overwrite(&mut self, i: usize, changes: Todo, now: Timestamp) -> (stored: Todo)
        requires
            i < old(self)@.len(),
        ensures
            stored@ == semantics::changed(old(self)@[i as int], changes@, now),
            final(self)@ == old(self)@.update(i as int, stored@),
    {
        proof {
            use_type_invariant(&*self);
        }
        // As in `push_new`, the records leave the store while one changes.
        let mut todos: Vec<Todo> = Vec::new();
        core::mem::swap(&mut self.todos, &mut todos);
        let record = &mut todos[i];
        record.title = changes.title;
        record.content = changes.content;
        record.completed = changes.completed;
        record.updated_at = Some(now);
        let stored = todos[i].clone();
        assert(views(todos@) =~= old(self)@.update(i as int, stored@));
        core::mem::swap(&mut self.todos, &mut todos);
        stored
    }

    /// Overwrites the first stored record with the id `id` by the title,
    /// content and completion flag of `changes`, and sets its time of last
    /// update to `now`. Titles are not compared: the record may take a title
    /// that another record has.
    pub fn update_at(&mut self, id: &String, changes: Todo, now: Timestamp) -> (r: Option<Todo>)
        ensures
            (final(self)@, option_view(r)) == semantics::update(old(self)@, id@, changes@, now),
            r matches Some(t) ==> is_assigned(t@),
    {
        proof {
            use_type_invariant(&*self);
            semantics::lemma_position_of_id(self@, id@);
        }
        match self.position(id) {
            Some(i) => Some(self.overwrite(i, changes, now)),
            None => None,
        }
    }

    /// Overwrites the first stored record with the id `id` by the title,
    /// content and completion flag of `changes`. The time of the update is
    /// read from the wall clock, and only where there is such a record.
    pub fn update(&mut self, id: &String, changes: Todo) -> (r: Option<Todo>)
        ensures
            exists|now: Timestamp|
                (final(self)@, option_view(r)) == #[trigger] semantics::update(
                    old(self)@,
                    id@,
                    changes@,
                    now,
                ),
            !semantics::has_id(old(self)@, id@) ==> final(self)@ == old(self)@ && r is None,
            semantics::has_id(old(self)@, id@) ==> r is Some,
            r matches Some(t) ==> is_assigned(t@) && t@.updated_at->0.is_normal(),
    {
        proof {
            use_type_invariant(&*self);
            semantics::lemma_position_of_id(self@, id@);
        }
        match self.position(id) {
            Some(i) => {
                let at = now();
                let ghost changes_view = changes@;
                let r = Some(self.overwrite(i, changes, at));
                assert((self@, option_view(r)) == semantics::update(
                    old(self)@,
                    id@,
                    changes_view,
                    at,
                ));
                r
            },
            None => {
                let r = None;
                assert((self@, option_view(r)) == semantics::update(
                    old(self)@,
                    id@,
                    changes@,
                    Timestamp { secs: 0, nanos: 0 },
                ));
                r
            },
        }
    }
}

} // verus!
