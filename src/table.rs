use vstd::prelude::*;

use crate::models::{flip, NewTodo, Todo};
use crate::public_id::is_hyphenated_uuid;
use crate::rules::{
    deleted, found, found_reply, listed, not_found, plan_delete, plan_toggle, prepare_create,
    toggled_reply, Reply,
};

verus! {

/// Row `i` of `rows` has the public identifier `public_id`.
pub open spec fn holds_id(rows: Seq<Todo>, public_id: Seq<char>, i: int) -> bool {
    0 <= i < rows.len() && rows[i].public_id@ == public_id
}

/// Some row of `rows` has the public identifier `public_id`.
pub open spec fn contains_id(rows: Seq<Todo>, public_id: Seq<char>) -> bool {
    exists|i: int| holds_id(rows, public_id, i)
}

/// The position of the row with the public identifier `public_id`.
pub open spec fn index_of(rows: Seq<Todo>, public_id: Seq<char>) -> int {
    choose|i: int| holds_id(rows, public_id, i)
}

/// Well-formed rows: each flag in one of its two states, row numbers positive
/// and increasing, public identifiers pairwise distinct.
pub open spec fn rows_wf(rows: Seq<Todo>) -> bool {
    &&& forall|i: int| 0 <= i < rows.len() ==> (#[trigger] rows[i]).wf() && rows[i].id >= 1
    &&& forall|i: int, j: int| 0 <= i < j < rows.len() ==> rows[i].id < rows[j].id
    &&& forall|i: int, j: int|
        0 <= i < rows.len() && 0 <= j < rows.len() && i != j ==> (#[trigger] rows[i]).public_id@
            != (#[trigger] rows[j]).public_id@
}

/// The rows that a lookup of `public_id` returns: the one row that has it, or none.
pub open spec fn selected(rows: Seq<Todo>, public_id: Seq<char>) -> Seq<Todo> {
    if contains_id(rows, public_id) {
        seq![rows[index_of(rows, public_id)]]
    } else {
        Seq::empty()
    }
}

/// A row with its flag toggled.
pub open spec fn toggle_row(t: Todo) -> Todo {
    Todo { completed: flip(t.completed), ..t }
}

/// The rows after a toggle of `public_id`.
pub open spec fn after_toggle(rows: Seq<Todo>, public_id: Seq<char>) -> Seq<Todo> {
    rows.map_values(|t: Todo| if t.public_id@ == public_id { toggle_row(t) } else { t })
}

/// The rows after a delete of `public_id`.
pub open spec fn after_delete(rows: Seq<Todo>, public_id: Seq<char>) -> Seq<Todo> {
    if contains_id(rows, public_id) {
        rows.remove(index_of(rows, public_id))
    } else {
        rows
    }
}

/// `t` is the row that inserting `new` adds under the row number `id`:
/// its columns as given, its flag open.
pub open spec fn inserted_row(t: Todo, id: i32, new: NewTodo) -> bool {
    &&& t.id == id
    &&& t.public_id@ == new.public_id@
    &&& t.title@ == new.title@
    &&& t.description@ == new.description@
    &&& t.completed == 0
}

/// The `todos` table held in memory: its rows, in order of insertion, and the
/// row number that the next insert receives.
pub struct TodoTable {
    rows: Vec<Todo>,
    next_id: i32,
}

impl View for TodoTable {
    type V = Seq<Todo>;

    closed spec fn view(&self) -> Seq<Todo> {
        self.rows@
    }
}

impl TodoTable {
    /// The rows are well formed, and the next row number is above every row's.
    pub closed spec fn wf(&self) -> bool {
        &&& rows_wf(self.rows@)
        &&& self.next_id >= 1
        &&& forall|i: int| 0 <= i < self.rows@.len() ==> (#[trigger] self.rows@[i]).id < self.next_id
    }

    /// The row number that the next insert receives.
    pub closed spec fn next_row_number(&self) -> i32 {
        self.next_id
    }

    /// An empty table, whose first row will be numbered 1.
    pub fn new() -> (r: TodoTable)
        ensures
            r.wf(),
            r@ == Seq::<Todo>::empty(),
            r.next_row_number() == 1,
    {
        TodoTable { rows: Vec::new(), next_id: 1 }
    }

    /// The position of the row whose public identifier is `public_id`.
    fn position(&self, public_id: &String) -> (r: Option<usize>)
        requires
            self.wf(),
        ensures
            r matches Some(i) ==> holds_id(self@, public_id@, i as int),
            r is None ==> !contains_id(self@, public_id@),
    {
        let mut i: usize = 0;
        while i < self.rows.len()
            invariant
                i <= self.rows@.len(),
                forall|j: int| 0 <= j < i ==> !holds_id(self@, public_id@, j),
            decreases self.rows@.len() - i,
        {
            if self.rows[i].public_id == *public_id {
                return Some(i);
            }
            i += 1;
        }
        None
    }

    /// Every row, in order of insertion.
    pub fn list(&self) -> (r: Reply)
        ensures
            listed(r, self@),
    {
        let mut data: Vec<Todo> = Vec::new();
        let mut i: usize = 0;
        while i < self.rows.len()
            invariant
                i <= self.rows@.len(),
                data@ == self.rows@.subrange(0, i as int),
            decreases self.rows@.len() - i,
        {
            data.push(self.rows[i].duplicate());
            i += 1;
            assert(data@ =~= self.rows@.subrange(0, i as int));
        }
        assert(data@ =~= self.rows@);
        Reply::Listed { data }
    }

    /// The rows whose public identifier is `public_id`: one or none.
    pub fn select(&self, public_id: &str) -> (r: Vec<Todo>)
        requires
            self.wf(),
        ensures
            r@ == selected(self@, public_id@),
    {
        let key = public_id.to_owned();
        match self.position(&key) {
            Some(i) => {
                assert(index_of(self@, public_id@) == i as int);
                let r = vec![self.rows[i].duplicate()];
                assert(r@ =~= selected(self@, public_id@));
                r
            },
            None => {
                let r: Vec<Todo> = Vec::new();
                assert(r@ =~= selected(self@, public_id@));
                r
            },
        }
    }

    /// Looks up the row `public_id`: found when a row has that identifier,
    /// not found otherwise.
    pub fn get(&self, public_id: &str) -> (r: Reply)
        requires
            self.wf(),
        ensures
            contains_id(self@, public_id@) ==> found(r, public_id@, selected(self@, public_id@)),
            !contains_id(self@, public_id@) ==> not_found(r, public_id@),
    {
        let matched = self.select(public_id);
        found_reply(public_id, matched)
    }

    /// Inserts `new` under the next row number, unless its public identifier
    /// is already in use or no row number is left.
    pub fn insert(&mut self, new: NewTodo) -> (r: Reply)
        requires
            old(self).wf(),
        ensures
            final(self).wf(),
            contains_id(old(self)@, new.public_id@) ==> (r matches Reply::IdTaken { id }
                && id@ == new.public_id@),
            !contains_id(old(self)@, new.public_id@) && old(self).next_row_number() == i32::MAX
                ==> r is TableFull,
            !contains_id(old(self)@, new.public_id@) && old(self).next_row_number() < i32::MAX
                ==> (r matches Reply::Created { record: data } && inserted_row(
                data,
                old(self).next_row_number(),
                new,
            ) && final(self)@ == old(self)@.push(data) && final(self).next_row_number()
                == old(self).next_row_number() + 1),
            !(r is Created) ==> final(self)@ == old(self)@ && final(self).next_row_number()
                == old(self).next_row_number(),
    {
        let key = new.public_id.to_owned();
        if self.position(&key).is_some() {
            return Reply::IdTaken { id: key };
        }
        if self.next_id == i32::MAX {
            return Reply::TableFull;
        }
        let row = Todo {
            id: self.next_id,
            public_id: key,
            title: new.title.to_owned(),
            description: new.description.to_owned(),
            completed: 0,
        };
        let data = row.duplicate();
        self.rows.push(row);
        self.next_id = self.next_id + 1;
        assert(rows_wf(self.rows@)) by {
            let rows = self.rows@;
            assert forall|i: int, j: int|
                0 <= i < rows.len() && 0 <= j < rows.len() && i != j implies (#[trigger] rows[i]).public_id@
                != (#[trigger] rows[j]).public_id@ by {
                if i == rows.len() - 1 {
                    assert(!holds_id(old(self)@, new.public_id@, j));
                } else if j == rows.len() - 1 {
                    assert(!holds_id(old(self)@, new.public_id@, i));
                }
            }
        }
        Reply::Created { record: data }
    }

    /// Creates a todo from `title` and `description` under a freshly drawn
    /// public identifier, with its flag open; refuses empty fields.
    pub fn create(&mut self, title: &str, description: &str) -> (r: Reply)
        requires
            old(self).wf(),
        ensures
            final(self).wf(),
            r is MissingFields <==> (title@.len() == 0 || description@.len() == 0),
            r is Created || r is MissingFields || r is IdTaken || r is TableFull,
            r is TableFull ==> old(self).next_row_number() == i32::MAX,
            r matches Reply::Created { record: data } ==> ({
                &&& data.id == old(self).next_row_number()
                &&& data.title@ == title@
                &&& data.description@ == description@
                &&& data.completed == 0
                &&& is_hyphenated_uuid(data.public_id@)
                &&& !contains_id(old(self)@, data.public_id@)
                &&& final(self)@ == old(self)@.push(data)
            }),
            r matches Reply::IdTaken { id } ==> contains_id(old(self)@, id@),
            !(r is Created) ==> final(self)@ == old(self)@,
            title@.len() > 0 && description@.len() > 0 && old(self).next_row_number() < i32::MAX
                ==> (r is Created || r is IdTaken),
    {
        match prepare_create(title, description) {
            None => Reply::MissingFields,
            Some(public_id) => {
                let new = NewTodo { title, public_id: public_id.as_str(), description };
                self.insert(new)
            },
        }
    }

    /// Flips the flag of the row `public_id`, if there is one.
    pub fn complete(&mut self, public_id: &str) -> (r: Reply)
        requires
            old(self).wf(),
        ensures
            final(self).wf(),
            final(self)@ == after_toggle(old(self)@, public_id@),
            !contains_id(old(self)@, public_id@) ==> not_found(r, public_id@),
            contains_id(old(self)@, public_id@) ==> toggled_reply(
                r,
                public_id@,
                flip(old(self)@[index_of(old(self)@, public_id@)].completed),
            ),
    {
        let matched = self.select(public_id);
        let (value, reply) = plan_toggle(public_id, &matched);
        let key = public_id.to_owned();
        match value {
            Some(v) => {
                match self.position(&key) {
                    Some(i) => {
                        assert(index_of(old(self)@, public_id@) == i as int);
                        let mut row = self.rows[i].duplicate();
                        row.completed = v;
                        assert(row == toggle_row(old(self)@[i as int]));
                        self.rows.set(i, row);
                    },
                    None => {},
                }
            },
            None => {},
        }
        assert forall|k: int| 0 <= k < self@.len() implies #[trigger] self@[k] == after_toggle(
            old(self)@,
            public_id@,
        )[k] by {
            if value is None {
                assert(!holds_id(old(self)@, public_id@, k));
            }
        }
        assert(self@ =~= after_toggle(old(self)@, public_id@));
        assert(rows_wf(self.rows@));
        reply
    }

    /// Removes the row `public_id`, if there is one.
    pub fn delete(&mut self, public_id: &str) -> (r: Reply)
        requires
            old(self).wf(),
        ensures
            final(self).wf(),
            final(self)@ == after_delete(old(self)@, public_id@),
            !contains_id(old(self)@, public_id@) ==> not_found(r, public_id@),
            contains_id(old(self)@, public_id@) ==> deleted(r, public_id@),
    {
        let matched = self.select(public_id);
        let (remove, reply) = plan_delete(public_id, &matched);
        let key = public_id.to_owned();
        if remove {
            match self.position(&key) {
                Some(i) => {
                    self.rows.remove(i);
                },
                None => {},
            }
        }
        reply
    }

    /// Removes every row.
    pub fn clear(&mut self) -> (r: Reply)
        requires
            old(self).wf(),
        ensures
            final(self).wf(),
            final(self)@ == Seq::<Todo>::empty(),
            r is Cleared,
    {
        self.rows.clear();
        Reply::Cleared
    }
}

} // verus!
