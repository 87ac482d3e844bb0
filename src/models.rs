use vstd::prelude::*;

verus! {

/// A row of the `todos` table, as it is read back.
#[derive(Debug)]
pub struct Todo {
    pub id: i32,
    pub public_id: String,
    pub title: String,
    pub description: String,
    /// `0` while open, `1` once completed.
    pub completed: i32,
}

/// The columns that a new row is inserted with; the rest are assigned by the table.
#[derive(Debug)]
pub struct NewTodo<'a> {
    pub title: &'a str,
    pub public_id: &'a str,
    pub description: &'a str,
}

/// The completion flag after a toggle: an open todo becomes completed, any
/// other value becomes open.
pub open spec fn flip(completed: i32) -> i32 {
    if completed == 0 {
        1
    } else {
        0
    }
}

impl Todo {
    /// The flag holds one of its two states.
    pub open spec fn wf(&self) -> bool {
        self.completed == 0 || self.completed == 1
    }

    /// A copy of the row, field for field.
    pub fn duplicate(&self) -> (r: Todo)
        ensures
            r == *self,
    {
        Todo {
            id: self.id,
            public_id: self.public_id.clone(),
            title: self.title.clone(),
            description: self.description.clone(),
            completed: self.completed,
        }
    }
}

/// The completion flag after a toggle.
pub fn toggled(completed: i32) -> (r: i32)
    ensures
        r == flip(completed),
{
    if completed == 0 {
        1
    } else {
        0
    }
}

} // verus!
