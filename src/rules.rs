use vstd::prelude::*;

use crate::models::{flip, toggled, Todo};
use crate::public_id::{is_hyphenated_uuid, new_public_id};

verus! {

/// What a request is answered with. Each variant is one body shape of the
/// service; `success` and `message` give the flag and the text it carries.
#[derive(Debug)]
pub enum Reply {
    /// Every row of the table.
    Listed { data: Vec<Todo> },
    /// The rows whose public identifier is `id`.
    Found { id: String, data: Vec<Todo> },
    /// The row that was just inserted.
    Created { record: Todo },
    /// The row `id` was open and is now completed.
    Completed { id: String },
    /// The row `id` was completed and is now open again.
    Restored { id: String },
    /// The row `id` was removed.
    Deleted { id: String },
    /// Every row was removed.
    Cleared,
    /// No row has the public identifier `id`.
    NotFound { id: String },
    /// A title or a description was empty; nothing was inserted.
    MissingFields,
    /// The identifier drawn for a new row is already in use; nothing was inserted.
    IdTaken { id: String },
    /// The table has handed out its last row number; nothing was inserted.
    TableFull,
}

/// The body of the service's root route.
#[derive(Debug)]
pub struct ApiInfo {
    pub api_version: String,
    pub description: String,
}

/// Whether a reply reports success.
pub open spec fn succeeded(r: Reply) -> bool {
    !(r is NotFound || r is MissingFields || r is IdTaken || r is TableFull)
}

/// `r` lists the rows `rows`.
pub open spec fn listed(r: Reply, rows: Seq<Todo>) -> bool {
    r matches Reply::Listed { data } && data@ == rows
}

/// `r` reports that no row has the public identifier `public_id`.
pub open spec fn not_found(r: Reply, public_id: Seq<char>) -> bool {
    r matches Reply::NotFound { id } && id@ == public_id
}

/// `r` reports the rows `rows` for the public identifier `public_id`.
pub open spec fn found(r: Reply, public_id: Seq<char>, rows: Seq<Todo>) -> bool {
    r matches Reply::Found { id, data } && id@ == public_id && data@ == rows
}

/// `r` reports that the row `public_id` was removed.
pub open spec fn deleted(r: Reply, public_id: Seq<char>) -> bool {
    r matches Reply::Deleted { id } && id@ == public_id
}

impl Reply {
    /// The success flag of the body.
    pub fn success(&self) -> (r: bool)
        ensures
            r == succeeded(*self),
    {
        match self {
            Reply::NotFound { .. } | Reply::MissingFields | Reply::IdTaken { .. } | Reply::TableFull => false,
            _ => true,
        }
    }

    /// The message that the body carries, for the replies that have one.
    pub fn message(&self) -> (r: Option<&'static str>)
        ensures
            r is None <==> message_of(*self) is None,
            r matches Some(m) ==> message_of(*self) == Some(m@),
    {
        match self {
            Reply::Listed { .. } | Reply::Found { .. } | Reply::Created { .. } => None,
            Reply::Completed { .. } => Some("Todo completed!"),
            Reply::Restored { .. } => Some("Todo restored!"),
            Reply::Deleted { .. } => Some("Todo deleted!"),
            Reply::Cleared => Some("Todos cleared!"),
            Reply::NotFound { .. } => Some("Todo not found!"),
            Reply::MissingFields => Some("Enter all fields"),
            Reply::IdTaken { .. } => Some("Todo id already in use!"),
            Reply::TableFull => Some("No more todos can be stored!"),
        }
    }
}

/// The message text of each reply; the replies that carry rows have none.
pub open spec fn message_of(r: Reply) -> Option<Seq<char>> {
    match r {
        Reply::Listed { .. } | Reply::Found { .. } | Reply::Created { .. } => None,
        Reply::Completed { .. } => Some("Todo completed!"@),
        Reply::Restored { .. } => Some("Todo restored!"@),
        Reply::Deleted { .. } => Some("Todo deleted!"@),
        Reply::Cleared => Some("Todos cleared!"@),
        Reply::NotFound { .. } => Some("Todo not found!"@),
        Reply::MissingFields => Some("Enter all fields"@),
        Reply::IdTaken { .. } => Some("Todo id already in use!"@),
        Reply::TableFull => Some("No more todos can be stored!"@),
    }
}

/// The version and description that the root route reports.
pub fn get_api_info() -> (r: ApiInfo)
    ensures
        r.api_version@ == "v1.0"@,
        r.description@ == "Todos RESTful API built on Axum"@,
{
    ApiInfo {
        api_version: "v1.0".to_owned(),
        description: "Todos RESTful API built on Axum".to_owned(),
    }
}

/// Both fields that a new todo needs are non-empty.
pub fn fields_present(title: &str, description: &str) -> (r: bool)
    ensures
        r == (title@.len() > 0 && description@.len() > 0),
{
    !title.is_empty() && !description.is_empty()
}

/// Checks the fields of a new todo and draws its public identifier: `None`
/// when a field is empty, else a fresh identifier in hyphenated UUID form.
pub fn prepare_create(title: &str, description: &str) -> (r: Option<String>)
    ensures
        r is None <==> (title@.len() == 0 || description@.len() == 0),
        r matches Some(p) ==> is_hyphenated_uuid(p@),
{
    if fields_present(title, description) {
        Some(new_public_id())
    } else {
        None
    }
}

/// The answer to a lookup of `public_id` that matched the rows `matched`.
pub fn found_reply(public_id: &str, matched: Vec<Todo>) -> (r: Reply)
    ensures
        matched@.len() == 0 ==> not_found(r, public_id@),
        matched@.len() > 0 ==> found(r, public_id@, matched@),
{
    if matched.len() == 0 {
        Reply::NotFound { id: public_id.to_owned() }
    } else {
        Reply::Found { id: public_id.to_owned(), data: matched }
    }
}

/// The answer once the row `public_id` has had its flag set to `completed`.
pub open spec fn toggled_reply(r: Reply, public_id: Seq<char>, completed: i32) -> bool {
    if completed == 1 {
        r matches Reply::Completed { id } && id@ == public_id
    } else {
        r matches Reply::Restored { id } && id@ == public_id
    }
}

/// Decides a toggle of `public_id`, given the rows that matched it: the flag
/// to write to the first of them, if any, and the answer to give.
pub fn plan_toggle(public_id: &str, matched: &Vec<Todo>) -> (r: (Option<i32>, Reply))
    ensures
        matched@.len() == 0 ==> r.0 is None && not_found(r.1, public_id@),
        matched@.len() > 0 ==> r.0 == Some(flip(matched@[0].completed)) && toggled_reply(
            r.1,
            public_id@,
            flip(matched@[0].completed),
        ),
{
    if matched.len() == 0 {
        (None, Reply::NotFound { id: public_id.to_owned() })
    } else {
        let value = toggled(matched[0].completed);
        let reply = if value == 1 {
            Reply::Completed { id: public_id.to_owned() }
        } else {
            Reply::Restored { id: public_id.to_owned() }
        };
        (Some(value), reply)
    }
}

/// Decides a delete of `public_id`, given the rows that matched it: whether
/// to delete, and the answer to give.
pub fn plan_delete(public_id: &str, matched: &Vec<Todo>) -> (r: (bool, Reply))
    ensures
        r.0 == (matched@.len() > 0),
        matched@.len() == 0 ==> not_found(r.1, public_id@),
        matched@.len() > 0 ==> deleted(r.1, public_id@),
{
    if matched.len() == 0 {
        (false, Reply::NotFound { id: public_id.to_owned() })
    } else {
        (true, Reply::Deleted { id: public_id.to_owned() })
    }
}

} // verus!
