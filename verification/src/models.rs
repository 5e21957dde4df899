//! The data the handlers work on: todo records, pagination options, and the
//! outcome each handler reports.

use vstd::prelude::*;

verus! {

/// One stored record. The `id` is chosen by the caller; the collection keeps
/// at most one record per `id` (see [`unique_ids`]).
#[derive(Debug, PartialEq, Eq)]
pub struct Todo {
    pub id: u64,
    pub text: String,
    pub completed: bool,
}

impl Clone for Todo {
    fn clone(&self) -> (r: Self)
        ensures
            r == *self,
    {
        Todo { id: self.id, text: self.text.clone(), completed: self.completed }
    }
}

/// Pagination parameters for a list request: skip `offset` records, then take
/// at most `limit`. A missing offset means zero; a missing limit means all
/// remaining records.
#[derive(Clone, Copy, Debug, PartialEq, Eq)]
pub struct ListOptions {
    pub offset: Option<usize>,
    pub limit: Option<usize>,
}

/// The outcome a handler reports; the dispatcher turns it into an HTTP status
/// code (see [`Status::code`]).
#[derive(Clone, Copy, Debug, PartialEq, Eq, Structural)]
pub enum Status {
    /// An update found its target and replaced it.
    Okay,
    /// A create appended its record.
    Created,
    /// A delete removed its target.
    NoContent,
    /// A create found its id already taken; nothing changed.
    BadRequest,
    /// An update or delete found no record with the given id; nothing changed.
    NotFound,
}

impl Status {
    /// The HTTP status code this outcome is reported as.
    pub open spec fn spec_code(self) -> u16 {
        match self {
            Status::Okay => 200,
            Status::Created => 201,
            Status::NoContent => 204,
            Status::BadRequest => 400,
            Status::NotFound => 404,
        }
    }

    /// The HTTP status code this outcome is reported as.
    pub fn code(&self) -> (c: u16)
        ensures
            c == self.spec_code(),
    {
        match self {
            Status::Okay => 200,
            Status::Created => 201,
            Status::NoContent => 204,
            Status::BadRequest => 400,
            Status::NotFound => 404,
        }
    }
}

/// Some record in `s` carries the id `id`.
pub open spec fn has_id(s: Seq<Todo>, id: u64) -> bool {
    exists|i: int| 0 <= i < s.len() && s[i].id == id
}

/// No two records in `s` share an id: the collection's invariant.
pub open spec fn unique_ids(s: Seq<Todo>) -> bool {
    forall|i: int, j: int| 0 <= i < j < s.len() ==> s[i].id != s[j].id
}

/// `j` is the first position in `s` whose record carries the id `id`.
pub open spec fn is_first_match(s: Seq<Todo>, id: u64, j: int) -> bool {
    &&& 0 <= j < s.len()
    &&& s[j].id == id
    &&& forall|k: int| 0 <= k < j ==> s[k].id != id
}

} // verus!
