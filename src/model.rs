//! The entities and results that the workflows speak of.
use vstd::prelude::*;

verus! {

/// A project node: its generated identifier and its caller-supplied name.
#[derive(Clone, Debug, PartialEq, Eq)]
pub struct Project {
    pub id: String,
    pub name: String,
}

/// A UsesVendor relation from a project to a vendor. Dates are day numbers;
/// an engagement without an `end` is active.
#[derive(Clone, Debug, PartialEq, Eq)]
pub struct Engagement {
    pub kind: String,
    pub start: i64,
    pub end: Option<i64>,
}

impl Engagement {
    pub open spec fn is_active(&self) -> bool {
        self.end is None
    }
}

/// How a vendor request ended when no error stopped it.
#[derive(Clone, Copy, Debug, PartialEq, Eq, Structural)]
pub enum Outcome {
    Assigned,
    ConflictNotified,
    Unauthorized,
    InputInvalid,
}

/// The errors that a workflow reports to its caller.
#[derive(Clone, Copy, Debug, PartialEq, Eq, Structural)]
pub enum DeconflictError {
    /// A required field was missing; nothing was sent to the store.
    InputInvalid,
    /// The store could not be reached or a statement failed.
    Connectivity,
    /// An invariant that the workflow relies on did not hold.
    ConsistencyViolation,
    /// A transactional write did not take place and was rolled back.
    TransactionAborted,
}

/// A required text field: present and not empty.
pub open spec fn provided(s: Option<Seq<char>>) -> bool {
    s is Some && s->0.len() > 0
}

pub open spec fn opt_view(s: Option<String>) -> Option<Seq<char>> {
    match s {
        Some(v) => Some(v@),
        None => None,
    }
}

/// Takes a required text field, or `None` where it is missing or empty.
pub fn required(s: Option<String>) -> (r: Option<String>)
    ensures
        r is Some <==> provided(opt_view(s)),
        r is Some ==> r->0@ == s->0@,
{
    match s {
        Some(v) => {
            if v.as_str().is_empty() {
                None
            } else {
                Some(v)
            }
        },
        None => None,
    }
}

} // verus!
