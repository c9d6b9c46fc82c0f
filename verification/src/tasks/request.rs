//! What is asked of an action.

use crate::tasks::fields::Field;
use vstd::prelude::*;

verus! {

/// The kinds of request that an action can be sent.
#[derive(Clone, Copy, Debug, PartialEq, Eq, Structural)]
pub enum TaskRequestType {
    Validate,
    Query,
    Create,
    Remove,
    Modify,
    Execute,
    Passive,
}

/// One request to one action.
#[derive(Debug)]
pub struct TaskRequest {
    pub request_type: TaskRequestType,
    /// For `Modify`: the fields that the query found to differ.
    pub changes: Vec<Field>,
    /// The id of the unit of work, which rises through a run.
    pub task_id: usize,
}

impl TaskRequest {
    pub fn new(request_type: TaskRequestType, changes: Vec<Field>, task_id: usize) -> (r:
        TaskRequest)
        ensures
            r.request_type == request_type,
            r.changes == changes,
            r.task_id == task_id,
    {
        TaskRequest { request_type, changes, task_id }
    }

    pub fn query(task_id: usize) -> (r: TaskRequest)
        ensures
            r.request_type == TaskRequestType::Query,
            r.changes@ == Seq::<Field>::empty(),
            r.task_id == task_id,
    {
        TaskRequest { request_type: TaskRequestType::Query, changes: Vec::new(), task_id }
    }
}

/// Whether a command that ends with a return code other than 0 counts as failed.
#[derive(Clone, Copy, Debug, PartialEq, Eq, Structural)]
pub enum CheckRc {
    Checked,
    Unchecked,
}

} // verus!
