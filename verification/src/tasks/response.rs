//! Outcomes: what an action answers to a request.

use crate::connection::command::{command_option, CommandResult, CommandView};
use crate::tasks::fields::Field;
use crate::tasks::logic::{PostLogicEvaluated, PostLogicView, PreLogicEvaluated, PreLogicView};
use crate::util::text::text_option;
use vstd::prelude::*;
use vstd::string::*;

verus! {

/// The classification of an outcome. The `Needs` statuses answer a query, the
/// `Is` statuses say what was done, `Failed` ends the unit of work.
#[derive(Clone, Copy, Debug, PartialEq, Eq, Structural)]
pub enum TaskStatus {
    IsCreated,
    IsRemoved,
    IsModified,
    IsExecuted,
    IsPassive,
    IsMatched,
    IsSkipped,
    NeedsCreation,
    NeedsRemoval,
    NeedsModification,
    NeedsExecution,
    NeedsPassive,
    Failed,
}

/// An outcome: its status, the fields that changed or have to (only with
/// `NeedsModification` and `IsModified`), a message (only with `Failed`), and
/// the result of the remote command behind it, where there is one.
#[derive(Debug)]
pub struct TaskResponse {
    pub status: TaskStatus,
    pub changes: Vec<Field>,
    pub msg: Option<String>,
    pub command_result: Option<CommandResult>,
    pub with: Option<PreLogicEvaluated>,
    pub and: Option<PostLogicEvaluated>,
}

pub struct ResponseView {
    pub status: TaskStatus,
    pub changes: Seq<Field>,
    pub msg: Option<Seq<char>>,
    pub command_result: Option<CommandView>,
    pub with: Option<PreLogicView>,
    pub and: Option<PostLogicView>,
}

impl View for TaskResponse {
    type V = ResponseView;

    open spec fn view(&self) -> ResponseView {
        ResponseView {
            status: self.status,
            changes: self.changes@,
            msg: text_option(self.msg),
            command_result: command_option(self.command_result),
            with: match self.with {
                Some(w) => Some(w@),
                None => None,
            },
            and: match self.and {
                Some(a) => Some(a@),
                None => None,
            },
        }
    }
}

/// An outcome that is nothing but its status.
pub open spec fn plain(status: TaskStatus) -> ResponseView {
    ResponseView {
        status,
        changes: Seq::empty(),
        msg: None,
        command_result: None,
        with: None,
        and: None,
    }
}

/// An outcome that lists fields.
pub open spec fn with_changes(status: TaskStatus, changes: Seq<Field>) -> ResponseView {
    ResponseView { changes, ..plain(status) }
}

/// A failure with a message.
pub open spec fn failed(msg: Seq<char>) -> ResponseView {
    ResponseView { msg: Some(msg), ..plain(TaskStatus::Failed) }
}

/// The failure that answers a request of a kind that the action does not implement.
pub open spec fn unsupported() -> ResponseView {
    failed("not supported"@)
}

/// The failure of a command, with its result.
pub open spec fn failed_command(result: Option<CommandView>) -> ResponseView {
    ResponseView { command_result: result, ..failed("command failed"@) }
}

/// The outcome of a command that ran.
pub open spec fn executed_command(result: CommandView) -> ResponseView {
    ResponseView { command_result: Some(result), ..plain(TaskStatus::IsExecuted) }
}

/// The view of the answer to a request.
pub open spec fn answer(r: Result<TaskResponse, TaskResponse>) -> Result<ResponseView, ResponseView> {
    match r {
        Ok(x) => Ok(x@),
        Err(e) => Err(e@),
    }
}

impl TaskResponse {
    fn of(status: TaskStatus) -> (r: TaskResponse)
        ensures
            r@ == plain(status),
    {
        TaskResponse {
            status,
            changes: Vec::new(),
            msg: None,
            command_result: None,
            with: None,
            and: None,
        }
    }

    pub fn is_failed(msg: &str) -> (r: TaskResponse)
        ensures
            r@ == failed(msg@),
    {
        let mut r = TaskResponse::of(TaskStatus::Failed);
        r.msg = Some(String::from_str(msg));
        r
    }

    pub fn not_supported() -> (r: TaskResponse)
        ensures
            r@ == unsupported(),
    {
        TaskResponse::is_failed("not supported")
    }

    pub fn command_failed(result: Option<CommandResult>) -> (r: TaskResponse)
        ensures
            r@ == failed_command(command_option(result)),
    {
        let mut r = TaskResponse::is_failed("command failed");
        r.command_result = result;
        r
    }

    pub fn command_ok(result: CommandResult) -> (r: TaskResponse)
        ensures
            r@ == executed_command(result@),
    {
        let mut r = TaskResponse::of(TaskStatus::IsExecuted);
        r.command_result = Some(result);
        r
    }

    pub fn is_skipped() -> (r: TaskResponse)
        ensures
            r@ == plain(TaskStatus::IsSkipped),
    {
        TaskResponse::of(TaskStatus::IsSkipped)
    }

    pub fn is_matched() -> (r: TaskResponse)
        ensures
            r@ == plain(TaskStatus::IsMatched),
    {
        TaskResponse::of(TaskStatus::IsMatched)
    }

    pub fn is_created() -> (r: TaskResponse)
        ensures
            r@ == plain(TaskStatus::IsCreated),
    {
        TaskResponse::of(TaskStatus::IsCreated)
    }

    pub fn is_removed() -> (r: TaskResponse)
        ensures
            r@ == plain(TaskStatus::IsRemoved),
    {
        TaskResponse::of(TaskStatus::IsRemoved)
    }

    pub fn is_passive() -> (r: TaskResponse)
        ensures
            r@ == plain(TaskStatus::IsPassive),
    {
        TaskResponse::of(TaskStatus::IsPassive)
    }

    pub fn is_executed() -> (r: TaskResponse)
        ensures
            r@ == plain(TaskStatus::IsExecuted),
    {
        TaskResponse::of(TaskStatus::IsExecuted)
    }

    pub fn is_modified(changes: Vec<Field>) -> (r: TaskResponse)
        ensures
            r@ == with_changes(TaskStatus::IsModified, changes@),
    {
        let mut r = TaskResponse::of(TaskStatus::IsModified);
        r.changes = changes;
        r
    }

    pub fn needs_creation() -> (r: TaskResponse)
        ensures
            r@ == plain(TaskStatus::NeedsCreation),
    {
        TaskResponse::of(TaskStatus::NeedsCreation)
    }

    pub fn needs_modification(changes: Vec<Field>) -> (r: TaskResponse)
        ensures
            r@ == with_changes(TaskStatus::NeedsModification, changes@),
    {
        let mut r = TaskResponse::of(TaskStatus::NeedsModification);
        r.changes = changes;
        r
    }

    pub fn needs_removal() -> (r: TaskResponse)
        ensures
            r@ == plain(TaskStatus::NeedsRemoval),
    {
        TaskResponse::of(TaskStatus::NeedsRemoval)
    }

    pub fn needs_execution() -> (r: TaskResponse)
        ensures
            r@ == plain(TaskStatus::NeedsExecution),
    {
        TaskResponse::of(TaskStatus::NeedsExecution)
    }

    pub fn needs_passive() -> (r: TaskResponse)
        ensures
            r@ == plain(TaskStatus::NeedsPassive),
    {
        TaskResponse::of(TaskStatus::NeedsPassive)
    }
}

} // verus!
