//! The echo module: shows a message. It changes nothing on the host.

use crate::handle::template::{lift, rendered_field, Template};
use crate::playbooks::templar::TemplateMode;
use crate::tasks::common::{assembled, evaluated_answer, EvaluatedTask};
use crate::tasks::logic::{
    copy_with, post_logic, pre_logic, same_with, PostLogicInput, PreLogicInput,
};
use crate::tasks::request::{TaskRequest, TaskRequestType};
use crate::tasks::response::{answer, plain, unsupported, ResponseView, TaskResponse, TaskStatus};
use crate::util::text::text_option;
use crate::util::yaml::Entries;
use vstd::prelude::*;
use vstd::string::*;

verus! {

#[derive(Debug)]
pub struct EchoTask {
    pub name: Option<String>,
    pub msg: String,
    pub with: Option<PreLogicInput>,
    pub and: Option<PostLogicInput>,
}

#[derive(Debug)]
pub struct EchoAction {
    pub name: String,
    pub msg: String,
}

pub struct EchoView {
    pub name: Seq<char>,
    pub msg: Seq<char>,
}

impl View for EchoAction {
    type V = EchoView;

    open spec fn view(&self) -> EchoView {
        EchoView { name: self.name@, msg: self.msg@ }
    }
}

/// What an echo task evaluates to: its message rendered, not screened, and
/// its name, or that of the module where it has none.
pub open spec fn echo_action(vars: Entries, tm: TemplateMode, task: EchoTask) -> Result<
    EchoView,
    ResponseView,
> {
    match rendered_field(vars, tm, task.msg@) {
        Ok(msg) => Ok(
            EchoView {
                name: match task.name {
                    Some(n) => n@,
                    None => "echo"@,
                },
                msg,
            },
        ),
        Err(e) => Err(e),
    }
}

/// What an echo action answers: a query says that it is to run passively,
/// running it says that it did, and every other kind of request is not supported.
pub open spec fn echo_answer(kind: TaskRequestType) -> Result<ResponseView, ResponseView> {
    match kind {
        TaskRequestType::Query => Ok(plain(TaskStatus::NeedsPassive)),
        TaskRequestType::Passive => Ok(plain(TaskStatus::IsPassive)),
        _ => Err(unsupported()),
    }
}

impl EchoTask {
    pub fn get_module(&self) -> (r: String)
        ensures
            r@ == "echo"@,
    {
        String::from_str("echo")
    }

    pub fn get_name(&self) -> (r: Option<String>)
        ensures
            text_option(r) == text_option(self.name),
    {
        match &self.name {
            Some(n) => Some(n.clone()),
            None => None,
        }
    }

    pub fn get_with(&self) -> (r: Option<PreLogicInput>)
        ensures
            same_with(r, self.with),
    {
        copy_with(&self.with)
    }

    pub fn evaluate(&self, template: &Template, tm: TemplateMode) -> (r: Result<
        EvaluatedTask<EchoAction>,
        TaskResponse,
    >)
        ensures
            evaluated_answer(r) == assembled(
                echo_action(template.variables@, tm, *self),
                lift(
                    match self.with {
                        Some(i) => Some(pre_logic(template.variables@, tm, i)),
                        None => None,
                    },
                ),
                lift(
                    match self.and {
                        Some(i) => Some(post_logic(template.variables@, tm, i)),
                        None => None,
                    },
                ),
            ),
    {
        let msg = match template.string_unsafe_for_shell(tm, "msg", self.msg.as_str()) {
            Ok(v) => v,
            Err(e) => { return Err(e); },
        };
        let name = match &self.name {
            Some(n) => n.clone(),
            None => String::from_str("echo"),
        };
        let with = match PreLogicInput::template(template, tm, &self.with) {
            Ok(v) => v,
            Err(e) => { return Err(e); },
        };
        let and = match PostLogicInput::template(template, tm, &self.and) {
            Ok(v) => v,
            Err(e) => { return Err(e); },
        };
        Ok(EvaluatedTask { action: EchoAction { name, msg }, with, and })
    }
}

impl EchoAction {
    pub fn dispatch(&self, request: &TaskRequest) -> (r: Result<TaskResponse, TaskResponse>)
        ensures
            answer(r) == echo_answer(request.request_type),
    {
        match request.request_type {
            TaskRequestType::Query => Ok(TaskResponse::needs_passive()),
            TaskRequestType::Passive => Ok(TaskResponse::is_passive()),
            _ => Err(TaskResponse::not_supported()),
        }
    }
}

} // verus!
