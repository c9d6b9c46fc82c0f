//! The shell module: runs a command line on the host.
//!
//! Whether the command failed and whether it changed anything are decided
//! after it ran: by the conditions `failed_when` and `changed_when` where
//! the task has them, else by the return code and by the assumption that a
//! command changes something.

use crate::connection::command::{cmd_info, CommandView};
use crate::connection::connection::Connection;
use crate::handle::remote::{internal_run, is_outcome, Safety};
use crate::handle::template::{
    boolean_field, condition_field, lift, no_spaces_field, or_default, rendered_field, Template,
};
use crate::inventory::hosts::{Host, HostView};
use crate::connection::command::Forward;
use crate::playbooks::templar::TemplateMode;
use crate::tasks::common::{assembled, evaluated_answer, EvaluatedTask};
use crate::tasks::logic::{
    copy_with, post_logic, pre_logic, same_with, PostLogicInput, PreLogicInput,
};
use crate::tasks::request::{CheckRc, TaskRequest, TaskRequestType};
use crate::tasks::response::{
    answer, executed_command, failed_command, plain, unsupported, ResponseView, TaskResponse,
    TaskStatus,
};
use crate::util::text::text_option;
use crate::util::yaml::{
    blend_entries, lemma_first_is_position, put, Datum, Entries, Mapping, Node,
};
use vstd::prelude::*;
use vstd::string::*;

verus! {

#[derive(Debug)]
pub struct ShellTask {
    pub name: Option<String>,
    pub cmd: String,
    pub save: Option<String>,
    pub failed_when: Option<String>,
    pub changed_when: Option<String>,
    pub unsafe_: Option<String>,
    pub with: Option<PreLogicInput>,
    pub and: Option<PostLogicInput>,
}

#[derive(Debug)]
pub struct ShellAction {
    pub cmd: String,
    pub save: Option<String>,
    pub failed_when: Option<String>,
    pub changed_when: Option<String>,
    pub unsafe_: bool,
}

pub struct ShellView {
    pub cmd: Seq<char>,
    pub save: Option<Seq<char>>,
    pub failed_when: Option<Seq<char>>,
    pub changed_when: Option<Seq<char>>,
    pub unsafe_: bool,
}

impl View for ShellAction {
    type V = ShellView;

    open spec fn view(&self) -> ShellView {
        ShellView {
            cmd: self.cmd@,
            save: text_option(self.save),
            failed_when: text_option(self.failed_when),
            changed_when: text_option(self.changed_when),
            unsafe_: self.unsafe_,
        }
    }
}

/// Whether the command line is sent without screening: only where the task
/// says so. A task that does not say so has its command line screened as a
/// whole before it is sent.
pub open spec fn shell_unsafe(vars: Entries, tm: TemplateMode, task: ShellTask) -> Result<
    bool,
    ResponseView,
> {
    or_default(
        match task.unsafe_ {
            Some(t) => Some(boolean_field(vars, tm, "unsafe"@, t@, false)),
            None => None,
        },
        false,
    )
}

/// What a shell task evaluates to. The first field that fails, in the order
/// unsafe, cmd, save, failed_when, changed_when, decides the failure.
pub open spec fn shell_action(vars: Entries, tm: TemplateMode, task: ShellTask) -> Result<
    ShellView,
    ResponseView,
> {
    let cmd = rendered_field(vars, tm, task.cmd@);
    let save = lift(
        match task.save {
            Some(t) => Some(no_spaces_field(vars, tm, "save"@, t@)),
            None => None,
        },
    );
    let failed_when = lift(
        match task.failed_when {
            Some(t) => Some(rendered_field(vars, tm, t@)),
            None => None,
        },
    );
    let changed_when = lift(
        match task.changed_when {
            Some(t) => Some(rendered_field(vars, tm, t@)),
            None => None,
        },
    );
    match (shell_unsafe(vars, tm, task), cmd, save, failed_when, changed_when) {
        (Err(e), _, _, _, _) => Err(e),
        (_, Err(e), _, _, _) => Err(e),
        (_, _, Err(e), _, _) => Err(e),
        (_, _, _, Err(e), _) => Err(e),
        (_, _, _, _, Err(e)) => Err(e),
        (Ok(unsafe_), Ok(cmd), Ok(save), Ok(failed_when), Ok(changed_when)) => Ok(
            ShellView { cmd, save, failed_when, changed_when, unsafe_ },
        ),
    }
}

/// The structured result of a command: its return code under `rc`, its output under `out`.
pub open spec fn results_map(rc: int, out: Seq<char>) -> Entries {
    seq![("rc"@, Node::Int(rc)), ("out"@, Node::Text(out))]
}

/// A decision about a command that ran: the truth of the condition,
/// evaluated against the variables with the result of the command merged
/// over them, or the default where there is no condition.
pub open spec fn decided(
    condition: Option<Seq<char>>,
    vars: Entries,
    data: Entries,
    default: bool,
) -> Result<bool, ResponseView> {
    match condition {
        Some(expr) => condition_field(
            blend_entries(vars, data, data.len()),
            TemplateMode::Strict,
            expr,
        ),
        None => Ok(default),
    }
}

/// The outcome of a command that ran, from the two decisions. Failed takes
/// precedence: a failed command is a failure that carries the result of
/// the command, whether or not it changed anything. Else the command is
/// executed where it changed something, and passive where it did not.
pub open spec fn gated(task_result: ResponseView, should_fail: bool, changed: bool) -> Result<
    ResponseView,
    ResponseView,
> {
    if should_fail {
        Err(failed_command(task_result.command_result))
    } else if changed {
        Ok(task_result)
    } else {
        Ok(plain(TaskStatus::IsPassive))
    }
}

/// The host after the result of a command was saved under the key that the action names.
pub open spec fn saved(h: HostView, save: Option<Seq<char>>, data: Entries) -> HostView {
    match save {
        Some(key) => HostView { variables: put(h.variables, key, Node::Dict(data)), ..h },
        None => h,
    }
}

/// What comes of executing a shell action, from what came of sending its
/// command: the answer and the host afterwards. Nothing is saved where the
/// command could not be sent or a condition could not be evaluated.
pub open spec fn shell_executed(
    action: ShellView,
    vars: Entries,
    h: HostView,
    sent: Result<ResponseView, ResponseView>,
) -> (Result<ResponseView, ResponseView>, HostView) {
    match sent {
        Ok(task_result) => {
            let c = task_result.command_result->0;
            let data = results_map(c.rc, c.out);
            match decided(action.failed_when, vars, data, c.rc != 0) {
                Ok(should_fail) => match decided(action.changed_when, vars, data, true) {
                    Ok(changed) => (
                        gated(task_result, should_fail, changed),
                        saved(h, action.save, data),
                    ),
                    Err(e) => (Err(e), h),
                },
                Err(e) => (Err(e), h),
            }
        },
        Err(e) => (Err(e), h),
    }
}

/// Failed before changed: for an action without conditions, a command that
/// returned 0 is executed, and any other return code is a failure that
/// carries the result of the command. With conditions, a command that did
/// not fail and did not change anything is passive. A command that failed
/// is a failure whether or not it changed anything.
pub proof fn lemma_gating(action: ShellView, vars: Entries, h: HostView, c: CommandView)
    ensures
        action.failed_when is None && action.changed_when is None ==> shell_executed(
            action,
            vars,
            h,
            Ok(executed_command(c)),
        ).0 == (if c.rc != 0 {
            Err::<ResponseView, ResponseView>(failed_command(Some(c)))
        } else {
            Ok::<ResponseView, ResponseView>(executed_command(c))
        }),
        decided(action.failed_when, vars, results_map(c.rc, c.out), c.rc != 0) == Ok::<
            bool,
            ResponseView,
        >(false) && decided(action.changed_when, vars, results_map(c.rc, c.out), true) == Ok::<
            bool,
            ResponseView,
        >(false) ==> shell_executed(action, vars, h, Ok(executed_command(c))).0 == Ok::<
            ResponseView,
            ResponseView,
        >(plain(TaskStatus::IsPassive)),
        forall|changed: bool|
            gated(executed_command(c), true, changed) == Err::<ResponseView, ResponseView>(
                failed_command(Some(c)),
            ),
{
}

pub open spec fn shell_safety(action: ShellView) -> Safety {
    if action.unsafe_ {
        Safety::Unsafe
    } else {
        Safety::Safe
    }
}

/// The structured result of a command.
pub fn build_results_map(rc: i32, out: &str) -> (r: Mapping)
    ensures
        r@ == results_map(rc as int, out@),
{
    let mut result = Mapping::new();
    result.insert(String::from_str("rc"), Datum::Number(rc as i64));
    let ghost first = result@;
    proof {
        lemma_first_is_position(Seq::<(Seq<char>, Node)>::empty(), "rc"@, 0);
        assert(first =~= seq![("rc"@, Node::Int(rc as int))]);
        reveal_strlit("rc");
        reveal_strlit("out");
        assert("rc"@.len() != "out"@.len());
        lemma_first_is_position(first, "out"@, 1);
    }
    result.insert(String::from_str("out"), Datum::Text(String::from_str(out)));
    assert(result@ =~= results_map(rc as int, out@));
    result
}

/// Saves the result of a command in the host's own variables under `key`.
pub fn save_results(host: &mut Host, key: &str, map_data: Mapping)
    ensures
        final(host)@ == saved(old(host)@, Some(key@), map_data@),
{
    let mut result = Mapping::new();
    let value = Datum::Mapping(map_data);
    proof {
        lemma_first_is_position(Seq::<(Seq<char>, Node)>::empty(), key@, 0);
    }
    result.insert(String::from_str(key), value);
    assert(result@ =~= seq![(key@, Node::Dict(map_data@))]);
    host.update_variables(result);
    proof {
        reveal_with_fuel(crate::util::yaml::put_all, 3);
    }
}

impl ShellTask {
    pub fn get_module(&self) -> (r: String)
        ensures
            r@ == "Shell"@,
    {
        String::from_str("Shell")
    }

    pub fn get_name(&self) -> (r: Option<String>)
        ensures
            text_option(r) == text_option(self.name),
    {
        match &self.name {
            Some(n) => Some(n.clone()),
            None => None,
        }
    }

    pub fn get_with(&self) -> (r: Option<PreLogicInput>)
        ensures
            same_with(r, self.with),
    {
        copy_with(&self.with)
    }

    pub fn evaluate(&self, template: &Template, tm: TemplateMode) -> (r: Result<
        EvaluatedTask<ShellAction>,
        TaskResponse,
    >)
        ensures
            evaluated_answer(r) == assembled(
                shell_action(template.variables@, tm, *self),
                lift(
                    match self.with {
                        Some(i) => Some(pre_logic(template.variables@, tm, i)),
                        None => None,
                    },
                ),
                lift(
                    match self.and {
                        Some(i) => Some(post_logic(template.variables@, tm, i)),
                        None => None,
                    },
                ),
            ),
    {
        let unsafe_ = match template.boolean_option_default_false(tm, "unsafe", &self.unsafe_) {
            Ok(v) => v,
            Err(e) => { return Err(e); },
        };
        let cmd = match template.string_unsafe_for_shell(tm, "cmd", self.cmd.as_str()) {
            Ok(v) => v,
            Err(e) => { return Err(e); },
        };
        let save = match template.string_option_no_spaces(tm, "save", &self.save) {
            Ok(v) => v,
            Err(e) => { return Err(e); },
        };
        let failed_when = match template.string_option_unsafe_for_shell(
            tm,
            "failed_when",
            &self.failed_when,
        ) {
            Ok(v) => v,
            Err(e) => { return Err(e); },
        };
        let changed_when = match template.string_option_unsafe_for_shell(
            tm,
            "changed_when",
            &self.changed_when,
        ) {
            Ok(v) => v,
            Err(e) => { return Err(e); },
        };
        let with = match PreLogicInput::template(template, tm, &self.with) {
            Ok(v) => v,
            Err(e) => { return Err(e); },
        };
        let and = match PostLogicInput::template(template, tm, &self.and) {
            Ok(v) => v,
            Err(e) => { return Err(e); },
        };
        Ok(
            EvaluatedTask {
                action: ShellAction { cmd, save, failed_when, changed_when, unsafe_ },
                with,
                and,
            },
        )
    }
}

impl ShellAction {
    /// The outcome of a command that ran, from the decisions whether it
    /// failed and whether it changed anything.
    pub fn execute_outcome(task_result: TaskResponse, should_fail: bool, changed: bool) -> (r:
        Result<TaskResponse, TaskResponse>)
        ensures
            answer(r) == gated(task_result@, should_fail, changed),
    {
        if should_fail {
            Err(TaskResponse::command_failed(task_result.command_result))
        } else if changed {
            Ok(task_result)
        } else {
            Ok(TaskResponse::is_passive())
        }
    }

    /// Decides about a command that ran, by the condition or by the default.
    pub fn decide(
        template: &Template,
        condition: &Option<String>,
        map_data: &Mapping,
        default: bool,
    ) -> (r: Result<bool, TaskResponse>)
        ensures
            crate::handle::template::plain_answer(r) == decided(
                text_option(*condition),
                template.variables@,
                map_data@,
                default,
            ),
    {
        match condition {
            Some(expr) => template.test_condition_with_extra_data(
                TemplateMode::Strict,
                expr.as_str(),
                map_data,
            ),
            None => Ok(default),
        }
    }

    /// Answers a request. A query says that the command is to be executed.
    /// `Execute` runs it and decides on its result. Every other kind of
    /// request is not supported.
    pub fn dispatch<C: Connection>(
        &self,
        conn: &C,
        template: &Template,
        host: &mut Host,
        request: &TaskRequest,
    ) -> (r: Result<TaskResponse, TaskResponse>)
        ensures
            match request.request_type {
                TaskRequestType::Query => answer(r) == Ok::<ResponseView, ResponseView>(
                    plain(TaskStatus::NeedsExecution),
                ) && final(host)@ == old(host)@,
                TaskRequestType::Execute => exists|sent: Result<ResponseView, ResponseView>|
                    is_outcome(sent, self@.cmd, shell_safety(self@), CheckRc::Unchecked) && (
                    answer(r),
                    final(host)@,
                ) == #[trigger] shell_executed(self@, template.variables@, old(host)@, sent),
                _ => answer(r) == Err::<ResponseView, ResponseView>(unsupported()) && final(host)@
                    == old(host)@,
            },
    {
        match request.request_type {
            TaskRequestType::Query => Ok(TaskResponse::needs_execution()),
            TaskRequestType::Execute => {
                let safety = if self.unsafe_ {
                    Safety::Unsafe
                } else {
                    Safety::Safe
                };
                let ran = internal_run(
                    conn,
                    self.cmd.as_str(),
                    safety,
                    CheckRc::Unchecked,
                    Forward::No,
                );
                let ghost sent = answer(ran);
                let ghost before = host@;
                let task_result = match ran {
                    Ok(t) => t,
                    Err(e) => {
                        assert((answer(Err::<TaskResponse, TaskResponse>(e)), host@)
                            == shell_executed(self@, template.variables@, before, sent));
                        return Err(e);
                    },
                };
                let (rc, out) = cmd_info(&task_result);
                let map_data = build_results_map(rc, out.as_str());
                let should_fail = match ShellAction::decide(
                    template,
                    &self.failed_when,
                    &map_data,
                    rc != 0,
                ) {
                    Ok(b) => b,
                    Err(e) => {
                        assert((answer(Err::<TaskResponse, TaskResponse>(e)), host@)
                            == shell_executed(self@, template.variables@, before, sent));
                        return Err(e);
                    },
                };
                let should_mark_changed = match ShellAction::decide(
                    template,
                    &self.changed_when,
                    &map_data,
                    true,
                ) {
                    Ok(b) => b,
                    Err(e) => {
                        assert((answer(Err::<TaskResponse, TaskResponse>(e)), host@)
                            == shell_executed(self@, template.variables@, before, sent));
                        return Err(e);
                    },
                };
                match &self.save {
                    Some(key) => {
                        save_results(host, key.as_str(), map_data);
                    },
                    None => {},
                }
                let r = ShellAction::execute_outcome(task_result, should_fail, should_mark_changed);
                assert((answer(r), host@) == shell_executed(
                    self@,
                    template.variables@,
                    before,
                    sent,
                ));
                r
            },
            _ => Err(TaskResponse::not_supported()),
        }
    }
}

} // verus!
