//! The git module: brings a remote checkout to a repository, a branch and,
//! where updates are asked for, to the version that the repository offers.

use crate::connection::command::cmd_info;
use crate::connection::connection::Connection;
use crate::handle::remote::{
    all_attributes, and_then, attributes_queried, create_directory, created, done, done_view,
    get_mode, is_built_outcome, is_outcome, is_processed, lemma_lost, lemma_lost_attributes, lost,
    lost_attributes, lost_line, mode_answer, modified, os_of,
    process_all_common_file_attributes, process_common_file_attributes,
    query_common_file_attributes, query_verdict, queried_delta, queried_mode, result_of,
    run_forwardable, run_unsafe, unknown_os, Outcome, Safety, Step,
};
use crate::handle::template::{
    boolean_field, lift, option_answer, or_default, path_field, screened_field, text_answer,
    Template,
};
use crate::inventory::hosts::Host;
use crate::playbooks::templar::TemplateMode;
use crate::tasks::common::{assembled, evaluated_answer, EvaluatedTask};
use crate::tasks::fields::{copy_fields, holds_field, Field};
use crate::tasks::files::{
    attributes_option, file_attributes, FileAttributesEvaluated, FileAttributesInput,
    FileAttributesView, Recurse,
};
use crate::tasks::logic::{
    copy_with, post_logic, pre_logic, same_with, PostLogicInput, PreLogicInput,
};
use crate::tasks::cmd_library::{mode_command, path_command};
use crate::tasks::request::{CheckRc, TaskRequest, TaskRequestType};
use crate::tasks::response::{
    answer, failed, plain, unsupported, ResponseView, TaskResponse, TaskStatus,
};
use crate::util::text::{
    contains_text, ends_with, join, joined, occurs_in, remove_char, starts_with, str_eq,
    text_list, text_option, without,
};
use crate::util::yaml::Entries;
use vstd::prelude::*;
use vstd::string::*;

verus! {

#[derive(Debug)]
pub struct GitTask {
    pub name: Option<String>,
    pub repo: String,
    pub path: String,
    pub branch: Option<String>,
    /// Options for ssh, each a name and a value, in the order in which they are passed on.
    pub ssh_options: Option<Vec<(String, String)>>,
    pub accept_keys: Option<String>,
    pub update: Option<String>,
    pub attributes: Option<FileAttributesInput>,
    pub with: Option<PreLogicInput>,
    pub and: Option<PostLogicInput>,
}

#[derive(Debug)]
pub struct GitAction {
    pub repo: String,
    pub path: String,
    pub branch: String,
    pub ssh_options: Vec<String>,
    pub accept_keys: bool,
    pub update: bool,
    pub attributes: Option<FileAttributesEvaluated>,
}

pub struct GitView {
    pub repo: Seq<char>,
    pub path: Seq<char>,
    pub branch: Seq<char>,
    pub ssh_options: Seq<Seq<char>>,
    pub accept_keys: bool,
    pub update: bool,
    pub attributes: Option<FileAttributesView>,
}

impl View for GitAction {
    type V = GitView;

    open spec fn view(&self) -> GitView {
        GitView {
            repo: self.repo@,
            path: self.path@,
            branch: self.branch@,
            ssh_options: text_list(self.ssh_options@),
            accept_keys: self.accept_keys,
            update: self.update,
            attributes: attributes_option(self.attributes),
        }
    }
}

/// The declared options as arguments for ssh, followed by the option that
/// keeps ssh from asking anything.
pub open spec fn ssh_arguments(options: Option<Vec<(String, String)>>) -> Seq<Seq<char>> {
    match options {
        Some(pairs) => Seq::new(
            pairs.len() as nat,
            |i: int| "-o "@ + pairs[i].0@ + "="@ + pairs[i].1@,
        ).push("-o BatchMode=Yes"@),
        None => seq!["-o BatchMode=Yes"@],
    }
}

/// What a git task evaluates to. The first field that fails, in the order
/// repo, path, branch, accept_keys, update, attributes, decides the failure.
pub open spec fn git_action(vars: Entries, tm: TemplateMode, task: GitTask) -> Result<
    GitView,
    ResponseView,
> {
    let branch = or_default(
        match task.branch {
            Some(t) => Some(screened_field(vars, tm, "branch"@, t@)),
            None => None,
        },
        "main"@,
    );
    let accept_keys = or_default(
        match task.accept_keys {
            Some(t) => Some(boolean_field(vars, tm, "accept_keys"@, t@, true)),
            None => None,
        },
        true,
    );
    let update = or_default(
        match task.update {
            Some(t) => Some(boolean_field(vars, tm, "update"@, t@, true)),
            None => None,
        },
        true,
    );
    let attributes = lift(
        match task.attributes {
            Some(i) => Some(file_attributes(vars, tm, i)),
            None => None,
        },
    );
    match (
        screened_field(vars, tm, "repo"@, task.repo@),
        path_field(vars, tm, "path"@, task.path@),
        branch,
        accept_keys,
        update,
        attributes,
    ) {
        (Err(e), _, _, _, _, _) => Err(e),
        (_, Err(e), _, _, _, _) => Err(e),
        (_, _, Err(e), _, _, _) => Err(e),
        (_, _, _, Err(e), _, _) => Err(e),
        (_, _, _, _, Err(e), _) => Err(e),
        (_, _, _, _, _, Err(e)) => Err(e),
        (Ok(repo), Ok(path), Ok(branch), Ok(accept_keys), Ok(update), Ok(attributes)) => Ok(
            GitView {
                repo,
                path,
                branch,
                ssh_options: ssh_arguments(task.ssh_options),
                accept_keys,
                update,
                attributes,
            },
        ),
    }
}

/// Whether the repository is reached over ssh.
pub open spec fn ssh_repo(a: GitView) -> bool {
    occurs_in("@"@, a.repo) || occurs_in("ssh://"@, a.repo)
}

/// The environment that git commands which reach the repository run in.
pub open spec fn ssh_environment(a: GitView) -> Seq<char> {
    if "http"@.is_prefix_of(a.path) {
        "GIT_TERMINAL_PROMPT=0"@
    } else {
        "GIT_SSH_COMMAND=\"ssh "@ + joined(a.ssh_options, " "@) + (if a.accept_keys {
            " -o StrictHostKeyChecking=accept-new"@
        } else {
            ""@
        }) + "\" GIT_TERMINAL_PROMPT=0"@
    }
}

/// The directory that a checkout keeps its repository in.
pub open spec fn git_directory(path: Seq<char>) -> Seq<char> {
    if "/"@.is_suffix_of(path) {
        path + ".git"@
    } else {
        path + "/.git"@
    }
}

pub open spec fn local_version_line(a: GitView) -> Seq<char> {
    "git -C "@ + a.path + " rev-parse HEAD"@
}

pub open spec fn remote_version_line(a: GitView) -> Seq<char> {
    ssh_environment(a) + " git ls-remote "@ + a.repo + " | head -n 1 | cut -f 1"@
}

pub open spec fn pull_line(a: GitView) -> Seq<char> {
    ssh_environment(a) + " git -C "@ + a.path + " pull"@
}

pub open spec fn local_branch_line(a: GitView) -> Seq<char> {
    "git -C "@ + a.path + " rev-parse --abbrev-ref HEAD"@
}

pub open spec fn clone_line(a: GitView) -> Seq<char> {
    ssh_environment(a) + " git clone "@ + a.repo + " "@ + a.path
}

pub open spec fn switch_branch_line(a: GitView) -> Seq<char> {
    "git -C "@ + a.path + " switch "@ + a.branch
}

/// How a command that reaches the repository is sent: screened where the
/// repository is reached over ssh.
pub open spec fn repository_safety(a: GitView) -> Safety {
    if ssh_repo(a) {
        Safety::Safe
    } else {
        Safety::Unsafe
    }
}

/// The output of the command behind an outcome.
pub open spec fn output_of(sent: Result<ResponseView, ResponseView>) -> Result<
    Seq<char>,
    ResponseView,
> {
    match sent {
        Ok(resp) => Ok(result_of(resp).out),
        Err(e) => Err(e),
    }
}

/// What differs of a checkout that has a version: the version, where
/// updates are asked for and the repository offers another, and the branch,
/// where it is not the declared one.
pub open spec fn repository_delta(
    a: GitView,
    local_version: Seq<char>,
    remote_version: Seq<char>,
    local_branch: Seq<char>,
) -> Seq<Field> {
    (if a.update && remote_version != local_version {
        seq![Field::Version]
    } else {
        Seq::<Field>::empty()
    }) + (if local_branch != a.branch {
        seq![Field::Branch]
    } else {
        Seq::<Field>::empty()
    })
}

/// The version of the checkout that the outcome of `rev-parse` shows.
pub open spec fn version_answer(sent: Outcome) -> Result<Option<Seq<char>>, ResponseView> {
    match sent {
        Ok(resp) => Ok(version_seen(result_of(resp).rc, result_of(resp).out)),
        Err(e) => Err(e),
    }
}

/// What a query of a checkout answers, from the outcomes of its commands:
/// the query of the attributes of its directory, the mode query on the
/// directory of its repository, and the questions for its version, for the
/// version that the repository offers, and for its branch.
///
/// A checkout whose directory or whose repository does not exist is to
/// be created, and no git command is run. One without a version differs
/// in its version. Else it differs in what `repository_delta` names. The
/// verdict lists the attributes that differ first.
pub open spec fn git_queried(
    a: GitView,
    mode_sent: Outcome,
    owner_sent: Outcome,
    repository: Outcome,
    version: Outcome,
    offered: Outcome,
    branch: Outcome,
) -> Outcome {
    match attributes_queried(a.attributes, mode_sent, owner_sent) {
        Ok(Some((_, delta))) => match mode_answer(repository) {
            Ok(Some(_)) => match version_answer(version) {
                Ok(Some(local)) => match output_of(offered) {
                    Ok(remote) => match output_of(branch) {
                        Ok(current) => Ok(
                            query_verdict(
                                delta + repository_delta(a, local, remote, current),
                                true,
                            ),
                        ),
                        Err(e) => Err(e),
                    },
                    Err(e) => Err(e),
                },
                Ok(None) => Ok(query_verdict(delta + seq![Field::Version], true)),
                Err(e) => Err(e),
            },
            Ok(None) => Ok(plain(TaskStatus::NeedsCreation)),
            Err(e) => Err(e),
        },
        Ok(None) => Ok(plain(TaskStatus::NeedsCreation)),
        Err(e) => Err(e),
    }
}

/// What `Create` answers, from the outcomes of its steps in their order:
/// the directory, the attributes, the directory once more and the clone,
/// and the switch to the branch. The first failure is the answer.
pub open spec fn git_created(
    dir: Outcome,
    set: Step,
    dir_again: Outcome,
    cloned: Outcome,
    switched: Outcome,
) -> Outcome {
    created(
        and_then(
            done_view(dir),
            and_then(
                set,
                and_then(done_view(dir_again), and_then(done_view(cloned), done_view(switched))),
            ),
        ),
    )
}

/// What `Modify` answers, from the outcomes of its steps in their order:
/// the attributes among the changes, the pull where the branch or the
/// version is among them, and then the switch where the branch is.
pub open spec fn git_modified(changes: Seq<Field>, set: Step, pulled: Outcome, switched: Outcome) -> Outcome {
    modified(
        and_then(
            set,
            and_then(
                if changes.contains(Field::Branch) || changes.contains(Field::Version) {
                    done_view(pulled)
                } else {
                    Ok(())
                },
                if changes.contains(Field::Branch) {
                    done_view(switched)
                } else {
                    Ok(())
                },
            ),
        ),
        changes,
    )
}

/// The version that `rev-parse` printed, without its line breaks; none
/// where the command failed, which is how a checkout without a version shows.
pub open spec fn version_seen(rc: int, out: Seq<char>) -> Option<Seq<char>> {
    if rc == 0 {
        Some(without(out, '\n'))
    } else {
        None
    }
}

pub fn version_of(rc: i32, out: &str) -> (r: Option<String>)
    ensures
        text_option(r) == version_seen(rc as int, out@),
{
    if rc == 0 {
        Some(remove_char(out, '\n'))
    } else {
        None
    }
}

impl GitTask {
    pub fn get_module(&self) -> (r: String)
        ensures
            r@ == "git"@,
    {
        String::from_str("git")
    }

    pub fn get_name(&self) -> (r: Option<String>)
        ensures
            text_option(r) == text_option(self.name),
    {
        match &self.name {
            Some(n) => Some(n.clone()),
            None => None,
        }
    }

    pub fn get_with(&self) -> (r: Option<PreLogicInput>)
        ensures
            same_with(r, self.with),
    {
        copy_with(&self.with)
    }

    /// The declared options as arguments for ssh.
    pub fn ssh_option_list(&self) -> (r: Vec<String>)
        ensures
            text_list(r@) == ssh_arguments(self.ssh_options),
    {
        let mut options: Vec<String> = Vec::new();
        match &self.ssh_options {
            Some(pairs) => {
                let mut i: usize = 0;
                while i < pairs.len()
                    invariant
                        i <= pairs.len(),
                        options.len() == i,
                        forall|j: int|
                            0 <= j < i ==> (#[trigger] options[j])@ == "-o "@ + pairs[j].0@ + "="@
                                + pairs[j].1@,
                    decreases pairs.len() - i,
                {
                    let mut option = String::from_str("-o ");
                    option.append(pairs[i].0.as_str());
                    option.append("=");
                    option.append(pairs[i].1.as_str());
                    options.push(option);
                    i += 1;
                }
            },
            None => {},
        }
        options.push(String::from_str("-o BatchMode=Yes"));
        assert(text_list(options@) =~= ssh_arguments(self.ssh_options));
        options
    }

    pub fn evaluate(&self, template: &Template, tm: TemplateMode) -> (r: Result<
        EvaluatedTask<GitAction>,
        TaskResponse,
    >)
        ensures
            evaluated_answer(r) == assembled(
                git_action(template.variables@, tm, *self),
                lift(
                    match self.with {
                        Some(i) => Some(pre_logic(template.variables@, tm, i)),
                        None => None,
                    },
                ),
                lift(
                    match self.and {
                        Some(i) => Some(post_logic(template.variables@, tm, i)),
                        None => None,
                    },
                ),
            ),
    {
        let repo = match template.string(tm, "repo", self.repo.as_str()) {
            Ok(v) => v,
            Err(e) => { return Err(e); },
        };
        let path = match template.path(tm, "path", self.path.as_str()) {
            Ok(v) => v,
            Err(e) => { return Err(e); },
        };
        let branch = match template.string_option_default(tm, "branch", &self.branch, "main") {
            Ok(v) => v,
            Err(e) => { return Err(e); },
        };
        let accept_keys = match template.boolean_option_default_true(
            tm,
            "accept_keys",
            &self.accept_keys,
        ) {
            Ok(v) => v,
            Err(e) => { return Err(e); },
        };
        let update = match template.boolean_option_default_true(tm, "update", &self.update) {
            Ok(v) => v,
            Err(e) => { return Err(e); },
        };
        let attributes = match FileAttributesInput::template(template, tm, &self.attributes) {
            Ok(v) => v,
            Err(e) => { return Err(e); },
        };
        let ssh_options = self.ssh_option_list();
        let with = match PreLogicInput::template(template, tm, &self.with) {
            Ok(v) => v,
            Err(e) => { return Err(e); },
        };
        let and = match PostLogicInput::template(template, tm, &self.and) {
            Ok(v) => v,
            Err(e) => { return Err(e); },
        };
        Ok(
            EvaluatedTask {
                action: GitAction {
                    repo,
                    path,
                    branch,
                    ssh_options,
                    accept_keys,
                    update,
                    attributes,
                },
                with,
                and,
            },
        )
    }
}

impl GitAction {
    pub fn is_ssh_repo(&self) -> (r: bool)
        ensures
            r == ssh_repo(self@),
    {
        contains_text(self.repo.as_str(), "@") || contains_text(self.repo.as_str(), "ssh://")
    }

    pub fn get_ssh_options_string(&self) -> (r: String)
        ensures
            r@ == ssh_environment(self@),
    {
        if starts_with(self.path.as_str(), "http") {
            String::from_str("GIT_TERMINAL_PROMPT=0")
        } else {
            let options = join(&self.ssh_options, " ");
            let mut r = String::from_str("GIT_SSH_COMMAND=\"ssh ");
            r.append(options.as_str());
            if self.accept_keys {
                r.append(" -o StrictHostKeyChecking=accept-new");
            } else {
                r.append("");
            }
            r.append("\" GIT_TERMINAL_PROMPT=0");
            r
        }
    }

    /// The directory that the checkout keeps its repository in.
    pub fn git_path(&self) -> (r: String)
        ensures
            r@ == git_directory(self@.path),
    {
        let mut r = self.path.clone();
        if ends_with(self.path.as_str(), "/") {
            r.append(".git");
        } else {
            r.append("/.git");
        }
        r
    }

    pub fn local_version_command(&self) -> (r: String)
        ensures
            r@ == local_version_line(self@),
    {
        let mut r = String::from_str("git -C ");
        r.append(self.path.as_str());
        r.append(" rev-parse HEAD");
        r
    }

    pub fn remote_version_command(&self) -> (r: String)
        ensures
            r@ == remote_version_line(self@),
    {
        let mut r = self.get_ssh_options_string();
        r.append(" git ls-remote ");
        r.append(self.repo.as_str());
        r.append(" | head -n 1 | cut -f 1");
        r
    }

    pub fn pull_command(&self) -> (r: String)
        ensures
            r@ == pull_line(self@),
    {
        let mut r = self.get_ssh_options_string();
        r.append(" git -C ");
        r.append(self.path.as_str());
        r.append(" pull");
        r
    }

    pub fn local_branch_command(&self) -> (r: String)
        ensures
            r@ == local_branch_line(self@),
    {
        let mut r = String::from_str("git -C ");
        r.append(self.path.as_str());
        r.append(" rev-parse --abbrev-ref HEAD");
        r
    }

    pub fn clone_command(&self) -> (r: String)
        ensures
            r@ == clone_line(self@),
    {
        let mut r = self.get_ssh_options_string();
        r.append(" git clone ");
        r.append(self.repo.as_str());
        r.append(" ");
        r.append(self.path.as_str());
        r
    }

    pub fn switch_branch_command(&self) -> (r: String)
        ensures
            r@ == switch_branch_line(self@),
    {
        let mut r = String::from_str("git -C ");
        r.append(self.path.as_str());
        r.append(" switch ");
        r.append(self.branch.as_str());
        r
    }

    /// What differs of a checkout that has a version.
    pub fn repository_changes(
        &self,
        local_version: &str,
        remote_version: &str,
        local_branch: &str,
    ) -> (r: Vec<Field>)
        ensures
            r@ == repository_delta(self@, local_version@, remote_version@, local_branch@),
    {
        let mut changes: Vec<Field> = Vec::new();
        if self.update && !str_eq(remote_version, local_version) {
            changes.push(Field::Version);
        }
        if !str_eq(local_branch, self.branch.as_str()) {
            changes.push(Field::Branch);
        }
        assert(changes@ =~= repository_delta(
            self@,
            local_version@,
            remote_version@,
            local_branch@,
        ));
        changes
    }

    /// Runs a command that reaches the repository: screened and with the
    /// credentials of the connection where the repository is reached over
    /// ssh, else as it is.
    fn run_to_repository<C: Connection>(&self, conn: &C, cmd: &str) -> (r: Result<
        TaskResponse,
        TaskResponse,
    >)
        ensures
            is_outcome(answer(r), cmd@, repository_safety(self@), CheckRc::Checked),
            r matches Ok(resp) ==> resp.command_result is Some,
    {
        if self.is_ssh_repo() {
            run_forwardable(conn, cmd, CheckRc::Checked)
        } else {
            run_unsafe(conn, cmd, CheckRc::Checked)
        }
    }

    /// The version of the checkout; none where it has none yet.
    pub fn get_local_version<C: Connection>(&self, conn: &C) -> (r: Result<
        Option<String>,
        TaskResponse,
    >)
        ensures
            exists|sent: Result<ResponseView, ResponseView>| #[trigger]
                is_outcome(sent, local_version_line(self@), Safety::Unsafe, CheckRc::Unchecked)
                    && option_answer(r) == version_answer(sent),
    {
        let cmd = self.local_version_command();
        let ran = run_unsafe(conn, cmd.as_str(), CheckRc::Unchecked);
        let ghost sent = answer(ran);
        let r = match ran {
            Ok(result) => {
                let (rc, out) = cmd_info(&result);
                Ok(version_of(rc, out.as_str()))
            },
            Err(e) => Err(e),
        };
        assert(is_outcome(sent, local_version_line(self@), Safety::Unsafe, CheckRc::Unchecked));
        r
    }

    /// The version that the repository offers.
    pub fn get_remote_version<C: Connection>(&self, conn: &C) -> (r: Result<String, TaskResponse>)
        ensures
            exists|sent: Result<ResponseView, ResponseView>| #[trigger]
                is_outcome(
                    sent,
                    remote_version_line(self@),
                    repository_safety(self@),
                    CheckRc::Checked,
                ) && text_answer(r) == output_of(sent),
    {
        let cmd = self.remote_version_command();
        let ran = self.run_to_repository(conn, cmd.as_str());
        let ghost sent = answer(ran);
        let r = match ran {
            Ok(result) => {
                let (_rc, out) = cmd_info(&result);
                Ok(out)
            },
            Err(e) => Err(e),
        };
        assert(is_outcome(
            sent,
            remote_version_line(self@),
            repository_safety(self@),
            CheckRc::Checked,
        ));
        r
    }

    pub fn pull<C: Connection>(&self, conn: &C) -> (r: Result<(), TaskResponse>)
        ensures
            exists|sent: Result<ResponseView, ResponseView>| #[trigger]
                is_outcome(sent, pull_line(self@), repository_safety(self@), CheckRc::Checked)
                    && done(r) == done_view(sent),
    {
        let cmd = self.pull_command();
        let ran = self.run_to_repository(conn, cmd.as_str());
        let ghost sent = answer(ran);
        let r = match ran {
            Ok(_) => Ok(()),
            Err(e) => Err(e),
        };
        assert(is_outcome(sent, pull_line(self@), repository_safety(self@), CheckRc::Checked));
        r
    }

    /// The branch of the checkout.
    pub fn get_local_branch<C: Connection>(&self, conn: &C) -> (r: Result<String, TaskResponse>)
        ensures
            exists|sent: Result<ResponseView, ResponseView>| #[trigger]
                is_outcome(sent, local_branch_line(self@), Safety::Unsafe, CheckRc::Checked)
                    && text_answer(r) == output_of(sent),
    {
        let cmd = self.local_branch_command();
        let ran = run_unsafe(conn, cmd.as_str(), CheckRc::Checked);
        let ghost sent = answer(ran);
        let r = match ran {
            Ok(result) => {
                let (_rc, out) = cmd_info(&result);
                Ok(out)
            },
            Err(e) => Err(e),
        };
        assert(is_outcome(sent, local_branch_line(self@), Safety::Unsafe, CheckRc::Checked));
        r
    }

    /// Creates the directory of the checkout and clones the repository
    /// into it. The result is the failure of the first, else what came of
    /// the second.
    pub fn clone<C: Connection>(&self, conn: &C, host: &Host) -> (r: Result<(), TaskResponse>)
        ensures
            match host@.os_type {
                Some(_) => exists|dir: Outcome, cloned: Outcome|
                    is_built_outcome(dir, path_command("mkdir -p "@, self@.path), CheckRc::Checked)
                        && is_outcome(
                        cloned,
                        clone_line(self@),
                        repository_safety(self@),
                        CheckRc::Checked,
                    ) && done(r) == #[trigger] and_then(done_view(dir), done_view(cloned)),
                None => done(r) == Err::<(), ResponseView>(unknown_os()),
            },
    {
        let os_type = match os_of(host) {
            Ok(os) => os,
            Err(e) => { return Err(e); },
        };
        let ghost making = path_command("mkdir -p "@, self@.path);
        let made = create_directory(conn, os_type, self.path.as_str());
        let ghost dir: Outcome = choose|sent: Outcome| #[trigger]
            is_built_outcome(sent, making, CheckRc::Checked) && done(made) == done_view(sent);
        let ghost mut cloned: Outcome = lost_line(clone_line(self@), repository_safety(self@));
        proof {
            lemma_lost(Ok(clone_line(self@)), repository_safety(self@), CheckRc::Checked);
        }
        let r = match made {
            Ok(()) => {
                let cmd = self.clone_command();
                let ran = self.run_to_repository(conn, cmd.as_str());
                proof {
                    cloned = answer(ran);
                }
                match ran {
                    Ok(_) => Ok(()),
                    Err(e) => Err(e),
                }
            },
            Err(e) => Err(e),
        };
        assert(done(r) == and_then(done_view(dir), done_view(cloned)));
        r
    }

    pub fn switch_branch<C: Connection>(&self, conn: &C) -> (r: Result<(), TaskResponse>)
        ensures
            exists|sent: Result<ResponseView, ResponseView>| #[trigger]
                is_outcome(sent, switch_branch_line(self@), Safety::Unsafe, CheckRc::Checked)
                    && done(r) == done_view(sent),
    {
        let cmd = self.switch_branch_command();
        let ran = run_unsafe(conn, cmd.as_str(), CheckRc::Checked);
        let ghost sent = answer(ran);
        let r = match ran {
            Ok(_) => Ok(()),
            Err(e) => Err(e),
        };
        assert(is_outcome(sent, switch_branch_line(self@), Safety::Unsafe, CheckRc::Checked));
        r
    }

    /// Answers a request.
    ///
    /// A query asks for the creation of a checkout whose directory or
    /// repository does not exist, else for the modification of what differs
    /// of attributes, version and branch, else says that the checkout
    /// matches. `Create` makes the directory, sets the attributes, clones
    /// and switches to the branch. `Modify` sets the attributes among the
    /// changes, pulls where the branch or the version is among them, and
    /// then switches where the branch is. Every other kind of request is
    /// not supported.
    pub fn dispatch<C: Connection>(&self, conn: &C, host: &Host, request: &TaskRequest) -> (r:
        Result<TaskResponse, TaskResponse>)
        ensures
            match request.request_type {
                TaskRequestType::Query => match host@.os_type {
                    Some(os) => exists|
                        mode_sent: Outcome,
                        owner_sent: Outcome,
                        repository: Outcome,
                        version: Outcome,
                        offered: Outcome,
                        branch: Outcome,
                    |
                        is_built_outcome(
                            mode_sent,
                            mode_command(os, self@.path),
                            CheckRc::Unchecked,
                        ) && is_built_outcome(
                            owner_sent,
                            path_command("ls -ld "@, self@.path),
                            CheckRc::Unchecked,
                        ) && is_built_outcome(
                            repository,
                            mode_command(os, git_directory(self@.path)),
                            CheckRc::Unchecked,
                        ) && is_outcome(
                            version,
                            local_version_line(self@),
                            Safety::Unsafe,
                            CheckRc::Unchecked,
                        ) && is_outcome(
                            offered,
                            remote_version_line(self@),
                            repository_safety(self@),
                            CheckRc::Checked,
                        ) && is_outcome(
                            branch,
                            local_branch_line(self@),
                            Safety::Unsafe,
                            CheckRc::Checked,
                        ) && answer(r) == #[trigger] git_queried(
                            self@,
                            mode_sent,
                            owner_sent,
                            repository,
                            version,
                            offered,
                            branch,
                        ),
                    None => answer(r) == Err::<ResponseView, ResponseView>(unknown_os()),
                },
                TaskRequestType::Create => match host@.os_type {
                    Some(_) => exists|
                        dir: Outcome,
                        set: Step,
                        dir_again: Outcome,
                        cloned: Outcome,
                        switched: Outcome,
                    |
                        is_built_outcome(
                            dir,
                            path_command("mkdir -p "@, self@.path),
                            CheckRc::Checked,
                        ) && is_processed(
                            set,
                            self@.path,
                            self@.attributes,
                            all_attributes(),
                            Recurse::Yes,
                        ) && is_built_outcome(
                            dir_again,
                            path_command("mkdir -p "@, self@.path),
                            CheckRc::Checked,
                        ) && is_outcome(
                            cloned,
                            clone_line(self@),
                            repository_safety(self@),
                            CheckRc::Checked,
                        ) && is_outcome(
                            switched,
                            switch_branch_line(self@),
                            Safety::Unsafe,
                            CheckRc::Checked,
                        ) && answer(r) == #[trigger] git_created(
                            dir,
                            set,
                            dir_again,
                            cloned,
                            switched,
                        ),
                    None => answer(r) == Err::<ResponseView, ResponseView>(unknown_os()),
                },
                TaskRequestType::Modify => match host@.os_type {
                    Some(_) => exists|set: Step, pulled: Outcome, switched: Outcome|
                        is_processed(
                            set,
                            self@.path,
                            self@.attributes,
                            request.changes@,
                            Recurse::Yes,
                        ) && is_outcome(
                            pulled,
                            pull_line(self@),
                            repository_safety(self@),
                            CheckRc::Checked,
                        ) && is_outcome(
                            switched,
                            switch_branch_line(self@),
                            Safety::Unsafe,
                            CheckRc::Checked,
                        ) && answer(r) == #[trigger] git_modified(
                            request.changes@,
                            set,
                            pulled,
                            switched,
                        ),
                    None => answer(r) == Err::<ResponseView, ResponseView>(unknown_os()),
                },
                _ => answer(r) == Err::<ResponseView, ResponseView>(unsupported()),
            },
    {
        match request.request_type {
            TaskRequestType::Query => {
                let os_type = match os_of(host) {
                    Ok(os) => os,
                    Err(e) => { return Err(e); },
                };
                let ghost listing = path_command("ls -ld "@, self@.path);
                let ghost asking = mode_command(os_type, git_directory(self@.path));
                let ghost safety = repository_safety(self@);
                let mut changes: Vec<Field> = Vec::new();
                let queried = query_common_file_attributes(
                    conn,
                    os_type,
                    self.path.as_str(),
                    &self.attributes,
                    &mut changes,
                    Recurse::Yes,
                );
                let ghost (mode_sent, owner_sent): (Outcome, Outcome) = choose|
                    mode_sent: Outcome,
                    owner_sent: Outcome,
                |
                    is_built_outcome(
                        mode_sent,
                        mode_command(os_type, self@.path),
                        CheckRc::Unchecked,
                    ) && is_built_outcome(owner_sent, listing, CheckRc::Unchecked) && option_answer(
                        queried,
                    ) == queried_mode(
                        #[trigger] attributes_queried(self@.attributes, mode_sent, owner_sent),
                    ) && changes@ == Seq::<Field>::empty() + queried_delta(
                        attributes_queried(self@.attributes, mode_sent, owner_sent),
                    );
                let ghost delta = changes@;
                assert(delta =~= queried_delta(
                    attributes_queried(self@.attributes, mode_sent, owner_sent),
                ));
                let ghost mut repository: Outcome = lost(asking);
                let ghost mut version: Outcome = lost_line(
                    local_version_line(self@),
                    Safety::Unsafe,
                );
                let ghost mut offered: Outcome = lost_line(remote_version_line(self@), safety);
                let ghost mut branch: Outcome = lost_line(local_branch_line(self@), Safety::Unsafe);
                proof {
                    lemma_lost(asking, Safety::Safe, CheckRc::Unchecked);
                    lemma_lost(Ok(local_version_line(self@)), Safety::Unsafe, CheckRc::Unchecked);
                    lemma_lost(Ok(remote_version_line(self@)), safety, CheckRc::Checked);
                    lemma_lost(Ok(local_branch_line(self@)), Safety::Unsafe, CheckRc::Checked);
                }
                let r = match queried {
                    Ok(Some(_)) => {
                        let git_path = self.git_path();
                        let held = get_mode(conn, os_type, git_path.as_str());
                        proof {
                            repository = choose|sent: Outcome| #[trigger]
                                is_built_outcome(sent, asking, CheckRc::Unchecked) && option_answer(
                                    held,
                                ) == mode_answer(sent);
                        }
                        match held {
                            Ok(Some(_)) => {
                                let local_version = self.get_local_version(conn);
                                proof {
                                    version = choose|sent: Outcome| #[trigger]
                                        is_outcome(
                                            sent,
                                            local_version_line(self@),
                                            Safety::Unsafe,
                                            CheckRc::Unchecked,
                                        ) && option_answer(local_version) == version_answer(sent);
                                }
                                match local_version {
                                    Ok(Some(local)) => {
                                        let remote_version = self.get_remote_version(conn);
                                        proof {
                                            offered = choose|sent: Outcome| #[trigger]
                                                is_outcome(
                                                    sent,
                                                    remote_version_line(self@),
                                                    safety,
                                                    CheckRc::Checked,
                                                ) && text_answer(remote_version) == output_of(
                                                    sent,
                                                );
                                        }
                                        match remote_version {
                                            Ok(remote) => {
                                                let local_branch = self.get_local_branch(conn);
                                                proof {
                                                    branch = choose|sent: Outcome| #[trigger]
                                                        is_outcome(
                                                            sent,
                                                            local_branch_line(self@),
                                                            Safety::Unsafe,
                                                            CheckRc::Checked,
                                                        ) && text_answer(local_branch)
                                                            == output_of(sent);
                                                }
                                                match local_branch {
                                                    Ok(current) => {
                                                        let mut found = self.repository_changes(
                                                            local.as_str(),
                                                            remote.as_str(),
                                                            current.as_str(),
                                                        );
                                                        changes.append(&mut found);
                                                        Ok(verdict(changes))
                                                    },
                                                    Err(e) => Err(e),
                                                }
                                            },
                                            Err(e) => Err(e),
                                        }
                                    },
                                    Ok(None) => {
                                        changes.push(Field::Version);
                                        assert(changes@ =~= delta + seq![Field::Version]);
                                        Ok(verdict(changes))
                                    },
                                    Err(e) => Err(e),
                                }
                            },
                            Ok(None) => Ok(TaskResponse::needs_creation()),
                            Err(e) => Err(e),
                        }
                    },
                    Ok(None) => Ok(TaskResponse::needs_creation()),
                    Err(e) => Err(e),
                };
                assert(answer(r) == git_queried(
                    self@,
                    mode_sent,
                    owner_sent,
                    repository,
                    version,
                    offered,
                    branch,
                ));
                r
            },
            TaskRequestType::Create => {
                let os_type = match os_of(host) {
                    Ok(os) => os,
                    Err(e) => { return Err(e); },
                };
                let ghost making = path_command("mkdir -p "@, self@.path);
                let ghost safety = repository_safety(self@);
                let ghost mut set: Step = lost_attributes(
                    self@.path,
                    self@.attributes,
                    all_attributes(),
                    Recurse::Yes,
                );
                let ghost mut dir_again: Outcome = lost(making);
                let ghost mut cloned: Outcome = lost_line(clone_line(self@), safety);
                let ghost mut switched: Outcome = lost_line(
                    switch_branch_line(self@),
                    Safety::Unsafe,
                );
                proof {
                    lemma_lost_attributes(
                        self@.path,
                        self@.attributes,
                        all_attributes(),
                        Recurse::Yes,
                    );
                    lemma_lost(making, Safety::Safe, CheckRc::Checked);
                    lemma_lost(Ok(clone_line(self@)), safety, CheckRc::Checked);
                    lemma_lost(Ok(switch_branch_line(self@)), Safety::Unsafe, CheckRc::Checked);
                }
                let made = create_directory(conn, os_type, self.path.as_str());
                let ghost dir: Outcome = choose|sent: Outcome| #[trigger]
                    is_built_outcome(sent, making, CheckRc::Checked) && done(made) == done_view(
                        sent,
                    );
                let steps = match made {
                    Ok(()) => {
                        let applied = process_all_common_file_attributes(
                            conn,
                            os_type,
                            self.path.as_str(),
                            &self.attributes,
                            Recurse::Yes,
                        );
                        proof {
                            set = done(applied);
                        }
                        match applied {
                            Ok(()) => {
                                let copied = self.clone(conn, host);
                                proof {
                                    let pair = choose|d: Outcome, c: Outcome|
                                        is_built_outcome(d, making, CheckRc::Checked)
                                            && is_outcome(
                                            c,
                                            clone_line(self@),
                                            safety,
                                            CheckRc::Checked,
                                        ) && done(copied) == #[trigger] and_then(
                                            done_view(d),
                                            done_view(c),
                                        );
                                    dir_again = pair.0;
                                    cloned = pair.1;
                                }
                                match copied {
                                    Ok(()) => {
                                        let moved = self.switch_branch(conn);
                                        proof {
                                            switched = choose|sent: Outcome| #[trigger]
                                                is_outcome(
                                                    sent,
                                                    switch_branch_line(self@),
                                                    Safety::Unsafe,
                                                    CheckRc::Checked,
                                                ) && done(moved) == done_view(sent);
                                        }
                                        moved
                                    },
                                    Err(e) => Err(e),
                                }
                            },
                            Err(e) => Err(e),
                        }
                    },
                    Err(e) => Err(e),
                };
                let r = match steps {
                    Ok(()) => Ok(TaskResponse::is_created()),
                    Err(e) => Err(e),
                };
                assert(answer(r) == git_created(dir, set, dir_again, cloned, switched));
                r
            },
            TaskRequestType::Modify => {
                let os_type = match os_of(host) {
                    Ok(os) => os,
                    Err(e) => { return Err(e); },
                };
                let ghost safety = repository_safety(self@);
                let ghost mut pulled: Outcome = lost_line(pull_line(self@), safety);
                let ghost mut switched: Outcome = lost_line(
                    switch_branch_line(self@),
                    Safety::Unsafe,
                );
                proof {
                    lemma_lost(Ok(pull_line(self@)), safety, CheckRc::Checked);
                    lemma_lost(Ok(switch_branch_line(self@)), Safety::Unsafe, CheckRc::Checked);
                }
                let applied = process_common_file_attributes(
                    conn,
                    os_type,
                    self.path.as_str(),
                    &self.attributes,
                    &request.changes,
                    Recurse::Yes,
                );
                let ghost set = done(applied);
                let branch = holds_field(&request.changes, Field::Branch);
                let version = holds_field(&request.changes, Field::Version);
                let steps = match applied {
                    Ok(()) => {
                        let fetched = if branch || version {
                            let fetched = self.pull(conn);
                            proof {
                                pulled = choose|sent: Outcome| #[trigger]
                                    is_outcome(sent, pull_line(self@), safety, CheckRc::Checked)
                                        && done(fetched) == done_view(sent);
                            }
                            fetched
                        } else {
                            Ok(())
                        };
                        match fetched {
                            Ok(()) => if branch {
                                let moved = self.switch_branch(conn);
                                proof {
                                    switched = choose|sent: Outcome| #[trigger]
                                        is_outcome(
                                            sent,
                                            switch_branch_line(self@),
                                            Safety::Unsafe,
                                            CheckRc::Checked,
                                        ) && done(moved) == done_view(sent);
                                }
                                moved
                            } else {
                                Ok(())
                            },
                            Err(e) => Err(e),
                        }
                    },
                    Err(e) => Err(e),
                };
                let r = match steps {
                    Ok(()) => Ok(TaskResponse::is_modified(copy_fields(&request.changes))),
                    Err(e) => Err(e),
                };
                assert(answer(r) == git_modified(request.changes@, set, pulled, switched));
                r
            },
            _ => Err(TaskResponse::not_supported()),
        }
    }
}

/// The verdict on a checkout that exists, from what differs of it.
fn verdict(changes: Vec<Field>) -> (r: TaskResponse)
    ensures
        r@ == query_verdict(changes@, true),
{
    if changes.len() > 0 {
        TaskResponse::needs_modification(changes)
    } else {
        TaskResponse::is_matched()
    }
}

} // verus!
