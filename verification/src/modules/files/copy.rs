//! The copy module: brings a remote file to the content of a local file
//! and to declared attributes.
//!
//! The local file is read where the library is used: a query is handed the
//! content hash of the local file.

use crate::connection::connection::Connection;
use crate::handle::remote::{
    all_attributes, and_then, attributes_queried, checksum_known, checksum_learned,
    content_outcome, created, done, get_sha512, is_built_outcome, is_processed, lemma_lost,
    lemma_lost_attributes, lost, lost_attributes, modified, os_of, process_all_common_file_attributes, process_common_file_attributes,
    query_common_file_attributes, query_verdict, queried_delta, queried_mode, unknown_os, Outcome,
    Step,
};
use crate::handle::template::{lift, option_answer, path_field, screened_field, Template};
use crate::inventory::hosts::{Host, HostView};
use crate::playbooks::templar::TemplateMode;
use crate::tasks::cmd_library::{mode_command, path_command, sha512_command};
use crate::tasks::common::{assembled, evaluated_answer, EvaluatedTask};
use crate::tasks::fields::{copy_fields, holds_field, Field};
use crate::tasks::files::{
    attributes_option, file_attributes, FileAttributesEvaluated, FileAttributesInput,
    FileAttributesView, Recurse,
};
use crate::tasks::logic::{
    copy_with, post_logic, pre_logic, same_with, PostLogicInput, PreLogicInput,
};
use crate::tasks::request::{CheckRc, TaskRequest, TaskRequestType};
use crate::tasks::response::{answer, plain, unsupported, ResponseView, TaskResponse, TaskStatus};
use crate::util::text::text_option;
use crate::util::yaml::Entries;
use vstd::prelude::*;
use vstd::string::*;

verus! {

#[derive(Debug)]
pub struct CopyTask {
    pub name: Option<String>,
    pub src: String,
    pub dest: String,
    pub attributes: Option<FileAttributesInput>,
    pub with: Option<PreLogicInput>,
    pub and: Option<PostLogicInput>,
}

#[derive(Debug)]
pub struct CopyAction {
    pub src: String,
    pub dest: String,
    pub attributes: Option<FileAttributesEvaluated>,
}

pub struct CopyView {
    pub src: Seq<char>,
    pub dest: Seq<char>,
    pub attributes: Option<FileAttributesView>,
}

impl View for CopyAction {
    type V = CopyView;

    open spec fn view(&self) -> CopyView {
        CopyView {
            src: self.src@,
            dest: self.dest@,
            attributes: attributes_option(self.attributes),
        }
    }
}

/// What a task that names a source, a destination and attributes evaluates
/// to: the source screened strictly, the destination screened as a path.
/// The first of source, destination and attributes that fails decides.
pub open spec fn file_action(
    vars: Entries,
    tm: TemplateMode,
    src: Seq<char>,
    dest: Seq<char>,
    attributes: Option<FileAttributesInput>,
) -> Result<CopyView, ResponseView> {
    let attributes = lift(
        match attributes {
            Some(i) => Some(file_attributes(vars, tm, i)),
            None => None,
        },
    );
    match (screened_field(vars, tm, "src"@, src), path_field(vars, tm, "dest"@, dest), attributes) {
        (Err(e), _, _) => Err(e),
        (_, Err(e), _) => Err(e),
        (_, _, Err(e)) => Err(e),
        (Ok(src), Ok(dest), Ok(attributes)) => Ok(CopyView { src, dest, attributes }),
    }
}

impl CopyTask {
    pub fn get_module(&self) -> (r: String)
        ensures
            r@ == "copy"@,
    {
        String::from_str("copy")
    }

    pub fn get_name(&self) -> (r: Option<String>)
        ensures
            text_option(r) == text_option(self.name),
    {
        match &self.name {
            Some(n) => Some(n.clone()),
            None => None,
        }
    }

    pub fn get_with(&self) -> (r: Option<PreLogicInput>)
        ensures
            same_with(r, self.with),
    {
        copy_with(&self.with)
    }

    pub fn evaluate(&self, template: &Template, tm: TemplateMode) -> (r: Result<
        EvaluatedTask<CopyAction>,
        TaskResponse,
    >)
        ensures
            evaluated_answer(r) == assembled(
                file_action(template.variables@, tm, self.src@, self.dest@, self.attributes),
                lift(
                    match self.with {
                        Some(i) => Some(pre_logic(template.variables@, tm, i)),
                        None => None,
                    },
                ),
                lift(
                    match self.and {
                        Some(i) => Some(post_logic(template.variables@, tm, i)),
                        None => None,
                    },
                ),
            ),
    {
        let src = match template.string(tm, "src", self.src.as_str()) {
            Ok(v) => v,
            Err(e) => { return Err(e); },
        };
        let dest = match template.path(tm, "dest", self.dest.as_str()) {
            Ok(v) => v,
            Err(e) => { return Err(e); },
        };
        let attributes = match FileAttributesInput::template(template, tm, &self.attributes) {
            Ok(v) => v,
            Err(e) => { return Err(e); },
        };
        let with = match PreLogicInput::template(template, tm, &self.with) {
            Ok(v) => v,
            Err(e) => { return Err(e); },
        };
        let and = match PostLogicInput::template(template, tm, &self.and) {
            Ok(v) => v,
            Err(e) => { return Err(e); },
        };
        Ok(EvaluatedTask { action: CopyAction { src, dest, attributes }, with, and })
    }
}

/// What a query of a file answers, and the host afterwards, from the
/// outcomes of the mode query, of the listing and of the hash command, and
/// from the content hash to compare with. A destination that does not
/// exist is to be created, and no hash is taken of it. Else the verdict
/// names the attributes that differ and, where the hashes differ, the content.
pub open spec fn file_queried(
    a: CopyView,
    h: HostView,
    task_id: nat,
    local: Result<Seq<char>, ResponseView>,
    mode_sent: Outcome,
    owner_sent: Outcome,
    sum_sent: Outcome,
) -> (Outcome, HostView) {
    match attributes_queried(a.attributes, mode_sent, owner_sent) {
        Ok(Some((_, delta))) => match local {
            Ok(wanted) => (
                match checksum_known(h, task_id, a.dest, sum_sent) {
                    Ok(found) => Ok(query_verdict(delta, wanted == found)),
                    Err(e) => Err(e),
                },
                checksum_learned(h, task_id, a.dest, sum_sent),
            ),
            Err(e) => (Err(e), h),
        },
        Ok(None) => (Ok(plain(TaskStatus::NeedsCreation)), h),
        Err(e) => (Err(e), h),
    }
}

/// Convergence is idempotent: a query that finds the destination with
/// nothing of the declared attributes differing, and with the content hash
/// that is wanted, says that the file matches. The hash may come from the
/// cache of the host or from the host itself.
pub proof fn lemma_file_matched(
    a: CopyView,
    h: HostView,
    task_id: nat,
    wanted: Seq<char>,
    mode_sent: Outcome,
    owner_sent: Outcome,
    sum_sent: Outcome,
)
    requires
        attributes_queried(a.attributes, mode_sent, owner_sent) matches Ok(Some((_, delta)))
            && delta.len() == 0,
        checksum_known(h, task_id, a.dest, sum_sent) == Ok::<Seq<char>, ResponseView>(wanted),
    ensures
        file_queried(a, h, task_id, Ok(wanted), mode_sent, owner_sent, sum_sent).0 == Ok::<
            ResponseView,
            ResponseView,
        >(plain(TaskStatus::IsMatched)),
{
}

impl CopyAction {
    /// Copies the local file to the destination, then brings the declared
    /// attributes about. The result is the failure of the copy, else what
    /// came of the attributes.
    pub fn do_copy<C: Connection>(&self, conn: &C, host: &Host) -> (r: Result<(), TaskResponse>)
        ensures
            match host@.os_type {
                Some(_) => exists|copied: Step, set: Step|
                    is_processed(set, self@.dest, self@.attributes, all_attributes(), Recurse::No)
                        && done(r) == #[trigger] and_then(copied, set),
                None => done(r) == Err::<(), ResponseView>(unknown_os()),
            },
    {
        let os_type = match os_of(host) {
            Ok(os) => os,
            Err(e) => { return Err(e); },
        };
        let copied = conn.copy_file(self.src.as_str(), self.dest.as_str());
        let ghost first = done(copied);
        match copied {
            Ok(()) => {
                let r = process_all_common_file_attributes(
                    conn,
                    os_type,
                    self.dest.as_str(),
                    &self.attributes,
                    Recurse::No,
                );
                assert(done(r) == and_then(first, done(r)));
                r
            },
            Err(e) => {
                proof {
                    lemma_lost_attributes(
                        self@.dest,
                        self@.attributes,
                        all_attributes(),
                        Recurse::No,
                    );
                    let set = lost_attributes(
                        self@.dest,
                        self@.attributes,
                        all_attributes(),
                        Recurse::No,
                    );
                    assert(done(Err::<(), TaskResponse>(e)) == and_then(first, set));
                }
                Err(e)
            },
        }
    }

    /// Answers a request. `local_512` is the content hash of the local file.
    ///
    /// A query asks for the creation of a destination that does not exist,
    /// else for the modification of what differs, else says that the file
    /// matches. `Create` copies the file and sets the attributes. `Modify`
    /// copies the file and sets all attributes where the content is among
    /// the changes, and else sets the attributes among the changes. Every
    /// other kind of request is not supported.
    pub fn dispatch<C: Connection>(
        &self,
        conn: &C,
        host: &mut Host,
        request: &TaskRequest,
        local_512: &str,
    ) -> (r: Result<TaskResponse, TaskResponse>)
        ensures
            match request.request_type {
                TaskRequestType::Query => match old(host)@.os_type {
                    Some(os) => exists|mode_sent: Outcome, owner_sent: Outcome, sum_sent: Outcome|
                        is_built_outcome(
                            mode_sent,
                            mode_command(os, self@.dest),
                            CheckRc::Unchecked,
                        ) && is_built_outcome(
                            owner_sent,
                            path_command("ls -ld "@, self@.dest),
                            CheckRc::Unchecked,
                        ) && is_built_outcome(
                            sum_sent,
                            sha512_command(os, self@.dest),
                            CheckRc::Unchecked,
                        ) && (answer(r), final(host)@) == #[trigger] file_queried(
                            self@,
                            old(host)@,
                            request.task_id as nat,
                            Ok(local_512@),
                            mode_sent,
                            owner_sent,
                            sum_sent,
                        ),
                    None => answer(r) == Err::<ResponseView, ResponseView>(unknown_os())
                        && final(host)@ == old(host)@,
                },
                TaskRequestType::Create => final(host)@ == old(host)@ && match old(host)@.os_type {
                    Some(_) => exists|copied: Step, set: Step|
                        is_processed(
                            set,
                            self@.dest,
                            self@.attributes,
                            all_attributes(),
                            Recurse::No,
                        ) && answer(r) == created(#[trigger] and_then(copied, set)),
                    None => answer(r) == Err::<ResponseView, ResponseView>(unknown_os()),
                },
                TaskRequestType::Modify => final(host)@ == old(host)@ && match old(host)@.os_type {
                    Some(_) => if request.changes@.contains(Field::Content) {
                        exists|copied: Step, set: Step|
                            is_processed(
                                set,
                                self@.dest,
                                self@.attributes,
                                all_attributes(),
                                Recurse::No,
                            ) && answer(r) == modified(
                                #[trigger] and_then(copied, set),
                                request.changes@,
                            )
                    } else {
                        exists|set: Step| #[trigger]
                            is_processed(
                                set,
                                self@.dest,
                                self@.attributes,
                                request.changes@,
                                Recurse::No,
                            ) && answer(r) == modified(set, request.changes@)
                    },
                    None => answer(r) == Err::<ResponseView, ResponseView>(unknown_os()),
                },
                _ => answer(r) == Err::<ResponseView, ResponseView>(unsupported()) && final(host)@
                    == old(host)@,
            },
    {
        match request.request_type {
            TaskRequestType::Query => {
                let os_type = match os_of(host) {
                    Ok(os) => os,
                    Err(e) => { return Err(e); },
                };
                let ghost before = host@;
                let ghost listing = path_command("ls -ld "@, self@.dest);
                let ghost hashing = sha512_command(os_type, self@.dest);
                let mut changes: Vec<Field> = Vec::new();
                let queried = query_common_file_attributes(
                    conn,
                    os_type,
                    self.dest.as_str(),
                    &self.attributes,
                    &mut changes,
                    Recurse::No,
                );
                let ghost (mode_sent, owner_sent): (Outcome, Outcome) = choose|
                    mode_sent: Outcome,
                    owner_sent: Outcome,
                |
                    is_built_outcome(
                        mode_sent,
                        mode_command(os_type, self@.dest),
                        CheckRc::Unchecked,
                    ) && is_built_outcome(owner_sent, listing, CheckRc::Unchecked) && option_answer(
                        queried,
                    ) == queried_mode(
                        #[trigger] attributes_queried(self@.attributes, mode_sent, owner_sent),
                    ) && changes@ == Seq::<Field>::empty() + queried_delta(
                        attributes_queried(self@.attributes, mode_sent, owner_sent),
                    );
                let ghost delta = changes@;
                assert(delta =~= queried_delta(
                    attributes_queried(self@.attributes, mode_sent, owner_sent),
                ));
                let ghost mut sum_sent: Outcome = lost(hashing);
                proof {
                    lemma_lost(hashing, crate::handle::remote::Safety::Safe, CheckRc::Unchecked);
                }
                let r = match queried {
                    Ok(Some(_)) => {
                        let remote_512 = get_sha512(
                            conn,
                            os_type,
                            host,
                            request.task_id,
                            self.dest.as_str(),
                        );
                        proof {
                            sum_sent = choose|sent: Outcome| #[trigger]
                                is_built_outcome(sent, hashing, CheckRc::Unchecked)
                                    && crate::handle::template::text_answer(remote_512)
                                    == checksum_known(
                                    before,
                                    request.task_id as nat,
                                    self@.dest,
                                    sent,
                                ) && host@ == checksum_learned(
                                    before,
                                    request.task_id as nat,
                                    self@.dest,
                                    sent,
                                );
                        }
                        match remote_512 {
                            Ok(found) => Ok(content_outcome(changes, local_512, found.as_str())),
                            Err(e) => Err(e),
                        }
                    },
                    Ok(None) => Ok(TaskResponse::needs_creation()),
                    Err(e) => Err(e),
                };
                assert((answer(r), host@) == file_queried(
                    self@,
                    before,
                    request.task_id as nat,
                    Ok(local_512@),
                    mode_sent,
                    owner_sent,
                    sum_sent,
                ));
                r
            },
            TaskRequestType::Create => {
                match self.do_copy(conn, host) {
                    Ok(()) => Ok(TaskResponse::is_created()),
                    Err(e) => Err(e),
                }
            },
            TaskRequestType::Modify => {
                let steps = if holds_field(&request.changes, Field::Content) {
                    self.do_copy(conn, host)
                } else {
                    match os_of(host) {
                        Ok(os_type) => process_common_file_attributes(
                            conn,
                            os_type,
                            self.dest.as_str(),
                            &self.attributes,
                            &request.changes,
                            Recurse::No,
                        ),
                        Err(e) => Err(e),
                    }
                };
                match steps {
                    Ok(()) => Ok(TaskResponse::is_modified(copy_fields(&request.changes))),
                    Err(e) => Err(e),
                }
            },
            _ => Err(TaskResponse::not_supported()),
        }
    }
}

} // verus!
