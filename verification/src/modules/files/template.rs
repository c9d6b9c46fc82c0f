//! The template module: brings a remote file to the rendering of a local
//! template and to declared attributes.
//!
//! The template file is read where the library is used: the action is
//! handed its content.

use crate::connection::connection::Connection;
use crate::handle::remote::{
    all_attributes, and_then, attributes_queried, checksum_known, checksum_learned,
    content_outcome, created, done, get_sha512, is_built_outcome, is_processed, lemma_lost,
    lemma_lost_attributes, lost, lost_attributes, modified, os_of,
    process_all_common_file_attributes, process_common_file_attributes,
    query_common_file_attributes, queried_delta, queried_mode, unknown_os, Outcome, Safety, Step,
};
use crate::handle::template::{lift, option_answer, rendered_field, text_answer, Template};
use crate::inventory::hosts::Host;
use crate::modules::files::copy::{file_action, file_queried, CopyView};
use crate::playbooks::templar::TemplateMode;
use crate::tasks::checksum::{sha512, sha512_hex};
use crate::tasks::cmd_library::{mode_command, path_command, sha512_command};
use crate::tasks::common::{assembled, evaluated_answer, EvaluatedTask};
use crate::tasks::fields::{copy_fields, holds_field, Field};
use crate::tasks::files::{
    attributes_option, FileAttributesEvaluated, FileAttributesInput, Recurse,
};
use crate::tasks::logic::{
    copy_with, post_logic, pre_logic, same_with, PostLogicInput, PreLogicInput,
};
use crate::tasks::request::{CheckRc, TaskRequest, TaskRequestType};
use crate::tasks::response::{answer, unsupported, ResponseView, TaskResponse};
use crate::util::text::text_option;
use crate::util::yaml::Entries;
use vstd::prelude::*;
use vstd::string::*;

verus! {

#[derive(Debug)]
pub struct TemplateTask {
    pub name: Option<String>,
    pub src: String,
    pub dest: String,
    pub attributes: Option<FileAttributesInput>,
    pub with: Option<PreLogicInput>,
    pub and: Option<PostLogicInput>,
}

#[derive(Debug)]
pub struct TemplateAction {
    pub src: String,
    pub dest: String,
    pub attributes: Option<FileAttributesEvaluated>,
}

impl View for TemplateAction {
    type V = CopyView;

    open spec fn view(&self) -> CopyView {
        CopyView {
            src: self.src@,
            dest: self.dest@,
            attributes: attributes_option(self.attributes),
        }
    }
}

impl TemplateTask {
    pub fn get_module(&self) -> (r: String)
        ensures
            r@ == "template"@,
    {
        String::from_str("template")
    }

    pub fn get_name(&self) -> (r: Option<String>)
        ensures
            text_option(r) == text_option(self.name),
    {
        match &self.name {
            Some(n) => Some(n.clone()),
            None => None,
        }
    }

    pub fn get_with(&self) -> (r: Option<PreLogicInput>)
        ensures
            same_with(r, self.with),
    {
        copy_with(&self.with)
    }

    pub fn evaluate(&self, template: &Template, tm: TemplateMode) -> (r: Result<
        EvaluatedTask<TemplateAction>,
        TaskResponse,
    >)
        ensures
            evaluated_answer(r) == assembled(
                file_action(template.variables@, tm, self.src@, self.dest@, self.attributes),
                lift(
                    match self.with {
                        Some(i) => Some(pre_logic(template.variables@, tm, i)),
                        None => None,
                    },
                ),
                lift(
                    match self.and {
                        Some(i) => Some(post_logic(template.variables@, tm, i)),
                        None => None,
                    },
                ),
            ),
    {
        let src = match template.string(tm, "src", self.src.as_str()) {
            Ok(v) => v,
            Err(e) => { return Err(e); },
        };
        let dest = match template.path(tm, "dest", self.dest.as_str()) {
            Ok(v) => v,
            Err(e) => { return Err(e); },
        };
        let attributes = match FileAttributesInput::template(template, tm, &self.attributes) {
            Ok(v) => v,
            Err(e) => { return Err(e); },
        };
        let with = match PreLogicInput::template(template, tm, &self.with) {
            Ok(v) => v,
            Err(e) => { return Err(e); },
        };
        let and = match PostLogicInput::template(template, tm, &self.and) {
            Ok(v) => v,
            Err(e) => { return Err(e); },
        };
        Ok(EvaluatedTask { action: TemplateAction { src, dest, attributes }, with, and })
    }
}

/// The rendering of the content of a template file.
pub open spec fn rendering(vars: Entries, contents: Seq<char>) -> Result<Seq<char>, ResponseView> {
    rendered_field(vars, TemplateMode::Strict, contents)
}

/// The content hash of a rendering.
pub open spec fn hashed(rendering: Result<Seq<char>, ResponseView>) -> Result<
    Seq<char>,
    ResponseView,
> {
    match rendering {
        Ok(data) => Ok(sha512_hex(data)),
        Err(e) => Err(e),
    }
}

/// The rendering, where the steps that wrote it succeeded.
pub open spec fn carried(steps: Step, data: Seq<char>) -> Result<Seq<char>, ResponseView> {
    match steps {
        Ok(()) => Ok(data),
        Err(e) => Err(e),
    }
}

impl TemplateAction {
    /// Renders the content of the template file and, where `write` is set,
    /// writes the rendering to the destination and brings the declared
    /// attributes about. Returns the rendering. Nothing is sent where the
    /// content does not render, nor where `write` is not set.
    pub fn do_template<C: Connection>(
        &self,
        conn: &C,
        template: &Template,
        host: &Host,
        template_contents: &str,
        write: bool,
    ) -> (r: Result<String, TaskResponse>)
        ensures
            match rendering(template.variables@, template_contents@) {
                Ok(data) => if write {
                    match host@.os_type {
                        Some(_) => exists|written: Step, set: Step|
                            is_processed(
                                set,
                                self@.dest,
                                self@.attributes,
                                all_attributes(),
                                Recurse::No,
                            ) && text_answer(r) == carried(#[trigger] and_then(written, set), data),
                        None => text_answer(r) == Err::<Seq<char>, ResponseView>(unknown_os()),
                    }
                } else {
                    text_answer(r) == Ok::<Seq<char>, ResponseView>(data)
                },
                Err(e) => text_answer(r) == Err::<Seq<char>, ResponseView>(e),
            },
    {
        let data = match template.string_for_template_module_use_only(
            TemplateMode::Strict,
            "src",
            template_contents,
        ) {
            Ok(v) => v,
            Err(e) => { return Err(e); },
        };
        if !write {
            return Ok(data);
        }
        let os_type = match os_of(host) {
            Ok(os) => os,
            Err(e) => { return Err(e); },
        };
        let written = conn.write_data(data.as_str(), self.dest.as_str());
        let ghost first = done(written);
        match written {
            Ok(()) => {
                let applied = process_all_common_file_attributes(
                    conn,
                    os_type,
                    self.dest.as_str(),
                    &self.attributes,
                    Recurse::No,
                );
                let ghost set = done(applied);
                let r = match applied {
                    Ok(()) => Ok(data),
                    Err(e) => Err(e),
                };
                assert(text_answer(r) == carried(and_then(first, set), data@));
                r
            },
            Err(e) => {
                proof {
                    lemma_lost_attributes(
                        self@.dest,
                        self@.attributes,
                        all_attributes(),
                        Recurse::No,
                    );
                    let set = lost_attributes(
                        self@.dest,
                        self@.attributes,
                        all_attributes(),
                        Recurse::No,
                    );
                    assert(text_answer(Err::<String, TaskResponse>(e)) == carried(
                        and_then(first, set),
                        data@,
                    ));
                }
                Err(e)
            },
        }
    }

    /// Answers a request. `template_contents` is the content of the template file.
    ///
    /// A query asks for the creation of a destination that does not exist,
    /// else for the modification of what differs, else says that the file
    /// matches; the content is compared by the hash of its rendering.
    /// `Create` writes the rendering and sets the attributes. `Modify` does
    /// the same where the content is among the changes, and else sets the
    /// attributes among the changes. Every other kind of request is not
    /// supported.
    pub fn dispatch<C: Connection>(
        &self,
        conn: &C,
        template: &Template,
        host: &mut Host,
        request: &TaskRequest,
        template_contents: &str,
    ) -> (r: Result<TaskResponse, TaskResponse>)
        ensures
            match request.request_type {
                TaskRequestType::Query => match old(host)@.os_type {
                    Some(os) => exists|mode_sent: Outcome, owner_sent: Outcome, sum_sent: Outcome|
                        is_built_outcome(
                            mode_sent,
                            mode_command(os, self@.dest),
                            CheckRc::Unchecked,
                        ) && is_built_outcome(
                            owner_sent,
                            path_command("ls -ld "@, self@.dest),
                            CheckRc::Unchecked,
                        ) && is_built_outcome(
                            sum_sent,
                            sha512_command(os, self@.dest),
                            CheckRc::Unchecked,
                        ) && (answer(r), final(host)@) == #[trigger] file_queried(
                            self@,
                            old(host)@,
                            request.task_id as nat,
                            hashed(rendering(template.variables@, template_contents@)),
                            mode_sent,
                            owner_sent,
                            sum_sent,
                        ),
                    None => answer(r) == Err::<ResponseView, ResponseView>(unknown_os())
                        && final(host)@ == old(host)@,
                },
                TaskRequestType::Create => final(host)@ == old(host)@ && match rendering(
                    template.variables@,
                    template_contents@,
                ) {
                    Ok(_) => match old(host)@.os_type {
                        Some(_) => exists|written: Step, set: Step|
                            is_processed(
                                set,
                                self@.dest,
                                self@.attributes,
                                all_attributes(),
                                Recurse::No,
                            ) && answer(r) == created(#[trigger] and_then(written, set)),
                        None => answer(r) == Err::<ResponseView, ResponseView>(unknown_os()),
                    },
                    Err(e) => answer(r) == Err::<ResponseView, ResponseView>(e),
                },
                TaskRequestType::Modify => final(host)@ == old(host)@ && (if request.changes@.contains(
                    Field::Content,
                ) {
                    match rendering(template.variables@, template_contents@) {
                        Ok(_) => match old(host)@.os_type {
                            Some(_) => exists|written: Step, set: Step|
                                is_processed(
                                    set,
                                    self@.dest,
                                    self@.attributes,
                                    all_attributes(),
                                    Recurse::No,
                                ) && answer(r) == modified(
                                    #[trigger] and_then(written, set),
                                    request.changes@,
                                ),
                            None => answer(r) == Err::<ResponseView, ResponseView>(unknown_os()),
                        },
                        Err(e) => answer(r) == Err::<ResponseView, ResponseView>(e),
                    }
                } else {
                    match old(host)@.os_type {
                        Some(_) => exists|set: Step| #[trigger]
                            is_processed(
                                set,
                                self@.dest,
                                self@.attributes,
                                request.changes@,
                                Recurse::No,
                            ) && answer(r) == modified(set, request.changes@),
                        None => answer(r) == Err::<ResponseView, ResponseView>(unknown_os()),
                    }
                }),
                _ => answer(r) == Err::<ResponseView, ResponseView>(unsupported()) && final(host)@
                    == old(host)@,
            },
    {
        match request.request_type {
            TaskRequestType::Query => {
                let os_type = match os_of(host) {
                    Ok(os) => os,
                    Err(e) => { return Err(e); },
                };
                let ghost before = host@;
                let ghost listing = path_command("ls -ld "@, self@.dest);
                let ghost hashing = sha512_command(os_type, self@.dest);
                let ghost local = hashed(rendering(template.variables@, template_contents@));
                let mut changes: Vec<Field> = Vec::new();
                let queried = query_common_file_attributes(
                    conn,
                    os_type,
                    self.dest.as_str(),
                    &self.attributes,
                    &mut changes,
                    Recurse::No,
                );
                let ghost (mode_sent, owner_sent): (Outcome, Outcome) = choose|
                    mode_sent: Outcome,
                    owner_sent: Outcome,
                |
                    is_built_outcome(
                        mode_sent,
                        mode_command(os_type, self@.dest),
                        CheckRc::Unchecked,
                    ) && is_built_outcome(owner_sent, listing, CheckRc::Unchecked) && option_answer(
                        queried,
                    ) == queried_mode(
                        #[trigger] attributes_queried(self@.attributes, mode_sent, owner_sent),
                    ) && changes@ == Seq::<Field>::empty() + queried_delta(
                        attributes_queried(self@.attributes, mode_sent, owner_sent),
                    );
                let ghost delta = changes@;
                assert(delta =~= queried_delta(
                    attributes_queried(self@.attributes, mode_sent, owner_sent),
                ));
                let ghost mut sum_sent: Outcome = lost(hashing);
                proof {
                    lemma_lost(hashing, Safety::Safe, CheckRc::Unchecked);
                }
                let r = match queried {
                    Ok(Some(_)) => match self.do_template(
                        conn,
                        template,
                        host,
                        template_contents,
                        false,
                    ) {
                        Ok(data) => {
                            let local_512 = sha512(data.as_str());
                            let remote_512 = get_sha512(
                                conn,
                                os_type,
                                host,
                                request.task_id,
                                self.dest.as_str(),
                            );
                            proof {
                                sum_sent = choose|sent: Outcome| #[trigger]
                                    is_built_outcome(sent, hashing, CheckRc::Unchecked)
                                        && text_answer(remote_512) == checksum_known(
                                        before,
                                        request.task_id as nat,
                                        self@.dest,
                                        sent,
                                    ) && host@ == checksum_learned(
                                        before,
                                        request.task_id as nat,
                                        self@.dest,
                                        sent,
                                    );
                            }
                            match remote_512 {
                                Ok(found) => Ok(
                                    content_outcome(changes, local_512.as_str(), found.as_str()),
                                ),
                                Err(e) => Err(e),
                            }
                        },
                        Err(e) => Err(e),
                    },
                    Ok(None) => Ok(TaskResponse::needs_creation()),
                    Err(e) => Err(e),
                };
                assert((answer(r), host@) == file_queried(
                    self@,
                    before,
                    request.task_id as nat,
                    local,
                    mode_sent,
                    owner_sent,
                    sum_sent,
                ));
                r
            },
            TaskRequestType::Create => {
                match self.do_template(conn, template, host, template_contents, true) {
                    Ok(_) => Ok(TaskResponse::is_created()),
                    Err(e) => Err(e),
                }
            },
            TaskRequestType::Modify => {
                let steps = if holds_field(&request.changes, Field::Content) {
                    match self.do_template(conn, template, host, template_contents, true) {
                        Ok(_) => Ok(()),
                        Err(e) => Err(e),
                    }
                } else {
                    match os_of(host) {
                        Ok(os_type) => process_common_file_attributes(
                            conn,
                            os_type,
                            self.dest.as_str(),
                            &self.attributes,
                            &request.changes,
                            Recurse::No,
                        ),
                        Err(e) => Err(e),
                    }
                };
                match steps {
                    Ok(()) => Ok(TaskResponse::is_modified(copy_fields(&request.changes))),
                    Err(e) => Err(e),
                }
            },
            _ => Err(TaskResponse::not_supported()),
        }
    }
}

} // verus!
