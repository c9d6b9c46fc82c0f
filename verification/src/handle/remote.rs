//! Remote operations: what is sent over a connection and what is made of the
//! answers. Every command line is built by the command catalog, and a command
//! that is run as safe is screened once more as a whole before it is sent.

use crate::connection::command::{cmd_info, CommandResult, CommandView, Forward};
use crate::connection::connection::Connection;
use crate::inventory::hosts::{
    after_get_checksum, after_set_checksum, cached_checksum, Host, HostOSType, HostView,
};
use crate::tasks::cmd_library::{
    chmod_command, get_create_directory_command, get_mode_command, get_ownership_command,
    get_sha512_command, group_command, loose_screened, mode_command, owner_command, path_command,
    screen_general_input_loose, set_group_command, set_mode_command, set_owner_command,
    sha512_command,
};
use crate::tasks::fields::Field;
use crate::tasks::files::{
    attributes_option, FileAttributesEvaluated, FileAttributesView, Recurse,
};
use crate::tasks::request::CheckRc;
use crate::tasks::response::{
    answer, executed_command, failed, failed_command, ResponseView, TaskResponse,
};
use crate::handle::template::{option_answer, text_answer};
use crate::util::text::{nth_word, str_eq, text_option, text_result, word};
use vstd::prelude::*;
use vstd::string::*;

verus! {

/// Whether a command line is screened as a whole before it is sent.
#[derive(Clone, Copy, Debug, PartialEq, Eq, Structural)]
pub enum Safety {
    Safe,
    Unsafe,
}

pub open spec fn reply_view(reply: Result<CommandResult, TaskResponse>) -> Result<
    CommandView,
    ResponseView,
> {
    match reply {
        Ok(c) => Ok(c@),
        Err(e) => Err(e@),
    }
}

/// What is made of the reply of a connection to a command: a failure of the
/// connection is passed on, a return code other than 0 is a failure where
/// return codes are checked, and anything else is a command that ran.
pub open spec fn command_outcome(reply: Result<CommandView, ResponseView>, check_rc: CheckRc) -> Result<
    ResponseView,
    ResponseView,
> {
    match reply {
        Ok(c) => if check_rc == CheckRc::Checked && c.rc != 0 {
            Err(failed_command(Some(c)))
        } else {
            Ok(executed_command(c))
        },
        Err(e) => Err(e),
    }
}

/// The violation for which a command is refused before anything is sent.
pub open spec fn screening(cmd: Seq<char>, safety: Safety) -> Option<Seq<char>> {
    match (safety, loose_screened(cmd)) {
        (Safety::Safe, Err(violation)) => Some(violation),
        _ => None,
    }
}

/// What can come of sending a command: the failure of its screening, with
/// nothing sent, or what is made of some reply of the connection.
pub open spec fn is_outcome(
    outcome: Result<ResponseView, ResponseView>,
    cmd: Seq<char>,
    safety: Safety,
    check_rc: CheckRc,
) -> bool {
    match screening(cmd, safety) {
        Some(violation) => outcome == Err::<ResponseView, ResponseView>(failed(violation)),
        None => exists|reply: Result<CommandView, ResponseView>|
            outcome == #[trigger] command_outcome(reply, check_rc),
    }
}

/// An outcome that is `Ok` is a command that ran, with its result.
pub proof fn lemma_outcome_ok(
    outcome: Result<ResponseView, ResponseView>,
    cmd: Seq<char>,
    safety: Safety,
    check_rc: CheckRc,
)
    requires
        is_outcome(outcome, cmd, safety, check_rc),
        outcome is Ok,
    ensures
        outcome->Ok_0.command_result is Some,
        outcome->Ok_0 == executed_command(outcome->Ok_0.command_result->0),
        check_rc == CheckRc::Checked ==> outcome->Ok_0.command_result->0.rc == 0,
{
}

/// What can come of a command of the catalog: the complaint of the catalog,
/// with nothing sent, or what can come of sending the command as safe.
pub open spec fn is_built_outcome(
    outcome: Result<ResponseView, ResponseView>,
    cmd: Result<Seq<char>, Seq<char>>,
    check_rc: CheckRc,
) -> bool {
    match cmd {
        Ok(line) => is_outcome(outcome, line, Safety::Safe, check_rc),
        Err(complaint) => outcome == Err::<ResponseView, ResponseView>(failed(complaint)),
    }
}

/// The result of the command behind an outcome.
pub open spec fn result_of(resp: ResponseView) -> CommandView {
    resp.command_result->0
}

/// What comes of a command or of a step of an operation.
pub type Outcome = Result<ResponseView, ResponseView>;

/// What comes of a step that returns nothing.
pub type Step = Result<(), ResponseView>;

/// The failure that answers a request for a host whose operating system is not known.
pub open spec fn unknown_os() -> ResponseView {
    failed("the operating system of the host is not known"@)
}

/// The outcome of a command on a connection that fails without a word,
/// where the command is sent at all.
pub open spec fn lost_line(cmd: Seq<char>, safety: Safety) -> Outcome {
    match screening(cmd, safety) {
        Some(violation) => Err(failed(violation)),
        None => Err(failed(Seq::empty())),
    }
}

/// As `lost_line`, for a command of the catalog.
pub open spec fn lost(cmd: Result<Seq<char>, Seq<char>>) -> Outcome {
    match cmd {
        Ok(line) => lost_line(line, Safety::Safe),
        Err(complaint) => Err(failed(complaint)),
    }
}

/// Every command has an outcome.
pub proof fn lemma_lost(cmd: Result<Seq<char>, Seq<char>>, safety: Safety, check_rc: CheckRc)
    ensures
        is_built_outcome(lost(cmd), cmd, check_rc),
        cmd matches Ok(line) ==> is_outcome(lost_line(line, safety), line, safety, check_rc),
{
    let reply: Result<CommandView, ResponseView> = Err(failed(Seq::empty()));
    assert(command_outcome(reply, check_rc) == Err::<ResponseView, ResponseView>(
        failed(Seq::empty()),
    ));
}

/// The complaint for which nothing is sent: that of the catalog about an
/// argument, or that of the screening of the whole command line.
pub open spec fn refused(cmd: Result<Seq<char>, Seq<char>>) -> Option<Seq<char>> {
    match cmd {
        Ok(line) => screening(line, Safety::Safe),
        Err(complaint) => Some(complaint),
    }
}

/// What is made of the reply of a connection to a command.
pub fn run_outcome(reply: Result<CommandResult, TaskResponse>, check_rc: CheckRc) -> (r: Result<
    TaskResponse,
    TaskResponse,
>)
    ensures
        answer(r) == command_outcome(reply_view(reply), check_rc),
{
    match reply {
        Ok(c) => {
            if check_rc == CheckRc::Checked && c.rc != 0 {
                Err(TaskResponse::command_failed(Some(c)))
            } else {
                Ok(TaskResponse::command_ok(c))
            }
        },
        Err(e) => Err(e),
    }
}

/// Sends a command, after screening it where it is to be safe.
pub fn internal_run<C: Connection>(
    conn: &C,
    cmd: &str,
    safety: Safety,
    check_rc: CheckRc,
    forward: Forward,
) -> (r: Result<TaskResponse, TaskResponse>)
    ensures
        is_outcome(answer(r), cmd@, safety, check_rc),
        r matches Ok(resp) ==> resp.command_result is Some,
{
    if safety == Safety::Safe {
        match screen_general_input_loose(cmd) {
            Ok(_) => {},
            Err(violation) => {
                return Err(TaskResponse::is_failed(violation.as_str()));
            },
        }
    }
    let reply = conn.run_command(cmd, forward);
    let ghost seen = reply_view(reply);
    let r = run_outcome(reply, check_rc);
    assert(answer(r) == command_outcome(seen, check_rc));
    r
}

/// Runs a screened command.
pub fn run<C: Connection>(conn: &C, cmd: &str, check_rc: CheckRc) -> (r: Result<
    TaskResponse,
    TaskResponse,
>)
    ensures
        is_outcome(answer(r), cmd@, Safety::Safe, check_rc),
        r matches Ok(resp) ==> resp.command_result is Some,
{
    internal_run(conn, cmd, Safety::Safe, check_rc, Forward::No)
}

/// Runs a screened command that may use the credentials of the connection.
pub fn run_forwardable<C: Connection>(conn: &C, cmd: &str, check_rc: CheckRc) -> (r: Result<
    TaskResponse,
    TaskResponse,
>)
    ensures
        is_outcome(answer(r), cmd@, Safety::Safe, check_rc),
        r matches Ok(resp) ==> resp.command_result is Some,
{
    internal_run(conn, cmd, Safety::Safe, check_rc, Forward::Yes)
}

/// Runs a command as it is.
pub fn run_unsafe<C: Connection>(conn: &C, cmd: &str, check_rc: CheckRc) -> (r: Result<
    TaskResponse,
    TaskResponse,
>)
    ensures
        is_outcome(answer(r), cmd@, Safety::Unsafe, check_rc),
        r matches Ok(resp) ==> resp.command_result is Some,
{
    internal_run(conn, cmd, Safety::Unsafe, check_rc, Forward::No)
}

/// Runs a command of the catalog, unless the catalog refused to build it.
pub fn run_built<C: Connection>(conn: &C, cmd: Result<String, String>, check_rc: CheckRc) -> (r:
    Result<TaskResponse, TaskResponse>)
    ensures
        is_built_outcome(answer(r), text_result(cmd), check_rc),
        r matches Ok(resp) ==> resp.command_result is Some,
{
    match cmd {
        Ok(line) => run(conn, line.as_str(), check_rc),
        Err(complaint) => Err(TaskResponse::is_failed(complaint.as_str())),
    }
}

/// The operating system family of the host, which has to be known before
/// a command of the catalog can be built.
pub fn os_of(host: &Host) -> (r: Result<HostOSType, TaskResponse>)
    ensures
        match host@.os_type {
            Some(os) => r == Ok::<HostOSType, TaskResponse>(os),
            None => r matches Err(e) && e@ == unknown_os(),
        },
{
    match host.get_os_type() {
        Some(os) => Ok(os),
        None => Err(TaskResponse::is_failed("the operating system of the host is not known")),
    }
}

/// What a query of a file answers once the file is known to exist: that
/// it is to be modified, with the fields that differ, or that it matches.
/// The content is among the fields where the content hashes differ.
pub open spec fn query_verdict(changes: Seq<Field>, same_content: bool) -> ResponseView {
    let all = if same_content {
        changes
    } else {
        changes.push(Field::Content)
    };
    if all.len() > 0 {
        crate::tasks::response::with_changes(
            crate::tasks::response::TaskStatus::NeedsModification,
            all,
        )
    } else {
        crate::tasks::response::plain(crate::tasks::response::TaskStatus::IsMatched)
    }
}

pub fn content_outcome(changes: Vec<Field>, local_512: &str, remote_512: &str) -> (r: TaskResponse)
    ensures
        r@ == query_verdict(changes@, local_512@ == remote_512@),
{
    let mut all = changes;
    if !str_eq(remote_512, local_512) {
        all.push(Field::Content);
    }
    if all.len() > 0 {
        TaskResponse::needs_modification(all)
    } else {
        TaskResponse::is_matched()
    }
}

/// A file whose content hash is that of the source, and whose declared
/// attributes are those that the remote has, matches: a query that follows
/// a convergence that left the file so asks for nothing more.
pub proof fn lemma_query_matched(
    attributes: Option<FileAttributesView>,
    mode: Seq<char>,
    owner: Seq<char>,
    group: Seq<char>,
)
    requires
        attributes matches Some(a) ==> (a.owner is Some ==> a.owner == Some(owner)) && (a.group
            is Some ==> a.group == Some(group)) && (a.mode is Some ==> a.mode == Some(mode)),
    ensures
        match attributes {
            Some(a) => query_verdict(attribute_delta(a, mode, owner, group), true),
            None => query_verdict(Seq::empty(), true),
        } == crate::tasks::response::plain(crate::tasks::response::TaskStatus::IsMatched),
{
}

/// The mode that a mode query printed; none where the query failed, which
/// is how a path that does not exist shows.
pub open spec fn mode_seen(c: CommandView) -> Option<Seq<char>> {
    if c.rc == 0 {
        Some(c.out)
    } else {
        None
    }
}

pub fn mode_of(result: &TaskResponse) -> (r: Option<String>)
    requires
        result.command_result is Some,
    ensures
        text_option(r) == mode_seen(result.command_result->0@),
{
    let (rc, out) = cmd_info(result);
    if rc == 0 {
        Some(out)
    } else {
        None
    }
}

/// The mode that the outcome of a mode query shows.
pub open spec fn mode_answer(sent: Outcome) -> Result<Option<Seq<char>>, ResponseView> {
    match sent {
        Ok(resp) => Ok(mode_seen(result_of(resp))),
        Err(e) => Err(e),
    }
}

/// The mode of a remote path; none where the path does not exist.
pub fn get_mode<C: Connection>(conn: &C, os_type: HostOSType, path: &str) -> (r: Result<
    Option<String>,
    TaskResponse,
>)
    ensures
        exists|sent: Outcome| #[trigger]
            is_built_outcome(sent, mode_command(os_type, path@), CheckRc::Unchecked)
                && option_answer(r) == mode_answer(sent),
{
    let ran = run_built(conn, get_mode_command(os_type, path), CheckRc::Unchecked);
    let ghost sent = answer(ran);
    let r = match ran {
        Ok(result) => Ok(mode_of(&result)),
        Err(e) => Err(e),
    };
    assert(is_built_outcome(sent, mode_command(os_type, path@), CheckRc::Unchecked));
    r
}

/// The owner and the group that a long listing of one path names: its
/// third and fourth word. None where the listing failed.
pub open spec fn ownership_seen(c: CommandView) -> Result<
    Option<(Seq<char>, Seq<char>)>,
    ResponseView,
> {
    if c.rc != 0 {
        Ok(None)
    } else {
        match (word(c.out, 2), word(c.out, 3)) {
            (Some(owner), Some(group)) => Ok(Some((owner, group))),
            _ => Err(failed("unexpected output format from ls: "@ + c.out)),
        }
    }
}

pub open spec fn ownership_answer(r: Result<Option<(String, String)>, TaskResponse>) -> Result<
    Option<(Seq<char>, Seq<char>)>,
    ResponseView,
> {
    match r {
        Ok(Some(p)) => Ok(Some((p.0@, p.1@))),
        Ok(None) => Ok(None),
        Err(e) => Err(e@),
    }
}

pub fn ownership_of(result: &TaskResponse) -> (r: Result<Option<(String, String)>, TaskResponse>)
    requires
        result.command_result is Some,
    ensures
        ownership_answer(r) == ownership_seen(result.command_result->0@),
{
    let (rc, out) = cmd_info(result);
    if rc != 0 {
        return Ok(None);
    }
    match (nth_word(out.as_str(), 2), nth_word(out.as_str(), 3)) {
        (Some(owner), Some(group)) => Ok(Some((owner, group))),
        _ => {
            let mut msg = String::from_str("unexpected output format from ls: ");
            msg.append(out.as_str());
            Err(TaskResponse::is_failed(msg.as_str()))
        },
    }
}

/// The ownership that the outcome of a listing shows.
pub open spec fn ownership_shown(sent: Outcome) -> Result<
    Option<(Seq<char>, Seq<char>)>,
    ResponseView,
> {
    match sent {
        Ok(resp) => ownership_seen(result_of(resp)),
        Err(e) => Err(e),
    }
}

/// The owner and the group of a remote path; none where the path does not exist.
pub fn get_ownership<C: Connection>(conn: &C, os_type: HostOSType, path: &str) -> (r: Result<
    Option<(String, String)>,
    TaskResponse,
>)
    ensures
        exists|sent: Outcome| #[trigger]
            is_built_outcome(sent, path_command("ls -ld "@, path@), CheckRc::Unchecked)
                && ownership_answer(r) == ownership_shown(sent),
{
    let ran = run_built(conn, get_ownership_command(os_type, path), CheckRc::Unchecked);
    let ghost sent = answer(ran);
    let r = match ran {
        Ok(result) => ownership_of(&result),
        Err(e) => Err(e),
    };
    assert(is_built_outcome(sent, path_command("ls -ld "@, path@), CheckRc::Unchecked));
    r
}

/// The content hash that a hash command printed: its first word. A command
/// that failed, or printed nothing, is a failure.
pub open spec fn checksum_seen(c: CommandView) -> Result<Seq<char>, ResponseView> {
    if c.rc != 0 {
        Err(failed_command(Some(c)))
    } else {
        match word(c.out, 0) {
            Some(sum) => Ok(sum),
            None => Err(failed("no checksum in the output of the hash command"@)),
        }
    }
}

pub fn checksum_of(result: &TaskResponse) -> (r: Result<String, TaskResponse>)
    requires
        result.command_result is Some,
    ensures
        text_answer(r) == checksum_seen(result.command_result->0@),
{
    match &result.command_result {
        Some(c) => {
            if c.rc != 0 {
                Err(TaskResponse::command_failed(Some(c.duplicate())))
            } else {
                match nth_word(c.out.as_str(), 0) {
                    Some(sum) => Ok(sum),
                    None => Err(
                        TaskResponse::is_failed("no checksum in the output of the hash command"),
                    ),
                }
            }
        },
        None => Err(TaskResponse::is_failed("no checksum in the output of the hash command")),
    }
}

/// The content hash that the outcome of a hash command shows.
pub open spec fn checksum_answer(sent: Outcome) -> Result<Seq<char>, ResponseView> {
    match sent {
        Ok(resp) => checksum_seen(result_of(resp)),
        Err(e) => Err(e),
    }
}

/// The content hash of a path as the unit of work `task_id` learns it: from
/// the cache of the host where it is there, else from the hash command.
pub open spec fn checksum_known(h: HostView, task_id: nat, path: Seq<char>, sent: Outcome) -> Result<
    Seq<char>,
    ResponseView,
> {
    match cached_checksum(after_get_checksum(h, task_id), path) {
        Some(sum) => Ok(sum),
        None => checksum_answer(sent),
    }
}

/// The host after the unit of work `task_id` learned the content hash of a
/// path: a hash that came from the host is recorded.
pub open spec fn checksum_learned(h: HostView, task_id: nat, path: Seq<char>, sent: Outcome) -> HostView {
    let asked = after_get_checksum(h, task_id);
    match (cached_checksum(asked, path), checksum_answer(sent)) {
        (None, Ok(sum)) => after_set_checksum(asked, path, sum),
        _ => asked,
    }
}

/// The content hash of a remote path: from the cache of the host where the
/// unit of work `task_id` has it there, else from the remote, and then
/// recorded in the cache. Nothing is sent where the cache has it.
pub fn get_sha512<C: Connection>(
    conn: &C,
    os_type: HostOSType,
    host: &mut Host,
    task_id: usize,
    path: &str,
) -> (r: Result<String, TaskResponse>)
    ensures
        exists|sent: Outcome| #[trigger]
            is_built_outcome(sent, sha512_command(os_type, path@), CheckRc::Unchecked)
                && text_answer(r) == checksum_known(old(host)@, task_id as nat, path@, sent)
                && final(host)@ == checksum_learned(old(host)@, task_id as nat, path@, sent),
{
    match host.get_checksum_cache(task_id, path) {
        Some(sum) => {
            proof {
                lemma_lost(sha512_command(os_type, path@), Safety::Safe, CheckRc::Unchecked);
                assert(is_built_outcome(
                    lost(sha512_command(os_type, path@)),
                    sha512_command(os_type, path@),
                    CheckRc::Unchecked,
                ));
            }
            return Ok(sum);
        },
        None => {},
    }
    let ran = run_built(conn, get_sha512_command(os_type, path), CheckRc::Unchecked);
    let ghost sent = answer(ran);
    let r = match ran {
        Ok(result) => match checksum_of(&result) {
            Ok(sum) => {
                host.set_checksum_cache(path, sum.as_str());
                Ok(sum)
            },
            Err(e) => Err(e),
        },
        Err(e) => Err(e),
    };
    assert(is_built_outcome(sent, sha512_command(os_type, path@), CheckRc::Unchecked));
    r
}

/// The attributes that differ: of owner, group and mode, in this order,
/// those that are declared and are not what the remote has.
pub open spec fn attribute_delta(
    attributes: FileAttributesView,
    remote_mode: Seq<char>,
    remote_owner: Seq<char>,
    remote_group: Seq<char>,
) -> Seq<Field> {
    let owner = if attributes.owner is Some && attributes.owner != Some(remote_owner) {
        seq![Field::Owner]
    } else {
        Seq::<Field>::empty()
    };
    let group = if attributes.group is Some && attributes.group != Some(remote_group) {
        seq![Field::Group]
    } else {
        Seq::<Field>::empty()
    };
    let mode = if attributes.mode is Some && attributes.mode != Some(remote_mode) {
        seq![Field::Mode]
    } else {
        Seq::<Field>::empty()
    };
    owner + group + mode
}

pub fn attribute_changes(
    attributes: &FileAttributesEvaluated,
    remote_mode: &str,
    remote_owner: &str,
    remote_group: &str,
) -> (r: Vec<Field>)
    ensures
        r@ == attribute_delta(attributes@, remote_mode@, remote_owner@, remote_group@),
{
    let mut changes: Vec<Field> = Vec::new();
    match &attributes.owner {
        Some(owner) => {
            if !str_eq(owner.as_str(), remote_owner) {
                changes.push(Field::Owner);
            }
        },
        None => {},
    }
    match &attributes.group {
        Some(group) => {
            if !str_eq(group.as_str(), remote_group) {
                changes.push(Field::Group);
            }
        },
        None => {},
    }
    match &attributes.mode {
        Some(mode) => {
            if !str_eq(mode.as_str(), remote_mode) {
                changes.push(Field::Mode);
            }
        },
        None => {},
    }
    assert(changes@ =~= attribute_delta(
        attributes@,
        remote_mode@,
        remote_owner@,
        remote_group@,
    ));
    changes
}

/// What a query of the attributes of a path finds, from the outcomes of
/// the mode query and of the listing: nothing where the path does not
/// exist, else its mode and the declared attributes that differ. The
/// ownership is asked for only where attributes are declared, and a listing
/// that shows none is a failure.
pub open spec fn attributes_queried(
    attributes: Option<FileAttributesView>,
    mode_sent: Outcome,
    owner_sent: Outcome,
) -> Result<Option<(Seq<char>, Seq<Field>)>, ResponseView> {
    match mode_answer(mode_sent) {
        Ok(Some(mode)) => match attributes {
            Some(declared) => match ownership_shown(owner_sent) {
                Ok(Some((owner, group))) => Ok(
                    Some((mode, attribute_delta(declared, mode, owner, group))),
                ),
                Ok(None) => Err(failed("the ownership of the path could not be read"@)),
                Err(e) => Err(e),
            },
            None => Ok(Some((mode, Seq::empty()))),
        },
        Ok(None) => Ok(None),
        Err(e) => Err(e),
    }
}

/// The mode that a query of attributes returns.
pub open spec fn queried_mode(q: Result<Option<(Seq<char>, Seq<Field>)>, ResponseView>) -> Result<
    Option<Seq<char>>,
    ResponseView,
> {
    match q {
        Ok(Some((mode, _))) => Ok(Some(mode)),
        Ok(None) => Ok(None),
        Err(e) => Err(e),
    }
}

/// The fields that a query of attributes adds to the changes.
pub open spec fn queried_delta(q: Result<Option<(Seq<char>, Seq<Field>)>, ResponseView>) -> Seq<
    Field,
> {
    match q {
        Ok(Some((_, delta))) => delta,
        _ => Seq::empty(),
    }
}

/// Queries the mode of a remote path and, where attributes are declared,
/// its ownership, and adds to `changes` the attributes that differ. Returns
/// the mode; none, with `changes` as they were, where the path does not exist.
pub fn query_common_file_attributes<C: Connection>(
    conn: &C,
    os_type: HostOSType,
    remote_path: &str,
    attributes: &Option<FileAttributesEvaluated>,
    changes: &mut Vec<Field>,
    _recurse: Recurse,
) -> (r: Result<Option<String>, TaskResponse>)
    ensures
        exists|mode_sent: Outcome, owner_sent: Outcome|
            is_built_outcome(mode_sent, mode_command(os_type, remote_path@), CheckRc::Unchecked)
                && is_built_outcome(
                owner_sent,
                path_command("ls -ld "@, remote_path@),
                CheckRc::Unchecked,
            ) && option_answer(r) == queried_mode(
                #[trigger] attributes_queried(
                    attributes_option(*attributes),
                    mode_sent,
                    owner_sent,
                ),
            ) && final(changes)@ == old(changes)@ + queried_delta(
                attributes_queried(attributes_option(*attributes), mode_sent, owner_sent),
            ),
{
    let ghost declared = attributes_option(*attributes);
    let ghost listing = path_command("ls -ld "@, remote_path@);
    let asked = get_mode(conn, os_type, remote_path);
    let ghost mode_sent: Outcome = choose|sent: Outcome| #[trigger]
        is_built_outcome(sent, mode_command(os_type, remote_path@), CheckRc::Unchecked)
            && option_answer(asked) == mode_answer(sent);
    let ghost mut owner_sent: Outcome = lost(listing);
    proof {
        lemma_lost(listing, Safety::Safe, CheckRc::Unchecked);
    }
    let r = match asked {
        Ok(Some(remote_mode)) => match attributes {
            Some(wanted) => {
                let owned = get_ownership(conn, os_type, remote_path);
                proof {
                    owner_sent = choose|sent: Outcome| #[trigger]
                        is_built_outcome(sent, listing, CheckRc::Unchecked) && ownership_answer(
                            owned,
                        ) == ownership_shown(sent);
                }
                match owned {
                    Ok(Some((owner, group))) => {
                        let mut delta = attribute_changes(
                            wanted,
                            remote_mode.as_str(),
                            owner.as_str(),
                            group.as_str(),
                        );
                        changes.append(&mut delta);
                        Ok(Some(remote_mode))
                    },
                    Ok(None) => Err(
                        TaskResponse::is_failed("the ownership of the path could not be read"),
                    ),
                    Err(e) => Err(e),
                }
            },
            None => Ok(Some(remote_mode)),
        },
        Ok(None) => Ok(None),
        Err(e) => Err(e),
    };
    proof {
        let q = attributes_queried(declared, mode_sent, owner_sent);
        assert(option_answer(r) == queried_mode(q));
        assert(changes@ =~= old(changes)@ + queried_delta(q));
    }
    r
}

/// The command that sets one attribute; none for a field that is no
/// attribute or that is not declared.
pub open spec fn attribute_step(
    path: Seq<char>,
    attributes: FileAttributesView,
    change: Field,
    recurse: Recurse,
) -> Option<Result<Seq<char>, Seq<char>>> {
    match change {
        Field::Owner => match attributes.owner {
            Some(owner) => Some(owner_command(path, owner, recurse)),
            None => None,
        },
        Field::Group => match attributes.group {
            Some(group) => Some(group_command(path, group, recurse)),
            None => None,
        },
        Field::Mode => match attributes.mode {
            Some(mode) => Some(chmod_command(path, mode, recurse)),
            None => None,
        },
        _ => None,
    }
}

/// The commands that set the attributes among the first `n` of `changes`, in their order.
pub open spec fn attribute_plan(
    path: Seq<char>,
    attributes: FileAttributesView,
    changes: Seq<Field>,
    recurse: Recurse,
    n: nat,
) -> Seq<Result<Seq<char>, Seq<char>>>
    decreases n,
{
    if n == 0 || n > changes.len() {
        Seq::empty()
    } else {
        let before = attribute_plan(path, attributes, changes, recurse, (n - 1) as nat);
        match attribute_step(path, attributes, changes[n - 1], recurse) {
            Some(cmd) => before.push(cmd),
            None => before,
        }
    }
}

pub open spec fn plan_view(plan: Seq<Result<String, String>>) -> Seq<Result<Seq<char>, Seq<char>>> {
    Seq::new(plan.len(), |i: int| text_result(plan[i]))
}

/// The commands that bring the attributes listed in `changes` to what is declared.
pub fn attribute_commands(
    os_type: HostOSType,
    remote_path: &str,
    attributes: &FileAttributesEvaluated,
    changes: &Vec<Field>,
    recurse: Recurse,
) -> (r: Vec<Result<String, String>>)
    ensures
        plan_view(r@) == attribute_plan(
            remote_path@,
            attributes@,
            changes@,
            recurse,
            changes@.len(),
        ),
{
    let mut plan: Vec<Result<String, String>> = Vec::new();
    let mut i: usize = 0;
    assert(plan_view(plan@) =~= Seq::<Result<Seq<char>, Seq<char>>>::empty());
    while i < changes.len()
        invariant
            i <= changes.len(),
            plan_view(plan@) == attribute_plan(
                remote_path@,
                attributes@,
                changes@,
                recurse,
                i as nat,
            ),
        decreases changes.len() - i,
    {
        let ghost before = plan_view(plan@);
        let step: Option<Result<String, String>> = match changes[i] {
            Field::Owner => match &attributes.owner {
                Some(owner) => Some(set_owner_command(os_type, remote_path, owner.as_str(), recurse)),
                None => None,
            },
            Field::Group => match &attributes.group {
                Some(group) => Some(set_group_command(os_type, remote_path, group.as_str(), recurse)),
                None => None,
            },
            Field::Mode => match &attributes.mode {
                Some(mode) => Some(set_mode_command(os_type, remote_path, mode.as_str(), recurse)),
                None => None,
            },
            _ => None,
        };
        match step {
            Some(cmd) => {
                plan.push(cmd);
                assert(plan_view(plan@) =~= before.push(text_result(cmd)));
            },
            None => {},
        }
        i += 1;
    }
    plan
}

/// What can come of running the commands of a plan in their order, each
/// checked, up to the first that fails: that failure, or success where
/// every command succeeded. An empty plan succeeds.
pub open spec fn is_plan_outcome(r: Step, plan: Seq<Result<Seq<char>, Seq<char>>>) -> bool
    decreases plan.len(),
{
    if plan.len() == 0 {
        r == Ok::<(), ResponseView>(())
    } else {
        exists|first: Outcome| #[trigger]
            is_built_outcome(first, plan[0], CheckRc::Checked) && (match first {
                Ok(_) => is_plan_outcome(r, plan.drop_first()),
                Err(e) => r == Err::<(), ResponseView>(e),
            })
    }
}

/// What can come of bringing the attributes listed in `changes` to what is
/// declared: success, with nothing sent, where none are declared, else what
/// can come of the plan of the commands that set them.
pub open spec fn is_processed(
    r: Step,
    path: Seq<char>,
    attributes: Option<FileAttributesView>,
    changes: Seq<Field>,
    recurse: Recurse,
) -> bool {
    match attributes {
        Some(declared) => is_plan_outcome(
            r,
            attribute_plan(path, declared, changes, recurse, changes.len()),
        ),
        None => r == Ok::<(), ResponseView>(()),
    }
}

/// The fields that stand for owner, group and mode.
pub open spec fn all_attributes() -> Seq<Field> {
    seq![Field::Owner, Field::Group, Field::Mode]
}

/// A plan succeeds only if the catalog built each of its commands and none
/// was refused by the screening, and it fails with the complaint about its
/// first command where that one is not sent.
pub proof fn lemma_plan_outcome(r: Step, plan: Seq<Result<Seq<char>, Seq<char>>>)
    requires
        is_plan_outcome(r, plan),
    ensures
        r is Ok ==> forall|i: int| 0 <= i < plan.len() ==> refused(#[trigger] plan[i]) is None,
        plan.len() > 0 ==> (refused(plan[0]) matches Some(complaint) ==> r == Err::<
            (),
            ResponseView,
        >(failed(complaint))),
    decreases plan.len(),
{
    if plan.len() > 0 {
        let first = choose|first: Outcome| #[trigger]
            is_built_outcome(first, plan[0], CheckRc::Checked) && (match first {
                Ok(_) => is_plan_outcome(r, plan.drop_first()),
                Err(e) => r == Err::<(), ResponseView>(e),
            });
        if first is Ok {
            lemma_plan_outcome(r, plan.drop_first());
            if r is Ok {
                assert forall|i: int| 0 <= i < plan.len() implies refused(#[trigger] plan[i])
                    is None by {
                    if i > 0 {
                        assert(plan[i] == plan.drop_first()[i - 1]);
                    }
                }
            }
        }
    }
}

/// Every plan has an outcome.
pub proof fn lemma_lost_plan(plan: Seq<Result<Seq<char>, Seq<char>>>)
    ensures
        is_plan_outcome(lost_plan(plan), plan),
{
    if plan.len() > 0 {
        lemma_lost(plan[0], Safety::Safe, CheckRc::Checked);
        assert(is_built_outcome(lost(plan[0]), plan[0], CheckRc::Checked));
    }
}

/// The outcome of a plan on a connection that fails without a word.
pub open spec fn lost_plan(plan: Seq<Result<Seq<char>, Seq<char>>>) -> Step {
    if plan.len() == 0 {
        Ok(())
    } else {
        done_view(lost(plan[0]))
    }
}

/// The outcome of bringing attributes about on a connection that fails without a word.
pub open spec fn lost_attributes(
    path: Seq<char>,
    attributes: Option<FileAttributesView>,
    changes: Seq<Field>,
    recurse: Recurse,
) -> Step {
    match attributes {
        Some(declared) => lost_plan(
            attribute_plan(path, declared, changes, recurse, changes.len()),
        ),
        None => Ok(()),
    }
}

/// Bringing attributes about always has an outcome.
pub proof fn lemma_lost_attributes(
    path: Seq<char>,
    attributes: Option<FileAttributesView>,
    changes: Seq<Field>,
    recurse: Recurse,
)
    ensures
        is_processed(
            lost_attributes(path, attributes, changes, recurse),
            path,
            attributes,
            changes,
            recurse,
        ),
{
    if let Some(declared) = attributes {
        lemma_lost_plan(attribute_plan(path, declared, changes, recurse, changes.len()));
    }
}

/// Runs the commands of a plan from the one at `from` on.
fn run_plan_from<C: Connection>(conn: &C, plan: &Vec<Result<String, String>>, from: usize) -> (r:
    Result<(), TaskResponse>)
    requires
        from <= plan.len(),
    ensures
        is_plan_outcome(done(r), plan_view(plan@).skip(from as int)),
    decreases plan.len() - from,
{
    let ghost rest = plan_view(plan@).skip(from as int);
    if from == plan.len() {
        return Ok(());
    }
    let cmd: Result<String, String> = match &plan[from] {
        Ok(line) => Ok(line.clone()),
        Err(complaint) => Err(complaint.clone()),
    };
    assert(text_result(cmd) == rest[0]);
    let ran = run_built(conn, cmd, CheckRc::Checked);
    let ghost first = answer(ran);
    assert(is_built_outcome(first, rest[0], CheckRc::Checked));
    match ran {
        Ok(_) => {
            assert(rest.drop_first() =~= plan_view(plan@).skip(from + 1));
            run_plan_from(conn, plan, from + 1)
        },
        Err(e) => Err(e),
    }
}

/// Runs the commands of a plan in their order, each checked, and stops at
/// the first that fails. Nothing is sent for a command that the catalog
/// refused to build, nor after it.
pub fn run_plan<C: Connection>(conn: &C, plan: &Vec<Result<String, String>>) -> (r: Result<
    (),
    TaskResponse,
>)
    ensures
        is_plan_outcome(done(r), plan_view(plan@)),
{
    assert(plan_view(plan@).skip(0) =~= plan_view(plan@));
    run_plan_from(conn, plan, 0)
}

/// Brings the attributes listed in `changes` to what is declared. Nothing
/// is done where no attributes are declared.
pub fn process_common_file_attributes<C: Connection>(
    conn: &C,
    os_type: HostOSType,
    remote_path: &str,
    attributes: &Option<FileAttributesEvaluated>,
    changes: &Vec<Field>,
    recurse: Recurse,
) -> (r: Result<(), TaskResponse>)
    ensures
        is_processed(done(r), remote_path@, attributes_option(*attributes), changes@, recurse),
{
    match attributes {
        None => Ok(()),
        Some(declared) => {
            let plan = attribute_commands(os_type, remote_path, declared, changes, recurse);
            run_plan(conn, &plan)
        },
    }
}

/// Brings owner, group and mode, in this order, to what is declared: the
/// commands that set those of them that are declared are run one by one,
/// each checked, up to the first that fails. Nothing is sent, and the
/// operation succeeds, where no attributes are declared or none of the
/// three is.
pub fn process_all_common_file_attributes<C: Connection>(
    conn: &C,
    os_type: HostOSType,
    remote_path: &str,
    attributes: &Option<FileAttributesEvaluated>,
    recurse: Recurse,
) -> (r: Result<(), TaskResponse>)
    ensures
        is_processed(
            done(r),
            remote_path@,
            attributes_option(*attributes),
            all_attributes(),
            recurse,
        ),
{
    let all = Field::all_file_attributes();
    process_common_file_attributes(conn, os_type, remote_path, attributes, &all, recurse)
}

/// Creates a remote directory and what is missing of the path to it.
pub fn create_directory<C: Connection>(conn: &C, os_type: HostOSType, path: &str) -> (r: Result<
    (),
    TaskResponse,
>)
    ensures
        exists|sent: Outcome| #[trigger]
            is_built_outcome(sent, path_command("mkdir -p "@, path@), CheckRc::Checked) && done(
                r,
            ) == done_view(sent),
{
    let ran = run_built(conn, get_create_directory_command(os_type, path), CheckRc::Checked);
    let ghost sent = answer(ran);
    let r = match ran {
        Ok(_) => Ok(()),
        Err(e) => Err(e),
    };
    assert(is_built_outcome(sent, path_command("mkdir -p "@, path@), CheckRc::Checked));
    r
}

/// One step after another: the failure of the first, with the second not
/// taken, else what comes of the second.
pub open spec fn and_then(first: Step, second: Step) -> Step {
    match first {
        Ok(()) => second,
        Err(e) => Err(e),
    }
}

/// The answer to `Create`, from what came of its steps.
pub open spec fn created(steps: Step) -> Outcome {
    match steps {
        Ok(()) => Ok(crate::tasks::response::plain(crate::tasks::response::TaskStatus::IsCreated)),
        Err(e) => Err(e),
    }
}

/// The answer to `Modify`, from what came of its steps: the changes asked
/// for are the changes made.
pub open spec fn modified(steps: Step, changes: Seq<Field>) -> Outcome {
    match steps {
        Ok(()) => Ok(
            crate::tasks::response::with_changes(
                crate::tasks::response::TaskStatus::IsModified,
                changes,
            ),
        ),
        Err(e) => Err(e),
    }
}

/// The view of the answer of an operation that returns nothing.
pub open spec fn done(r: Result<(), TaskResponse>) -> Result<(), ResponseView> {
    match r {
        Ok(()) => Ok(()),
        Err(e) => Err(e@),
    }
}

/// An outcome without what it carries.
pub open spec fn done_view(sent: Result<ResponseView, ResponseView>) -> Result<(), ResponseView> {
    match sent {
        Ok(_) => Ok(()),
        Err(e) => Err(e),
    }
}

} // verus!
