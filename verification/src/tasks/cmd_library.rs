//! Screening of untrusted text and the catalog of primitive remote commands.
//!
//! Every builder screens its own arguments: callers are not trusted to have
//! done so. An argument that may hold spaces comes last in its command.

use crate::inventory::hosts::HostOSType;
use crate::tasks::files::{is_octal, FileAttributesInput, Recurse};
use crate::util::text::{chars_of, contains_char, text_result, trim, trimmed};
use vstd::prelude::*;
use vstd::string::*;

verus! {

/// The characters that strict screening rejects, in the order in which they are looked for.
pub open spec fn strict_denied() -> Seq<char> {
    seq![';', '{', '}', '(', ')', '<', '>', '&', '*', '|', '=', '?', '[', ']', '$', '%', '`']
}

/// The characters that loose screening rejects, in the order in which they are looked for.
pub open spec fn loose_denied() -> Seq<char> {
    seq![';', '<', '>', '&', '*', '?', '{', '}', '[', ']', '$', '`']
}

/// The first character of `denied`, in the order of `denied`, that occurs in `input`.
pub open spec fn first_denied(input: Seq<char>, denied: Seq<char>) -> Option<char>
    decreases denied.len(),
{
    if denied.len() == 0 {
        None
    } else if input.contains(denied[0]) {
        Some(denied[0])
    } else {
        first_denied(input, denied.drop_first())
    }
}

/// Screening against a deny-list: the trimmed input where it is clean, else a
/// violation that begins with `complaint` and names the input and the character.
pub open spec fn screened(input: Seq<char>, denied: Seq<char>, complaint: Seq<char>) -> Result<
    Seq<char>,
    Seq<char>,
> {
    let t = trimmed(input);
    match first_denied(t, denied) {
        Some(c) => Err(complaint + t + " ('"@ + seq![c] + "')"@),
        None => Ok(t),
    }
}

pub open spec fn strict_screened(input: Seq<char>) -> Result<Seq<char>, Seq<char>> {
    screened(input, strict_denied(), "illegal characters found: "@)
}

pub open spec fn loose_screened(input: Seq<char>) -> Result<Seq<char>, Seq<char>> {
    screened(input, loose_denied(), "illegal characters detected: "@)
}

pub open spec fn path_screened(path: Seq<char>) -> Result<Seq<char>, Seq<char>> {
    strict_screened(trimmed(path))
}

pub open spec fn mode_screened(mode: Seq<char>) -> Result<Seq<char>, Seq<char>> {
    if is_octal(mode) {
        Ok(mode)
    } else {
        Err("not an octal string: "@ + mode)
    }
}

/// `s` between single quotes.
pub open spec fn quoted(s: Seq<char>) -> Seq<char> {
    "'"@ + s + "'"@
}

/// A command made of `prefix` and one screened, quoted path.
pub open spec fn path_command(prefix: Seq<char>, path: Seq<char>) -> Result<Seq<char>, Seq<char>> {
    match path_screened(path) {
        Ok(p) => Ok(prefix + quoted(p)),
        Err(e) => Err(e),
    }
}

/// A command made of `prefix`, a screened, quoted argument and a screened, quoted
/// path. The path is screened first.
pub open spec fn argument_command(
    prefix: Seq<char>,
    argument: Result<Seq<char>, Seq<char>>,
    path: Seq<char>,
) -> Result<Seq<char>, Seq<char>> {
    match path_screened(path) {
        Ok(p) => match argument {
            Ok(a) => Ok(prefix + quoted(a) + " "@ + quoted(p)),
            Err(e) => Err(e),
        },
        Err(e) => Err(e),
    }
}

fn screen(input: &str, denied: &str, complaint: &str) -> (r: Result<String, String>)
    ensures
        text_result(r) == screened(input@, denied@, complaint@),
{
    let t = trim(input);
    let d = chars_of(denied);
    let mut i: usize = 0;
    assert(d@.subrange(0, d@.len() as int) =~= d@);
    while i < d.len()
        invariant
            d@ == denied@,
            t@ == trimmed(input@),
            i <= d@.len(),
            first_denied(t@, d@) == first_denied(t@, d@.subrange(i as int, d@.len() as int)),
        decreases d@.len() - i,
    {
        let ghost rest = d@.subrange(i as int, d@.len() as int);
        assert(rest.drop_first() =~= d@.subrange(i + 1, d@.len() as int));
        if contains_char(t, d[i]) {
            let named = denied.substring_char(i, i + 1);
            assert(named@ =~= seq![d@[i as int]]);
            let mut msg = String::from_str(complaint);
            msg.append(t);
            msg.append(" ('");
            msg.append(named);
            msg.append("')");
            return Err(msg);
        }
        i += 1;
    }
    Ok(String::from_str(t))
}

/// Screens a path that is to stand in a remote command.
pub fn screen_path(path: &str) -> (r: Result<String, String>)
    ensures
        text_result(r) == path_screened(path@),
{
    let trimmed_path = trim(path);
    screen_general_input_strict(trimmed_path)
}

/// Strict screening: applied to every argument of the command catalog, and to
/// every templated value that is not marked as unsafe.
pub fn screen_general_input_strict(input: &str) -> (r: Result<String, String>)
    ensures
        text_result(r) == strict_screened(input@),
{
    let denied = ";{}()<>&*|=?[]$%`";
    proof {
        reveal_strlit(";{}()<>&*|=?[]$%`");
        assert(denied@ =~= strict_denied());
    }
    screen(input, denied, "illegal characters found: ")
}

/// Loose screening: applied to whole command lines whose arguments are
/// already screened and quoted. It lets parentheses, pipes, `=` and `%` pass.
pub fn screen_general_input_loose(input: &str) -> (r: Result<String, String>)
    ensures
        text_result(r) == loose_screened(input@),
{
    let denied = ";<>&*?{}[]$`";
    proof {
        reveal_strlit(";<>&*?{}[]$`");
        assert(denied@ =~= loose_denied());
    }
    screen(input, denied, "illegal characters detected: ")
}

/// Accepts a permission string only if it is octal.
pub fn screen_mode(mode: &str) -> (r: Result<String, String>)
    ensures
        text_result(r) == mode_screened(mode@),
{
    if FileAttributesInput::is_octal_string(mode) {
        Ok(String::from_str(mode))
    } else {
        let mut msg = String::from_str("not an octal string: ");
        msg.append(mode);
        Err(msg)
    }
}

fn build_path_command(prefix: &str, untrusted_path: &str) -> (r: Result<String, String>)
    ensures
        text_result(r) == path_command(prefix@, untrusted_path@),
{
    match screen_path(untrusted_path) {
        Ok(path) => {
            let mut cmd = String::from_str(prefix);
            cmd.append("'");
            cmd.append(path.as_str());
            cmd.append("'");
            assert(cmd@ =~= prefix@ + quoted(path@));
            Ok(cmd)
        },
        Err(e) => Err(e),
    }
}

fn build_argument_command(
    prefix: &str,
    argument: Result<String, String>,
    untrusted_path: &str,
) -> (r: Result<String, String>)
    ensures
        text_result(r) == argument_command(prefix@, text_result(argument), untrusted_path@),
{
    match screen_path(untrusted_path) {
        Ok(path) => match argument {
            Ok(a) => {
                let mut cmd = String::from_str(prefix);
                cmd.append("'");
                cmd.append(a.as_str());
                cmd.append("'");
                cmd.append(" ");
                cmd.append("'");
                cmd.append(path.as_str());
                cmd.append("'");
                assert(cmd@ =~= prefix@ + quoted(a@) + " "@ + quoted(path@));
                Ok(cmd)
            },
            Err(e) => Err(e),
        },
        Err(e) => Err(e),
    }
}

pub open spec fn mode_command(os_type: HostOSType, path: Seq<char>) -> Result<Seq<char>, Seq<char>> {
    match os_type {
        HostOSType::Linux => path_command("stat --format '%a' "@, path),
        HostOSType::MacOS => path_command("stat -f '%A' "@, path),
    }
}

pub fn get_mode_command(os_type: HostOSType, untrusted_path: &str) -> (r: Result<String, String>)
    ensures
        text_result(r) == mode_command(os_type, untrusted_path@),
{
    match os_type {
        HostOSType::Linux => build_path_command("stat --format '%a' ", untrusted_path),
        HostOSType::MacOS => build_path_command("stat -f '%A' ", untrusted_path),
    }
}

pub open spec fn sha512_command(os_type: HostOSType, path: Seq<char>) -> Result<
    Seq<char>,
    Seq<char>,
> {
    match os_type {
        HostOSType::Linux => path_command("sha512sum "@, path),
        HostOSType::MacOS => path_command("shasum -b -a 512 "@, path),
    }
}

pub fn get_sha512_command(os_type: HostOSType, untrusted_path: &str) -> (r: Result<String, String>)
    ensures
        text_result(r) == sha512_command(os_type, untrusted_path@),
{
    match os_type {
        HostOSType::Linux => build_path_command("sha512sum ", untrusted_path),
        HostOSType::MacOS => build_path_command("shasum -b -a 512 ", untrusted_path),
    }
}

pub fn get_ownership_command(_os_type: HostOSType, untrusted_path: &str) -> (r: Result<
    String,
    String,
>)
    ensures
        text_result(r) == path_command("ls -ld "@, untrusted_path@),
{
    build_path_command("ls -ld ", untrusted_path)
}

pub fn get_is_directory_command(_os_type: HostOSType, untrusted_path: &str) -> (r: Result<
    String,
    String,
>)
    ensures
        text_result(r) == path_command("ls -ld "@, untrusted_path@),
{
    build_path_command("ls -ld ", untrusted_path)
}

pub fn get_touch_command(_os_type: HostOSType, untrusted_path: &str) -> (r: Result<String, String>)
    ensures
        text_result(r) == path_command("touch "@, untrusted_path@),
{
    build_path_command("touch ", untrusted_path)
}

pub fn get_create_directory_command(_os_type: HostOSType, untrusted_path: &str) -> (r: Result<
    String,
    String,
>)
    ensures
        text_result(r) == path_command("mkdir -p "@, untrusted_path@),
{
    build_path_command("mkdir -p ", untrusted_path)
}

pub fn get_delete_file_command(_os_type: HostOSType, untrusted_path: &str) -> (r: Result<
    String,
    String,
>)
    ensures
        text_result(r) == path_command("rm -f "@, untrusted_path@),
{
    build_path_command("rm -f ", untrusted_path)
}

pub open spec fn delete_directory_command(path: Seq<char>, recurse: Recurse) -> Result<
    Seq<char>,
    Seq<char>,
> {
    match recurse {
        Recurse::No => path_command("rmdir "@, path),
        Recurse::Yes => path_command("rm -rf "@, path),
    }
}

pub fn get_delete_directory_command(
    _os_type: HostOSType,
    untrusted_path: &str,
    recurse: Recurse,
) -> (r: Result<String, String>)
    ensures
        text_result(r) == delete_directory_command(untrusted_path@, recurse),
{
    match recurse {
        Recurse::No => build_path_command("rmdir ", untrusted_path),
        Recurse::Yes => build_path_command("rm -rf ", untrusted_path),
    }
}

pub open spec fn owner_command(path: Seq<char>, owner: Seq<char>, recurse: Recurse) -> Result<
    Seq<char>,
    Seq<char>,
> {
    match recurse {
        Recurse::No => argument_command("chown "@, strict_screened(owner), path),
        Recurse::Yes => argument_command("chown -R "@, strict_screened(owner), path),
    }
}

pub fn set_owner_command(
    _os_type: HostOSType,
    untrusted_path: &str,
    untrusted_owner: &str,
    recurse: Recurse,
) -> (r: Result<String, String>)
    ensures
        text_result(r) == owner_command(untrusted_path@, untrusted_owner@, recurse),
{
    let owner = screen_general_input_strict(untrusted_owner);
    match recurse {
        Recurse::No => build_argument_command("chown ", owner, untrusted_path),
        Recurse::Yes => build_argument_command("chown -R ", owner, untrusted_path),
    }
}

pub open spec fn group_command(path: Seq<char>, group: Seq<char>, recurse: Recurse) -> Result<
    Seq<char>,
    Seq<char>,
> {
    match recurse {
        Recurse::No => argument_command("chgrp "@, strict_screened(group), path),
        Recurse::Yes => argument_command("chgrp -R "@, strict_screened(group), path),
    }
}

pub fn set_group_command(
    _os_type: HostOSType,
    untrusted_path: &str,
    untrusted_group: &str,
    recurse: Recurse,
) -> (r: Result<String, String>)
    ensures
        text_result(r) == group_command(untrusted_path@, untrusted_group@, recurse),
{
    let group = screen_general_input_strict(untrusted_group);
    match recurse {
        Recurse::No => build_argument_command("chgrp ", group, untrusted_path),
        Recurse::Yes => build_argument_command("chgrp -R ", group, untrusted_path),
    }
}

pub open spec fn chmod_command(path: Seq<char>, mode: Seq<char>, recurse: Recurse) -> Result<
    Seq<char>,
    Seq<char>,
> {
    match recurse {
        Recurse::No => argument_command("chmod "@, mode_screened(mode), path),
        Recurse::Yes => argument_command("chmod -R "@, mode_screened(mode), path),
    }
}

/// The mode is screened here too: a caller may reach this builder without
/// having gone through the evaluation of file attributes.
pub fn set_mode_command(
    _os_type: HostOSType,
    untrusted_path: &str,
    untrusted_mode: &str,
    recurse: Recurse,
) -> (r: Result<String, String>)
    ensures
        text_result(r) == chmod_command(untrusted_path@, untrusted_mode@, recurse),
{
    let mode = screen_mode(untrusted_mode);
    match recurse {
        Recurse::No => build_argument_command("chmod ", mode, untrusted_path),
        Recurse::Yes => build_argument_command("chmod -R ", mode, untrusted_path),
    }
}

pub fn get_arch_command(_os_type: HostOSType) -> (r: Result<String, String>)
    ensures
        text_result(r) == Ok::<Seq<char>, Seq<char>>("uname -m"@),
{
    Ok(String::from_str("uname -m"))
}

/// A value that passed a screening holds none of the characters on its deny-list.
pub proof fn lemma_screened_is_clean(input: Seq<char>, denied: Seq<char>, complaint: Seq<char>)
    ensures
        screened(input, denied, complaint) matches Ok(t) ==> forall|i: int|
            0 <= i < denied.len() ==> !t.contains(#[trigger] denied[i]),
{
    lemma_none_denied(trimmed(input), denied);
}

proof fn lemma_none_denied(t: Seq<char>, denied: Seq<char>)
    ensures
        first_denied(t, denied) is None ==> forall|i: int|
            0 <= i < denied.len() ==> !t.contains(#[trigger] denied[i]),
        first_denied(t, denied) matches Some(c) ==> denied.contains(c) && t.contains(c),
    decreases denied.len(),
{
    if denied.len() > 0 && !t.contains(denied[0]) {
        lemma_none_denied(t, denied.drop_first());
        assert forall|i: int| 0 <= i < denied.len() implies !t.contains(
            #[trigger] denied[i],
        ) || first_denied(t, denied) is Some by {
            if i > 0 {
                assert(denied[i] == denied.drop_first()[i - 1]);
            }
        }
        if let Some(c) = first_denied(t, denied) {
            let k = choose|k: int| 0 <= k < denied.drop_first().len() && denied.drop_first()[k] == c;
            assert(denied[k + 1] == c);
        }
    }
}

} // verus!
