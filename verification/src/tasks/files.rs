//! File attributes shared by the actions that manage remote files.

use crate::handle::template::{lift, no_spaces_field, screened_field, Template};
use crate::playbooks::templar::TemplateMode;
use crate::tasks::response::{failed, ResponseView, TaskResponse};
use crate::util::text::{chars_of, text_option};
use crate::util::yaml::Entries;
use vstd::prelude::*;
use vstd::string::*;

verus! {

/// Whether an operation on a directory descends into it.
#[derive(Clone, Copy, Debug, PartialEq, Eq, Structural)]
pub enum Recurse {
    No,
    Yes,
}

pub open spec fn is_octal_digit(c: char) -> bool {
    '0' <= c && c <= '7'
}

/// The digits of a permission string: what follows an optional `0o` prefix.
pub open spec fn octal_digits(s: Seq<char>) -> Seq<char> {
    if s.len() >= 2 && s[0] == '0' && s[1] == 'o' {
        s.skip(2)
    } else {
        s
    }
}

/// A permission string is octal when, after an optional `0o` prefix, it is a
/// non-empty run of the digits `0` to `7`.
pub open spec fn is_octal(s: Seq<char>) -> bool {
    let d = octal_digits(s);
    d.len() > 0 && forall|i: int| 0 <= i < d.len() ==> is_octal_digit(#[trigger] d[i])
}

/// Declared ownership and permissions of a remote file, before evaluation.
#[derive(Debug)]
pub struct FileAttributesInput {
    pub owner: Option<String>,
    pub group: Option<String>,
    pub mode: Option<String>,
}

/// Ownership and permissions of a remote file, evaluated and screened.
#[derive(Debug)]
pub struct FileAttributesEvaluated {
    pub owner: Option<String>,
    pub group: Option<String>,
    pub mode: Option<String>,
}

pub struct FileAttributesView {
    pub owner: Option<Seq<char>>,
    pub group: Option<Seq<char>>,
    pub mode: Option<Seq<char>>,
}

impl View for FileAttributesEvaluated {
    type V = FileAttributesView;

    open spec fn view(&self) -> FileAttributesView {
        FileAttributesView {
            owner: text_option(self.owner),
            group: text_option(self.group),
            mode: text_option(self.mode),
        }
    }
}

pub open spec fn attributes_option(o: Option<FileAttributesEvaluated>) -> Option<
    FileAttributesView,
> {
    match o {
        Some(a) => Some(a@),
        None => None,
    }
}

/// A declared mode: rendered, screened strictly and, unless rendering is
/// off, accepted only if it is octal.
pub open spec fn mode_field(vars: Entries, tm: TemplateMode, template: Seq<char>) -> Result<
    Seq<char>,
    ResponseView,
> {
    match screened_field(vars, tm, "mode"@, template) {
        Ok(clean) => if tm == TemplateMode::Off || is_octal(clean) {
            Ok(clean)
        } else {
            Err(failed("field (mode) has invalid octal value: "@ + clean))
        },
        Err(e) => Err(e),
    }
}

/// What declared file attributes evaluate to. The first of mode, owner and
/// group that fails, in this order, decides the failure.
pub open spec fn file_attributes(vars: Entries, tm: TemplateMode, input: FileAttributesInput) -> Result<
    FileAttributesView,
    ResponseView,
> {
    let mode = lift(
        match input.mode {
            Some(t) => Some(mode_field(vars, tm, t@)),
            None => None,
        },
    );
    let owner = lift(
        match input.owner {
            Some(t) => Some(no_spaces_field(vars, tm, "owner"@, t@)),
            None => None,
        },
    );
    let group = lift(
        match input.group {
            Some(t) => Some(no_spaces_field(vars, tm, "group"@, t@)),
            None => None,
        },
    );
    match (mode, owner, group) {
        (Err(e), _, _) => Err(e),
        (_, Err(e), _) => Err(e),
        (_, _, Err(e)) => Err(e),
        (Ok(mode), Ok(owner), Ok(group)) => Ok(FileAttributesView { owner, group, mode }),
    }
}

pub open spec fn attributes_answer(r: Result<Option<FileAttributesEvaluated>, TaskResponse>) -> Result<
    Option<FileAttributesView>,
    ResponseView,
> {
    match r {
        Ok(o) => Ok(attributes_option(o)),
        Err(e) => Err(e@),
    }
}

impl FileAttributesEvaluated {
    pub fn duplicate(&self) -> (r: FileAttributesEvaluated)
        ensures
            r@ == self@,
    {
        FileAttributesEvaluated {
            owner: match &self.owner {
                Some(s) => Some(s.clone()),
                None => None,
            },
            group: match &self.group {
                Some(s) => Some(s.clone()),
                None => None,
            },
            mode: match &self.mode {
                Some(s) => Some(s.clone()),
                None => None,
            },
        }
    }
}

impl FileAttributesInput {
    /// Evaluates declared file attributes.
    pub fn template(template: &Template, tm: TemplateMode, input: &Option<Self>) -> (r: Result<
        Option<FileAttributesEvaluated>,
        TaskResponse,
    >)
        ensures
            attributes_answer(r) == lift(
                match *input {
                    Some(i) => Some(file_attributes(template.variables@, tm, i)),
                    None => None,
                },
            ),
    {
        match input {
            None => Ok(None),
            Some(input2) => {
                let mode = match &input2.mode {
                    Some(t) => match template.string(tm, "mode", t.as_str()) {
                        Ok(clean) => {
                            if tm == TemplateMode::Off || FileAttributesInput::is_octal_string(
                                clean.as_str(),
                            ) {
                                Some(clean)
                            } else {
                                let mut msg = String::from_str(
                                    "field (mode) has invalid octal value: ",
                                );
                                msg.append(clean.as_str());
                                return Err(TaskResponse::is_failed(msg.as_str()));
                            }
                        },
                        Err(e) => { return Err(e); },
                    },
                    None => None,
                };
                let owner = match template.string_option_no_spaces(tm, "owner", &input2.owner) {
                    Ok(v) => v,
                    Err(e) => { return Err(e); },
                };
                let group = match template.string_option_no_spaces(tm, "group", &input2.group) {
                    Ok(v) => v,
                    Err(e) => { return Err(e); },
                };
                Ok(Some(FileAttributesEvaluated { owner, group, mode }))
            },
        }
    }

    pub fn is_octal_string(mode: &str) -> (r: bool)
        ensures
            r == is_octal(mode@),
    {
        let v = chars_of(mode);
        let start: usize = if v.len() >= 2 && v[0] == '0' && v[1] == 'o' {
            2
        } else {
            0
        };
        if v.len() == start {
            return false;
        }
        let ghost d = octal_digits(mode@);
        assert(d =~= v@.skip(start as int));
        let mut i: usize = start;
        while i < v.len()
            invariant
                start <= i <= v@.len(),
                d == v@.skip(start as int),
                d == octal_digits(mode@),
                forall|k: int| 0 <= k < i - start ==> is_octal_digit(#[trigger] d[k]),
            decreases v@.len() - i,
        {
            if !('0' <= v[i] && v[i] <= '7') {
                assert(!is_octal_digit(d[i - start]));
                return false;
            }
            i += 1;
        }
        true
    }
}

} // verus!
