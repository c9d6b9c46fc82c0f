//! Evaluation of the declared fields of a task, each according to its role:
//! a field that may reach a shell is screened after it is rendered, unless
//! the function that evaluates it says in its name that it is unsafe.

use crate::playbooks::templar::{condition_result, render_result, Templar, TemplateMode};
use crate::tasks::cmd_library::{
    path_screened, screen_general_input_strict, screen_path, strict_screened,
};
use crate::tasks::response::{failed, ResponseView, TaskResponse};
use crate::util::text::{
    contains_char, parse_bool, parse_u64, parsed_bool, parsed_u64, text_option, trim, trimmed,
};
use crate::util::yaml::{blend_entries, Entries, Mapping};
use vstd::prelude::*;
use vstd::string::*;

verus! {

/// The templar and the variables that the fields of a task are evaluated against.
pub struct Template<'a> {
    pub templar: &'a Templar,
    pub variables: &'a Mapping,
}

pub open spec fn text_answer(r: Result<String, TaskResponse>) -> Result<Seq<char>, ResponseView> {
    match r {
        Ok(s) => Ok(s@),
        Err(e) => Err(e@),
    }
}

pub open spec fn option_answer(r: Result<Option<String>, TaskResponse>) -> Result<
    Option<Seq<char>>,
    ResponseView,
> {
    match r {
        Ok(o) => Ok(text_option(o)),
        Err(e) => Err(e@),
    }
}

pub open spec fn plain_answer<T>(r: Result<T, TaskResponse>) -> Result<T, ResponseView> {
    match r {
        Ok(v) => Ok(v),
        Err(e) => Err(e@),
    }
}

/// An optional evaluation: nothing where nothing was declared.
pub open spec fn lift<T>(o: Option<Result<T, ResponseView>>) -> Result<Option<T>, ResponseView> {
    match o {
        None => Ok(None),
        Some(Ok(v)) => Ok(Some(v)),
        Some(Err(e)) => Err(e),
    }
}

/// An optional evaluation with a default.
pub open spec fn or_default<T>(o: Option<Result<T, ResponseView>>, default: T) -> Result<
    T,
    ResponseView,
> {
    match o {
        None => Ok(default),
        Some(r) => r,
    }
}

/// A field rendered and not screened.
pub open spec fn rendered_field(vars: Entries, tm: TemplateMode, template: Seq<char>) -> Result<
    Seq<char>,
    ResponseView,
> {
    match render_result(template, vars, tm) {
        Ok(text) => Ok(text),
        Err(e) => Err(failed(e)),
    }
}

/// A field rendered, then screened strictly.
pub open spec fn screened_field(
    vars: Entries,
    tm: TemplateMode,
    field: Seq<char>,
    template: Seq<char>,
) -> Result<Seq<char>, ResponseView> {
    match rendered_field(vars, tm, template) {
        Ok(text) => match strict_screened(text) {
            Ok(clean) => Ok(clean),
            Err(violation) => Err(failed("field "@ + field + ", "@ + violation)),
        },
        Err(e) => Err(e),
    }
}

/// A field rendered, screened strictly, and refused where it holds a space.
pub open spec fn no_spaces_field(
    vars: Entries,
    tm: TemplateMode,
    field: Seq<char>,
    template: Seq<char>,
) -> Result<Seq<char>, ResponseView> {
    match screened_field(vars, tm, field, template) {
        Ok(clean) => if clean.contains(' ') {
            Err(failed("field ("@ + field + "): spaces are not allowed"@))
        } else {
            Ok(clean)
        },
        Err(e) => Err(e),
    }
}

/// A field rendered, then screened as a path.
pub open spec fn path_field(
    vars: Entries,
    tm: TemplateMode,
    field: Seq<char>,
    template: Seq<char>,
) -> Result<Seq<char>, ResponseView> {
    match rendered_field(vars, tm, template) {
        Ok(text) => match path_screened(text) {
            Ok(clean) => Ok(clean),
            Err(violation) => Err(failed(violation + ", for field "@ + field)),
        },
        Err(e) => Err(e),
    }
}

/// A field rendered, screened strictly, and trimmed.
pub open spec fn trimmed_field(
    vars: Entries,
    tm: TemplateMode,
    field: Seq<char>,
    template: Seq<char>,
) -> Result<Seq<char>, ResponseView> {
    match screened_field(vars, tm, field, template) {
        Ok(clean) => Ok(trimmed(clean)),
        Err(e) => Err(e),
    }
}

/// A field rendered, screened strictly, and read as a truth value. While
/// rendering is off the default stands for it.
pub open spec fn boolean_field(
    vars: Entries,
    tm: TemplateMode,
    field: Seq<char>,
    template: Seq<char>,
    default: bool,
) -> Result<bool, ResponseView> {
    if tm == TemplateMode::Off {
        Ok(default)
    } else {
        match screened_field(vars, tm, field, template) {
            Ok(clean) => match parsed_bool(clean) {
                Some(b) => Ok(b),
                None => Err(failed("field ("@ + field + ") value is not a boolean: "@ + clean)),
            },
            Err(e) => Err(e),
        }
    }
}

/// A field rendered, screened strictly, and read as a number. While
/// rendering is off the default stands for it.
pub open spec fn integer_field(
    vars: Entries,
    tm: TemplateMode,
    field: Seq<char>,
    template: Seq<char>,
    default: u64,
) -> Result<u64, ResponseView> {
    if tm == TemplateMode::Off {
        Ok(default)
    } else {
        match screened_field(vars, tm, field, template) {
            Ok(clean) => match parsed_u64(clean) {
                Some(n) => Ok(n),
                None => Err(failed("field ("@ + field + ") value is not an integer: "@ + clean)),
            },
            Err(e) => Err(e),
        }
    }
}

/// The truth of a condition, with a failure of the evaluation as an outcome.
pub open spec fn condition_field(vars: Entries, tm: TemplateMode, expr: Seq<char>) -> Result<
    bool,
    ResponseView,
> {
    match condition_result(expr, vars, tm) {
        Ok(b) => Ok(b),
        Err(e) => Err(failed(e)),
    }
}

impl<'a> Template<'a> {
    pub fn new(templar: &'a Templar, variables: &'a Mapping) -> (r: Self)
        ensures
            r.templar == templar,
            r.variables == variables,
    {
        Template { templar, variables }
    }

    /// Renders a field without screening it. For fields that never reach a
    /// shell, or that are a command line in themselves.
    pub fn string_unsafe_for_shell(&self, tm: TemplateMode, _field: &str, template: &str) -> (r:
        Result<String, TaskResponse>)
        ensures
            text_answer(r) == rendered_field(self.variables@, tm, template@),
    {
        match self.templar.render(template, self.variables, tm) {
            Ok(text) => Ok(text),
            Err(e) => Err(TaskResponse::is_failed(e.as_str())),
        }
    }

    /// Renders the content of a template file. Nothing is screened: the
    /// content is written to a file and never reaches a shell.
    pub fn string_for_template_module_use_only(
        &self,
        tm: TemplateMode,
        field: &str,
        template: &str,
    ) -> (r: Result<String, TaskResponse>)
        ensures
            text_answer(r) == rendered_field(self.variables@, tm, template@),
    {
        self.string_unsafe_for_shell(tm, field, template)
    }

    /// Renders a field and screens it strictly.
    pub fn string(&self, tm: TemplateMode, field: &str, template: &str) -> (r: Result<
        String,
        TaskResponse,
    >)
        ensures
            text_answer(r) == screened_field(self.variables@, tm, field@, template@),
    {
        match self.string_unsafe_for_shell(tm, field, template) {
            Ok(text) => match screen_general_input_strict(text.as_str()) {
                Ok(clean) => Ok(clean),
                Err(violation) => {
                    let mut msg = String::from_str("field ");
                    msg.append(field);
                    msg.append(", ");
                    msg.append(violation.as_str());
                    Err(TaskResponse::is_failed(msg.as_str()))
                },
            },
            Err(e) => Err(e),
        }
    }

    /// Renders a field, screens it strictly, and refuses it where it holds a space.
    pub fn string_no_spaces(&self, tm: TemplateMode, field: &str, template: &str) -> (r: Result<
        String,
        TaskResponse,
    >)
        ensures
            text_answer(r) == no_spaces_field(self.variables@, tm, field@, template@),
    {
        match self.string(tm, field, template) {
            Ok(clean) => {
                if contains_char(clean.as_str(), ' ') {
                    let mut msg = String::from_str("field (");
                    msg.append(field);
                    msg.append("): spaces are not allowed");
                    Err(TaskResponse::is_failed(msg.as_str()))
                } else {
                    Ok(clean)
                }
            },
            Err(e) => Err(e),
        }
    }

    /// Renders a field and screens it as a path.
    pub fn path(&self, tm: TemplateMode, field: &str, template: &str) -> (r: Result<
        String,
        TaskResponse,
    >)
        ensures
            text_answer(r) == path_field(self.variables@, tm, field@, template@),
    {
        match self.string_unsafe_for_shell(tm, field, template) {
            Ok(text) => match screen_path(text.as_str()) {
                Ok(clean) => Ok(clean),
                Err(violation) => {
                    let mut msg = violation;
                    msg.append(", for field ");
                    msg.append(field);
                    Err(TaskResponse::is_failed(msg.as_str()))
                },
            },
            Err(e) => Err(e),
        }
    }

    pub fn string_option_no_spaces(
        &self,
        tm: TemplateMode,
        field: &str,
        template: &Option<String>,
    ) -> (r: Result<Option<String>, TaskResponse>)
        ensures
            option_answer(r) == lift(
                match *template {
                    Some(t) => Some(no_spaces_field(self.variables@, tm, field@, t@)),
                    None => None,
                },
            ),
    {
        match template {
            Some(t) => match self.string_no_spaces(tm, field, t.as_str()) {
                Ok(v) => Ok(Some(v)),
                Err(e) => Err(e),
            },
            None => Ok(None),
        }
    }

    pub fn string_option_unsafe_for_shell(
        &self,
        tm: TemplateMode,
        field: &str,
        template: &Option<String>,
    ) -> (r: Result<Option<String>, TaskResponse>)
        ensures
            option_answer(r) == lift(
                match *template {
                    Some(t) => Some(rendered_field(self.variables@, tm, t@)),
                    None => None,
                },
            ),
    {
        match template {
            Some(t) => match self.string_unsafe_for_shell(tm, field, t.as_str()) {
                Ok(v) => Ok(Some(v)),
                Err(e) => Err(e),
            },
            None => Ok(None),
        }
    }

    pub fn string_option_trim(&self, tm: TemplateMode, field: &str, template: &Option<String>) -> (r:
        Result<Option<String>, TaskResponse>)
        ensures
            option_answer(r) == lift(
                match *template {
                    Some(t) => Some(trimmed_field(self.variables@, tm, field@, t@)),
                    None => None,
                },
            ),
    {
        match template {
            Some(t) => match self.string(tm, field, t.as_str()) {
                Ok(v) => Ok(Some(String::from_str(trim(v.as_str())))),
                Err(e) => Err(e),
            },
            None => Ok(None),
        }
    }

    /// Trims a field that is never rendered.
    pub fn no_template_string_option_trim(input: &Option<String>) -> (r: Option<String>)
        ensures
            text_option(r) == match *input {
                Some(t) => Some(trimmed(t@)),
                None => None,
            },
    {
        match input {
            Some(t) => Some(String::from_str(trim(t.as_str()))),
            None => None,
        }
    }

    pub fn string_option_default(
        &self,
        tm: TemplateMode,
        field: &str,
        template: &Option<String>,
        default: &str,
    ) -> (r: Result<String, TaskResponse>)
        ensures
            text_answer(r) == or_default(
                match *template {
                    Some(t) => Some(screened_field(self.variables@, tm, field@, t@)),
                    None => None,
                },
                default@,
            ),
    {
        match template {
            Some(t) => self.string(tm, field, t.as_str()),
            None => Ok(String::from_str(default)),
        }
    }

    fn boolean_option(
        &self,
        tm: TemplateMode,
        field: &str,
        template: &Option<String>,
        default: bool,
    ) -> (r: Result<bool, TaskResponse>)
        ensures
            plain_answer(r) == or_default(
                match *template {
                    Some(t) => Some(boolean_field(self.variables@, tm, field@, t@, default)),
                    None => None,
                },
                default,
            ),
    {
        match template {
            Some(t) => {
                if tm == TemplateMode::Off {
                    return Ok(default);
                }
                match self.string(tm, field, t.as_str()) {
                    Ok(clean) => match parse_bool(clean.as_str()) {
                        Some(b) => Ok(b),
                        None => {
                            let mut msg = String::from_str("field (");
                            msg.append(field);
                            msg.append(") value is not a boolean: ");
                            msg.append(clean.as_str());
                            Err(TaskResponse::is_failed(msg.as_str()))
                        },
                    },
                    Err(e) => Err(e),
                }
            },
            None => Ok(default),
        }
    }

    pub fn boolean_option_default_false(
        &self,
        tm: TemplateMode,
        field: &str,
        template: &Option<String>,
    ) -> (r: Result<bool, TaskResponse>)
        ensures
            plain_answer(r) == or_default(
                match *template {
                    Some(t) => Some(boolean_field(self.variables@, tm, field@, t@, false)),
                    None => None,
                },
                false,
            ),
    {
        self.boolean_option(tm, field, template, false)
    }

    pub fn boolean_option_default_true(
        &self,
        tm: TemplateMode,
        field: &str,
        template: &Option<String>,
    ) -> (r: Result<bool, TaskResponse>)
        ensures
            plain_answer(r) == or_default(
                match *template {
                    Some(t) => Some(boolean_field(self.variables@, tm, field@, t@, true)),
                    None => None,
                },
                true,
            ),
    {
        self.boolean_option(tm, field, template, true)
    }

    pub fn integer_option_to_integer(
        &self,
        tm: TemplateMode,
        field: &str,
        template: &Option<String>,
        default: u64,
    ) -> (r: Result<u64, TaskResponse>)
        ensures
            plain_answer(r) == or_default(
                match *template {
                    Some(t) => Some(integer_field(self.variables@, tm, field@, t@, default)),
                    None => None,
                },
                default,
            ),
    {
        match template {
            Some(t) => {
                if tm == TemplateMode::Off {
                    return Ok(default);
                }
                match self.string(tm, field, t.as_str()) {
                    Ok(clean) => match parse_u64(clean.as_str()) {
                        Some(n) => Ok(n),
                        None => {
                            let mut msg = String::from_str("field (");
                            msg.append(field);
                            msg.append(") value is not an integer: ");
                            msg.append(clean.as_str());
                            Err(TaskResponse::is_failed(msg.as_str()))
                        },
                    },
                    Err(e) => Err(e),
                }
            },
            None => Ok(default),
        }
    }

    /// Evaluates a condition against the variables.
    pub fn test_condition(&self, tm: TemplateMode, expr: &str) -> (r: Result<bool, TaskResponse>)
        ensures
            plain_answer(r) == condition_field(self.variables@, tm, expr@),
    {
        match self.templar.test_condition(expr, self.variables, tm) {
            Ok(b) => Ok(b),
            Err(e) => Err(TaskResponse::is_failed(e.as_str())),
        }
    }

    /// Evaluates a condition against the variables with `extra` merged over them.
    pub fn test_condition_with_extra_data(&self, tm: TemplateMode, expr: &str, extra: &Mapping) -> (r:
        Result<bool, TaskResponse>)
        ensures
            plain_answer(r) == condition_field(
                blend_entries(self.variables@, extra@, extra@.len()),
                tm,
                expr@,
            ),
    {
        let data = self.variables.merged(extra);
        match self.templar.test_condition(expr, &data, tm) {
            Ok(b) => Ok(b),
            Err(e) => Err(TaskResponse::is_failed(e.as_str())),
        }
    }
}

} // verus!
