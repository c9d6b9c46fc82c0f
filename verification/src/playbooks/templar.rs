//! Rendering of template expressions and evaluation of conditions.
//!
//! The template engine is handlebars, with escaping off (nothing here is
//! HTML) and in strict mode: a reference that does not resolve is an error.
//! There is no way to render a template in a mode that is not strict.

use crate::util::text::{
    chars_of, contains_text, is_white_space, is_whitespace, occurs_in, str_eq, text_result,
};
use crate::util::yaml::{yaml_node, Entries, Mapping, Node};
use vstd::prelude::*;
use vstd::string::*;

verus! {

/// Whether expressions are rendered. `Off` is for a first pass that only
/// reads the structure of a task: nothing is rendered, and a fixed
/// placeholder stands for every templated value.
#[derive(PartialEq, Eq, Copy, Clone, Debug, Structural)]
pub enum TemplateMode {
    Strict,
    Off,
}

/// What the template engine makes of a template and its data: the rendered
/// text, or the description of the error.
pub uninterp spec fn rendered(template: Seq<char>, data: Node) -> Result<Seq<char>, Seq<char>>;

/// What may stand between the braces that open a tag and the sign that
/// says what kind of tag it is.
pub open spec fn is_tag_filler(c: char) -> bool {
    c == '{' || c == '~' || c == '#' || is_white_space(c)
}

/// What follows the braces of a tag starts, after any filler, with the sign
/// of a partial (`>`) or of a decorator (`*`).
pub open spec fn starts_partial(t: Seq<char>) -> bool
    decreases t.len(),
{
    t.len() > 0 && (t[0] == '>' || t[0] == '*' || (is_tag_filler(t[0]) && starts_partial(
        t.drop_first(),
    )))
}

/// The template holds a tag that includes a partial or applies a decorator.
/// Such tags can make a template include itself, and then rendering does
/// not end: the library refuses them.
pub open spec fn has_partial_tag(t: Seq<char>) -> bool {
    exists|i: int|
        0 <= i && i + 2 <= t.len() && t[i] == '{' && t[i + 1] == '{' && starts_partial(
            #[trigger] t.skip(i + 2),
        )
}

/// The complaint about a template with a partial or a decorator.
pub open spec fn partial_complaint() -> Seq<char> {
    "partials and decorators are not supported"@
}

/// Whether what stands in `v` from `from` on starts a partial or a decorator.
fn starts_partial_at(v: &Vec<char>, from: usize) -> (r: bool)
    requires
        from <= v.len(),
    ensures
        r == starts_partial(v@.skip(from as int)),
{
    let mut j: usize = from;
    while j < v.len()
        invariant
            from <= j <= v.len(),
            starts_partial(v@.skip(from as int)) == starts_partial(v@.skip(j as int)),
        decreases v.len() - j,
    {
        let c = v[j];
        assert(v@.skip(j as int).drop_first() =~= v@.skip(j + 1));
        assert(v@.skip(j as int)[0] == c);
        if c == '>' || c == '*' {
            return true;
        }
        if !(c == '{' || c == '~' || c == '#' || is_whitespace(c)) {
            return false;
        }
        j += 1;
    }
    false
}

/// Whether the template holds a tag that includes a partial or applies a decorator.
pub fn holds_partial_tag(template: &str) -> (r: bool)
    ensures
        r == has_partial_tag(template@),
{
    let v = chars_of(template);
    if v.len() < 2 {
        return false;
    }
    let last: usize = v.len() - 2;
    let mut i: usize = 0;
    while i <= last
        invariant
            v@ == template@,
            last + 2 == v.len(),
            i <= last + 1,
            forall|k: int|
                0 <= k < i ==> !(v@[k] == '{' && v@[k + 1] == '{' && starts_partial(
                    #[trigger] v@.skip(k + 2),
                )),
        decreases last + 1 - i,
    {
        if v[i] == '{' && v[i + 1] == '{' && starts_partial_at(&v, i + 2) {
            return true;
        }
        i += 1;
    }
    false
}

/// `Handlebars::render_template` on a registry that was made by
/// `Handlebars::new`, with `no_escape` as its escape function and strict mode
/// on. The result depends on the template and the data alone; of an error its
/// field `desc` is returned. A template with a partial or a decorator is left
/// out: the engine does not return on one that includes itself.
#[verifier::external_body]
fn render_strict(template: &str, data: &serde_yaml::Value) -> (r: Result<String, String>)
    requires
        !has_partial_tag(template@),
    ensures
        text_result(r) == rendered(template@, yaml_node(*data)),
{
    let mut engine = handlebars::Handlebars::new();
    engine.register_escape_fn(handlebars::no_escape);
    engine.set_strict_mode(true);
    engine.render_template(template, data).map_err(|e| e.desc)
}

/// What stands for every templated value while rendering is off.
pub open spec fn placeholder() -> Seq<char> {
    "empty"@
}

/// The result of rendering, with an error of the engine named as a template error.
pub open spec fn render_named(outcome: Result<Seq<char>, Seq<char>>) -> Result<
    Seq<char>,
    Seq<char>,
> {
    match outcome {
        Ok(text) => Ok(text),
        Err(description) => Err("Template error: "@ + description),
    }
}

/// What `Templar::render` returns.
pub open spec fn render_result(template: Seq<char>, data: Entries, mode: TemplateMode) -> Result<
    Seq<char>,
    Seq<char>,
> {
    match mode {
        TemplateMode::Strict => if has_partial_tag(template) {
            render_named(Err(partial_complaint()))
        } else {
            render_named(rendered(template, Node::Dict(data)))
        },
        TemplateMode::Off => Ok(placeholder()),
    }
}

/// The template that renders to `true` or `false` with the truth of `expr`.
pub open spec fn condition_template(expr: Seq<char>) -> Seq<char> {
    "{{#if "@ + expr + " }}true{{ else }}false{{/if}}"@
}

/// The truth of a condition, from what its template rendered to.
pub open spec fn condition_named(expr: Seq<char>, outcome: Result<Seq<char>, Seq<char>>) -> Result<
    bool,
    Seq<char>,
> {
    match outcome {
        Ok(text) => Ok(text == "true"@),
        Err(e) => if occurs_in("Couldn't read parameter"@, e) {
            Err(
                "failed to parse conditional: "@ + expr
                    + ": one or more parameters may be undefined"@,
            )
        } else {
            Err("failed to parse conditional: "@ + expr + ": "@ + e)
        },
    }
}

/// What `Templar::test_condition` returns.
pub open spec fn condition_result(expr: Seq<char>, data: Entries, mode: TemplateMode) -> Result<
    bool,
    Seq<char>,
> {
    match mode {
        TemplateMode::Strict => condition_named(
            expr,
            render_result(condition_template(expr), data, TemplateMode::Strict),
        ),
        TemplateMode::Off => Ok(true),
    }
}

/// The view of a truth value or a complaint.
pub open spec fn truth_result(r: Result<bool, String>) -> Result<bool, Seq<char>> {
    match r {
        Ok(b) => Ok(b),
        Err(e) => Err(e@),
    }
}

/// The renderer of templates and conditions.
#[derive(Debug)]
pub struct Templar {}

impl Templar {
    pub fn new() -> Self {
        Templar {  }
    }

    /// Names an error of the engine as a template error.
    pub fn render_outcome(outcome: Result<String, String>) -> (r: Result<String, String>)
        ensures
            text_result(r) == render_named(text_result(outcome)),
    {
        match outcome {
            Ok(text) => Ok(text),
            Err(description) => {
                let mut msg = String::from_str("Template error: ");
                msg.append(description.as_str());
                Err(msg)
            },
        }
    }

    /// Renders `template` against `data`. A template that holds a partial or
    /// a decorator is refused before the engine sees it.
    pub fn render(&self, template: &str, data: &Mapping, template_mode: TemplateMode) -> (r: Result<
        String,
        String,
    >)
        ensures
            text_result(r) == render_result(template@, data@, template_mode),
    {
        match template_mode {
            TemplateMode::Strict => {
                if holds_partial_tag(template) {
                    let complaint = String::from_str("partials and decorators are not supported");
                    return Templar::render_outcome(Err(complaint));
                }
                let value = data.to_yaml();
                Templar::render_outcome(render_strict(template, &value))
            },
            TemplateMode::Off => Ok(String::from_str("empty")),
        }
    }

    /// The truth of the condition `expr`, from what its template rendered to.
    /// An error of the engine about a parameter it could not read is
    /// reported as a parameter that may be undefined.
    pub fn condition_outcome(expr: &str, outcome: Result<String, String>) -> (r: Result<
        bool,
        String,
    >)
        ensures
            truth_result(r) == condition_named(expr@, text_result(outcome)),
    {
        match outcome {
            Ok(text) => Ok(str_eq(text.as_str(), "true")),
            Err(e) => {
                let mut msg = String::from_str("failed to parse conditional: ");
                msg.append(expr);
                if contains_text(e.as_str(), "Couldn't read parameter") {
                    msg.append(": one or more parameters may be undefined");
                } else {
                    msg.append(": ");
                    msg.append(e.as_str());
                }
                Err(msg)
            },
        }
    }

    /// Evaluates the condition `expr` against `data`.
    pub fn test_condition(&self, expr: &str, data: &Mapping, template_mode: TemplateMode) -> (r:
        Result<bool, String>)
        ensures
            truth_result(r) == condition_result(expr@, data@, template_mode),
    {
        match template_mode {
            TemplateMode::Off => Ok(true),
            TemplateMode::Strict => {
                let mut template = String::from_str("{{#if ");
                template.append(expr);
                template.append(" }}true{{ else }}false{{/if}}");
                let outcome = self.render(template.as_str(), data, TemplateMode::Strict);
                Templar::condition_outcome(expr, outcome)
            },
        }
    }
}

} // verus!
