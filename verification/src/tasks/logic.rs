//! What surrounds every unit of work: the keys under `with` (before it runs)
//! and under `and` (after it ran).

use crate::handle::template::{
    integer_field, boolean_field, lift, no_spaces_field, or_default, screened_field,
    trimmed_field, Template,
};
use crate::inventory::groups::copy_names;
use crate::playbooks::templar::TemplateMode;
use crate::tasks::response::{failed, ResponseView, TaskResponse};
use crate::util::text::{text_list, text_option, trimmed};
use crate::util::yaml::{find, Datum, Entries, Node};
use vstd::prelude::*;
use vstd::string::*;

verus! {

/// The items to run a unit of work over: the name of a variable that holds a
/// list, or the list itself.
#[derive(Debug)]
pub enum ItemsInput {
    ItemsString(String),
    ItemsList(Vec<String>),
}

pub enum ItemsView {
    Name(Seq<char>),
    List(Seq<Seq<char>>),
}

impl View for ItemsInput {
    type V = ItemsView;

    open spec fn view(&self) -> ItemsView {
        match self {
            ItemsInput::ItemsString(s) => ItemsView::Name(s@),
            ItemsInput::ItemsList(v) => ItemsView::List(text_list(v@)),
        }
    }
}

/// The declared keys under `with`.
#[derive(Debug)]
pub struct PreLogicInput {
    pub condition: Option<String>,
    pub subscribe: Option<String>,
    pub sudo: Option<String>,
    pub items: Option<ItemsInput>,
    pub tags: Option<Vec<String>>,
    pub delegate_to: Option<String>,
}

/// The keys under `with`, evaluated. The condition is carried as text: it is
/// evaluated when the unit of work runs, not here.
#[derive(Debug)]
pub struct PreLogicEvaluated {
    pub condition: Option<String>,
    pub subscribe: Option<String>,
    pub sudo: Option<String>,
    pub items: Option<ItemsInput>,
    pub tags: Option<Vec<String>>,
}

pub struct PreLogicView {
    pub condition: Option<Seq<char>>,
    pub subscribe: Option<Seq<char>>,
    pub sudo: Option<Seq<char>>,
    pub items: Option<ItemsView>,
    pub tags: Option<Seq<Seq<char>>>,
}

pub open spec fn items_option(o: Option<ItemsInput>) -> Option<ItemsView> {
    match o {
        Some(i) => Some(i@),
        None => None,
    }
}

pub open spec fn tags_option(o: Option<Vec<String>>) -> Option<Seq<Seq<char>>> {
    match o {
        Some(v) => Some(text_list(v@)),
        None => None,
    }
}

impl View for PreLogicEvaluated {
    type V = PreLogicView;

    open spec fn view(&self) -> PreLogicView {
        PreLogicView {
            condition: text_option(self.condition),
            subscribe: text_option(self.subscribe),
            sudo: text_option(self.sudo),
            items: items_option(self.items),
            tags: tags_option(self.tags),
        }
    }
}

/// The declared keys under `and`.
#[derive(Debug)]
pub struct PostLogicInput {
    pub notify: Option<String>,
    pub ignore_errors: Option<String>,
    pub retry: Option<String>,
    pub delay: Option<String>,
}

/// The keys under `and`, evaluated. Retry and delay are recorded, not applied.
#[derive(Debug)]
pub struct PostLogicEvaluated {
    pub notify: Option<String>,
    pub ignore_errors: bool,
    pub retry: u64,
    pub delay: u64,
}

pub struct PostLogicView {
    pub notify: Option<Seq<char>>,
    pub ignore_errors: bool,
    pub retry: int,
    pub delay: int,
}

impl View for PostLogicEvaluated {
    type V = PostLogicView;

    open spec fn view(&self) -> PostLogicView {
        PostLogicView {
            notify: text_option(self.notify),
            ignore_errors: self.ignore_errors,
            retry: self.retry as int,
            delay: self.delay as int,
        }
    }
}

/// A copy of an optional text.
pub fn copy_text_option(o: &Option<String>) -> (r: Option<String>)
    ensures
        text_option(r) == text_option(*o),
{
    match o {
        Some(s) => Some(s.clone()),
        None => None,
    }
}

impl ItemsInput {
    pub fn duplicate(&self) -> (r: ItemsInput)
        ensures
            r@ == self@,
    {
        match self {
            ItemsInput::ItemsString(s) => ItemsInput::ItemsString(s.clone()),
            ItemsInput::ItemsList(v) => ItemsInput::ItemsList(copy_names(v)),
        }
    }
}

/// Two declarations of the keys under `with` say the same.
pub open spec fn same_with(a: Option<PreLogicInput>, b: Option<PreLogicInput>) -> bool {
    match (a, b) {
        (Some(x), Some(y)) => {
            &&& text_option(x.condition) == text_option(y.condition)
            &&& text_option(x.subscribe) == text_option(y.subscribe)
            &&& text_option(x.sudo) == text_option(y.sudo)
            &&& items_option(x.items) == items_option(y.items)
            &&& tags_option(x.tags) == tags_option(y.tags)
            &&& text_option(x.delegate_to) == text_option(y.delegate_to)
        },
        (None, None) => true,
        _ => false,
    }
}

/// A copy of the declared keys under `with`.
pub fn copy_with(with: &Option<PreLogicInput>) -> (r: Option<PreLogicInput>)
    ensures
        same_with(r, *with),
{
    match with {
        Some(w) => Some(
            PreLogicInput {
                condition: copy_text_option(&w.condition),
                subscribe: copy_text_option(&w.subscribe),
                sudo: copy_text_option(&w.sudo),
                items: match &w.items {
                    Some(i) => Some(i.duplicate()),
                    None => None,
                },
                tags: match &w.tags {
                    Some(t) => Some(copy_names(t)),
                    None => None,
                },
                delegate_to: copy_text_option(&w.delegate_to),
            },
        ),
        None => None,
    }
}

/// What the keys under `with` evaluate to.
pub open spec fn pre_logic(vars: Entries, tm: TemplateMode, input: PreLogicInput) -> Result<
    PreLogicView,
    ResponseView,
> {
    let sudo = lift(
        match input.sudo {
            Some(t) => Some(no_spaces_field(vars, tm, "sudo"@, t@)),
            None => None,
        },
    );
    match sudo {
        Ok(sudo) => Ok(
            PreLogicView {
                condition: text_option(input.condition),
                subscribe: match input.subscribe {
                    Some(t) => Some(trimmed(t@)),
                    None => None,
                },
                sudo,
                items: items_option(input.items),
                tags: tags_option(input.tags),
            },
        ),
        Err(e) => Err(e),
    }
}

/// What the keys under `and` evaluate to. The first key that fails, in the
/// order notify, delay, ignore_errors, retry, decides the failure.
pub open spec fn post_logic(vars: Entries, tm: TemplateMode, input: PostLogicInput) -> Result<
    PostLogicView,
    ResponseView,
> {
    let notify = lift(
        match input.notify {
            Some(t) => Some(trimmed_field(vars, tm, "notify"@, t@)),
            None => None,
        },
    );
    let delay = or_default(
        match input.delay {
            Some(t) => Some(integer_field(vars, tm, "delay"@, t@, 1)),
            None => None,
        },
        1,
    );
    let ignore_errors = or_default(
        match input.ignore_errors {
            Some(t) => Some(boolean_field(vars, tm, "ignore_errors"@, t@, false)),
            None => None,
        },
        false,
    );
    let retry = or_default(
        match input.retry {
            Some(t) => Some(integer_field(vars, tm, "retry"@, t@, 0)),
            None => None,
        },
        0,
    );
    match (notify, delay, ignore_errors, retry) {
        (Err(e), _, _, _) => Err(e),
        (_, Err(e), _, _) => Err(e),
        (_, _, Err(e), _) => Err(e),
        (_, _, _, Err(e)) => Err(e),
        (Ok(notify), Ok(delay), Ok(ignore_errors), Ok(retry)) => Ok(
            PostLogicView { notify, ignore_errors, retry: retry as int, delay: delay as int },
        ),
    }
}

pub open spec fn pre_answer(r: Result<Option<PreLogicEvaluated>, TaskResponse>) -> Result<
    Option<PreLogicView>,
    ResponseView,
> {
    match r {
        Ok(Some(p)) => Ok(Some(p@)),
        Ok(None) => Ok(None),
        Err(e) => Err(e@),
    }
}

pub open spec fn post_answer(r: Result<Option<PostLogicEvaluated>, TaskResponse>) -> Result<
    Option<PostLogicView>,
    ResponseView,
> {
    match r {
        Ok(Some(p)) => Ok(Some(p@)),
        Ok(None) => Ok(None),
        Err(e) => Err(e@),
    }
}

impl PreLogicInput {
    /// Evaluates the keys under `with`. The condition is carried as it is.
    pub fn template(template: &Template, tm: TemplateMode, input: &Option<Self>) -> (r: Result<
        Option<PreLogicEvaluated>,
        TaskResponse,
    >)
        ensures
            pre_answer(r) == lift(
                match *input {
                    Some(i) => Some(pre_logic(template.variables@, tm, i)),
                    None => None,
                },
            ),
    {
        match input {
            None => Ok(None),
            Some(input2) => {
                let sudo = match template.string_option_no_spaces(tm, "sudo", &input2.sudo) {
                    Ok(v) => v,
                    Err(e) => { return Err(e); },
                };
                Ok(
                    Some(
                        PreLogicEvaluated {
                            condition: copy_text_option(&input2.condition),
                            sudo,
                            subscribe: Template::no_template_string_option_trim(&input2.subscribe),
                            items: match &input2.items {
                                Some(i) => Some(i.duplicate()),
                                None => None,
                            },
                            tags: match &input2.tags {
                                Some(t) => Some(copy_names(t)),
                                None => None,
                            },
                        },
                    ),
                )
            },
        }
    }
}

impl PostLogicInput {
    /// Evaluates the keys under `and`, each with its default where it is
    /// absent: no errors ignored, no retry, a delay of 1.
    pub fn template(template: &Template, tm: TemplateMode, input: &Option<Self>) -> (r: Result<
        Option<PostLogicEvaluated>,
        TaskResponse,
    >)
        ensures
            post_answer(r) == lift(
                match *input {
                    Some(i) => Some(post_logic(template.variables@, tm, i)),
                    None => None,
                },
            ),
    {
        match input {
            None => Ok(None),
            Some(input2) => {
                let notify = match template.string_option_trim(tm, "notify", &input2.notify) {
                    Ok(v) => v,
                    Err(e) => { return Err(e); },
                };
                let delay = match template.integer_option_to_integer(
                    tm,
                    "delay",
                    &input2.delay,
                    1,
                ) {
                    Ok(v) => v,
                    Err(e) => { return Err(e); },
                };
                let ignore_errors = match template.boolean_option_default_false(
                    tm,
                    "ignore_errors",
                    &input2.ignore_errors,
                ) {
                    Ok(v) => v,
                    Err(e) => { return Err(e); },
                };
                let retry = match template.integer_option_to_integer(
                    tm,
                    "retry",
                    &input2.retry,
                    0,
                ) {
                    Ok(v) => v,
                    Err(e) => { return Err(e); },
                };
                Ok(Some(PostLogicEvaluated { notify, ignore_errors, retry, delay }))
            },
        }
    }
}

/// The values of a list.
pub open spec fn nodes_of(v: Seq<Datum>) -> Seq<Node> {
    Seq::new(v.len(), |i: int| v[i]@)
}

pub open spec fn nodes_answer(r: Result<Vec<Datum>, TaskResponse>) -> Result<
    Seq<Node>,
    ResponseView,
> {
    match r {
        Ok(v) => Ok(nodes_of(v@)),
        Err(e) => Err(e@),
    }
}

/// The first `n` of `items`, each text among them rendered and screened
/// strictly, everything else as it is. The first text that fails decides.
pub open spec fn items_templated(vars: Entries, tm: TemplateMode, items: Seq<Node>, n: nat) -> Result<
    Seq<Node>,
    ResponseView,
>
    decreases n,
{
    if n == 0 || n > items.len() {
        Ok(Seq::empty())
    } else {
        match items_templated(vars, tm, items, (n - 1) as nat) {
            Ok(done) => match items[n - 1] {
                Node::Text(t) => match screened_field(vars, tm, "items"@, t) {
                    Ok(clean) => Ok(done.push(Node::Text(clean))),
                    Err(e) => Err(e),
                },
                other => Ok(done.push(other)),
            },
            Err(e) => Err(e),
        }
    }
}

/// The texts of a list as values.
pub open spec fn text_nodes(texts: Seq<Seq<char>>) -> Seq<Node> {
    Seq::new(texts.len(), |i: int| Node::Text(texts[i]))
}

/// The items that a unit of work runs over: the one item `true` where none
/// are declared, the list that a variable holds, or the declared list.
pub open spec fn items_result(vars: Entries, tm: TemplateMode, input: Option<ItemsView>) -> Result<
    Seq<Node>,
    ResponseView,
> {
    match input {
        None => Ok(seq![Node::Bool(true)]),
        Some(ItemsView::Name(name)) => match find(vars, name) {
            Some(Node::List(items)) => items_templated(vars, tm, items, items.len()),
            Some(_) => Err(failed("with/items variable did not resolve to a list"@)),
            None => Err(failed("variable not found for items: "@ + name)),
        },
        Some(ItemsView::List(texts)) => items_templated(
            vars,
            tm,
            text_nodes(texts),
            texts.len(),
        ),
    }
}

/// The items that a unit of work runs over.
pub fn template_items(template: &Template, tm: TemplateMode, items_input: &Option<ItemsInput>) -> (r:
    Result<Vec<Datum>, TaskResponse>)
    ensures
        nodes_answer(r) == items_result(template.variables@, tm, items_option(*items_input)),
{
    match items_input {
        None => Ok(empty_items_vector()),
        Some(ItemsInput::ItemsString(x)) => {
            match template.variables.get(x.as_str()) {
                Some(Datum::Sequence(vs)) => {
                    assert(nodes_of(vs@) =~= Datum::Sequence(*vs)@->List_0);
                    template_serde_sequence(template, tm, vs)
                },
                Some(_) => Err(
                    TaskResponse::is_failed("with/items variable did not resolve to a list"),
                ),
                None => {
                    let mut msg = String::from_str("variable not found for items: ");
                    msg.append(x.as_str());
                    Err(TaskResponse::is_failed(msg.as_str()))
                },
            }
        },
        Some(ItemsInput::ItemsList(x)) => {
            let ghost items = text_nodes(text_list(x@));
            let mut output: Vec<Datum> = Vec::new();
            let mut i: usize = 0;
            assert(nodes_of(output@) =~= Seq::<Node>::empty());
            while i < x.len()
                invariant
                    i <= x.len(),
                    items == text_nodes(text_list(x@)),
                    items_option(*items_input) == Some(ItemsView::List(text_list(x@))),
                    Ok::<Seq<Node>, ResponseView>(nodes_of(output@)) == items_templated(
                        template.variables@,
                        tm,
                        items,
                        i as nat,
                    ),
                decreases x.len() - i,
            {
                assert(items[i as int] == Node::Text(x[i as int]@));
                assert(items.len() == x.len());
                match template.string(tm, "items", x[i].as_str()) {
                    Ok(clean) => {
                        let ghost before = nodes_of(output@);
                        output.push(Datum::Text(clean));
                        assert(nodes_of(output@) =~= before.push(Node::Text(clean@)));
                    },
                    Err(e) => {
                        proof {
                            lemma_items_fail(template.variables@, tm, items, (i + 1) as nat);
                        }
                        return Err(e);
                    },
                }
                i += 1;
            }
            Ok(output)
        },
    }
}

/// Once an item failed, so does every longer list.
proof fn lemma_items_fail(vars: Entries, tm: TemplateMode, items: Seq<Node>, n: nat)
    requires
        n <= items.len(),
        items_templated(vars, tm, items, n) is Err,
    ensures
        items_templated(vars, tm, items, items.len()) == items_templated(vars, tm, items, n),
    decreases items.len() - n,
{
    if n < items.len() {
        lemma_items_fail(vars, tm, items, n + 1);
    }
}

/// The items of a unit of work that declares none: one item, `true`.
pub fn empty_items_vector() -> (r: Vec<Datum>)
    ensures
        nodes_of(r@) == seq![Node::Bool(true)],
{
    let mut r: Vec<Datum> = Vec::new();
    r.push(Datum::Bool(true));
    assert(nodes_of(r@) =~= seq![Node::Bool(true)]);
    r
}

/// The items of a list that a variable holds: each text rendered and
/// screened, everything else copied.
pub fn template_serde_sequence(template: &Template, tm: TemplateMode, vs: &Vec<Datum>) -> (r:
    Result<Vec<Datum>, TaskResponse>)
    ensures
        nodes_answer(r) == items_templated(
            template.variables@,
            tm,
            nodes_of(vs@),
            vs@.len(),
        ),
{
    let ghost items = nodes_of(vs@);
    let mut output: Vec<Datum> = Vec::new();
    let mut i: usize = 0;
    assert(nodes_of(output@) =~= Seq::<Node>::empty());
    while i < vs.len()
        invariant
            i <= vs.len(),
            items == nodes_of(vs@),
            Ok::<Seq<Node>, ResponseView>(nodes_of(output@)) == items_templated(
                template.variables@,
                tm,
                items,
                i as nat,
            ),
        decreases vs.len() - i,
    {
        let ghost before = nodes_of(output@);
        match &vs[i] {
            Datum::Text(x) => {
                match template.string(tm, "items", x.as_str()) {
                    Ok(clean) => {
                        output.push(Datum::Text(clean));
                        assert(nodes_of(output@) =~= before.push(Node::Text(clean@)));
                    },
                    Err(e) => {
                        proof {
                            lemma_items_fail(template.variables@, tm, items, (i + 1) as nat);
                        }
                        return Err(e);
                    },
                }
            },
            other => {
                let copy = other.duplicate();
                output.push(copy);
                assert(nodes_of(output@) =~= before.push(items[i as int]));
            },
        }
        i += 1;
    }
    Ok(output)
}

} // verus!
