use jetporch::handle::template::Template;
use jetporch::playbooks::templar::{holds_partial_tag, Templar, TemplateMode};
use jetporch::tasks::files::FileAttributesInput;
use jetporch::tasks::logic::{
    empty_items_vector, template_items, template_serde_sequence, ItemsInput, PostLogicInput,
    PreLogicInput,
};
use jetporch::tasks::response::{TaskResponse, TaskStatus};
use jetporch::util::yaml::{Datum, Mapping};

fn text(s: &str) -> Datum {
    Datum::Text(String::from(s))
}

fn mapping(entries: Vec<(&str, Datum)>) -> Mapping {
    let mut m = Mapping::new();
    for (k, v) in entries {
        m.insert(String::from(k), v);
    }
    m
}

fn variables() -> Mapping {
    mapping(vec![
        ("name", text("web1")),
        ("port", Datum::Number(8080)),
        ("on", Datum::Bool(true)),
        ("off", Datum::Bool(false)),
        ("zero", Datum::Number(0)),
        ("blank", text("")),
        ("evil", text("x; rm -rf /")),
        ("spaced", text("a b")),
        ("html", text("<a href=\"x\">&</a>")),
        ("app", Datum::Mapping(mapping(vec![("dir", text("/srv/app"))]))),
        ("list", Datum::Sequence(vec![text("{{ name }}"), Datum::Number(2), text("plain")])),
        ("bad_list", Datum::Sequence(vec![text("ok"), text("{{ evil }}")])),
        ("truth", text("true")),
        ("count", text("42")),
    ])
}

fn failure(r: &TaskResponse) -> String {
    assert_eq!(r.status, TaskStatus::Failed);
    assert!(r.changes.is_empty());
    assert!(r.command_result.is_none());
    r.msg.clone().unwrap()
}

fn some(s: &str) -> Option<String> {
    Some(String::from(s))
}

#[test]
fn rendering_is_strict_and_does_not_escape() {
    let templar = Templar::new();
    let vars = variables();
    assert_eq!(
        templar.render("{{ name }}:{{ port }} {{ app.dir }}", &vars, TemplateMode::Strict),
        Ok(String::from("web1:8080 /srv/app"))
    );
    assert_eq!(templar.render("plain", &vars, TemplateMode::Strict), Ok(String::from("plain")));
    assert_eq!(
        templar.render("{{ html }}", &vars, TemplateMode::Strict),
        Ok(String::from("<a href=\"x\">&</a>"))
    );
    assert_eq!(
        templar.render("{{ missing }}", &vars, TemplateMode::Strict),
        Err(String::from("Template error: Variable \"missing\" not found in strict mode."))
    );
    assert!(templar.render("{{#if }}", &vars, TemplateMode::Strict).is_err());
}

#[test]
fn partials_and_decorators_are_refused() {
    let templar = Templar::new();
    let vars = variables();
    let refused = Err(String::from("Template error: partials and decorators are not supported"));
    for template in [
        "{{> a}}",
        "{{#*inline \"a\"}}{{> a}}{{/inline}}{{> a}}",
        "x {{~> a}} y",
        "{{ > a }}",
        "{{#> layout}}body{{/layout}}",
        "{{* decorate}}",
        "{{#* inline \"b\"}}x{{/inline}}",
        "{{{{> raw}}}}",
        "{{ \n\t~#*x}}",
    ] {
        assert!(holds_partial_tag(template), "{}", template);
        assert_eq!(templar.render(template, &vars, TemplateMode::Strict), refused, "{}", template);
    }
    for template in [
        "",
        "{",
        "{{",
        "{{ name }}",
        "a > b and c * d",
        "{{#if on}}>{{/if}}",
        "{{ name }}>*",
        "{ {> a}}",
        "{{! > a }}",
        "{{name}} {{#each list}}{{this}}*{{/each}}",
    ] {
        assert!(!holds_partial_tag(template), "{}", template);
    }
    assert_eq!(
        templar.render("{{#if on}}>{{/if}}{{ name }}*", &vars, TemplateMode::Strict),
        Ok(String::from(">web1*"))
    );
    // a condition goes the same way
    assert_eq!(
        templar.test_condition("on}}{{> a}}{{#if on", &vars, TemplateMode::Strict),
        Err(String::from(
            "failed to parse conditional: on}}{{> a}}{{#if on: Template error: partials and decorators are not supported"
        ))
    );
    // while rendering is off nothing is looked at
    assert_eq!(templar.render("{{> a}}", &vars, TemplateMode::Off), Ok(String::from("empty")));
}

#[test]
fn nothing_is_rendered_while_rendering_is_off() {
    let templar = Templar::new();
    let vars = variables();
    assert_eq!(templar.render("{{ name }}", &vars, TemplateMode::Off), Ok(String::from("empty")));
    assert_eq!(templar.render("{{ missing }}", &vars, TemplateMode::Off), Ok(String::from("empty")));
    assert_eq!(templar.test_condition("missing", &vars, TemplateMode::Off), Ok(true));
}

#[test]
fn naming_the_errors_of_the_engine() {
    assert_eq!(Templar::render_outcome(Ok(String::from("x"))), Ok(String::from("x")));
    assert_eq!(
        Templar::render_outcome(Err(String::from("boom"))),
        Err(String::from("Template error: boom"))
    );
    assert_eq!(Templar::condition_outcome("a", Ok(String::from("true"))), Ok(true));
    assert_eq!(Templar::condition_outcome("a", Ok(String::from("false"))), Ok(false));
    assert_eq!(Templar::condition_outcome("a", Ok(String::from(" true"))), Ok(false));
    assert_eq!(
        Templar::condition_outcome("x y", Err(String::from("`eq` helper: Couldn't read parameter x"))),
        Err(String::from(
            "failed to parse conditional: x y: one or more parameters may be undefined"
        ))
    );
    assert_eq!(
        Templar::condition_outcome("x", Err(String::from("Template error: boom"))),
        Err(String::from("failed to parse conditional: x: Template error: boom"))
    );
}

#[test]
fn conditions() {
    let templar = Templar::new();
    let vars = variables();
    assert_eq!(templar.test_condition("on", &vars, TemplateMode::Strict), Ok(true));
    assert_eq!(templar.test_condition("off", &vars, TemplateMode::Strict), Ok(false));
    assert_eq!(templar.test_condition("zero", &vars, TemplateMode::Strict), Ok(false));
    assert_eq!(templar.test_condition("blank", &vars, TemplateMode::Strict), Ok(false));
    assert_eq!(templar.test_condition("name", &vars, TemplateMode::Strict), Ok(true));
    assert_eq!(templar.test_condition("(eq port 8080)", &vars, TemplateMode::Strict), Ok(true));
    assert_eq!(templar.test_condition("(eq port 80)", &vars, TemplateMode::Strict), Ok(false));
    // a name that is not bound is no error for `if`: it is not true
    assert_eq!(templar.test_condition("missing", &vars, TemplateMode::Strict), Ok(false));
    // it is one for a helper that compares
    assert_eq!(
        templar.test_condition("(eq missing 1)", &vars, TemplateMode::Strict),
        Err(String::from(
            "failed to parse conditional: (eq missing 1): one or more parameters may be undefined"
        ))
    );
    assert_eq!(
        templar.test_condition("(nonsense", &vars, TemplateMode::Strict),
        Err(String::from(
            "failed to parse conditional: (nonsense: Template error: Failed to parse template."
        ))
    );
}

#[test]
fn fields_are_screened_by_their_role() {
    let templar = Templar::new();
    let vars = variables();
    let t = Template::new(&templar, &vars);
    let strict = TemplateMode::Strict;
    assert_eq!(t.string_unsafe_for_shell(strict, "cmd", "echo {{ evil }}").unwrap(), "echo x; rm -rf /");
    assert_eq!(
        t.string_for_template_module_use_only(strict, "src", "a={{ name }};").unwrap(),
        "a=web1;"
    );
    assert_eq!(t.string(strict, "repo", " {{ name }} ").unwrap(), "web1");
    assert_eq!(
        failure(&t.string(strict, "repo", "{{ evil }}").unwrap_err()),
        "field repo, illegal characters found: x; rm -rf / (';')"
    );
    assert_eq!(
        failure(&t.string(strict, "repo", "{{ missing }}").unwrap_err()),
        "Template error: Variable \"missing\" not found in strict mode."
    );
    assert_eq!(t.string_no_spaces(strict, "save", "{{ name }}").unwrap(), "web1");
    assert_eq!(
        failure(&t.string_no_spaces(strict, "save", "{{ spaced }}").unwrap_err()),
        "field (save): spaces are not allowed"
    );
    assert_eq!(t.path(strict, "dest", " {{ app.dir }}/x y ").unwrap(), "/srv/app/x y");
    assert_eq!(
        failure(&t.path(strict, "dest", "/tmp/{{ evil }}").unwrap_err()),
        "illegal characters found: /tmp/x; rm -rf / (';'), for field dest"
    );
}

#[test]
fn optional_fields() {
    let templar = Templar::new();
    let vars = variables();
    let t = Template::new(&templar, &vars);
    let strict = TemplateMode::Strict;
    assert_eq!(t.string_option_no_spaces(strict, "sudo", &None).unwrap(), None);
    assert_eq!(t.string_option_no_spaces(strict, "sudo", &some("root")).unwrap(), some("root"));
    assert!(t.string_option_no_spaces(strict, "sudo", &some("a b")).is_err());
    assert_eq!(t.string_option_unsafe_for_shell(strict, "c", &None).unwrap(), None);
    assert_eq!(t.string_option_unsafe_for_shell(strict, "c", &some("a; b")).unwrap(), some("a; b"));
    assert_eq!(t.string_option_trim(strict, "notify", &some("  x  ")).unwrap(), some("x"));
    assert_eq!(t.string_option_trim(strict, "notify", &None).unwrap(), None);
    assert_eq!(Template::no_template_string_option_trim(&some(" {{ x }} ")), some("{{ x }}"));
    assert_eq!(Template::no_template_string_option_trim(&None), None);
    assert_eq!(t.string_option_default(strict, "branch", &None, "main").unwrap(), "main");
    assert_eq!(t.string_option_default(strict, "branch", &some("dev"), "main").unwrap(), "dev");
    assert!(t.string_option_default(strict, "branch", &some("a|b"), "main").is_err());
}

#[test]
fn truth_values_and_numbers() {
    let templar = Templar::new();
    let vars = variables();
    let t = Template::new(&templar, &vars);
    let strict = TemplateMode::Strict;
    let off = TemplateMode::Off;
    assert_eq!(t.boolean_option_default_false(strict, "f", &None).unwrap(), false);
    assert_eq!(t.boolean_option_default_true(strict, "f", &None).unwrap(), true);
    assert_eq!(t.boolean_option_default_false(strict, "f", &some("true")).unwrap(), true);
    assert_eq!(t.boolean_option_default_true(strict, "f", &some("false")).unwrap(), false);
    assert_eq!(t.boolean_option_default_false(strict, "f", &some("{{ truth }}")).unwrap(), true);
    assert_eq!(t.boolean_option_default_false(strict, "f", &some("{{ on }}")).unwrap(), true);
    assert_eq!(
        failure(&t.boolean_option_default_false(strict, "f", &some("yes")).unwrap_err()),
        "field (f) value is not a boolean: yes"
    );
    assert_eq!(t.boolean_option_default_false(off, "f", &some("yes")).unwrap(), false);
    assert_eq!(t.boolean_option_default_true(off, "f", &some("yes")).unwrap(), true);
    assert_eq!(t.integer_option_to_integer(strict, "retry", &None, 7).unwrap(), 7);
    assert_eq!(t.integer_option_to_integer(strict, "retry", &some("3"), 7).unwrap(), 3);
    assert_eq!(t.integer_option_to_integer(strict, "retry", &some(" {{ count }} "), 7).unwrap(), 42);
    assert_eq!(t.integer_option_to_integer(strict, "retry", &some("{{ port }}"), 7).unwrap(), 8080);
    assert_eq!(
        failure(&t.integer_option_to_integer(strict, "retry", &some("-3"), 7).unwrap_err()),
        "field (retry) value is not an integer: -3"
    );
    assert_eq!(
        failure(&t.integer_option_to_integer(strict, "retry", &some("1.5"), 7).unwrap_err()),
        "field (retry) value is not an integer: 1.5"
    );
    assert_eq!(t.integer_option_to_integer(off, "retry", &some("x"), 7).unwrap(), 7);
}

#[test]
fn conditions_with_extra_data() {
    let templar = Templar::new();
    let vars = variables();
    let t = Template::new(&templar, &vars);
    let strict = TemplateMode::Strict;
    assert_eq!(t.test_condition(strict, "on").unwrap(), true);
    assert_eq!(t.test_condition(strict, "off").unwrap(), false);
    let extra = mapping(vec![("rc", Datum::Number(3)), ("on", Datum::Bool(false))]);
    assert_eq!(t.test_condition_with_extra_data(strict, "(eq rc 3)", &extra).unwrap(), true);
    assert_eq!(t.test_condition_with_extra_data(strict, "on", &extra).unwrap(), false);
    assert_eq!(t.test_condition_with_extra_data(strict, "name", &extra).unwrap(), true);
    assert_eq!(t.test_condition(strict, "rc").unwrap(), false);
    assert_eq!(
        failure(&t.test_condition(strict, "(eq rc 3)").unwrap_err()),
        "failed to parse conditional: (eq rc 3): one or more parameters may be undefined"
    );
}

#[test]
fn the_keys_under_with() {
    let templar = Templar::new();
    let vars = variables();
    let t = Template::new(&templar, &vars);
    assert!(PreLogicInput::template(&t, TemplateMode::Strict, &None).unwrap().is_none());
    let input = PreLogicInput {
        condition: some("(eq {{ x }} 1)"),
        subscribe: some("  restart app "),
        sudo: some("{{ name }}"),
        items: Some(ItemsInput::ItemsString(String::from("list"))),
        tags: Some(vec![String::from("a"), String::from("b")]),
        delegate_to: None,
    };
    let out = PreLogicInput::template(&t, TemplateMode::Strict, &Some(input)).unwrap().unwrap();
    assert_eq!(out.condition, some("(eq {{ x }} 1)"));
    assert_eq!(out.subscribe, some("restart app"));
    assert_eq!(out.sudo, some("web1"));
    assert!(matches!(out.items, Some(ItemsInput::ItemsString(ref s)) if s == "list"));
    assert_eq!(out.tags, Some(vec![String::from("a"), String::from("b")]));
    let bad = PreLogicInput {
        condition: None,
        subscribe: None,
        sudo: some("{{ spaced }}"),
        items: None,
        tags: None,
        delegate_to: None,
    };
    assert_eq!(
        failure(&PreLogicInput::template(&t, TemplateMode::Strict, &Some(bad)).unwrap_err()),
        "field (sudo): spaces are not allowed"
    );
}

#[test]
fn the_keys_under_and() {
    let templar = Templar::new();
    let vars = variables();
    let t = Template::new(&templar, &vars);
    let strict = TemplateMode::Strict;
    assert!(PostLogicInput::template(&t, strict, &None).unwrap().is_none());
    let defaults = PostLogicInput { notify: None, ignore_errors: None, retry: None, delay: None };
    let out = PostLogicInput::template(&t, strict, &Some(defaults)).unwrap().unwrap();
    assert_eq!(out.notify, None);
    assert_eq!(out.ignore_errors, false);
    assert_eq!(out.retry, 0);
    assert_eq!(out.delay, 1);
    let input = PostLogicInput {
        notify: some(" restart "),
        ignore_errors: some("true"),
        retry: some("5"),
        delay: some("{{ count }}"),
    };
    let out = PostLogicInput::template(&t, strict, &Some(input)).unwrap().unwrap();
    assert_eq!(out.notify, some("restart"));
    assert_eq!(out.ignore_errors, true);
    assert_eq!(out.retry, 5);
    assert_eq!(out.delay, 42);
    // the delay is evaluated before the other two
    let bad = PostLogicInput {
        notify: None,
        ignore_errors: some("maybe"),
        retry: some("many"),
        delay: some("soon"),
    };
    assert_eq!(
        failure(&PostLogicInput::template(&t, strict, &Some(bad)).unwrap_err()),
        "field (delay) value is not an integer: soon"
    );
    let bad = PostLogicInput {
        notify: None,
        ignore_errors: some("maybe"),
        retry: some("many"),
        delay: None,
    };
    assert_eq!(
        failure(&PostLogicInput::template(&t, strict, &Some(bad)).unwrap_err()),
        "field (ignore_errors) value is not a boolean: maybe"
    );
    let off = PostLogicInput {
        notify: some("{{ missing }}"),
        ignore_errors: some("maybe"),
        retry: some("many"),
        delay: some("soon"),
    };
    let out = PostLogicInput::template(&t, TemplateMode::Off, &Some(off)).unwrap().unwrap();
    assert_eq!(out.notify, some("empty"));
    assert_eq!((out.ignore_errors, out.retry, out.delay), (false, 0, 1));
}

#[test]
fn the_items_of_a_unit_of_work() {
    let templar = Templar::new();
    let vars = variables();
    let t = Template::new(&templar, &vars);
    let strict = TemplateMode::Strict;
    assert_eq!(empty_items_vector(), vec![Datum::Bool(true)]);
    assert_eq!(template_items(&t, strict, &None).unwrap(), vec![Datum::Bool(true)]);
    let by_name = Some(ItemsInput::ItemsString(String::from("list")));
    assert_eq!(
        template_items(&t, strict, &by_name).unwrap(),
        vec![text("web1"), Datum::Number(2), text("plain")]
    );
    assert_eq!(
        template_items(&t, TemplateMode::Off, &by_name).unwrap(),
        vec![text("empty"), Datum::Number(2), text("empty")]
    );
    let no_list = Some(ItemsInput::ItemsString(String::from("name")));
    assert_eq!(
        failure(&template_items(&t, strict, &no_list).unwrap_err()),
        "with/items variable did not resolve to a list"
    );
    let unknown = Some(ItemsInput::ItemsString(String::from("nowhere")));
    assert_eq!(
        failure(&template_items(&t, strict, &unknown).unwrap_err()),
        "variable not found for items: nowhere"
    );
    let declared = Some(ItemsInput::ItemsList(vec![String::from("{{ name }}"), String::from(" b ")]));
    assert_eq!(template_items(&t, strict, &declared).unwrap(), vec![text("web1"), text("b")]);
    let unclean = Some(ItemsInput::ItemsString(String::from("bad_list")));
    assert_eq!(
        failure(&template_items(&t, strict, &unclean).unwrap_err()),
        "field items, illegal characters found: x; rm -rf / (';')"
    );
    assert_eq!(
        template_serde_sequence(&t, strict, &vec![Datum::Null, text("{{ port }}")]).unwrap(),
        vec![Datum::Null, text("8080")]
    );
    assert_eq!(template_serde_sequence(&t, strict, &Vec::new()).unwrap(), Vec::<Datum>::new());
}

#[test]
fn file_attributes() {
    let templar = Templar::new();
    let vars = variables();
    let t = Template::new(&templar, &vars);
    let strict = TemplateMode::Strict;
    assert!(FileAttributesInput::template(&t, strict, &None).unwrap().is_none());
    let input = FileAttributesInput { owner: some("{{ name }}"), group: None, mode: some("0o644") };
    let out = FileAttributesInput::template(&t, strict, &Some(input)).unwrap().unwrap();
    assert_eq!((out.owner, out.group, out.mode), (some("web1"), None, some("0o644")));
    let bad = FileAttributesInput { owner: some("a b"), group: None, mode: some("rw-r--r--") };
    assert_eq!(
        failure(&FileAttributesInput::template(&t, strict, &Some(bad)).unwrap_err()),
        "field (mode) has invalid octal value: rw-r--r--"
    );
    let bad = FileAttributesInput { owner: some("a b"), group: some("c d"), mode: None };
    assert_eq!(
        failure(&FileAttributesInput::template(&t, strict, &Some(bad)).unwrap_err()),
        "field (owner): spaces are not allowed"
    );
    let off = FileAttributesInput { owner: some("{{ x }}"), group: None, mode: some("{{ m }}") };
    let out = FileAttributesInput::template(&t, TemplateMode::Off, &Some(off)).unwrap().unwrap();
    assert_eq!((out.owner, out.mode), (some("empty"), some("empty")));
}
