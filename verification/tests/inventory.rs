use jetporch::inventory::groups::{Group, GroupTable};
use jetporch::inventory::hosts::{Host, HostOSType};
use jetporch::util::yaml::{Datum, Mapping};

fn text(s: &str) -> Datum {
    Datum::Text(String::from(s))
}

fn mapping(entries: Vec<(&str, Datum)>) -> Mapping {
    let mut m = Mapping::new();
    for (k, v) in entries {
        m.insert(String::from(k), v);
    }
    m
}

fn group(name: &str, parents: &[&str], variables: Mapping) -> Group {
    let mut g = Group::new(name);
    for p in parents {
        g.add_parent(p);
    }
    g.set_variables(variables);
    g
}

#[test]
fn facts_lie_over_host_variables_over_group_variables() {
    let mut table = GroupTable::new();
    table.add(group("all", &[], mapping(vec![("k", text("all")), ("only_all", text("all"))])));
    table.add(group("web", &["all"], mapping(vec![("k", text("web")), ("only_web", text("web"))])));
    let mut host = Host::new("web1");
    host.add_group("web");
    host.set_variables(mapping(vec![("k", text("host")), ("only_host", text("host"))]));
    let blended = host.get_blended_variables(&table);
    assert_eq!(blended.get("k"), Some(&text("host")));
    host.update_facts(&mapping(vec![("k", text("fact")), ("only_fact", text("fact"))]));
    let blended = host.get_blended_variables(&table);
    assert_eq!(blended.get("k"), Some(&text("fact")));
    assert_eq!(blended.get("only_all"), Some(&text("all")));
    assert_eq!(blended.get("only_web"), Some(&text("web")));
    assert_eq!(blended.get("only_host"), Some(&text("host")));
    assert_eq!(blended.get("only_fact"), Some(&text("fact")));
    // the stored state is left as it was
    assert_eq!(host.get_variables().get("k"), Some(&text("host")));
}

#[test]
fn nested_mappings_are_merged_across_the_layers() {
    let mut table = GroupTable::new();
    table.add(group(
        "g",
        &[],
        mapping(vec![(
            "app",
            Datum::Mapping(mapping(vec![
                ("port", Datum::Number(80)),
                ("from_group", Datum::Bool(true)),
                ("deep", Datum::Mapping(mapping(vec![("a", Datum::Number(1))]))),
            ])),
        )]),
    ));
    let mut host = Host::new("h");
    host.add_group("g");
    host.set_variables(mapping(vec![(
        "app",
        Datum::Mapping(mapping(vec![
            ("port", Datum::Number(8080)),
            ("from_host", Datum::Bool(true)),
            ("deep", Datum::Mapping(mapping(vec![("b", Datum::Number(2))]))),
        ])),
    )]));
    host.update_facts2(mapping(vec![(
        "app",
        Datum::Mapping(mapping(vec![
            ("port", Datum::Number(9090)),
            ("deep", Datum::Mapping(mapping(vec![("a", Datum::Number(10))]))),
        ])),
    )]));
    let blended = host.get_blended_variables(&table);
    assert_eq!(
        blended.get("app"),
        Some(&Datum::Mapping(mapping(vec![
            ("port", Datum::Number(9090)),
            ("from_group", Datum::Bool(true)),
            ("deep", Datum::Mapping(mapping(vec![("a", Datum::Number(10)), ("b", Datum::Number(2))]))),
            ("from_host", Datum::Bool(true)),
        ])))
    );
}

#[test]
fn a_later_ancestor_lies_over_an_earlier_one() {
    let mut table = GroupTable::new();
    table.add(group("a", &[], mapping(vec![("k", text("a"))])));
    table.add(group("b", &[], mapping(vec![("k", text("b"))])));
    let mut host = Host::new("h");
    host.add_group("a");
    host.add_group("b");
    assert_eq!(host.get_blended_variables(&table).get("k"), Some(&text("b")));
    let mut other = Host::new("h2");
    other.add_group("b");
    other.add_group("a");
    assert_eq!(other.get_blended_variables(&table).get("k"), Some(&text("a")));
}

#[test]
fn facts_are_merged_deeply() {
    let mut host = Host::new("h");
    let table = GroupTable::new();
    host.update_facts(&mapping(vec![("os", Datum::Mapping(mapping(vec![("family", text("linux"))])))]));
    host.update_facts(&mapping(vec![("os", Datum::Mapping(mapping(vec![("arch", text("x86_64"))])))]));
    assert_eq!(
        host.get_blended_variables(&table).get("os"),
        Some(&Datum::Mapping(mapping(vec![("family", text("linux")), ("arch", text("x86_64"))])))
    );
}

#[test]
fn update_variables_replaces_whole_values() {
    let mut host = Host::new("h");
    host.set_variables(mapping(vec![("r", Datum::Mapping(mapping(vec![("rc", Datum::Number(1))])))]));
    host.update_variables(mapping(vec![("r", Datum::Mapping(mapping(vec![("out", text("x"))])))]));
    assert_eq!(
        host.get_variables().get("r"),
        Some(&Datum::Mapping(mapping(vec![("out", text("x"))])))
    );
}

fn chain(length: usize) -> GroupTable {
    // g0 has the parent g1, which has the parent g2, and so on
    let mut table = GroupTable::new();
    for i in 0..length {
        let name = format!("g{}", i);
        let parent = format!("g{}", i + 1);
        if i + 1 < length {
            table.add(group(&name, &[parent.as_str()], Mapping::new()));
        } else {
            table.add(group(&name, &[], Mapping::new()));
        }
    }
    table
}

#[test]
fn a_chain_longer_than_the_bound_is_cut_off() {
    let table = chain(40);
    let mut host = Host::new("h");
    host.add_group("g0");
    // the group itself, and depth_limit + 1 levels of parents above it
    assert_eq!(host.get_ancestor_groups(&table, 0), vec!["g0", "g1"]);
    assert_eq!(host.get_ancestor_groups(&table, 3), vec!["g0", "g1", "g2", "g3", "g4"]);
    let names = host.get_ancestor_group_names(&table);
    assert_eq!(names.len(), 22);
    assert_eq!(names[21], "g21");
    assert!(host.has_ancestor_group(&table, "g0"));
    assert!(host.has_ancestor_group(&table, "g11"));
    assert!(!host.has_ancestor_group(&table, "g12"));
    assert!(!host.has_ancestor_group(&table, "nowhere"));
    assert_eq!(table.get_ancestor_groups("g0", 0), vec!["g1"]);
    assert_eq!(table.get_ancestor_groups("g0", 2), vec!["g1", "g2", "g3"]);
    assert_eq!(table.get_ancestor_groups("g39", 5), Vec::<String>::new());
    assert_eq!(table.get_ancestor_groups("nowhere", 5), Vec::<String>::new());
}

#[test]
fn a_cycle_of_groups_ends_within_the_bound() {
    let mut table = GroupTable::new();
    table.add(group("a", &["b"], mapping(vec![("from", text("a"))])));
    table.add(group("b", &["a"], mapping(vec![("from", text("b"))])));
    let mut host = Host::new("h");
    host.add_group("a");
    assert_eq!(host.get_ancestor_groups(&table, 20), vec!["a", "b"]);
    assert_eq!(host.get_ancestor_group_names(&table), vec!["a", "b"]);
    assert_eq!(table.get_ancestor_groups("a", 7), vec!["b", "a"]);
    assert!(host.has_ancestor_group(&table, "b"));
    assert_eq!(host.get_blended_variables(&table).get("from"), Some(&text("b")));
    let mut own = GroupTable::new();
    own.add(group("self", &["self"], Mapping::new()));
    let mut host = Host::new("h");
    host.add_group("self");
    assert_eq!(host.get_ancestor_groups(&own, 20), vec!["self"]);
}

#[test]
fn ancestors_are_listed_once_in_the_order_of_the_walk() {
    let mut table = GroupTable::new();
    table.add(group("web", &["prod", "all"], Mapping::new()));
    table.add(group("db", &["prod", "all"], Mapping::new()));
    table.add(group("prod", &["all"], Mapping::new()));
    table.add(group("all", &[], Mapping::new()));
    let mut host = Host::new("h");
    host.add_group("web");
    host.add_group("db");
    host.add_group("web");
    assert_eq!(host.get_groups(), vec!["web", "db"]);
    assert_eq!(host.get_group_names(), vec!["web", "db"]);
    assert!(host.has_group("db"));
    assert!(!host.has_group("prod"));
    assert_eq!(host.get_ancestor_groups(&table, 20), vec!["web", "prod", "all", "db"]);
    // a group that the table does not hold is listed and has no parents
    host.add_group("ghost");
    assert_eq!(host.get_ancestor_groups(&table, 20), vec!["web", "prod", "all", "db", "ghost"]);
}

#[test]
fn the_checksum_cache_is_dropped_by_a_newer_unit_of_work() {
    let mut host = Host::new("h");
    assert_eq!(host.get_checksum_cache(5, "/p"), None);
    host.set_checksum_cache("/p", "x");
    host.set_checksum_cache("/q", "y");
    assert_eq!(host.get_checksum_cache(5, "/p"), Some(String::from("x")));
    assert_eq!(host.get_checksum_cache(5, "/q"), Some(String::from("y")));
    // an older unit of work still finds it
    assert_eq!(host.get_checksum_cache(3, "/p"), Some(String::from("x")));
    // a newer one drops every entry, also for paths it did not ask for
    assert_eq!(host.get_checksum_cache(6, "/elsewhere"), None);
    assert_eq!(host.get_checksum_cache(6, "/p"), None);
    assert_eq!(host.get_checksum_cache(6, "/q"), None);
    assert_eq!(host.get_checksum_cache(5, "/p"), None);
    host.set_checksum_cache("/p", "z");
    host.set_checksum_cache("/p", "zz");
    assert_eq!(host.get_checksum_cache(6, "/p"), Some(String::from("zz")));
}

#[test]
fn signals_are_kept_by_play() {
    let mut host = Host::new("h");
    assert!(!host.is_notified(1, "restart"));
    host.notify(1, "restart");
    host.notify(1, "restart");
    assert!(host.is_notified(1, "restart"));
    assert!(!host.is_notified(2, "restart"));
    assert!(!host.is_notified(1, "reload"));
    host.notify(2, "reload");
    assert!(host.is_notified(2, "reload"));
    assert!(!host.is_notified(1, "reload"));
}

#[test]
fn the_platform_probe_classifies_the_host() {
    let mut host = Host::new("h");
    assert_eq!(host.get_os_type(), None);
    assert_eq!(host.set_os_info("Linux web1 6.1.0 #1 SMP x86_64 GNU/Linux"), Ok(()));
    assert_eq!(host.get_os_type(), Some(HostOSType::Linux));
    assert_eq!(host.set_os_info("Darwin mac 23.0.0 Darwin Kernel"), Ok(()));
    assert_eq!(host.get_os_type(), Some(HostOSType::MacOS));
    assert_eq!(
        host.set_os_info("FreeBSD box 14.0"),
        Err(String::from("OS Type could not be detected from uname -a: FreeBSD box 14.0"))
    );
    assert_eq!(host.get_os_type(), Some(HostOSType::MacOS));
    assert_eq!(
        host.set_os_info(" Linux"),
        Err(String::from("OS Type could not be detected from uname -a:  Linux"))
    );
    assert_eq!(host.set_os_info(""), Err(String::from("OS Type could not be detected from uname -a: ")));
}

#[test]
fn variables_as_yaml() {
    let mut table = GroupTable::new();
    table.add(group("g", &[], mapping(vec![("from_group", Datum::Number(1))])));
    let mut host = Host::new("h");
    host.add_group("g");
    host.set_variables(mapping(vec![("x", text("y"))]));
    assert_eq!(host.get_variables_yaml(), Ok(String::from("x: y\n")));
    assert_eq!(host.get_blended_variables_yaml(&table), Ok(String::from("from_group: 1\nx: y\n")));
}
