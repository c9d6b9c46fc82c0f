use jetporch::connection::command::{cmd_info, CommandResult, Forward};
use jetporch::connection::connection::Connection;
use jetporch::handle::remote::{
    attribute_changes, attribute_commands, checksum_of, content_outcome, create_directory,
    get_mode, get_ownership, get_sha512, internal_run, mode_of, os_of, ownership_of,
    process_all_common_file_attributes, process_common_file_attributes,
    query_common_file_attributes, run, run_built, run_forwardable, run_outcome, run_plan,
    run_unsafe, Safety,
};
use jetporch::inventory::hosts::{Host, HostOSType};
use jetporch::tasks::fields::Field;
use jetporch::tasks::files::{FileAttributesEvaluated, Recurse};
use jetporch::tasks::request::CheckRc;
use jetporch::tasks::response::{TaskResponse, TaskStatus};
use std::sync::Mutex;

/// A connection that answers from a script and records what it was sent.
struct Scripted {
    replies: Vec<(&'static str, i32, &'static str)>,
    log: Mutex<Vec<String>>,
}

impl Scripted {
    fn new(replies: Vec<(&'static str, i32, &'static str)>) -> Self {
        Scripted { replies, log: Mutex::new(Vec::new()) }
    }

    fn sent(&self) -> Vec<String> {
        self.log.lock().unwrap().clone()
    }
}

impl Connection for Scripted {
    fn connect(&mut self) -> Result<(), String> {
        Ok(())
    }

    fn write_data(&self, data: &str, remote_path: &str) -> Result<(), TaskResponse> {
        self.log.lock().unwrap().push(format!("write {} <- {}", remote_path, data));
        Ok(())
    }

    fn copy_file(&self, src: &str, dest: &str) -> Result<(), TaskResponse> {
        self.log.lock().unwrap().push(format!("copy {} -> {}", src, dest));
        Ok(())
    }

    fn whoami(&self) -> Result<String, String> {
        Ok(String::from("root"))
    }

    fn run_command(&self, cmd: &str, forward: Forward) -> Result<CommandResult, TaskResponse> {
        let mark = if forward == Forward::Yes { "forward: " } else { "" };
        self.log.lock().unwrap().push(format!("{}{}", mark, cmd));
        for (line, rc, out) in self.replies.iter() {
            if *line == cmd {
                return Ok(CommandResult { cmd: cmd.to_string(), out: out.to_string(), rc: *rc });
            }
        }
        Err(TaskResponse::is_failed("the host does not answer"))
    }
}

fn result(rc: i32, out: &str) -> CommandResult {
    CommandResult { cmd: String::from("c"), out: String::from(out), rc }
}

fn failure(r: &TaskResponse) -> String {
    assert_eq!(r.status, TaskStatus::Failed);
    r.msg.clone().unwrap()
}

fn attributes(owner: Option<&str>, group: Option<&str>, mode: Option<&str>) -> FileAttributesEvaluated {
    FileAttributesEvaluated {
        owner: owner.map(String::from),
        group: group.map(String::from),
        mode: mode.map(String::from),
    }
}

#[test]
fn what_is_made_of_a_reply() {
    let ok = run_outcome(Ok(result(0, "fine")), CheckRc::Checked).unwrap();
    assert_eq!(ok.status, TaskStatus::IsExecuted);
    assert_eq!(cmd_info(&ok), (0, String::from("fine")));
    assert!(ok.msg.is_none() && ok.changes.is_empty());
    let unchecked = run_outcome(Ok(result(3, "hm")), CheckRc::Unchecked).unwrap();
    assert_eq!(unchecked.status, TaskStatus::IsExecuted);
    assert_eq!(cmd_info(&unchecked), (3, String::from("hm")));
    let failed = run_outcome(Ok(result(3, "hm")), CheckRc::Checked).unwrap_err();
    assert_eq!(failure(&failed), "command failed");
    assert_eq!(cmd_info(&failed), (3, String::from("hm")));
    let passed_on = run_outcome(Err(TaskResponse::is_failed("down")), CheckRc::Unchecked).unwrap_err();
    assert_eq!(failure(&passed_on), "down");
    assert!(passed_on.command_result.is_none());
}

#[test]
fn a_safe_command_is_screened_before_it_is_sent() {
    let conn = Scripted::new(vec![("echo a; echo b", 0, "a\nb"), ("ls | wc -l", 0, "3")]);
    let refused = run(&conn, "echo a; echo b", CheckRc::Checked).unwrap_err();
    assert_eq!(failure(&refused), "illegal characters detected: echo a; echo b (';')");
    assert!(conn.sent().is_empty());
    let refused = run_forwardable(&conn, "echo $HOME", CheckRc::Checked).unwrap_err();
    assert_eq!(failure(&refused), "illegal characters detected: echo $HOME ('$')");
    assert!(conn.sent().is_empty());
    let ran = run_unsafe(&conn, "echo a; echo b", CheckRc::Checked).unwrap();
    assert_eq!(cmd_info(&ran), (0, String::from("a\nb")));
    let ran = run(&conn, "ls | wc -l", CheckRc::Checked).unwrap();
    assert_eq!(cmd_info(&ran), (0, String::from("3")));
    let ran = run_forwardable(&conn, "ls | wc -l", CheckRc::Checked).unwrap();
    assert_eq!(cmd_info(&ran), (0, String::from("3")));
    assert_eq!(conn.sent(), vec!["echo a; echo b", "ls | wc -l", "forward: ls | wc -l"]);
    let down = internal_run(&conn, "uptime", Safety::Safe, CheckRc::Unchecked, Forward::No).unwrap_err();
    assert_eq!(failure(&down), "the host does not answer");
}

#[test]
fn a_command_that_the_catalog_refused_is_not_sent() {
    let conn = Scripted::new(vec![("uname -m", 0, "x86_64")]);
    let refused = run_built(&conn, Err(String::from("no")), CheckRc::Checked).unwrap_err();
    assert_eq!(failure(&refused), "no");
    assert!(conn.sent().is_empty());
    let ran = run_built(&conn, Ok(String::from("uname -m")), CheckRc::Checked).unwrap();
    assert_eq!(cmd_info(&ran), (0, String::from("x86_64")));
}

#[test]
fn the_mode_of_a_path() {
    let conn = Scripted::new(vec![
        ("stat --format '%a' '/etc/motd'", 0, "644"),
        ("stat --format '%a' '/nowhere'", 1, "stat: cannot stat"),
        ("stat -f '%A' '/etc/motd'", 0, "600"),
    ]);
    assert_eq!(get_mode(&conn, HostOSType::Linux, "/etc/motd").unwrap(), Some(String::from("644")));
    assert_eq!(get_mode(&conn, HostOSType::Linux, "/nowhere").unwrap(), None);
    assert_eq!(get_mode(&conn, HostOSType::MacOS, " /etc/motd ").unwrap(), Some(String::from("600")));
    let refused = get_mode(&conn, HostOSType::Linux, "/etc/$(id)").unwrap_err();
    assert_eq!(failure(&refused), "illegal characters found: /etc/$(id) ('(')");
    assert_eq!(conn.sent().len(), 3);
    assert_eq!(mode_of(&TaskResponse::command_ok(result(0, "755"))), Some(String::from("755")));
    assert_eq!(mode_of(&TaskResponse::command_ok(result(2, "755"))), None);
}

#[test]
fn the_ownership_of_a_path() {
    let listing = "drwxr-xr-x  2 root wheel 4096 Jan  1 00:00 /srv";
    let conn = Scripted::new(vec![
        ("ls -ld '/srv'", 0, "drwxr-xr-x  2 root wheel 4096 Jan  1 00:00 /srv"),
        ("ls -ld '/nowhere'", 2, "ls: cannot access"),
        ("ls -ld '/odd'", 0, "drwxr-xr-x 2 root"),
    ]);
    assert_eq!(
        get_ownership(&conn, HostOSType::Linux, "/srv").unwrap(),
        Some((String::from("root"), String::from("wheel")))
    );
    assert_eq!(get_ownership(&conn, HostOSType::Linux, "/nowhere").unwrap(), None);
    assert_eq!(
        failure(&get_ownership(&conn, HostOSType::Linux, "/odd").unwrap_err()),
        "unexpected output format from ls: drwxr-xr-x 2 root"
    );
    assert_eq!(
        ownership_of(&TaskResponse::command_ok(result(0, listing))).unwrap(),
        Some((String::from("root"), String::from("wheel")))
    );
    assert_eq!(
        failure(&ownership_of(&TaskResponse::command_ok(result(0, ""))).unwrap_err()),
        "unexpected output format from ls: "
    );
}

#[test]
fn the_content_hash_of_a_path_goes_through_the_cache() {
    let conn = Scripted::new(vec![
        ("sha512sum '/a'", 0, "abc123  /a\n"),
        ("sha512sum '/gone'", 1, "No such file"),
        ("sha512sum '/mute'", 0, " \n"),
    ]);
    let mut host = Host::new("h");
    assert_eq!(get_sha512(&conn, HostOSType::Linux, &mut host, 1, "/a").unwrap(), "abc123");
    assert_eq!(get_sha512(&conn, HostOSType::Linux, &mut host, 1, "/a").unwrap(), "abc123");
    assert_eq!(conn.sent(), vec!["sha512sum '/a'"]);
    assert_eq!(host.get_checksum_cache(1, "/a"), Some(String::from("abc123")));
    // a newer unit of work asks the host again
    assert_eq!(get_sha512(&conn, HostOSType::Linux, &mut host, 2, "/a").unwrap(), "abc123");
    assert_eq!(conn.sent().len(), 2);
    let gone = get_sha512(&conn, HostOSType::Linux, &mut host, 2, "/gone").unwrap_err();
    assert_eq!(failure(&gone), "command failed");
    assert_eq!(cmd_info(&gone), (1, String::from("No such file")));
    assert_eq!(host.get_checksum_cache(2, "/gone"), None);
    let mute = get_sha512(&conn, HostOSType::Linux, &mut host, 2, "/mute").unwrap_err();
    assert_eq!(failure(&mute), "no checksum in the output of the hash command");
    let refused = get_sha512(&conn, HostOSType::Linux, &mut host, 2, "/a*").unwrap_err();
    assert_eq!(failure(&refused), "illegal characters found: /a* ('*')");
    assert_eq!(checksum_of(&TaskResponse::command_ok(result(0, "ff  /x"))).unwrap(), "ff");
}

#[test]
fn the_attributes_that_differ() {
    let declared = attributes(Some("root"), Some("wheel"), Some("644"));
    assert_eq!(attribute_changes(&declared, "644", "root", "wheel"), Vec::<Field>::new());
    assert_eq!(
        attribute_changes(&declared, "600", "www", "www"),
        vec![Field::Owner, Field::Group, Field::Mode]
    );
    assert_eq!(attribute_changes(&declared, "600", "root", "wheel"), vec![Field::Mode]);
    let some = attributes(None, Some("wheel"), None);
    assert_eq!(attribute_changes(&some, "600", "www", "www"), vec![Field::Group]);
    assert_eq!(attribute_changes(&attributes(None, None, None), "1", "2", "3"), Vec::<Field>::new());
}

#[test]
fn querying_attributes() {
    let conn = Scripted::new(vec![
        ("stat --format '%a' '/f'", 0, "600"),
        ("ls -ld '/f'", 0, "-rw------- 1 www www 0 Jan 1 00:00 /f"),
        ("stat --format '%a' '/gone'", 1, ""),
    ]);
    let declared = Some(attributes(Some("root"), None, Some("644")));
    let mut changes = vec![Field::Content];
    let mode = query_common_file_attributes(
        &conn, HostOSType::Linux, "/f", &declared, &mut changes, Recurse::No,
    );
    assert_eq!(mode.unwrap(), Some(String::from("600")));
    assert_eq!(changes, vec![Field::Content, Field::Owner, Field::Mode]);
    let mut changes = Vec::new();
    let mode = query_common_file_attributes(
        &conn, HostOSType::Linux, "/gone", &declared, &mut changes, Recurse::No,
    );
    assert_eq!(mode.unwrap(), None);
    assert!(changes.is_empty());
    let before = conn.sent().len();
    let mut changes = Vec::new();
    let mode = query_common_file_attributes(
        &conn, HostOSType::Linux, "/f", &None, &mut changes, Recurse::No,
    );
    assert_eq!(mode.unwrap(), Some(String::from("600")));
    assert!(changes.is_empty());
    // without declared attributes the ownership is not asked for
    assert_eq!(conn.sent().len(), before + 1);
}

#[test]
fn the_commands_that_set_attributes() {
    let declared = attributes(Some("root"), None, Some("0644"));
    let plan = attribute_commands(
        HostOSType::Linux,
        "/f",
        &declared,
        &vec![Field::Mode, Field::Content, Field::Group, Field::Owner],
        Recurse::No,
    );
    assert_eq!(
        plan,
        vec![Ok(String::from("chmod '0644' '/f'")), Ok(String::from("chown 'root' '/f'"))]
    );
    let plan = attribute_commands(
        HostOSType::Linux,
        "/d",
        &attributes(Some("a;b"), Some("staff"), Some("rwx")),
        &Field::all_file_attributes(),
        Recurse::Yes,
    );
    assert_eq!(
        plan,
        vec![
            Err(String::from("illegal characters found: a;b (';')")),
            Ok(String::from("chgrp -R 'staff' '/d'")),
            Err(String::from("not an octal string: rwx")),
        ]
    );
}

#[test]
fn a_plan_stops_at_the_first_failure() {
    let conn = Scripted::new(vec![("one", 0, ""), ("two", 1, "no"), ("three", 0, "")]);
    assert!(run_plan(&conn, &Vec::new()).is_ok());
    assert!(run_plan(&conn, &vec![Ok(String::from("one")), Ok(String::from("three"))]).is_ok());
    assert_eq!(conn.sent(), vec!["one", "three"]);
    let stopped = run_plan(
        &conn,
        &vec![Ok(String::from("one")), Ok(String::from("two")), Ok(String::from("three"))],
    )
    .unwrap_err();
    assert_eq!(failure(&stopped), "command failed");
    assert_eq!(conn.sent(), vec!["one", "three", "one", "two"]);
    let refused = run_plan(&conn, &vec![Err(String::from("unclean")), Ok(String::from("one"))]);
    assert_eq!(failure(&refused.unwrap_err()), "unclean");
    assert_eq!(conn.sent().len(), 4);
}

#[test]
fn bringing_attributes_about() {
    let conn = Scripted::new(vec![
        ("chown 'root' '/f'", 0, ""),
        ("chgrp 'wheel' '/f'", 0, ""),
        ("chmod '0644' '/f'", 0, ""),
        ("mkdir -p '/srv/app'", 0, ""),
    ]);
    let declared = Some(attributes(Some("root"), Some("wheel"), Some("0644")));
    let os = HostOSType::Linux;
    assert!(process_common_file_attributes(&conn, os, "/f", &None, &vec![Field::Mode], Recurse::No).is_ok());
    assert!(conn.sent().is_empty());
    assert!(process_common_file_attributes(&conn, os, "/f", &declared, &vec![Field::Mode], Recurse::No).is_ok());
    assert_eq!(conn.sent(), vec!["chmod '0644' '/f'"]);
    assert!(process_all_common_file_attributes(&conn, os, "/f", &declared, Recurse::No).is_ok());
    assert_eq!(
        conn.sent(),
        vec!["chmod '0644' '/f'", "chown 'root' '/f'", "chgrp 'wheel' '/f'", "chmod '0644' '/f'"]
    );
    assert!(process_all_common_file_attributes(&conn, os, "/f", &declared, Recurse::Yes).is_err());
    assert!(create_directory(&conn, os, "/srv/app").is_ok());
    assert_eq!(
        failure(&create_directory(&conn, os, "/srv/{app}").unwrap_err()),
        "illegal characters found: /srv/{app} ('{')"
    );
}

#[test]
fn all_attributes_are_set_in_order_or_the_first_complaint_is_returned() {
    let conn = Scripted::new(vec![("chgrp 'wheel' '/f'", 0, ""), ("chmod '0600' '/f'", 0, "")]);
    let os = HostOSType::Linux;
    // nothing is declared: nothing is sent
    assert!(process_all_common_file_attributes(&conn, os, "/f", &None, Recurse::No).is_ok());
    let none = Some(attributes(None, None, None));
    assert!(process_all_common_file_attributes(&conn, os, "/f", &none, Recurse::No).is_ok());
    assert!(conn.sent().is_empty());
    // the first command is refused by the catalog: nothing is sent
    let unclean = Some(attributes(Some("a;b"), Some("wheel"), Some("0600")));
    let e = process_all_common_file_attributes(&conn, os, "/f", &unclean, Recurse::No).unwrap_err();
    assert_eq!(failure(&e), "illegal characters found: a;b (';')");
    assert!(conn.sent().is_empty());
    let no_mode = Some(attributes(None, None, Some("rw-")));
    let e = process_all_common_file_attributes(&conn, os, "/f", &no_mode, Recurse::No).unwrap_err();
    assert_eq!(failure(&e), "not an octal string: rw-");
    assert!(conn.sent().is_empty());
    // group and mode are declared: two commands, in this order
    let some = Some(attributes(None, Some("wheel"), Some("0600")));
    assert!(process_all_common_file_attributes(&conn, os, "/f", &some, Recurse::No).is_ok());
    assert_eq!(conn.sent(), vec!["chgrp 'wheel' '/f'", "chmod '0600' '/f'"]);
}

#[test]
fn the_verdict_on_a_file_that_exists() {
    let r = content_outcome(Vec::new(), "aa", "aa");
    assert_eq!(r.status, TaskStatus::IsMatched);
    assert!(r.changes.is_empty());
    let r = content_outcome(Vec::new(), "aa", "bb");
    assert_eq!(r.status, TaskStatus::NeedsModification);
    assert_eq!(r.changes, vec![Field::Content]);
    let r = content_outcome(vec![Field::Mode], "aa", "aa");
    assert_eq!(r.status, TaskStatus::NeedsModification);
    assert_eq!(r.changes, vec![Field::Mode]);
    let r = content_outcome(vec![Field::Owner, Field::Mode], "aa", "bb");
    assert_eq!(r.changes, vec![Field::Owner, Field::Mode, Field::Content]);
}

#[test]
fn the_operating_system_has_to_be_known() {
    let mut host = Host::new("h");
    assert_eq!(
        failure(&os_of(&host).unwrap_err()),
        "the operating system of the host is not known"
    );
    host.set_os_info("Darwin").unwrap();
    assert_eq!(os_of(&host).unwrap(), HostOSType::MacOS);
}
