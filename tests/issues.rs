use gh_issues::command::invocation;
use gh_issues::config::{InputFormat, Verbosity};
use gh_issues::error::IssueError;
use gh_issues::issue::{find_column, Issue};
use gh_issues::session::{Action, Session};
use gh_issues::table::{issues_from_records, load_issues};

fn strings(items: &[&str]) -> Vec<String> {
    items.iter().map(|s| s.to_string()).collect()
}

/// Drives a session over `data`, answering each command with the next outcome, and
/// returns the command lines it asked for and its last action.
fn drive(ext: &str, data: Option<&[u8]>, outcomes: &[bool]) -> (Vec<Vec<String>>, Action) {
    let mut session = Session::start(ext);
    let mut runs = Vec::new();
    let mut left = outcomes.iter();
    loop {
        match session.next_action() {
            Action::ReadInput => match data {
                Some(d) => session.input_read(d),
                None => session.input_unreadable("no such file".to_string()),
            },
            Action::Run(args) => {
                runs.push(args);
                let ok = *left.next().unwrap_or(&true);
                session.command_exited(ok, "remote refused".to_string());
            }
            other => return (runs, other),
        }
    }
}

const THREE_ROWS: &str = "title,label,milestone,assignee,body\n\
Bug A,,,alice,steps...\n\
Bug B,bug,v1,bob,crash on start\n\
Bug C,ui,,carol,button misaligned\n";

#[test]
fn every_row_is_dispatched_once_in_order() {
    let (runs, last) = drive("csv", Some(THREE_ROWS.as_bytes()), &[]);
    assert!(matches!(last, Action::Finish));
    assert_eq!(runs.len(), 3);
    assert_eq!(runs[0][6], "Bug A");
    assert_eq!(runs[1][6], "Bug B");
    assert_eq!(runs[2][6], "Bug C");
    assert_eq!(runs[1], strings(&["gh", "issue", "create", "-a", "bob", "-t", "Bug B", "-b", "crash on start", "-l", "bug", "-m", "v1"]));
    assert_eq!(runs[2], strings(&["gh", "issue", "create", "-a", "carol", "-t", "Bug C", "-b", "button misaligned", "-l", "ui"]));
}

#[test]
fn single_row_is_dispatched_once() {
    let data = "title,assignee,body\nOnly,dan,text\n";
    let (runs, last) = drive("csv", Some(data.as_bytes()), &[]);
    assert!(matches!(last, Action::Finish));
    assert_eq!(runs, vec![strings(&["gh", "issue", "create", "-a", "dan", "-t", "Only", "-b", "text"])]);
}

#[test]
fn missing_mandatory_column_fails_with_parse_error() {
    let data = "title,label,milestone,body\nBug A,,,steps\n";
    let r = load_issues(data.as_bytes());
    match r {
        Err(IssueError::ParseError { row, missing_column }) => {
            assert_eq!(row, 1);
            assert_eq!(missing_column, Some("assignee".to_string()));
        }
        other => panic!("unexpected {:?}", other),
    }
    let (runs, last) = drive("csv", Some(data.as_bytes()), &[]);
    assert!(runs.is_empty());
    assert!(matches!(last, Action::Fail(IssueError::ParseError { row: 1, .. })));
}

#[test]
fn missing_title_is_named_first() {
    let data = "label,milestone,body\nx,y,z\n";
    match load_issues(data.as_bytes()) {
        Err(IssueError::ParseError { row: 1, missing_column: Some(c) }) => assert_eq!(c, "title"),
        other => panic!("unexpected {:?}", other),
    }
}

#[test]
fn bad_later_row_stops_the_whole_run() {
    let data = "title,assignee,body\nA,amy,one\nB,bo\n";
    match load_issues(data.as_bytes()) {
        Err(IssueError::ParseError { row, missing_column }) => {
            assert_eq!(row, 2);
            assert_eq!(missing_column, None);
        }
        other => panic!("unexpected {:?}", other),
    }
    let (runs, last) = drive("csv", Some(data.as_bytes()), &[]);
    assert!(runs.is_empty());
    assert!(matches!(last, Action::Fail(IssueError::ParseError { row: 2, .. })));
}

#[test]
fn blank_label_and_milestone_are_omitted() {
    let issues = load_issues(b"title,label,milestone,assignee,body\nT,,,a,b\n").unwrap();
    assert_eq!(issues.len(), 1);
    assert_eq!(issues[0].label, None);
    assert_eq!(issues[0].milestone, None);
    assert_eq!(invocation(&issues[0]), strings(&["gh", "issue", "create", "-a", "a", "-t", "T", "-b", "b"]));
}

#[test]
fn absent_label_and_milestone_columns_are_allowed() {
    let issues = load_issues(b"assignee,title,body\nzed,Title,Body\n").unwrap();
    assert_eq!(issues[0].title, "Title");
    assert_eq!(issues[0].assignee, "zed");
    assert_eq!(issues[0].label, None);
}

#[test]
fn round_trip_of_one_row() {
    let data = "title,label,milestone,assignee,body\n\"Bug A\",,,alice,steps...\n";
    let issues = load_issues(data.as_bytes()).unwrap();
    assert_eq!(issues.len(), 1);
    let args = invocation(&issues[0]);
    let a = args.iter().position(|t| t == "-a").unwrap();
    let t = args.iter().position(|t| t == "-t").unwrap();
    assert_eq!(args[a + 1], "alice");
    assert_eq!(args[t + 1], "Bug A");
    assert!(!args.iter().any(|t| t == "-l" || t == "-m"));
    assert!(!args.iter().any(|t| t.contains("None")));
}

#[test]
fn quoted_field_keeps_its_comma() {
    let data = "title,assignee,body\n\"a, b\",x,\"line one\nline two\"\n";
    let issues = load_issues(data.as_bytes()).unwrap();
    assert_eq!(issues[0].title, "a, b");
    assert_eq!(issues[0].body, "line one\nline two");
}

#[test]
fn yaml_is_unsupported_and_never_read() {
    match InputFormat::from_ext("yaml") {
        Err(IssueError::UnsupportedFormat { ext }) => assert_eq!(ext, "yaml"),
        other => panic!("unexpected {:?}", other),
    }
    let mut session = Session::start("yaml");
    assert!(matches!(session.next_action(), Action::Fail(IssueError::UnsupportedFormat { .. })));
    session.input_read(THREE_ROWS.as_bytes());
    assert!(matches!(session.next_action(), Action::Fail(IssueError::UnsupportedFormat { .. })));
}

#[test]
fn csv_is_supported() {
    assert!(matches!(InputFormat::from_ext("csv"), Ok(InputFormat::Csv)));
    assert!(matches!(InputFormat::from_ext("CSV"), Err(IssueError::UnsupportedFormat { .. })));
    assert!(matches!(Session::start("csv").next_action(), Action::ReadInput));
}

#[test]
fn unreadable_input_fails_with_file_error() {
    let (runs, last) = drive("csv", None, &[]);
    assert!(runs.is_empty());
    match last {
        Action::Fail(IssueError::FileError { reason }) => assert_eq!(reason, "no such file"),
        other => panic!("unexpected {:?}", other),
    }
}

#[test]
fn failed_command_stops_with_dispatch_failure() {
    let (runs, last) = drive("csv", Some(THREE_ROWS.as_bytes()), &[true, false, true]);
    assert_eq!(runs.len(), 2);
    match last {
        Action::Fail(IssueError::DispatchFailure { row, detail }) => {
            assert_eq!(row, 2);
            assert_eq!(detail, "remote refused");
        }
        other => panic!("unexpected {:?}", other),
    }
}

#[test]
fn empty_input_finishes_without_commands() {
    let (runs, last) = drive("csv", Some(b""), &[]);
    assert!(runs.is_empty());
    assert!(matches!(last, Action::Finish));
    let (runs, last) = drive("csv", Some(b"title,assignee,body\n"), &[]);
    assert!(runs.is_empty());
    assert!(matches!(last, Action::Finish));
}

#[test]
fn header_only_missing_columns_is_not_an_error() {
    assert_eq!(load_issues(b"title\n").unwrap().len(), 0);
}

#[test]
fn invalid_utf8_record_is_a_parse_error() {
    let data = b"title,assignee,body\nA,\xff\xfe,c\n";
    assert!(matches!(load_issues(data), Err(IssueError::ParseError { row: 1, missing_column: None })));
}

#[test]
fn records_map_by_header_names() {
    let records = vec![
        Some(strings(&["body", "title", "assignee", "label"])),
        Some(strings(&["b1", "t1", "u1", "l1"])),
        Some(strings(&["b2", "t2", "u2", ""])),
    ];
    let issues = issues_from_records(&records).unwrap();
    assert_eq!(issues.len(), 2);
    assert_eq!(issues[0].title, "t1");
    assert_eq!(issues[0].body, "b1");
    assert_eq!(issues[0].label, Some("l1".to_string()));
    assert_eq!(issues[1].label, None);
    assert!(matches!(issues_from_records(&vec![None]), Err(IssueError::ParseError { row: 0, missing_column: None })));
    assert_eq!(issues_from_records(&vec![]).unwrap().len(), 0);
}

#[test]
fn first_duplicate_column_wins() {
    let header = strings(&["x", "title", "title"]);
    assert_eq!(find_column(&header, "title"), Some(1));
    assert_eq!(find_column(&header, "body"), None);
    let issue = Issue::from_row(&strings(&["title", "assignee", "body", "title"]), &strings(&["one", "u", "b", "two"])).unwrap();
    assert_eq!(issue.title, "one");
}

#[test]
fn empty_mandatory_value_is_kept() {
    let issue = Issue::from_row(&strings(&["title", "assignee", "body"]), &strings(&["", "u", "b"])).unwrap();
    assert_eq!(issue.title, "");
    assert_eq!(invocation(&issue)[6], "");
}

#[test]
fn row_shorter_than_header_lacks_the_column() {
    match Issue::from_row(&strings(&["title", "assignee", "body"]), &strings(&["t", "u"])) {
        Err(name) => assert_eq!(name, "body"),
        Ok(_) => panic!("expected a missing column"),
    }
}

#[test]
fn verbosity_follows_the_debug_count() {
    assert_eq!(Verbosity::from_count(0), Verbosity::Normal);
    assert_eq!(Verbosity::from_count(1), Verbosity::Debug);
    assert_eq!(Verbosity::from_count(2), Verbosity::Trace);
    assert_eq!(Verbosity::from_count(255), Verbosity::Trace);
}
