use vstd::prelude::*;
use crate::issue::{cell_of, issue_of_row, Issue, IssueView};

verus! {

/// A flag and its value as two tokens, or nothing where the value is absent or empty.
pub open spec fn optional_flag(flag: Seq<char>, value: Option<Seq<char>>) -> Seq<Seq<char>> {
    match value {
        Some(v) => if v.len() > 0 {
            seq![flag, v]
        } else {
            Seq::empty()
        },
        None => Seq::empty(),
    }
}

/// The command line that creates `issue` on the tracker, program name first. Each flag
/// and each value is a token of its own.
pub open spec fn invocation_of(issue: IssueView) -> Seq<Seq<char>> {
    seq![
        "gh"@,
        "issue"@,
        "create"@,
        "-a"@,
        issue.assignee,
        "-t"@,
        issue.title,
        "-b"@,
        issue.body,
    ] + optional_flag("-l"@, issue.label) + optional_flag("-m"@, issue.milestone)
}

/// Appends `flag` and `value` as two tokens where the value is present and not empty.
fn push_optional_flag(args: &mut Vec<String>, flag: &str, value: &Option<String>)
    ensures
        final(args).deep_view() == old(args).deep_view() + optional_flag(
            flag@,
            value.deep_view(),
        ),
{
    let ghost before = args.deep_view();
    match value {
        Some(v) => if !v.as_str().is_empty() {
            args.push(flag.to_owned());
            args.push(v.clone());
            assert(args.deep_view() =~= before + seq![flag@, v@]);
        } else {
            assert(args.deep_view() =~= before + Seq::<Seq<char>>::empty());
        },
        None => {
            assert(args.deep_view() =~= before + Seq::<Seq<char>>::empty());
        },
    }
}

/// The command line (program name first) that creates `issue`: assignee, title and
/// body always, label and milestone only where they are set and not empty.
pub fn invocation(issue: &Issue) -> (r: Vec<String>)
    ensures
        r.deep_view() == invocation_of(issue@),
{
    let mut args: Vec<String> = Vec::new();
    args.push("gh".to_owned());
    args.push("issue".to_owned());
    args.push("create".to_owned());
    args.push("-a".to_owned());
    args.push(issue.assignee.clone());
    args.push("-t".to_owned());
    args.push(issue.title.clone());
    args.push("-b".to_owned());
    args.push(issue.body.clone());
    assert(args.deep_view() =~= seq![
        "gh"@,
        "issue"@,
        "create"@,
        "-a"@,
        issue.assignee@,
        "-t"@,
        issue.title@,
        "-b"@,
        issue.body@,
    ]);
    push_optional_flag(&mut args, "-l", &issue.label);
    push_optional_flag(&mut args, "-m", &issue.milestone);
    args
}

/// A cell that is absent or empty.
pub open spec fn blank(cell: Option<Seq<char>>) -> bool {
    cell is None || cell == Some(Seq::<char>::empty())
}

/// A row with its mandatory columns and a blank label and milestone still maps onto an
/// issue, and the command line for it carries no label or milestone flag: it names the
/// assignee, title and body only.
pub proof fn lemma_blank_label_and_milestone(header: Seq<Seq<char>>, row: Seq<Seq<char>>)
    requires
        cell_of(header, row, "title"@) is Some,
        cell_of(header, row, "assignee"@) is Some,
        cell_of(header, row, "body"@) is Some,
        blank(cell_of(header, row, "label"@)),
        blank(cell_of(header, row, "milestone"@)),
    ensures
        issue_of_row(header, row) is Ok,
        invocation_of(issue_of_row(header, row)->Ok_0) == seq![
            "gh"@,
            "issue"@,
            "create"@,
            "-a"@,
            cell_of(header, row, "assignee"@)->Some_0,
            "-t"@,
            cell_of(header, row, "title"@)->Some_0,
            "-b"@,
            cell_of(header, row, "body"@)->Some_0,
        ],
{
    let issue = issue_of_row(header, row)->Ok_0;
    assert(invocation_of(issue) =~= seq![
        "gh"@,
        "issue"@,
        "create"@,
        "-a"@,
        issue.assignee,
        "-t"@,
        issue.title,
        "-b"@,
        issue.body,
    ]);
}

} // verus!
