use vstd::prelude::*;
use crate::error::{ErrorView, IssueError};
use crate::issue::{cell_of, issue_of_row, Issue, IssueView};

verus! {

/// The records of CSV text `data`, in order, each as its fields; a record that cannot
/// be read (invalid UTF-8, or a field count unlike the first record's) is `None`.
pub uninterp spec fn csv_records_of(data: Seq<u8>) -> Seq<Option<Seq<Seq<char>>>>;

/// Relies on `csv::ReaderBuilder` (with `has_headers(false)`, so the header record comes
/// first) and its `records` iterator: the records of `data` in order, each one that the
/// reader rejects turned into `None`. The result depends on the bytes alone.
#[verifier::external_body]
fn read_csv_records(data: &[u8]) -> (r: Vec<Option<Vec<String>>>)
    ensures
        r.deep_view() == csv_records_of(data@),
{
    let mut reader = csv::ReaderBuilder::new().has_headers(false).from_reader(data);
    reader
        .records()
        .map(|rec| rec.ok().map(|fields| fields.iter().map(String::from).collect()))
        .collect()
}

/// A row that lacks one of the mandatory columns.
pub open spec fn lacks_mandatory(header: Seq<Seq<char>>, row: Seq<Seq<char>>) -> bool {
    ||| cell_of(header, row, "title"@) is None
    ||| cell_of(header, row, "assignee"@) is None
    ||| cell_of(header, row, "body"@) is None
}

/// The records from `j` on fail at a row no later than `k` where row `k` lacks a
/// mandatory column.
proof fn lemma_rows_fail_by(
    header: Seq<Seq<char>>,
    records: Seq<Option<Seq<Seq<char>>>>,
    j: int,
    k: int,
)
    requires
        1 <= j <= k < records.len(),
        records[k] matches Some(row) && lacks_mandatory(header, row),
    ensures
        rows_from(header, records, j) matches Err(ErrorView::ParseError { row, .. }) && j <= row
            <= k,
    decreases k - j,
{
    if j < k {
        lemma_rows_fail_by(header, records, j + 1, k);
    }
}

/// A row without a mandatory column (title, assignee or body) fails the whole load with
/// `ParseError`, at that row or an earlier one: no issue of the table comes out.
pub proof fn lemma_missing_column_fails_load(records: Seq<Option<Seq<Seq<char>>>>, k: int)
    requires
        1 <= k < records.len(),
        records[0] is Some,
        records[k] matches Some(row) && lacks_mandatory(records[0]->Some_0, row),
    ensures
        issues_of_records(records) matches Err(ErrorView::ParseError { row, .. }) && 1 <= row
            <= k,
{
    lemma_rows_fail_by(records[0]->Some_0, records, 1, k);
}

/// The issues of the records from `k` on, read under `header`, or the first error among
/// them.
pub open spec fn rows_from(
    header: Seq<Seq<char>>,
    records: Seq<Option<Seq<Seq<char>>>>,
    k: int,
) -> Result<Seq<IssueView>, ErrorView>
    decreases records.len() - k,
{
    if k < 0 || k >= records.len() {
        Ok(Seq::empty())
    } else {
        match records[k] {
            None => Err(ErrorView::ParseError { row: k, missing_column: None }),
            Some(row) => match issue_of_row(header, row) {
                Err(name) => Err(ErrorView::ParseError { row: k, missing_column: Some(name) }),
                Ok(issue) => match rows_from(header, records, k + 1) {
                    Ok(rest) => Ok(seq![issue] + rest),
                    Err(e) => Err(e),
                },
            },
        }
    }
}

/// The issues that a table of records describes: the first record names the columns,
/// each later record is one issue. The first record that cannot be read or mapped stops
/// the whole table. A table without records holds no issues.
pub open spec fn issues_of_records(records: Seq<Option<Seq<Seq<char>>>>) -> Result<
    Seq<IssueView>,
    ErrorView,
> {
    if records.len() == 0 {
        Ok(Seq::empty())
    } else {
        match records[0] {
            None => Err(ErrorView::ParseError { row: 0, missing_column: None }),
            Some(header) => rows_from(header, records, 1),
        }
    }
}

/// The issues that CSV text describes.
pub open spec fn issues_of_csv(data: Seq<u8>) -> Result<Seq<IssueView>, ErrorView> {
    issues_of_records(csv_records_of(data))
}

/// The views of a sequence of issues.
pub open spec fn issue_views(v: Seq<Issue>) -> Seq<IssueView> {
    v.map_values(|i: Issue| i@)
}

/// The mathematical value of a result that carries issues.
pub open spec fn load_view(r: Result<Vec<Issue>, IssueError>) -> Result<
    Seq<IssueView>,
    ErrorView,
> {
    match r {
        Ok(v) => Ok(issue_views(v@)),
        Err(e) => Err(e@),
    }
}

/// Maps a table of records onto issues: the first record is the header, each later one
/// an issue, in order. Fails with `ParseError` at the first record that could not be
/// read or lacks a mandatory column.
pub fn issues_from_records(records: &Vec<Option<Vec<String>>>) -> (r: Result<
    Vec<Issue>,
    IssueError,
>)
    ensures
        load_view(r) == issues_of_records(records.deep_view()),
{
    let ghost recs = records.deep_view();
    let mut issues: Vec<Issue> = Vec::new();
    if records.len() == 0 {
        assert(issue_views(issues@) =~= Seq::<IssueView>::empty());
        return Ok(issues);
    }
    let header = match &records[0] {
        Some(h) => h,
        None => {
            return Err(IssueError::ParseError { row: 0, missing_column: None });
        },
    };
    assert(recs[0] == Some(header.deep_view()));
    let ghost h = header.deep_view();
    let mut k: usize = 1;
    while k < records.len()
        invariant
            1 <= k <= records.len(),
            recs == records.deep_view(),
            h == header.deep_view(),
            recs[0] == Some(h),
            rows_from(h, recs, 1) == match rows_from(h, recs, k as int) {
                Ok(rest) => Ok(issue_views(issues@) + rest),
                Err(e) => Err(e),
            },
        decreases records.len() - k,
    {
        assert(recs[k as int] == records[k as int].deep_view());
        match &records[k] {
            None => {
                return Err(IssueError::ParseError { row: k, missing_column: None });
            },
            Some(row) => match Issue::from_row(header, row) {
                Err(name) => {
                    return Err(IssueError::ParseError { row: k, missing_column: Some(name) });
                },
                Ok(issue) => {
                    let ghost before = issues@;
                    issues.push(issue);
                    assert(issue_views(issues@) =~= issue_views(before).push(issue@));
                    proof {
                        match rows_from(h, recs, k + 1) {
                            Ok(rest) => {
                                assert(issue_views(before) + (seq![issue@] + rest)
                                    =~= issue_views(issues@) + rest);
                            },
                            Err(e) => {},
                        }
                    }
                    k = k + 1;
                },
            },
        }
    }
    assert(issue_views(issues@) + Seq::<IssueView>::empty() =~= issue_views(issues@));
    Ok(issues)
}

/// The issues that CSV text describes, header first; see [`issues_from_records`].
pub fn load_issues(data: &[u8]) -> (r: Result<Vec<Issue>, IssueError>)
    ensures
        load_view(r) == issues_of_csv(data@),
{
    let records = read_csv_records(data);
    issues_from_records(&records)
}

} // verus!
