use vstd::prelude::*;

verus! {

/// One issue to create: one row of the input table.
#[derive(Debug)]
pub struct Issue {
    pub title: String,
    /// `None` means the issue gets no label.
    pub label: Option<String>,
    /// `None` means the issue gets no milestone.
    pub milestone: Option<String>,
    pub assignee: String,
    pub body: String,
}

/// The mathematical value of an [`Issue`].
pub struct IssueView {
    pub title: Seq<char>,
    pub label: Option<Seq<char>>,
    pub milestone: Option<Seq<char>>,
    pub assignee: Seq<char>,
    pub body: Seq<char>,
}

impl View for Issue {
    type V = IssueView;

    open spec fn view(&self) -> IssueView {
        IssueView {
            title: self.title@,
            label: self.label.deep_view(),
            milestone: self.milestone.deep_view(),
            assignee: self.assignee@,
            body: self.body@,
        }
    }
}

/// The index of the first cell of `header`, at `start` or after it, that equals `name`.
pub open spec fn column_from(header: Seq<Seq<char>>, name: Seq<char>, start: int) -> Option<int>
    decreases header.len() - start,
{
    if start < 0 || start >= header.len() {
        None
    } else if header[start] == name {
        Some(start)
    } else {
        column_from(header, name, start + 1)
    }
}

/// The index of the first header cell named `name`.
pub open spec fn column_of(header: Seq<Seq<char>>, name: Seq<char>) -> Option<int> {
    column_from(header, name, 0)
}

/// The cell of `row` under the column named `name`, where the header has such a column
/// and the row reaches it.
pub open spec fn cell_of(header: Seq<Seq<char>>, row: Seq<Seq<char>>, name: Seq<char>) -> Option<
    Seq<char>,
> {
    match column_of(header, name) {
        Some(i) => if i < row.len() {
            Some(row[i])
        } else {
            None
        },
        None => None,
    }
}

/// An optional field: an absent or empty cell means "not set".
pub open spec fn optional_field(cell: Option<Seq<char>>) -> Option<Seq<char>> {
    match cell {
        Some(v) => if v.len() > 0 {
            Some(v)
        } else {
            None
        },
        None => None,
    }
}

/// The issue that a row describes, or the first mandatory column (title, assignee, body,
/// in that order) that it lacks.
pub open spec fn issue_of_row(header: Seq<Seq<char>>, row: Seq<Seq<char>>) -> Result<
    IssueView,
    Seq<char>,
> {
    let title = cell_of(header, row, "title"@);
    let assignee = cell_of(header, row, "assignee"@);
    let body = cell_of(header, row, "body"@);
    if title is None {
        Err("title"@)
    } else if assignee is None {
        Err("assignee"@)
    } else if body is None {
        Err("body"@)
    } else {
        Ok(
            IssueView {
                title: title->Some_0,
                label: optional_field(cell_of(header, row, "label"@)),
                milestone: optional_field(cell_of(header, row, "milestone"@)),
                assignee: assignee->Some_0,
                body: body->Some_0,
            },
        )
    }
}

/// The index of the first cell of `header` that equals `name`.
pub fn find_column(header: &Vec<String>, name: &str) -> (r: Option<usize>)
    ensures
        match r {
            Some(i) => column_of(header.deep_view(), name@) == Some(i as int),
            None => column_of(header.deep_view(), name@) is None,
        },
{
    let ghost h = header.deep_view();
    let target = name.to_owned();
    let mut i: usize = 0;
    while i < header.len()
        invariant
            0 <= i <= header.len(),
            h == header.deep_view(),
            target@ == name@,
            column_of(h, name@) == column_from(h, name@, i as int),
        decreases header.len() - i,
    {
        assert(h[i as int] == header[i as int]@);
        if header[i] == target {
            return Some(i);
        }
        i = i + 1;
    }
    None
}

/// The cell of `row` under the column named `name`, copied.
pub fn cell(header: &Vec<String>, row: &Vec<String>, name: &str) -> (r: Option<String>)
    ensures
        r.deep_view() == cell_of(header.deep_view(), row.deep_view(), name@),
{
    match find_column(header, name) {
        Some(i) => if i < row.len() {
            assert(row.deep_view()[i as int] == row[i as int]@);
            Some(row[i].clone())
        } else {
            None
        },
        None => None,
    }
}

/// An optional field from a cell: an absent or empty cell gives `None`.
pub fn optional(cell: Option<String>) -> (r: Option<String>)
    ensures
        r.deep_view() == optional_field(cell.deep_view()),
{
    match cell {
        Some(v) => if v.as_str().is_empty() {
            None
        } else {
            Some(v)
        },
        None => None,
    }
}

impl Issue {
    /// Maps one row onto an issue by the header's column names. The columns `title`,
    /// `assignee` and `body` are mandatory; `label` and `milestone` may be absent or
    /// empty. The error names the first mandatory column that is missing.
    pub fn from_row(header: &Vec<String>, row: &Vec<String>) -> (r: Result<Issue, String>)
        ensures
            match r {
                Ok(i) => issue_of_row(header.deep_view(), row.deep_view()) == Ok::<
                    IssueView,
                    Seq<char>,
                >(i@),
                Err(name) => issue_of_row(header.deep_view(), row.deep_view()) == Err::<
                    IssueView,
                    Seq<char>,
                >(name@),
            },
    {
        let title = cell(header, row, "title");
        let assignee = cell(header, row, "assignee");
        let body = cell(header, row, "body");
        match (title, assignee, body) {
            (Some(title), Some(assignee), Some(body)) => {
                let label = optional(cell(header, row, "label"));
                let milestone = optional(cell(header, row, "milestone"));
                Ok(Issue { title, label, milestone, assignee, body })
            },
            (None, _, _) => Err("title".to_owned()),
            (_, None, _) => Err("assignee".to_owned()),
            (_, _, None) => Err("body".to_owned()),
        }
    }

}

} // verus!
