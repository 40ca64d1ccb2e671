//! Pages of results: what a page must hold, and how a result takes one in.

use crate::athena::types::{QueryResult, QueryResultView};
use crate::error::{Error, ErrorView};
use vstd::prelude::*;

verus! {

/// One page of results, field by field as it came. An absent field is `None`:
/// the column names stand for the whole of the page's metadata, a row for its
/// list of cells, a cell for its value.
#[derive(Debug, Clone, PartialEq, Eq)]
pub struct ResultPage {
    pub columns: Option<Vec<String>>,
    pub rows: Option<Vec<Option<Vec<Option<String>>>>>,
    pub next_token: Option<String>,
}

/// The mathematical value of a [`ResultPage`].
pub struct ResultPageView {
    pub columns: Option<Seq<Seq<char>>>,
    pub rows: Option<Seq<Option<Seq<Option<Seq<char>>>>>>,
    pub next_token: Option<Seq<char>>,
}

impl View for ResultPage {
    type V = ResultPageView;

    open spec fn view(&self) -> ResultPageView {
        ResultPageView {
            columns: self.columns.deep_view(),
            rows: self.rows.deep_view(),
            next_token: self.next_token.deep_view(),
        }
    }
}

/// The text of one cell: a cell without a value reads as the empty text.
pub open spec fn cell_text(cell: Option<Seq<char>>) -> Seq<char> {
    match cell {
        Some(text) => text,
        None => Seq::empty(),
    }
}

/// The texts of the cells of one row, in order.
pub open spec fn row_text(cells: Seq<Option<Seq<char>>>) -> Seq<Seq<char>> {
    Seq::new(cells.len(), |i: int| cell_text(cells[i]))
}

/// Whether each row has its list of cells.
pub open spec fn rows_complete(rows: Seq<Option<Seq<Option<Seq<char>>>>>) -> bool {
    forall|i: int| 0 <= i < rows.len() ==> (#[trigger] rows[i]) is Some
}

/// The rows as text, in order.
pub open spec fn table_text(rows: Seq<Option<Seq<Option<Seq<char>>>>>) -> Seq<Seq<Seq<char>>> {
    Seq::new(rows.len(), |i: int| row_text(rows[i]->0))
}

/// `table` without its first row; an empty table stays empty.
pub open spec fn without_header(table: Seq<Seq<Seq<char>>>) -> Seq<Seq<Seq<char>>> {
    if table.len() > 0 {
        table.subrange(1, table.len() as int)
    } else {
        table
    }
}

impl ResultPageView {
    /// A page is well formed when it has its metadata, its rows, and the
    /// cells of each row.
    pub open spec fn well_formed(self) -> bool {
        &&& self.columns is Some
        &&& self.rows is Some
        &&& rows_complete(self.rows->0)
    }

    /// All the rows of a well-formed page, as text.
    pub open spec fn table(self) -> Seq<Seq<Seq<char>>> {
        table_text(self.rows->0)
    }

    /// The data rows of a well-formed page: the first page of a result opens
    /// with a header row that repeats the column names and is no data; later
    /// pages hold data only.
    pub open spec fn body(self, first: bool) -> Seq<Seq<Seq<char>>> {
        if first {
            without_header(self.table())
        } else {
            self.table()
        }
    }
}

impl QueryResultView {
    /// This result after taking in a well-formed page: the column names are
    /// those of the first page and stay; the data rows of the page follow
    /// the rows already held, in order, and each is counted.
    pub open spec fn absorb(self, page: ResultPageView, first: bool) -> QueryResultView {
        QueryResultView {
            columns: if first {
                page.columns->0
            } else {
                self.columns
            },
            data: self.data + page.body(first),
            rows: self.rows + page.body(first).len(),
            ..self
        }
    }
}

impl ResultPage {
    /// Whether the page has its metadata, its rows, and the cells of each
    /// row.
    pub fn is_well_formed(&self) -> (ok: bool)
        ensures
            ok == self@.well_formed(),
    {
        if self.columns.is_none() {
            return false;
        }
        match &self.rows {
            None => false,
            Some(rows) => {
                let mut i: usize = 0;
                while i < rows.len()
                    invariant
                        i <= rows.len(),
                        self.rows == Some(*rows),
                        forall|j: int| 0 <= j < i ==> (#[trigger] rows@[j]) is Some,
                    decreases rows.len() - i,
                {
                    if rows[i].is_none() {
                        assert(self@.rows->0[i as int] is None);
                        return false;
                    }
                    i += 1;
                }
                true
            },
        }
    }

    /// How many data rows the page holds: all its rows, but for the header
    /// where the page is the first of a result; none where the page has no
    /// rows at all.
    pub fn body_len(&self, first: bool) -> (len: usize)
        ensures
            len == if self@.rows is Some {
                self@.body(first).len()
            } else {
                0
            },
    {
        match &self.rows {
            None => 0,
            Some(rows) => if first && rows.len() > 0 {
                rows.len() - 1
            } else {
                rows.len()
            },
        }
    }
}

/// Turns the cells of one row into their texts.
pub fn row_of(cells: Vec<Option<String>>) -> (row: Vec<String>)
    ensures
        row.deep_view() == row_text(cells.deep_view()),
{
    let mut row: Vec<String> = Vec::new();
    for cell in it: cells
        invariant
            it.seq() == cells@,
            row@.len() == it.index(),
            forall|j: int| 0 <= j < row@.len() ==> row@[j]@ == cell_text(cells@[j].deep_view()),
    {
        match cell {
            Some(text) => row.push(text),
            None => row.push(String::new()),
        }
    }
    row
}

/// Turns the rows of a page into text, unless one of them lacks its cells.
pub fn table_of(rows: Vec<Option<Vec<Option<String>>>>) -> (table: Option<Vec<Vec<String>>>)
    ensures
        table is Some <==> rows_complete(rows.deep_view()),
        table matches Some(t) ==> t.deep_view() == table_text(rows.deep_view()),
{
    let mut table: Vec<Vec<String>> = Vec::new();
    for row in it: rows
        invariant
            it.seq() == rows@,
            table@.len() == it.index(),
            forall|j: int|
                0 <= j < table@.len() ==> (#[trigger] rows@[j]) is Some && table@[j].deep_view()
                    == row_text(rows@[j]->0.deep_view()),
    {
        match row {
            Some(cells) => table.push(row_of(cells)),
            None => {
                assert(rows.deep_view()[it.index() as int] is None);
                return None;
            },
        }
    }
    Some(table)
}

impl QueryResult {
    /// Takes one page into the result. `first` says whether the page is the
    /// first of the result, whose first row is the header and is dropped. A
    /// malformed page is refused as a breach of protocol and leaves the
    /// result as it was; otherwise the page's continuation token comes back.
    pub fn absorb(&mut self, page: ResultPage, first: bool) -> (next: Result<
        Option<String>,
        Error,
    >)
        requires
            page@.well_formed() ==> old(self)@.rows + page@.body(first).len() <= i64::MAX,
        ensures
            page@.well_formed() ==> next is Ok && next->Ok_0.deep_view() == page@.next_token
                && final(self)@ == old(self)@.absorb(page@, first),
            !page@.well_formed() ==> next is Err && next->Err_0@ == ErrorView::ProtocolError
                && *final(self) == *old(self),
            old(self)@.wf() ==> final(self)@.wf(),
    {
        let ResultPage { columns, rows, next_token } = page;
        let columns = match columns {
            Some(columns) => columns,
            None => return Err(Error::ProtocolError),
        };
        let rows = match rows {
            Some(rows) => rows,
            None => return Err(Error::ProtocolError),
        };
        let table = match table_of(rows) {
            Some(table) => table,
            None => return Err(Error::ProtocolError),
        };
        if first {
            self.columns = columns;
        }
        let ghost skip: int = if first { 1 } else { 0 };
        let ghost body = page@.body(first);
        let ghost base = QueryResultView {
            columns: if first { page@.columns->0 } else { old(self)@.columns },
            ..old(self)@
        };
        let mut header = first;
        for row in it: table
            invariant
                it.seq() == table@,
                header == (first && it.index() == 0),
                skip == if first { 1int } else { 0int },
                body.len() == if table@.len() >= skip { table@.len() - skip } else { 0 },
                forall|k: int| 0 <= k < body.len() ==> body[k] == table@[k + skip].deep_view(),
                base.rows + body.len() <= i64::MAX,
                self@ == (QueryResultView {
                    data: base.data + body.subrange(
                        0,
                        if it.index() >= skip { it.index() - skip } else { 0 },
                    ),
                    rows: base.rows + if it.index() >= skip { it.index() - skip } else { 0 },
                    ..base
                }),
        {
            if header {
                header = false;
            } else {
                let ghost taken: int = it.index() - skip;
                self.append_row(row);
                assert(base.data + body.subrange(0, taken + 1) =~= (base.data + body.subrange(
                    0,
                    taken,
                )).push(body[taken]));
            }
        }
        assert(body.subrange(0, body.len() as int) =~= body);
        Ok(next_token)
    }
}

} // verus!
