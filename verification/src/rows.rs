//! Rendering of flat records as rows of a character-separated table.
//!
//! A cell is a character sequence; a row is a sequence of cells. Rows are
//! encoded one at a time, and a `RowSink` accumulates the encoded text:
//! the header row once, then one row per record, append-only.

use vstd::prelude::*;
use vstd::string::StringExecFns;

verus! {

/// Decimal digit for a value between 0 and 9.
pub open spec fn dec_digit(d: int) -> char {
    if d == 0 {
        '0'
    } else if d == 1 {
        '1'
    } else if d == 2 {
        '2'
    } else if d == 3 {
        '3'
    } else if d == 4 {
        '4'
    } else if d == 5 {
        '5'
    } else if d == 6 {
        '6'
    } else if d == 7 {
        '7'
    } else if d == 8 {
        '8'
    } else {
        '9'
    }
}

/// Decimal rendering of a non-negative integer, most significant digit first.
pub open spec fn dec_rep(n: int) -> Seq<char>
    recommends
        n >= 0,
    decreases n,
{
    if n <= 9 {
        seq![dec_digit(n)]
    } else {
        dec_rep(n / 10).push(dec_digit(n % 10))
    }
}

/// Decimal rendering of a signed integer: a leading minus sign when negative.
pub open spec fn int_rep(n: int) -> Seq<char> {
    if n < 0 {
        seq!['-'] + dec_rep(-n)
    } else {
        dec_rep(n)
    }
}

/// The cell for an optional text field: the text when present, empty when
/// absent. An absent value never becomes a placeholder string.
pub open spec fn opt_cell(o: Option<Seq<char>>) -> Seq<char> {
    match o {
        Option::Some(s) => s,
        Option::None => Seq::empty(),
    }
}

/// The cell for an optional signed identifier: its decimal rendering when
/// present, empty when absent. An absent value never becomes a zero.
pub open spec fn opt_int_cell(o: Option<i64>) -> Seq<char> {
    match o {
        Option::Some(n) => int_rep(n as int),
        Option::None => Seq::empty(),
    }
}

/// Relies on `u64`'s `Display` implementation, which the standard library
/// documents as the plain base-10 rendering of the value.
#[verifier::external_body]
pub(crate) fn fmt_u64(n: u64) -> (r: String)
    ensures
        r@ == dec_rep(n as int),
{
    n.to_string()
}

/// Relies on `i64`'s `Display` implementation, which the standard library
/// documents as the base-10 rendering, with a leading `-` when negative.
#[verifier::external_body]
pub(crate) fn fmt_i64(n: i64) -> (r: String)
    ensures
        r@ == int_rep(n as int),
{
    n.to_string()
}

/// The cell for an optional text field, as executable code.
pub(crate) fn text_cell(o: &Option<String>) -> (r: String)
    ensures
        r@ == opt_cell(o.deep_view()),
{
    match o {
        Option::Some(s) => s.clone(),
        Option::None => String::new(),
    }
}

/// The cell for an optional signed identifier, as executable code.
pub(crate) fn id_cell(o: &Option<i64>) -> (r: String)
    ensures
        r@ == opt_int_cell(*o),
{
    match o {
        Option::Some(n) => fmt_i64(*n),
        Option::None => String::new(),
    }
}

/// The encoded text of one table row with the given cells: delimiters,
/// quoting where a cell needs it, and the row terminator. The rendering
/// depends on the cells alone.
pub uninterp spec fn csv_row_of(cells: Seq<Seq<char>>) -> Seq<char>;

/// Relies on `csv::Writer::write_record` and `csv::Writer::into_inner`
/// over an in-memory `Vec<u8>`: the encoding of one record depends only on
/// the field contents, and writing into a `Vec` cannot fail, so the error
/// arms below are unreachable.
#[verifier::external_body]
fn csv_line(cells: &Vec<String>) -> (r: String)
    ensures
        r@ == csv_row_of(cells.deep_view()),
{
    let mut w = csv::Writer::from_writer(Vec::new());
    let _ = w.write_record(cells.iter());
    match w.into_inner() {
        Ok(bytes) => match String::from_utf8(bytes) {
            Ok(s) => s,
            Err(_) => String::new(),
        },
        Err(_) => String::new(),
    }
}

/// The table text for a sequence of rows, each encoded on its own.
pub open spec fn rows_text(rows: Seq<Seq<Seq<char>>>) -> Seq<char>
    decreases rows.len(),
{
    if rows.len() == 0 {
        Seq::empty()
    } else {
        rows_text(rows.drop_last()) + csv_row_of(rows.last())
    }
}

/// An append-only sink for one table: the header row is emitted once, on
/// construction, and every record row is appended after it in call order.
pub struct RowSink {
    out: String,
    header: Ghost<Seq<Seq<char>>>,
    rows: Ghost<Seq<Seq<Seq<char>>>>,
}

impl RowSink {
    /// The header cells the sink was created with.
    pub closed spec fn header(&self) -> Seq<Seq<char>> {
        self.header@
    }

    /// The cells of every row written so far, in write order.
    pub closed spec fn rows(&self) -> Seq<Seq<Seq<char>>> {
        self.rows@
    }

    /// The accumulated table text.
    pub closed spec fn text(&self) -> Seq<char> {
        self.out@
    }

    /// The text is exactly the header row followed by every written row.
    pub closed spec fn wf(&self) -> bool {
        self.out@ == csv_row_of(self.header@) + rows_text(self.rows@)
    }

    /// Creates a sink and emits the header row.
    pub fn new(header: &Vec<String>) -> (s: Self)
        ensures
            s.wf(),
            s.header() == header.deep_view(),
            s.rows() == Seq::<Seq<Seq<char>>>::empty(),
            s.text() == csv_row_of(header.deep_view()),
    {
        let out = csv_line(header);
        let s = RowSink { out, header: Ghost(header.deep_view()), rows: Ghost(Seq::empty()) };
        proof {
            assert(s.out@ =~= csv_row_of(s.header@) + rows_text(s.rows@));
        }
        s
    }

    /// Appends one row with the given cells.
    pub fn write_row(&mut self, cells: &Vec<String>)
        requires
            old(self).wf(),
        ensures
            final(self).wf(),
            final(self).header() == old(self).header(),
            final(self).rows() == old(self).rows().push(cells.deep_view()),
            final(self).text() == old(self).text() + csv_row_of(cells.deep_view()),
    {
        let line = csv_line(cells);
        self.out.append(line.as_str());
        proof {
            self.rows@ = self.rows@.push(cells.deep_view());
            assert(self.rows@.drop_last() =~= old(self).rows());
            assert(self.out@ =~= csv_row_of(self.header@) + rows_text(self.rows@));
        }
    }

    /// Law: the sink's text is the header row, emitted once, followed by
    /// one encoded row per written record, in write order.
    pub proof fn lemma_text(&self)
        requires
            self.wf(),
        ensures
            self.text() == csv_row_of(self.header()) + rows_text(self.rows()),
    {
    }

    /// The accumulated table text, for the caller to persist.
    pub fn output(&self) -> (r: &String)
        ensures
            r@ == self.text(),
    {
        &self.out
    }
}

} // verus!
