//! Review and issue comments: the domain object, its flat record, and the
//! fetcher that walks the paginated comment listing for one repository.

use vstd::prelude::*;
use vstd::string::StringExecFns;
use crate::model::UserRef;
use crate::pages::{Cursor, PageV, cursor_matches, flat_records, total_items};
use crate::pages::{lemma_flat_records_count, lemma_flat_records_push};
use crate::rows::{RowSink, csv_row_of, dec_rep, int_rep, opt_cell, rows_text};
use crate::rows::{fmt_i64, fmt_u64, text_cell};

verus! {

/// A comment as one item of a listing response, reduced to the fields the
/// pipeline reads. The three optional body renderings stay optional.
pub struct Comment {
    pub id: u64,
    pub node_id: String,
    pub url: String,
    pub html_url: String,
    pub body: Option<String>,
    pub body_text: Option<String>,
    pub body_html: Option<String>,
    pub user: UserRef,
    pub created_at: String,
    pub updated_at: Option<String>,
}

/// Ghost image of a comment.
pub ghost struct CommentV {
    pub id: u64,
    pub node_id: Seq<char>,
    pub url: Seq<char>,
    pub html_url: Seq<char>,
    pub body: Option<Seq<char>>,
    pub body_text: Option<Seq<char>>,
    pub body_html: Option<Seq<char>>,
    pub user: UserRef,
    pub created_at: Seq<char>,
    pub updated_at: Option<Seq<char>>,
}

impl View for Comment {
    type V = CommentV;

    open spec fn view(&self) -> CommentV {
        CommentV {
            id: self.id,
            node_id: self.node_id@,
            url: self.url@,
            html_url: self.html_url@,
            body: self.body.deep_view(),
            body_text: self.body_text.deep_view(),
            body_html: self.body_html.deep_view(),
            user: self.user,
            created_at: self.created_at@,
            updated_at: self.updated_at.deep_view(),
        }
    }
}

impl DeepView for Comment {
    type V = CommentV;

    open spec fn deep_view(&self) -> CommentV {
        self@
    }
}

/// The flat form of a comment: identical fields, with the nested user
/// reference reduced to its numeric identifier.
pub struct CommentRec {
    pub id: u64,
    pub node_id: String,
    pub url: String,
    pub html_url: String,
    pub body: Option<String>,
    pub body_text: Option<String>,
    pub body_html: Option<String>,
    pub user_id: i64,
    pub created_at: String,
    pub updated_at: Option<String>,
}

/// Ghost image of a flat comment record.
pub ghost struct CommentRecV {
    pub id: u64,
    pub node_id: Seq<char>,
    pub url: Seq<char>,
    pub html_url: Seq<char>,
    pub body: Option<Seq<char>>,
    pub body_text: Option<Seq<char>>,
    pub body_html: Option<Seq<char>>,
    pub user_id: i64,
    pub created_at: Seq<char>,
    pub updated_at: Option<Seq<char>>,
}

impl View for CommentRec {
    type V = CommentRecV;

    open spec fn view(&self) -> CommentRecV {
        CommentRecV {
            id: self.id,
            node_id: self.node_id@,
            url: self.url@,
            html_url: self.html_url@,
            body: self.body.deep_view(),
            body_text: self.body_text.deep_view(),
            body_html: self.body_html.deep_view(),
            user_id: self.user_id,
            created_at: self.created_at@,
            updated_at: self.updated_at.deep_view(),
        }
    }
}

impl DeepView for CommentRec {
    type V = CommentRecV;

    open spec fn deep_view(&self) -> CommentRecV {
        self@
    }
}

/// The flattening map for comments: total, field for field, never
/// inventing a value for an absent field.
pub open spec fn flatten_comment(c: CommentV) -> CommentRecV {
    CommentRecV {
        id: c.id,
        node_id: c.node_id,
        url: c.url,
        html_url: c.html_url,
        body: c.body,
        body_text: c.body_text,
        body_html: c.body_html,
        user_id: c.user.id,
        created_at: c.created_at,
        updated_at: c.updated_at,
    }
}

/// The flattening map as a function value, for page-level statements.
pub open spec fn comment_flatten_fn() -> spec_fn(CommentV) -> CommentRecV {
    |c: CommentV| flatten_comment(c)
}

impl From<Comment> for CommentRec {
    fn from(c: Comment) -> (r: CommentRec) {
        CommentRec {
            id: c.id,
            node_id: c.node_id,
            url: c.url,
            html_url: c.html_url,
            body: c.body,
            body_text: c.body_text,
            body_html: c.body_html,
            user_id: c.user.id,
            created_at: c.created_at,
            updated_at: c.updated_at,
        }
    }
}

impl vstd::std_specs::convert::FromSpecImpl<Comment> for CommentRec {
    open spec fn obeys_from_spec() -> bool {
        true
    }

    open spec fn from_spec(c: Comment) -> CommentRec {
        CommentRec {
            id: c.id,
            node_id: c.node_id,
            url: c.url,
            html_url: c.html_url,
            body: c.body,
            body_text: c.body_text,
            body_html: c.body_html,
            user_id: c.user.id,
            created_at: c.created_at,
            updated_at: c.updated_at,
        }
    }
}

/// Header cells of the comment table, in the record's declared field order.
pub open spec fn comment_header_cells() -> Seq<Seq<char>> {
    seq![
        "id"@,
        "node_id"@,
        "url"@,
        "html_url"@,
        "body"@,
        "body_text"@,
        "body_html"@,
        "user_id"@,
        "created_at"@,
        "updated_at"@,
    ]
}

/// Cells of one comment row, in the record's declared field order. Absent
/// optional fields become empty cells.
pub open spec fn comment_cells(r: CommentRecV) -> Seq<Seq<char>> {
    seq![
        dec_rep(r.id as int),
        r.node_id,
        r.url,
        r.html_url,
        opt_cell(r.body),
        opt_cell(r.body_text),
        opt_cell(r.body_html),
        int_rep(r.user_id as int),
        r.created_at,
        opt_cell(r.updated_at),
    ]
}

/// The cell map as a function value, for run-level statements.
pub open spec fn comment_cells_fn() -> spec_fn(CommentRecV) -> Seq<Seq<char>> {
    |r: CommentRecV| comment_cells(r)
}

/// The header row cells of the comment table.
pub fn comment_header() -> (v: Vec<String>)
    ensures
        v.deep_view() == comment_header_cells(),
{
    let mut v: Vec<String> = Vec::new();
    v.push(String::from_str("id"));
    v.push(String::from_str("node_id"));
    v.push(String::from_str("url"));
    v.push(String::from_str("html_url"));
    v.push(String::from_str("body"));
    v.push(String::from_str("body_text"));
    v.push(String::from_str("body_html"));
    v.push(String::from_str("user_id"));
    v.push(String::from_str("created_at"));
    v.push(String::from_str("updated_at"));
    proof {
        assert(v.deep_view() =~= comment_header_cells());
    }
    v
}

/// The cells of one comment row.
pub fn comment_row(r: &CommentRec) -> (v: Vec<String>)
    ensures
        v.deep_view() == comment_cells(r@),
{
    let mut v: Vec<String> = Vec::new();
    v.push(fmt_u64(r.id));
    v.push(r.node_id.clone());
    v.push(r.url.clone());
    v.push(r.html_url.clone());
    v.push(text_cell(&r.body));
    v.push(text_cell(&r.body_text));
    v.push(text_cell(&r.body_html));
    v.push(fmt_i64(r.user_id));
    v.push(r.created_at.clone());
    v.push(text_cell(&r.updated_at));
    proof {
        assert(v.deep_view() =~= comment_cells(r@));
    }
    v
}

/// Walks the paginated comment listing of one repository and renders every
/// comment, in response order, as one row of the comment table.
///
/// The fetcher is fed one page at a time: the caller issues the request the
/// cursor asks for and hands the response to `on_page`. Any transport
/// failure is the caller's to propagate; the rows written before it stay.
pub struct CommentFetcher {
    owner: String,
    name: String,
    cursor: Cursor,
    fetches: u64,
    sink: RowSink,
    pages: Ghost<Seq<PageV<CommentV>>>,
    recs: Ghost<Seq<CommentRecV>>,
}

impl CommentFetcher {
    /// The repository owner this fetcher was created for.
    pub closed spec fn owner_spec(&self) -> Seq<char> {
        self.owner@
    }

    /// The repository name this fetcher was created for.
    pub closed spec fn name_spec(&self) -> Seq<char> {
        self.name@
    }

    /// The pages consumed so far, in fetch order.
    pub closed spec fn pages(&self) -> Seq<PageV<CommentV>> {
        self.pages@
    }

    /// The flat records produced so far, in write order.
    pub closed spec fn recs(&self) -> Seq<CommentRecV> {
        self.recs@
    }

    /// How many page fetches were consumed.
    pub closed spec fn fetches(&self) -> int {
        self.fetches as int
    }

    /// Whether the listing is exhausted.
    pub closed spec fn done(&self) -> bool {
        self.cursor is Done
    }

    /// The next-page reference the cursor holds, if any.
    pub closed spec fn pending(&self) -> Option<Seq<char>> {
        match self.cursor {
            Cursor::Next(s) => Option::Some(s@),
            _ => Option::None,
        }
    }

    /// The table text produced so far.
    pub closed spec fn text(&self) -> Seq<char> {
        self.sink.text()
    }

    /// The fetcher's invariant: the cursor follows the last page consumed,
    /// one fetch was counted per page, the records are the flattening of
    /// every page item in order, and the table text holds the header row
    /// followed by exactly one row per record.
    pub closed spec fn wf(&self) -> bool {
        &&& self.fetches as int == self.pages@.len()
        &&& cursor_matches(self.cursor, self.pages@)
        &&& self.recs@ == flat_records(self.pages@, comment_flatten_fn())
        &&& self.sink.wf()
        &&& self.sink.header() == comment_header_cells()
        &&& self.sink.rows() == self.recs@.map_values(comment_cells_fn())
    }

    /// Creates a fetcher for one repository; the header row is emitted at
    /// once, before any page is consumed.
    pub fn new(owner: String, name: String) -> (f: Self)
        ensures
            f.wf(),
            f.owner_spec() == owner@,
            f.name_spec() == name@,
            f.pages() == Seq::<PageV<CommentV>>::empty(),
            f.recs() == Seq::<CommentRecV>::empty(),
            f.fetches() == 0,
            !f.done(),
            f.pending() is None,
            f.text() == csv_row_of(comment_header_cells()),
    {
        let header = comment_header();
        let sink = RowSink::new(&header);
        let f = CommentFetcher {
            owner,
            name,
            cursor: Cursor::Start,
            fetches: 0,
            sink,
            pages: Ghost(Seq::empty()),
            recs: Ghost(Seq::empty()),
        };
        proof {
            assert(flat_records(Seq::<PageV<CommentV>>::empty(), comment_flatten_fn())
                =~= Seq::<CommentRecV>::empty());
            assert(f.recs@.map_values(comment_cells_fn())
                =~= Seq::<Seq<Seq<char>>>::empty());
        }
        f
    }

    /// Consumes one fetched page: every item, in response order, is
    /// flattened and written as one row, and the cursor then follows the
    /// page's next reference — absent reference, run over.
    #[verifier::loop_isolation(false)]
    pub fn on_page(&mut self, items: Vec<Comment>, next: Option<String>)
        requires
            old(self).wf(),
            !old(self).done(),
            old(self).fetches() < u64::MAX,
        ensures
            final(self).wf(),
            final(self).owner_spec() == old(self).owner_spec(),
            final(self).name_spec() == old(self).name_spec(),
            final(self).pages() == old(self).pages().push(
                PageV { items: items.deep_view(), next: next.deep_view() },
            ),
            final(self).recs() == old(self).recs()
                + items.deep_view().map_values(comment_flatten_fn()),
            final(self).fetches() == old(self).fetches() + 1,
            final(self).done() <==> next is None,
            final(self).pending() == next.deep_view(),
    {
        let ghost total = items.deep_view();
        let ghost nextv = next.deep_view();
        let mut rest = items;
        let ghost flat = comment_flatten_fn();
        while rest.len() > 0
            invariant
                rest.len() <= total.len(),
                rest.deep_view() =~= total.skip(total.len() - rest.len()),
                self.owner == old(self).owner,
                self.name == old(self).name,
                self.cursor == old(self).cursor,
                self.fetches == old(self).fetches,
                self.pages@ == old(self).pages@,
                self.sink.wf(),
                self.sink.header() == comment_header_cells(),
                self.recs@ == old(self).recs@
                    + total.take(total.len() - rest.len()).map_values(flat),
                self.sink.rows() == self.recs@.map_values(comment_cells_fn()),
            decreases rest.len(),
        {
            let ghost k = total.len() - rest.len();
            let ghost pre = rest@;
            let ghost prev = rest.deep_view();
            let c = rest.remove(0);
            proof {
                assert(prev[0] == pre[0].deep_view());
                assert(prev[0] == total[k]);
                assert(c.deep_view() == total[k]);
                assert(rest.deep_view() =~= prev.skip(1)) by {
                    assert(forall|i: int|
                        0 <= i < rest@.len() ==> #[trigger] rest@[i] == pre[i + 1]);
                    assert(forall|i: int|
                        0 <= i < rest@.len()
                            ==> #[trigger] rest.deep_view()[i] == rest@[i].deep_view());
                }
                assert(prev.skip(1) =~= total.skip(k + 1));
            }
            let rec: CommentRec = c.into();
            let cells = comment_row(&rec);
            self.sink.write_row(&cells);
            proof {
                self.recs@ = self.recs@.push(rec@);
                assert(rec@ == flatten_comment(total[k]));
                assert(flat(total[k]) == flatten_comment(total[k]));
                assert(total.take(k + 1).map_values(flat)
                    =~= total.take(k).map_values(flat).push(flat(total[k])));
                assert(self.recs@ =~= old(self).recs@ + total.take(k + 1).map_values(flat));
                assert(self.sink.rows() =~= self.recs@.map_values(comment_cells_fn()));
            }
        }
        proof {
            assert(total.take(total.len() - rest.len()) =~= total);
        }
        self.fetches = self.fetches + 1;
        match next {
            Option::Some(r) => {
                self.cursor = Cursor::Next(r);
            },
            Option::None => {
                self.cursor = Cursor::Done;
            },
        }
        proof {
            let page = PageV { items: total, next: nextv };
            lemma_flat_records_push(self.pages@, flat, page);
            self.pages@ = self.pages@.push(page);
        }
    }

    /// Whether the listing is exhausted.
    pub fn is_done(&self) -> (b: bool)
        ensures
            b == self.done(),
    {
        match self.cursor {
            Cursor::Done => true,
            _ => false,
        }
    }

    /// The next-page reference to follow, once the first page came back.
    pub fn next_page(&self) -> (r: Option<&String>)
        ensures
            r.deep_view() == self.pending(),
    {
        match &self.cursor {
            Cursor::Next(s) => Option::Some(s),
            _ => Option::None,
        }
    }

    /// How many page fetches were consumed.
    pub fn fetch_count(&self) -> (n: u64)
        ensures
            n as int == self.fetches(),
    {
        self.fetches
    }

    /// The repository owner.
    pub fn owner(&self) -> (r: &String)
        ensures
            r@ == self.owner_spec(),
    {
        &self.owner
    }

    /// The repository name.
    pub fn name(&self) -> (r: &String)
        ensures
            r@ == self.name_spec(),
    {
        &self.name
    }

    /// The table text produced so far, for the caller to persist.
    pub fn output(&self) -> (r: &String)
        ensures
            r@ == self.text(),
    {
        self.sink.output()
    }
}

/// Law: the number of flat records equals the sum of the item counts of
/// every page fetched, however the items fall across page boundaries.
pub proof fn lemma_comment_record_count(f: CommentFetcher)
    requires
        f.wf(),
    ensures
        f.recs().len() == total_items(f.pages()),
{
    lemma_flat_records_count(f.pages(), comment_flatten_fn());
}

/// Law: row order equals response order: the records are exactly the items
/// of the consumed pages, concatenated in fetch order, each flattened —
/// nothing is reordered, merged or dropped.
pub proof fn lemma_comment_record_order(f: CommentFetcher)
    requires
        f.wf(),
    ensures
        f.recs() == flat_records(f.pages(), comment_flatten_fn()),
{
}

/// Law: one fetch is consumed per page, and the run is over exactly when
/// the last consumed page carried no next-page reference.
pub proof fn lemma_comment_pagination(f: CommentFetcher)
    requires
        f.wf(),
    ensures
        f.fetches() == f.pages().len(),
        f.done() <==> f.pages().len() > 0 && f.pages().last().next is None,
        f.pages().len() > 0 && !f.done() ==> f.pending() == f.pages().last().next,
        f.pages().len() == 0 ==> !f.done() && f.pending() is None,
{
}

/// Law: the table text is the header row, emitted once, followed by one
/// encoded row per record, in record order.
pub proof fn lemma_comment_table_layout(f: CommentFetcher)
    requires
        f.wf(),
    ensures
        f.text() == csv_row_of(comment_header_cells())
            + rows_text(f.recs().map_values(comment_cells_fn())),
{
    f.sink.lemma_text();
}

/// Law: flattening is deterministic, and injective on the user key: two
/// rows agree on `user_id` exactly when the comments' users agree.
pub proof fn lemma_comment_user_key(c1: CommentV, c2: CommentV)
    ensures
        c1 == c2 ==> flatten_comment(c1) == flatten_comment(c2),
        flatten_comment(c1).user_id == flatten_comment(c2).user_id <==> c1.user == c2.user,
{
}

/// Law: an absent optional field maps to an empty output cell, never to a
/// placeholder string or zero value.
pub proof fn lemma_comment_absent_cells(c: CommentV)
    ensures
        c.body is None ==> comment_cells(flatten_comment(c))[4] == Seq::<char>::empty(),
        c.body_text is None ==> comment_cells(flatten_comment(c))[5] == Seq::<char>::empty(),
        c.body_html is None ==> comment_cells(flatten_comment(c))[6] == Seq::<char>::empty(),
        c.updated_at is None ==> comment_cells(flatten_comment(c))[9] == Seq::<char>::empty(),
{
}

} // verus!
