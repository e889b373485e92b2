//! Issue timeline events: the domain object, its flat record, and the
//! fetcher that walks the paginated event listing for one repository.
//!
//! The event-kind tag is an open string, not a closed enumeration: the
//! upstream catalog of event kinds is known to be incomplete, and a closed
//! set would silently drop valid events.

use vstd::prelude::*;
use vstd::string::StringExecFns;
use crate::model::{IssueRef, MilestoneRef, MilestoneRefV, ProjectCardRef, ProjectCardRefV, UserRef};
use crate::pages::{Cursor, PageV, cursor_matches, flat_records, total_items};
use crate::pages::{lemma_flat_records_count, lemma_flat_records_push};
use crate::rows::{RowSink, csv_row_of, int_rep, opt_cell, opt_int_cell, rows_text};
use crate::rows::{fmt_i64, id_cell, text_cell};

verus! {

/// A label on an issue: the name is its key; the color rides along.
pub struct Label {
    pub name: String,
    pub color: String,
}

/// Ghost image of a label.
pub ghost struct LabelV {
    pub name: Seq<char>,
    pub color: Seq<char>,
}

impl View for Label {
    type V = LabelV;

    open spec fn view(&self) -> LabelV {
        LabelV { name: self.name@, color: self.color@ }
    }
}

impl DeepView for Label {
    type V = LabelV;

    open spec fn deep_view(&self) -> LabelV {
        self@
    }
}

/// An issue timeline event as one item of a listing response, reduced to
/// the fields the pipeline reads. Some event subtypes omit the identifiers;
/// at most one of the optional user references is populated per subtype.
pub struct IssueEvent {
    pub id: Option<i64>,
    pub node_id: Option<String>,
    pub url: Option<String>,
    pub actor: UserRef,
    pub assignee: Option<UserRef>,
    pub assigner: Option<UserRef>,
    pub review_requester: Option<UserRef>,
    pub requested_reviewer: Option<UserRef>,
    pub label: Option<Label>,
    pub milestone: Option<MilestoneRef>,
    pub project_card: Option<ProjectCardRef>,
    pub event: Option<String>,
    pub commit_id: Option<String>,
    pub commit_url: Option<String>,
    pub created_at: String,
    pub issue: IssueRef,
}

/// Ghost image of an issue event.
pub ghost struct IssueEventV {
    pub id: Option<i64>,
    pub node_id: Option<Seq<char>>,
    pub url: Option<Seq<char>>,
    pub actor: UserRef,
    pub assignee: Option<UserRef>,
    pub assigner: Option<UserRef>,
    pub review_requester: Option<UserRef>,
    pub requested_reviewer: Option<UserRef>,
    pub label: Option<LabelV>,
    pub milestone: Option<Seq<char>>,
    pub project_card: Option<Seq<char>>,
    pub event: Option<Seq<char>>,
    pub commit_id: Option<Seq<char>>,
    pub commit_url: Option<Seq<char>>,
    pub created_at: Seq<char>,
    pub issue: IssueRef,
}

/// The milestone title, when a milestone is there.
pub open spec fn opt_milestone_title(o: Option<MilestoneRefV>) -> Option<Seq<char>> {
    match o {
        Option::Some(m) => Option::Some(m.title),
        Option::None => Option::None,
    }
}

/// The project-card url, when a project card is there.
pub open spec fn opt_card_url(o: Option<ProjectCardRefV>) -> Option<Seq<char>> {
    match o {
        Option::Some(p) => Option::Some(p.url),
        Option::None => Option::None,
    }
}

impl View for IssueEvent {
    type V = IssueEventV;

    open spec fn view(&self) -> IssueEventV {
        IssueEventV {
            id: self.id,
            node_id: self.node_id.deep_view(),
            url: self.url.deep_view(),
            actor: self.actor,
            assignee: self.assignee,
            assigner: self.assigner,
            review_requester: self.review_requester,
            requested_reviewer: self.requested_reviewer,
            label: self.label.deep_view(),
            milestone: opt_milestone_title(self.milestone.deep_view()),
            project_card: opt_card_url(self.project_card.deep_view()),
            event: self.event.deep_view(),
            commit_id: self.commit_id.deep_view(),
            commit_url: self.commit_url.deep_view(),
            created_at: self.created_at@,
            issue: self.issue,
        }
    }
}

impl DeepView for IssueEvent {
    type V = IssueEventV;

    open spec fn deep_view(&self) -> IssueEventV {
        self@
    }
}

/// The flat form of an event: every nested object reduced to its natural
/// key (user to id, label to name, milestone to title, project card to url,
/// issue to id), plus the repository tag stamped onto every row.
pub struct EventRec {
    pub id: Option<i64>,
    pub node_id: Option<String>,
    pub url: Option<String>,
    pub actor_id: i64,
    pub assignee_id: Option<i64>,
    pub assigner_id: Option<i64>,
    pub review_requester_id: Option<i64>,
    pub requested_reviewer_id: Option<i64>,
    pub label: Option<String>,
    pub milestone_title: Option<String>,
    pub project_card_url: Option<String>,
    pub event: Option<String>,
    pub commit_id: Option<String>,
    pub commit_url: Option<String>,
    pub created_at: String,
    pub issue_id: i64,
    pub sdc_repository: String,
}

/// Ghost image of a flat event record.
pub ghost struct EventRecV {
    pub id: Option<i64>,
    pub node_id: Option<Seq<char>>,
    pub url: Option<Seq<char>>,
    pub actor_id: i64,
    pub assignee_id: Option<i64>,
    pub assigner_id: Option<i64>,
    pub review_requester_id: Option<i64>,
    pub requested_reviewer_id: Option<i64>,
    pub label: Option<Seq<char>>,
    pub milestone_title: Option<Seq<char>>,
    pub project_card_url: Option<Seq<char>>,
    pub event: Option<Seq<char>>,
    pub commit_id: Option<Seq<char>>,
    pub commit_url: Option<Seq<char>>,
    pub created_at: Seq<char>,
    pub issue_id: i64,
    pub sdc_repository: Seq<char>,
}

impl View for EventRec {
    type V = EventRecV;

    open spec fn view(&self) -> EventRecV {
        EventRecV {
            id: self.id,
            node_id: self.node_id.deep_view(),
            url: self.url.deep_view(),
            actor_id: self.actor_id,
            assignee_id: self.assignee_id,
            assigner_id: self.assigner_id,
            review_requester_id: self.review_requester_id,
            requested_reviewer_id: self.requested_reviewer_id,
            label: self.label.deep_view(),
            milestone_title: self.milestone_title.deep_view(),
            project_card_url: self.project_card_url.deep_view(),
            event: self.event.deep_view(),
            commit_id: self.commit_id.deep_view(),
            commit_url: self.commit_url.deep_view(),
            created_at: self.created_at@,
            issue_id: self.issue_id,
            sdc_repository: self.sdc_repository@,
        }
    }
}

impl DeepView for EventRec {
    type V = EventRecV;

    open spec fn deep_view(&self) -> EventRecV {
        self@
    }
}

/// The numeric identifier of an optional user reference, when one is there.
pub open spec fn opt_user_id(o: Option<UserRef>) -> Option<i64> {
    match o {
        Option::Some(u) => Option::Some(u.id),
        Option::None => Option::None,
    }
}

/// The name of an optional label, when one is there.
pub open spec fn opt_label_name(o: Option<LabelV>) -> Option<Seq<char>> {
    match o {
        Option::Some(l) => Option::Some(l.name),
        Option::None => Option::None,
    }
}

/// The flattening map for events: total, never inventing a value for an
/// absent field, with every nested object reduced to its natural key and
/// the given repository tag stamped on.
pub open spec fn flatten_event(e: IssueEventV, repo: Seq<char>) -> EventRecV {
    EventRecV {
        id: e.id,
        node_id: e.node_id,
        url: e.url,
        actor_id: e.actor.id,
        assignee_id: opt_user_id(e.assignee),
        assigner_id: opt_user_id(e.assigner),
        review_requester_id: opt_user_id(e.review_requester),
        requested_reviewer_id: opt_user_id(e.requested_reviewer),
        label: opt_label_name(e.label),
        milestone_title: e.milestone,
        project_card_url: e.project_card,
        event: e.event,
        commit_id: e.commit_id,
        commit_url: e.commit_url,
        created_at: e.created_at,
        issue_id: e.issue.id,
        sdc_repository: repo,
    }
}

/// The flattening map as a function value, for page-level statements.
pub open spec fn event_flatten_fn(repo: Seq<char>) -> spec_fn(IssueEventV) -> EventRecV {
    |e: IssueEventV| flatten_event(e, repo)
}

impl EventRec {
    /// Flattens one event and stamps the repository tag onto the row.
    pub fn from_event(e: IssueEvent, repo: String) -> (r: EventRec)
        ensures
            r@ == flatten_event(e@, repo@),
    {
        let r = EventRec {
            id: e.id,
            node_id: e.node_id,
            url: e.url,
            actor_id: e.actor.id,
            assignee_id: match e.assignee {
                Option::Some(u) => Option::Some(u.id),
                Option::None => Option::None,
            },
            assigner_id: match e.assigner {
                Option::Some(u) => Option::Some(u.id),
                Option::None => Option::None,
            },
            review_requester_id: match e.review_requester {
                Option::Some(u) => Option::Some(u.id),
                Option::None => Option::None,
            },
            requested_reviewer_id: match e.requested_reviewer {
                Option::Some(u) => Option::Some(u.id),
                Option::None => Option::None,
            },
            label: match e.label {
                Option::Some(l) => Option::Some(l.name),
                Option::None => Option::None,
            },
            milestone_title: match e.milestone {
                Option::Some(m) => Option::Some(m.title),
                Option::None => Option::None,
            },
            project_card_url: match e.project_card {
                Option::Some(p) => Option::Some(p.url),
                Option::None => Option::None,
            },
            event: e.event,
            commit_id: e.commit_id,
            commit_url: e.commit_url,
            created_at: e.created_at,
            issue_id: e.issue.id,
            sdc_repository: repo,
        };
        r
    }
}

/// Header cells of the event table, in the record's declared field order.
pub open spec fn event_header_cells() -> Seq<Seq<char>> {
    seq![
        "id"@,
        "node_id"@,
        "url"@,
        "actor_id"@,
        "assignee_id"@,
        "assigner_id"@,
        "review_requester_id"@,
        "requested_reviewer_id"@,
        "label"@,
        "milestone_title"@,
        "project_card_url"@,
        "event"@,
        "commit_id"@,
        "commit_url"@,
        "created_at"@,
        "issue_id"@,
        "sdc_repository"@,
    ]
}

/// Cells of one event row, in the record's declared field order. Absent
/// optional fields become empty cells.
pub open spec fn event_cells(r: EventRecV) -> Seq<Seq<char>> {
    seq![
        opt_int_cell(r.id),
        opt_cell(r.node_id),
        opt_cell(r.url),
        int_rep(r.actor_id as int),
        opt_int_cell(r.assignee_id),
        opt_int_cell(r.assigner_id),
        opt_int_cell(r.review_requester_id),
        opt_int_cell(r.requested_reviewer_id),
        opt_cell(r.label),
        opt_cell(r.milestone_title),
        opt_cell(r.project_card_url),
        opt_cell(r.event),
        opt_cell(r.commit_id),
        opt_cell(r.commit_url),
        r.created_at,
        int_rep(r.issue_id as int),
        r.sdc_repository,
    ]
}

/// The cell map as a function value, for run-level statements.
pub open spec fn event_cells_fn() -> spec_fn(EventRecV) -> Seq<Seq<char>> {
    |r: EventRecV| event_cells(r)
}

/// The header row cells of the event table.
pub fn event_header() -> (v: Vec<String>)
    ensures
        v.deep_view() == event_header_cells(),
{
    let mut v: Vec<String> = Vec::new();
    v.push(String::from_str("id"));
    v.push(String::from_str("node_id"));
    v.push(String::from_str("url"));
    v.push(String::from_str("actor_id"));
    v.push(String::from_str("assignee_id"));
    v.push(String::from_str("assigner_id"));
    v.push(String::from_str("review_requester_id"));
    v.push(String::from_str("requested_reviewer_id"));
    v.push(String::from_str("label"));
    v.push(String::from_str("milestone_title"));
    v.push(String::from_str("project_card_url"));
    v.push(String::from_str("event"));
    v.push(String::from_str("commit_id"));
    v.push(String::from_str("commit_url"));
    v.push(String::from_str("created_at"));
    v.push(String::from_str("issue_id"));
    v.push(String::from_str("sdc_repository"));
    proof {
        assert(v.deep_view() =~= event_header_cells());
    }
    v
}

/// The cells of one event row.
pub fn event_row(r: &EventRec) -> (v: Vec<String>)
    ensures
        v.deep_view() == event_cells(r@),
{
    let mut v: Vec<String> = Vec::new();
    v.push(id_cell(&r.id));
    v.push(text_cell(&r.node_id));
    v.push(text_cell(&r.url));
    v.push(fmt_i64(r.actor_id));
    v.push(id_cell(&r.assignee_id));
    v.push(id_cell(&r.assigner_id));
    v.push(id_cell(&r.review_requester_id));
    v.push(id_cell(&r.requested_reviewer_id));
    v.push(text_cell(&r.label));
    v.push(text_cell(&r.milestone_title));
    v.push(text_cell(&r.project_card_url));
    v.push(text_cell(&r.event));
    v.push(text_cell(&r.commit_id));
    v.push(text_cell(&r.commit_url));
    v.push(r.created_at.clone());
    v.push(fmt_i64(r.issue_id));
    v.push(r.sdc_repository.clone());
    proof {
        assert(v.deep_view() =~= event_cells(r@));
    }
    v
}

/// Walks the paginated event listing of one repository and renders every
/// event, in response order, as one row of the event table, each stamped
/// with the repository tag.
///
/// The fetcher is fed one page at a time: the caller issues the request the
/// cursor asks for and hands the response to `on_page`. Any transport
/// failure is the caller's to propagate; the rows written before it stay.
pub struct IssueEventFetcher {
    owner: String,
    name: String,
    cursor: Cursor,
    fetches: u64,
    sink: RowSink,
    pages: Ghost<Seq<PageV<IssueEventV>>>,
    recs: Ghost<Seq<EventRecV>>,
}

impl IssueEventFetcher {
    /// The repository owner this fetcher was created for.
    pub closed spec fn owner_spec(&self) -> Seq<char> {
        self.owner@
    }

    /// The repository name this fetcher was created for.
    pub closed spec fn name_spec(&self) -> Seq<char> {
        self.name@
    }

    /// The repository tag stamped onto every row: `owner/name`.
    pub open spec fn repo(&self) -> Seq<char> {
        self.owner_spec() + seq!['/'] + self.name_spec()
    }

    /// The pages consumed so far, in fetch order.
    pub closed spec fn pages(&self) -> Seq<PageV<IssueEventV>> {
        self.pages@
    }

    /// The flat records produced so far, in write order.
    pub closed spec fn recs(&self) -> Seq<EventRecV> {
        self.recs@
    }

    /// How many page fetches were consumed.
    pub closed spec fn fetches(&self) -> int {
        self.fetches as int
    }

    /// Whether the listing is exhausted.
    pub closed spec fn done(&self) -> bool {
        self.cursor is Done
    }

    /// The next-page reference the cursor holds, if any.
    pub closed spec fn pending(&self) -> Option<Seq<char>> {
        match self.cursor {
            Cursor::Next(s) => Option::Some(s@),
            _ => Option::None,
        }
    }

    /// The table text produced so far.
    pub closed spec fn text(&self) -> Seq<char> {
        self.sink.text()
    }

    /// The fetcher's invariant: the cursor follows the last page consumed,
    /// one fetch was counted per page, the records are the flattening of
    /// every page item in order with the repository tag stamped on each,
    /// and the table text holds the header row followed by exactly one row
    /// per record.
    pub closed spec fn wf(&self) -> bool {
        &&& self.fetches as int == self.pages@.len()
        &&& cursor_matches(self.cursor, self.pages@)
        &&& self.recs@ == flat_records(self.pages@, event_flatten_fn(self.repo()))
        &&& forall|i: int|
            0 <= i < self.recs@.len() ==> #[trigger] self.recs@[i].sdc_repository == self.repo()
        &&& self.sink.wf()
        &&& self.sink.header() == event_header_cells()
        &&& self.sink.rows() == self.recs@.map_values(event_cells_fn())
    }

    /// Creates a fetcher for one repository; the header row is emitted at
    /// once, before any page is consumed.
    pub fn new(owner: String, name: String) -> (f: Self)
        ensures
            f.wf(),
            f.owner_spec() == owner@,
            f.name_spec() == name@,
            f.pages() == Seq::<PageV<IssueEventV>>::empty(),
            f.recs() == Seq::<EventRecV>::empty(),
            f.fetches() == 0,
            !f.done(),
            f.pending() is None,
            f.text() == csv_row_of(event_header_cells()),
    {
        let header = event_header();
        let sink = RowSink::new(&header);
        let f = IssueEventFetcher {
            owner,
            name,
            cursor: Cursor::Start,
            fetches: 0,
            sink,
            pages: Ghost(Seq::empty()),
            recs: Ghost(Seq::empty()),
        };
        proof {
            assert(flat_records(Seq::<PageV<IssueEventV>>::empty(), event_flatten_fn(f.repo()))
                =~= Seq::<EventRecV>::empty());
            assert(f.recs@.map_values(event_cells_fn()) =~= Seq::<Seq<Seq<char>>>::empty());
        }
        f
    }

    /// The repository tag: `owner/name`.
    pub fn reponame(&self) -> (r: String)
        ensures
            r@ == self.repo(),
    {
        let mut s = self.owner.clone();
        s.append("/");
        s.append(self.name.as_str());
        proof {
            reveal_strlit("/");
            assert(s@ =~= self.repo());
        }
        s
    }

    /// The request path of the event listing for this repository. The
    /// listing has no higher-level binding upstream, so the caller requests
    /// this path directly.
    pub fn events_route(&self) -> (r: String)
        ensures
            r@ == "repos/"@ + self.owner_spec() + seq!['/'] + self.name_spec()
                + "/issues/events"@,
    {
        let mut s = String::from_str("repos/");
        s.append(self.owner.as_str());
        s.append("/");
        s.append(self.name.as_str());
        s.append("/issues/events");
        proof {
            reveal_strlit("/");
            assert(s@ =~= "repos/"@ + self.owner_spec() + seq!['/'] + self.name_spec()
                + "/issues/events"@);
        }
        s
    }

    /// Consumes one fetched page: every item, in response order, is
    /// flattened, stamped with the repository tag and written as one row,
    /// and the cursor then follows the page's next reference — absent
    /// reference, run over.
    #[verifier::loop_isolation(false)]
    pub fn on_page(&mut self, items: Vec<IssueEvent>, next: Option<String>)
        requires
            old(self).wf(),
            !old(self).done(),
            old(self).fetches() < u64::MAX,
        ensures
            final(self).wf(),
            final(self).owner_spec() == old(self).owner_spec(),
            final(self).name_spec() == old(self).name_spec(),
            final(self).pages() == old(self).pages().push(
                PageV { items: items.deep_view(), next: next.deep_view() },
            ),
            final(self).recs() == old(self).recs()
                + items.deep_view().map_values(event_flatten_fn(old(self).repo())),
            final(self).fetches() == old(self).fetches() + 1,
            final(self).done() <==> next is None,
            final(self).pending() == next.deep_view(),
    {
        let ghost total = items.deep_view();
        let ghost nextv = next.deep_view();
        let mut rest = items;
        let ghost flat = event_flatten_fn(old(self).repo());
        while rest.len() > 0
            invariant
                rest.len() <= total.len(),
                rest.deep_view() =~= total.skip(total.len() - rest.len()),
                self.owner == old(self).owner,
                self.name == old(self).name,
                self.cursor == old(self).cursor,
                self.fetches == old(self).fetches,
                self.pages@ == old(self).pages@,
                self.sink.wf(),
                self.sink.header() == event_header_cells(),
                self.recs@ == old(self).recs@
                    + total.take(total.len() - rest.len()).map_values(flat),
                forall|i: int|
                    0 <= i < self.recs@.len()
                        ==> #[trigger] self.recs@[i].sdc_repository == self.repo(),
                self.sink.rows() == self.recs@.map_values(event_cells_fn()),
            decreases rest.len(),
        {
            let ghost k = total.len() - rest.len();
            let ghost pre = rest@;
            let ghost prev = rest.deep_view();
            let repo = self.reponame();
            let c = rest.remove(0);
            proof {
                assert(prev[0] == pre[0].deep_view());
                assert(prev[0] == total[k]);
                assert(c.deep_view() == total[k]);
                assert(rest.deep_view() =~= prev.skip(1)) by {
                    assert(forall|i: int|
                        0 <= i < rest@.len() ==> #[trigger] rest@[i] == pre[i + 1]);
                    assert(forall|i: int|
                        0 <= i < rest@.len()
                            ==> #[trigger] rest.deep_view()[i] == rest@[i].deep_view());
                }
                assert(prev.skip(1) =~= total.skip(k + 1));
            }
            let rec = EventRec::from_event(c, repo);
            let cells = event_row(&rec);
            self.sink.write_row(&cells);
            proof {
                self.recs@ = self.recs@.push(rec@);
                assert(rec@ == flatten_event(total[k], self.repo()));
                assert(flat(total[k]) == flatten_event(total[k], self.repo()));
                assert(total.take(k + 1).map_values(flat)
                    =~= total.take(k).map_values(flat).push(flat(total[k])));
                assert(self.recs@ =~= old(self).recs@ + total.take(k + 1).map_values(flat));
                assert(self.sink.rows() =~= self.recs@.map_values(event_cells_fn()));
            }
        }
        proof {
            assert(total.take(total.len() - rest.len()) =~= total);
        }
        self.fetches = self.fetches + 1;
        match next {
            Option::Some(r) => {
                self.cursor = Cursor::Next(r);
            },
            Option::None => {
                self.cursor = Cursor::Done;
            },
        }
        proof {
            let page = PageV { items: total, next: nextv };
            lemma_flat_records_push(self.pages@, flat, page);
            self.pages@ = self.pages@.push(page);
        }
    }

    /// Whether the listing is exhausted.
    pub fn is_done(&self) -> (b: bool)
        ensures
            b == self.done(),
    {
        match self.cursor {
            Cursor::Done => true,
            _ => false,
        }
    }

    /// The next-page reference to follow, once the first page came back.
    pub fn next_page(&self) -> (r: Option<&String>)
        ensures
            r.deep_view() == self.pending(),
    {
        match &self.cursor {
            Cursor::Next(s) => Option::Some(s),
            _ => Option::None,
        }
    }

    /// How many page fetches were consumed.
    pub fn fetch_count(&self) -> (n: u64)
        ensures
            n as int == self.fetches(),
    {
        self.fetches
    }

    /// The repository owner.
    pub fn owner(&self) -> (r: &String)
        ensures
            r@ == self.owner_spec(),
    {
        &self.owner
    }

    /// The repository name.
    pub fn name(&self) -> (r: &String)
        ensures
            r@ == self.name_spec(),
    {
        &self.name
    }

    /// The table text produced so far, for the caller to persist.
    pub fn output(&self) -> (r: &String)
        ensures
            r@ == self.text(),
    {
        self.sink.output()
    }
}

/// Law: the number of flat records equals the sum of the item counts of
/// every page fetched, however the items fall across page boundaries.
pub proof fn lemma_event_record_count(f: IssueEventFetcher)
    requires
        f.wf(),
    ensures
        f.recs().len() == total_items(f.pages()),
{
    lemma_flat_records_count(f.pages(), event_flatten_fn(f.repo()));
}

/// Law: row order equals response order: the records are exactly the items
/// of the consumed pages, concatenated in fetch order, each flattened —
/// nothing is reordered, merged or dropped.
pub proof fn lemma_event_record_order(f: IssueEventFetcher)
    requires
        f.wf(),
    ensures
        f.recs() == flat_records(f.pages(), event_flatten_fn(f.repo())),
{
}

/// Law: one fetch is consumed per page, and the run is over exactly when
/// the last consumed page carried no next-page reference.
pub proof fn lemma_event_pagination(f: IssueEventFetcher)
    requires
        f.wf(),
    ensures
        f.fetches() == f.pages().len(),
        f.done() <==> f.pages().len() > 0 && f.pages().last().next is None,
        f.pages().len() > 0 && !f.done() ==> f.pending() == f.pages().last().next,
        f.pages().len() == 0 ==> !f.done() && f.pending() is None,
{
}

/// Law: every record of a run against repository `owner/name` carries that
/// repository tag, independent of event subtype.
pub proof fn lemma_event_repo_tag(f: IssueEventFetcher)
    requires
        f.wf(),
    ensures
        forall|i: int| 0 <= i < f.recs().len() ==> #[trigger] f.recs()[i].sdc_repository == f.repo(),
{
}

/// Law: the table text is the header row, emitted once, followed by one
/// encoded row per record, in record order.
pub proof fn lemma_event_table_layout(f: IssueEventFetcher)
    requires
        f.wf(),
    ensures
        f.text() == csv_row_of(event_header_cells())
            + rows_text(f.recs().map_values(event_cells_fn())),
{
    f.sink.lemma_text();
}

/// Law: flattening is deterministic, and injective on each chosen key: two
/// rows agree on a key cell exactly when the nested objects agree on that
/// key.
pub proof fn lemma_event_keys(e1: IssueEventV, e2: IssueEventV, repo: Seq<char>)
    ensures
        e1 == e2 ==> flatten_event(e1, repo) == flatten_event(e2, repo),
        flatten_event(e1, repo).actor_id == flatten_event(e2, repo).actor_id
            <==> e1.actor == e2.actor,
        flatten_event(e1, repo).issue_id == flatten_event(e2, repo).issue_id
            <==> e1.issue == e2.issue,
        flatten_event(e1, repo).assignee_id == flatten_event(e2, repo).assignee_id
            <==> opt_user_id(e1.assignee) == opt_user_id(e2.assignee),
        flatten_event(e1, repo).label == flatten_event(e2, repo).label
            <==> opt_label_name(e1.label) == opt_label_name(e2.label),
{
}

/// Law: an absent optional field maps to an empty output cell, never to a
/// placeholder string or zero value.
pub proof fn lemma_event_absent_cells(e: IssueEventV, repo: Seq<char>)
    ensures
        e.id is None ==> event_cells(flatten_event(e, repo))[0] == Seq::<char>::empty(),
        e.node_id is None ==> event_cells(flatten_event(e, repo))[1] == Seq::<char>::empty(),
        e.url is None ==> event_cells(flatten_event(e, repo))[2] == Seq::<char>::empty(),
        e.assignee is None ==> event_cells(flatten_event(e, repo))[4] == Seq::<char>::empty(),
        e.assigner is None ==> event_cells(flatten_event(e, repo))[5] == Seq::<char>::empty(),
        e.review_requester is None
            ==> event_cells(flatten_event(e, repo))[6] == Seq::<char>::empty(),
        e.requested_reviewer is None
            ==> event_cells(flatten_event(e, repo))[7] == Seq::<char>::empty(),
        e.label is None ==> event_cells(flatten_event(e, repo))[8] == Seq::<char>::empty(),
        e.milestone is None ==> event_cells(flatten_event(e, repo))[9] == Seq::<char>::empty(),
        e.project_card is None ==> event_cells(flatten_event(e, repo))[10] == Seq::<char>::empty(),
        e.event is None ==> event_cells(flatten_event(e, repo))[11] == Seq::<char>::empty(),
        e.commit_id is None ==> event_cells(flatten_event(e, repo))[12] == Seq::<char>::empty(),
        e.commit_url is None ==> event_cells(flatten_event(e, repo))[13] == Seq::<char>::empty(),
{
}

} // verus!
