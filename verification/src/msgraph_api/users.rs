//! The users of the tenant: the walk over the pages of the collection, and
//! the count.

use crate::errors::ApiError;
use crate::msgraph_api::{
    bearer, is_success, probe_of, probe_verdict, status_is_success, ApiClient, CallModel,
    GatedCall, Reply, ReplyModel, Request, RequestModel,
};
use crate::text::{numeral_value, parse_usize};
use crate::web::{copy_pairs, json_string_member, query_parameter, query_value, string_member};
use crate::wire::{elements, json_parse, json_values, member, parse_json, Json};
use vstd::prelude::*;

verus! {

/// Why a walk over the collection ended.
#[derive(Debug, Copy, Clone, PartialEq, Eq, Structural)]
pub enum Stop {
    /// The last page named no next page: the collection is exhausted.
    Exhausted,
    /// A page held no items, or no array of items at all.
    EmptyPage,
    /// As many pages were read as the caller allowed.
    PageCap,
    /// The API refused a request after a page had been read: the token has
    /// most likely expired.
    TokenExpired,
    /// The API could not be reached after a page had been read.
    Unreachable,
    /// An answer after the first page was not JSON.
    Unreadable,
}

/// What a walk brought back: every item of every page that was read, in
/// order, and where to resume if the walk was cut short.
#[derive(Debug, Clone)]
pub struct FetchResult {
    pub items: Vec<serde_json::Value>,
    /// Number of pages that the items came from.
    pub pages: usize,
    pub stop: Stop,
    /// The cursor to resume at, where the walk was cut short by a failure and
    /// a cursor had been seen.
    pub resume: Option<String>,
}

/// A `FetchResult` as plain values.
pub struct FetchModel {
    pub items: Seq<Json>,
    pub pages: nat,
    pub stop: Stop,
    pub resume: Option<Seq<char>>,
}

impl View for FetchResult {
    type V = FetchModel;

    open spec fn view(&self) -> FetchModel {
        FetchModel {
            items: json_values(self.items@),
            pages: self.pages as nat,
            stop: self.stop,
            resume: self.resume.deep_view(),
        }
    }
}

/// What has been gathered while pages are being read.
pub struct Progress {
    /// The items of the pages read so far.
    pub items: Seq<Json>,
    /// Number of pages read so far.
    pub pages: nat,
    /// The cursor that the most recent next-link carried, if any did.
    pub cursor: Option<Seq<char>>,
    /// Most pages to read; 0 for no limit.
    pub max_pages: u16,
    /// The headers of every request.
    pub headers: Seq<(Seq<char>, Seq<char>)>,
}

/// The states of a walk.
pub enum WalkModel {
    /// The probe is due: nothing is requested of the collection before the
    /// token has been shown to be accepted.
    Probe {
        probe: Seq<char>,
        first: Seq<char>,
        max_pages: u16,
        headers: Seq<(Seq<char>, Seq<char>)>,
    },
    /// The page at `url` is due.
    Page { url: Seq<char>, so_far: Progress },
    /// The walk is over.
    Done(Result<FetchModel, ApiError>),
}

/// The items of a page: the elements of the array `value` of the document.
/// `None` where the document has no such member or it is no array.
pub open spec fn page_items(doc: Json) -> Option<Seq<Json>> {
    match doc.member("value"@) {
        Some(v) => v.elements(),
        None => None,
    }
}

/// The link to the next page: the string `@odata.nextLink` of the document.
pub open spec fn next_link(doc: Json) -> Option<Seq<char>> {
    json_string_member(doc, "@odata.nextLink"@)
}

/// The end of a walk that a failure cut short. After at least one page the
/// items are kept and the last cursor is reported; on the first page the
/// failure is the result.
pub open spec fn cut_short(p: Progress, stop: Stop, error: ApiError) -> WalkModel {
    cut_short_with(p.items, p.pages, p.cursor, stop, error)
}

/// `cut_short`, of the parts of the progress that it depends on.
pub open spec fn cut_short_with(
    items: Seq<Json>,
    pages: nat,
    cursor: Option<Seq<char>>,
    stop: Stop,
    error: ApiError,
) -> WalkModel {
    if pages > 0 {
        WalkModel::Done(Ok(FetchModel { items, pages, stop, resume: cursor }))
    } else {
        WalkModel::Done(Err(error))
    }
}

/// The end of a walk that ran to completion with the items `items` from
/// `pages` pages.
pub open spec fn completed(items: Seq<Json>, pages: nat, stop: Stop) -> WalkModel {
    WalkModel::Done(Ok(FetchModel { items, pages, stop, resume: None }))
}

/// The state after the successful answer `body` to a page request.
pub open spec fn after_body(p: Progress, body: Seq<char>) -> WalkModel {
    match json_parse(body) {
        None => cut_short(p, Stop::Unreadable, ApiError::MalformedBody),
        Some(doc) => match page_items(doc) {
            None => completed(p.items, p.pages, Stop::EmptyPage),
            Some(found) => if found.len() == 0 {
                completed(p.items, p.pages, Stop::EmptyPage)
            } else if p.max_pages > 0 && p.pages + 1 >= p.max_pages {
                completed(p.items + found, p.pages + 1, Stop::PageCap)
            } else {
                match next_link(doc) {
                    None => completed(p.items + found, p.pages + 1, Stop::Exhausted),
                    Some(link) => WalkModel::Page {
                        url: link,
                        so_far: Progress {
                            items: p.items + found,
                            pages: p.pages + 1,
                            cursor: match query_value(link, "$skiptoken"@) {
                                Some(c) => Some(c),
                                None => p.cursor,
                            },
                            max_pages: p.max_pages,
                            headers: p.headers,
                        },
                    },
                }
            },
        },
    }
}

/// The state after `reply` has been fed to a walk in state `w`. A finished
/// walk stays as it is.
pub open spec fn step_model(w: WalkModel, reply: ReplyModel) -> WalkModel {
    match w {
        WalkModel::Probe { probe, first, max_pages, headers } => match probe_verdict(reply) {
            Err(e) => WalkModel::Done(Err(e)),
            Ok(false) => WalkModel::Done(Err(ApiError::TokenNotValid)),
            Ok(true) => WalkModel::Page {
                url: first,
                so_far: Progress { items: seq![], pages: 0, cursor: None, max_pages, headers },
            },
        },
        WalkModel::Page { url, so_far } => match reply {
            ReplyModel::Unreachable => cut_short(so_far, Stop::Unreachable, ApiError::Transport),
            ReplyModel::Http { status, body } => if is_success(status) {
                after_body(so_far, body)
            } else {
                cut_short(so_far, Stop::TokenExpired, ApiError::RequestFailed)
            },
        },
        WalkModel::Done(r) => w,
    }
}

/// The request that is due in state `w`; none once the walk is over.
pub open spec fn due(w: WalkModel) -> Option<RequestModel> {
    match w {
        WalkModel::Probe { probe, first, max_pages, headers } => Some(
            RequestModel { url: probe, headers },
        ),
        WalkModel::Page { url, so_far } => Some(RequestModel { url, headers: so_far.headers }),
        WalkModel::Done(r) => None,
    }
}

/// The state in which a walk starts: the probe `probe` is due, and `first`
/// is the URL of the first page.
pub open spec fn start_model(probe: RequestModel, first: Seq<char>, max_pages: u16) -> WalkModel {
    WalkModel::Probe { probe: probe.url, first, max_pages, headers: probe.headers }
}

/// The states of a walk.
enum WalkState {
    Probe { probe: String, first: String, max_pages: u16, headers: Vec<(String, String)> },
    Page {
        url: String,
        items: Vec<serde_json::Value>,
        pages: usize,
        cursor: Option<String>,
        max_pages: u16,
        headers: Vec<(String, String)>,
    },
    Done(Result<FetchResult, ApiError>),
}

/// A walk over the pages of the users collection. It asks for the probe
/// first, then for one page after the other, and tells the caller which
/// request is due; the caller sends it and feeds the reply back.
pub struct UsersWalk {
    state: WalkState,
}

impl View for UsersWalk {
    type V = WalkModel;

    closed spec fn view(&self) -> WalkModel {
        match self.state {
            WalkState::Probe { probe, first, max_pages, headers } => WalkModel::Probe {
                probe: probe@,
                first: first@,
                max_pages,
                headers: headers.deep_view(),
            },
            WalkState::Page { url, items, pages, cursor, max_pages, headers } => WalkModel::Page {
                url: url@,
                so_far: Progress {
                    items: json_values(items@),
                    pages: pages as nat,
                    cursor: cursor.deep_view(),
                    max_pages,
                    headers: headers.deep_view(),
                },
            },
            WalkState::Done(r) => WalkModel::Done(
                match r {
                    Ok(f) => Ok(f@),
                    Err(e) => Err(e),
                },
            ),
        }
    }
}

impl UsersWalk {
    #[verifier::type_invariant]
    spec fn inv(self) -> bool {
        state_inv(self.state)
    }

    /// A walk that sends `probe` first and then reads pages from `first` on,
    /// at most `max_pages` of them (0 for all), with the headers of `probe`.
    pub fn begin(probe: Request, first: String, max_pages: u16) -> (r: UsersWalk)
        ensures
            r@ == start_model(probe@, first@, max_pages),
    {
        UsersWalk {
            state: WalkState::Probe { probe: probe.url, first, max_pages, headers: probe.headers },
        }
    }

    /// The request to send now; `None` once the walk is over.
    pub fn next_request(&self) -> (r: Option<Request>)
        ensures
            match r {
                Some(q) => due(self@) == Some(q@),
                None => due(self@) is None,
            },
    {
        match &self.state {
            WalkState::Probe { probe, first, max_pages, headers } => Some(
                Request { url: probe.clone(), headers: copy_pairs(headers) },
            ),
            WalkState::Page { url, items, pages, cursor, max_pages, headers } => Some(
                Request { url: url.clone(), headers: copy_pairs(headers) },
            ),
            WalkState::Done(r) => None,
        }
    }

    /// Whether the walk is over.
    pub fn is_done(&self) -> (r: bool)
        ensures
            r == (self@ is Done),
    {
        match &self.state {
            WalkState::Done(r) => true,
            _ => false,
        }
    }

    /// Feeds the reply to the request that was due.
    pub fn step(self, reply: Reply) -> (r: UsersWalk)
        ensures
            r@ == step_model(self@, reply@),
    {
        proof {
            use_type_invariant(&self);
        }
        match self.state {
            WalkState::Probe { probe, first, max_pages, headers } => {
                let state = match reply {
                    Reply::Unreachable => WalkState::Done(Err(ApiError::Transport)),
                    Reply::Http { status, body } => if status_is_success(status) {
                        WalkState::Page {
                            url: first,
                            items: Vec::new(),
                            pages: 0,
                            cursor: None,
                            max_pages,
                            headers,
                        }
                    } else {
                        WalkState::Done(Err(ApiError::TokenNotValid))
                    },
                };
                proof {
                    assert(json_values(Seq::<serde_json::Value>::empty()) =~= Seq::<
                        Json,
                    >::empty());
                }
                UsersWalk { state }
            },
            WalkState::Page { url, items, pages, cursor, max_pages, headers } => {
                match reply {
                    Reply::Unreachable => UsersWalk {
                        state: cut(items, pages, cursor, Stop::Unreachable, ApiError::Transport),
                    },
                    Reply::Http { status, body } => if status_is_success(status) {
                        UsersWalk {
                            state: read_page(items, pages, cursor, max_pages, headers, body.as_str()),
                        }
                    } else {
                        UsersWalk {
                            state: cut(
                                items,
                                pages,
                                cursor,
                                Stop::TokenExpired,
                                ApiError::RequestFailed,
                            ),
                        }
                    },
                }
            },
            WalkState::Done(r) => UsersWalk { state: WalkState::Done(r) },
        }
    }

    /// The result of the walk; `None` while it is not over.
    pub fn finish(self) -> (r: Option<Result<FetchResult, ApiError>>)
        ensures
            match r {
                Some(Ok(f)) => self@ == WalkModel::Done(Ok(f@)),
                Some(Err(e)) => self@ == WalkModel::Done(Err(e)),
                None => !(self@ is Done),
            },
    {
        match self.state {
            WalkState::Done(r) => Some(r),
            _ => None,
        }
    }
}

/// The model of a state.
spec fn state_model(state: WalkState) -> WalkModel {
    (UsersWalk { state })@
}

/// No more pages have been counted than items have been gathered: every
/// page that counts brought at least one.
spec fn state_inv(state: WalkState) -> bool {
    match state {
        WalkState::Page { url, items, pages, cursor, max_pages, headers } => pages <= items@.len(),
        _ => true,
    }
}

/// Ends a walk that a failure cut short.
fn cut(
    items: Vec<serde_json::Value>,
    pages: usize,
    cursor: Option<String>,
    stop: Stop,
    error: ApiError,
) -> (r: WalkState)
    ensures
        state_inv(r),
        state_model(r) == cut_short_with(
            json_values(items@),
            pages as nat,
            cursor.deep_view(),
            stop,
            error,
        ),
{
    if pages > 0 {
        WalkState::Done(Ok(FetchResult { items, pages, stop, resume: cursor }))
    } else {
        WalkState::Done(Err(error))
    }
}

/// Takes the successful answer `body` to a page request.
fn read_page(
    items: Vec<serde_json::Value>,
    pages: usize,
    cursor: Option<String>,
    max_pages: u16,
    headers: Vec<(String, String)>,
    body: &str,
) -> (r: WalkState)
    requires
        pages <= items@.len(),
    ensures
        state_inv(r),
        state_model(r) == after_body(
            Progress {
                items: json_values(items@),
                pages: pages as nat,
                cursor: cursor.deep_view(),
                max_pages,
                headers: headers.deep_view(),
            },
            body@,
        ),
{
    let doc = match parse_json(body) {
        Some(doc) => doc,
        None => {
            return cut(items, pages, cursor, Stop::Unreadable, ApiError::MalformedBody);
        },
    };
    let found = match member(&doc, "value") {
        Some(v) => elements(v),
        None => None,
    };
    let mut page = match found {
        Some(page) => page,
        None => {
            return WalkState::Done(
                Ok(FetchResult { items, pages, stop: Stop::EmptyPage, resume: None }),
            );
        },
    };
    if page.len() == 0 {
        return WalkState::Done(
            Ok(FetchResult { items, pages, stop: Stop::EmptyPage, resume: None }),
        );
    }
    let ghost before = items@;
    let ghost added = page@;
    let mut items = items;
    items.append(&mut page);
    proof {
        assert(json_values(before + added) =~= json_values(before) + json_values(added));
        vstd::std_specs::vec::axiom_spec_len(&items);
    }
    let pages: usize = pages + 1;
    if max_pages > 0 && pages >= max_pages as usize {
        return WalkState::Done(
            Ok(FetchResult { items, pages, stop: Stop::PageCap, resume: None }),
        );
    }
    match string_member(&doc, "@odata.nextLink") {
        None => WalkState::Done(
            Ok(FetchResult { items, pages, stop: Stop::Exhausted, resume: None }),
        ),
        Some(url) => {
            let cursor = match query_parameter(url.as_str(), "$skiptoken") {
                Some(c) => Some(c),
                None => cursor,
            };
            WalkState::Page { url, items, pages, cursor, max_pages, headers }
        },
    }
}

/// The state of a walk after the replies `replies` have been fed to it in
/// order, starting from `w`.
pub open spec fn run(w: WalkModel, replies: Seq<ReplyModel>) -> WalkModel
    decreases replies.len(),
{
    if replies.len() == 0 {
        w
    } else {
        run(step_model(w, replies[0]), replies.skip(1))
    }
}

/// How many of `replies` answer a page request when they are fed in order to
/// a walk in state `w`: the number of page requests that the walk makes.
pub open spec fn page_requests(w: WalkModel, replies: Seq<ReplyModel>) -> nat
    decreases replies.len(),
{
    if replies.len() == 0 {
        0
    } else {
        let here: nat = if w is Page {
            1
        } else {
            0
        };
        here + page_requests(step_model(w, replies[0]), replies.skip(1))
    }
}

/// `w` is a state of a walk that may read `cap` pages at most and has not
/// gone beyond: while pages are due fewer than `cap` have been read, and a
/// result holds the items of `cap` pages at most.
pub open spec fn under_cap(w: WalkModel, cap: u16) -> bool {
    match w {
        WalkModel::Probe { probe, first, max_pages, headers } => max_pages == cap,
        WalkModel::Page { url, so_far } => so_far.max_pages == cap && so_far.pages < cap,
        WalkModel::Done(Ok(f)) => f.pages <= cap,
        WalkModel::Done(Err(e)) => true,
    }
}

/// Number of pages that have been read in state `w`.
pub open spec fn pages_read(w: WalkModel) -> nat {
    match w {
        WalkModel::Page { url, so_far } => so_far.pages,
        WalkModel::Done(Ok(f)) => f.pages,
        _ => 0,
    }
}

/// The items that have been gathered in state `w`.
pub open spec fn gathered(w: WalkModel) -> Seq<Json> {
    match w {
        WalkModel::Page { url, so_far } => so_far.items,
        WalkModel::Done(Ok(f)) => f.items,
        _ => seq![],
    }
}

/// One reply keeps a walk under its page cap.
pub proof fn lemma_step_under_cap(w: WalkModel, reply: ReplyModel, cap: u16)
    requires
        cap > 0,
        under_cap(w, cap),
    ensures
        under_cap(step_model(w, reply), cap),
        w is Page ==> step_model(w, reply) is Done || pages_read(step_model(w, reply))
            == pages_read(w) + 1,
{
}

/// A walk with a page cap makes no more page requests than the cap allows,
/// whatever the server answers and however many next-links it offers: with
/// `cap > 0`, a walk that has read `n` pages makes at most `cap - n` further
/// page requests, and its result holds the items of at most `cap` pages.
pub proof fn lemma_page_cap(w: WalkModel, replies: Seq<ReplyModel>, cap: u16)
    requires
        cap > 0,
        under_cap(w, cap),
    ensures
        under_cap(run(w, replies), cap),
        !(w is Done) ==> pages_read(w) + page_requests(w, replies) <= cap,
        w is Done ==> page_requests(w, replies) == 0,
    decreases replies.len(),
{
    if replies.len() > 0 {
        let next = step_model(w, replies[0]);
        lemma_step_under_cap(w, replies[0], cap);
        lemma_page_cap(next, replies.skip(1), cap);
    }
}

/// A walk that starts with the page cap `max_pages > 0` makes at most
/// `max_pages` page requests.
pub proof fn lemma_walk_is_bounded(
    probe: RequestModel,
    first: Seq<char>,
    max_pages: u16,
    replies: Seq<ReplyModel>,
)
    requires
        max_pages > 0,
    ensures
        page_requests(start_model(probe, first, max_pages), replies) <= max_pages,
        pages_read(run(start_model(probe, first, max_pages), replies)) <= max_pages,
{
    lemma_page_cap(start_model(probe, first, max_pages), replies, max_pages);
}

/// A finished walk asks for nothing and no reply changes it.
pub proof fn lemma_done_is_final(w: WalkModel, replies: Seq<ReplyModel>)
    requires
        w is Done,
    ensures
        due(w) is None,
        run(w, replies) == w,
    decreases replies.len(),
{
    if replies.len() > 0 {
        lemma_done_is_final(w, replies.skip(1));
    }
}

/// Once a page has been read nothing is lost: whatever comes back next, the
/// walk goes on or ends with a result, never with an error, and the items
/// gathered so far are still there, in front.
pub proof fn lemma_items_are_kept(w: WalkModel, reply: ReplyModel)
    requires
        w is Page,
        pages_read(w) > 0,
    ensures
        !(step_model(w, reply) matches WalkModel::Done(Err(e))),
        gathered(w).is_prefix_of(gathered(step_model(w, reply))),
        pages_read(w) <= pages_read(step_model(w, reply)),
{
}

/// A walk that a failure cuts short after the first page reports the cursor
/// of the most recent next-link; a walk that runs to its end reports none.
pub proof fn lemma_resume_cursor(w: WalkModel, reply: ReplyModel)
    requires
        w is Page,
        step_model(w, reply) is Done,
    ensures
        match step_model(w, reply) {
            WalkModel::Done(Ok(f)) => f.resume == match f.stop {
                Stop::TokenExpired | Stop::Unreachable | Stop::Unreadable => w->so_far.cursor,
                _ => None,
            },
            _ => pages_read(w) == 0,
        },
{
}

/// `reply` is a successful answer whose body is the document `doc`, and
/// `doc` is a page with at least one item.
pub open spec fn is_page(reply: ReplyModel, doc: Json) -> bool {
    &&& reply matches ReplyModel::Http { status, body }
    &&& is_success(status)
    &&& json_parse(body) == Some(doc)
    &&& page_items(doc) matches Some(items)
    &&& items.len() > 0
}

/// The items of the pages `docs`, in order.
pub open spec fn all_items(docs: Seq<Json>) -> Seq<Json>
    decreases docs.len(),
{
    if docs.len() == 0 {
        seq![]
    } else {
        page_items(docs[0]).unwrap() + all_items(docs.skip(1))
    }
}

/// The cursor that is known after the pages `docs`, each of which links to
/// the next, where `cursor` was known before: that of the last link that
/// carries one.
pub open spec fn cursor_after(cursor: Option<Seq<char>>, docs: Seq<Json>) -> Option<Seq<char>>
    decreases docs.len(),
{
    if docs.len() == 0 {
        cursor
    } else {
        cursor_after(
            match query_value(next_link(docs[0]).unwrap(), "$skiptoken"@) {
                Some(c) => Some(c),
                None => cursor,
            },
            docs.skip(1),
        )
    }
}

/// The walk has room for `n` more pages and one: it has no cap, or `n` more
/// pages do not reach it.
pub open spec fn has_room(p: Progress, n: nat) -> bool {
    p.max_pages == 0 || p.pages + n < p.max_pages
}

/// A walk that is fed pages, each with items and a link to the next, reads
/// them all: it gathers their items in order, counts them, remembers the
/// last cursor, and asks for the page that the last link names.
pub proof fn lemma_linked_pages(
    url: Seq<char>,
    p: Progress,
    replies: Seq<ReplyModel>,
    docs: Seq<Json>,
)
    requires
        replies.len() == docs.len(),
        forall|i: int| 0 <= i < replies.len() ==> is_page(#[trigger] replies[i], docs[i]),
        forall|i: int| 0 <= i < docs.len() ==> next_link(#[trigger] docs[i]) is Some,
        has_room(p, replies.len()),
    ensures
        run(WalkModel::Page { url, so_far: p }, replies) == (WalkModel::Page {
            url: if docs.len() == 0 {
                url
            } else {
                next_link(docs.last()).unwrap()
            },
            so_far: Progress {
                items: p.items + all_items(docs),
                pages: p.pages + replies.len(),
                cursor: cursor_after(p.cursor, docs),
                max_pages: p.max_pages,
                headers: p.headers,
            },
        }),
    decreases replies.len(),
{
    let w = WalkModel::Page { url, so_far: p };
    if replies.len() == 0 {
        assert(p.items + all_items(docs) =~= p.items);
    } else {
        assert(is_page(replies[0], docs[0]));
        assert(next_link(docs[0]) is Some);
        let found = page_items(docs[0]).unwrap();
        let link = next_link(docs[0]).unwrap();
        let next = step_model(w, replies[0]);
        let q = next->so_far;
        assert(next == WalkModel::Page { url: link, so_far: q });
        let rest = replies.skip(1);
        let rest_docs = docs.skip(1);
        assert forall|i: int| 0 <= i < rest.len() implies is_page(
            #[trigger] rest[i],
            rest_docs[i],
        ) by {
            assert(rest[i] == replies[i + 1]);
            assert(rest_docs[i] == docs[i + 1]);
            assert(is_page(replies[i + 1], docs[i + 1]));
        }
        assert forall|i: int| 0 <= i < rest_docs.len() implies next_link(
            #[trigger] rest_docs[i],
        ) is Some by {
            assert(rest_docs[i] == docs[i + 1]);
        }
        lemma_linked_pages(link, q, rest, rest_docs);
        assert(q.items + all_items(rest_docs) =~= p.items + all_items(docs));
        if rest_docs.len() > 0 {
            assert(rest_docs.last() == docs.last());
        }
    }
}

/// Running a walk over two runs of replies, one after the other, is running
/// it over the first and then over the second.
pub proof fn lemma_run_in_two(w: WalkModel, first: Seq<ReplyModel>, second: Seq<ReplyModel>)
    ensures
        run(w, first + second) == run(run(w, first), second),
    decreases first.len(),
{
    if first.len() == 0 {
        assert(first + second =~= second);
    } else {
        assert((first + second)[0] == first[0]);
        assert((first + second).skip(1) =~= first.skip(1) + second);
        lemma_run_in_two(step_model(w, first[0]), first.skip(1), second);
    }
}

/// A walk without a cap over a collection that ends gathers all of it: where
/// every page but the last links to the next and the last links to none, the
/// result holds the items of all pages in order, counts the pages, and
/// reports no cursor.
pub proof fn lemma_walk_gathers_all(
    url: Seq<char>,
    p: Progress,
    replies: Seq<ReplyModel>,
    docs: Seq<Json>,
)
    requires
        replies.len() == docs.len(),
        replies.len() >= 1,
        forall|i: int| 0 <= i < replies.len() ==> is_page(#[trigger] replies[i], docs[i]),
        forall|i: int| 0 <= i < docs.len() - 1 ==> next_link(#[trigger] docs[i]) is Some,
        next_link(docs.last()) is None,
        has_room(p, replies.len()),
    ensures
        run(WalkModel::Page { url, so_far: p }, replies) == completed(
            p.items + all_items(docs),
            p.pages + replies.len(),
            Stop::Exhausted,
        ),
{
    let w = WalkModel::Page { url, so_far: p };
    let front = replies.drop_last();
    let front_docs = docs.drop_last();
    assert forall|i: int| 0 <= i < front.len() implies is_page(
        #[trigger] front[i],
        front_docs[i],
    ) by {
        assert(front[i] == replies[i]);
        assert(front_docs[i] == docs[i]);
        assert(is_page(replies[i], docs[i]));
    }
    assert forall|i: int| 0 <= i < front_docs.len() implies next_link(
        #[trigger] front_docs[i],
    ) is Some by {
        assert(front_docs[i] == docs[i]);
    }
    lemma_linked_pages(url, p, front, front_docs);
    let before = run(w, front);
    let q = before->so_far;
    assert(replies =~= front + seq![replies.last()]);
    lemma_run_in_two(w, front, seq![replies.last()]);
    assert(is_page(replies.last(), docs.last()));
    let last = seq![replies.last()];
    assert(last.skip(1) =~= Seq::<ReplyModel>::empty());
    assert(run(before, last) == step_model(before, replies.last())) by {
        assert(last[0] == replies.last());
        assert(run(step_model(before, last[0]), last.skip(1)) == step_model(before, last[0]));
    }
    lemma_all_items_end(docs);
    assert(q.items + page_items(docs.last()).unwrap() =~= p.items + all_items(docs));
}

/// The items of a run of pages are those of all but the last, then those of
/// the last.
proof fn lemma_all_items_end(docs: Seq<Json>)
    requires
        docs.len() >= 1,
    ensures
        all_items(docs) == all_items(docs.drop_last()) + page_items(docs.last()).unwrap(),
    decreases docs.len(),
{
    if docs.len() == 1 {
        assert(docs.skip(1) =~= Seq::<Json>::empty());
        assert(docs.drop_last() =~= Seq::<Json>::empty());
        assert(all_items(docs) =~= all_items(docs.drop_last()) + page_items(
            docs.last(),
        ).unwrap());
    } else {
        lemma_all_items_end(docs.skip(1));
        assert(docs.skip(1).drop_last() =~= docs.drop_last().skip(1));
        assert(docs.skip(1).last() == docs.last());
        assert(docs.drop_last()[0] == docs[0]);
        assert(all_items(docs) =~= all_items(docs.drop_last()) + page_items(
            docs.last(),
        ).unwrap());
    }
}

/// A refusal after at least one page is no failure of the walk: where pages
/// that link on are followed by an unsuccessful answer, the result holds the
/// items of those pages, is marked as cut short by an expired token, and
/// reports the cursor of the last link that carried one.
pub proof fn lemma_refusal_keeps_pages(
    url: Seq<char>,
    p: Progress,
    replies: Seq<ReplyModel>,
    docs: Seq<Json>,
    refusal: ReplyModel,
)
    requires
        replies.len() == docs.len(),
        forall|i: int| 0 <= i < replies.len() ==> is_page(#[trigger] replies[i], docs[i]),
        forall|i: int| 0 <= i < docs.len() ==> next_link(#[trigger] docs[i]) is Some,
        has_room(p, replies.len()),
        p.pages + replies.len() > 0,
        refusal matches ReplyModel::Http { status, body } && !is_success(status),
    ensures
        run(WalkModel::Page { url, so_far: p }, replies.push(refusal)) == WalkModel::Done(
            Ok(
                FetchModel {
                    items: p.items + all_items(docs),
                    pages: p.pages + replies.len(),
                    stop: Stop::TokenExpired,
                    resume: cursor_after(p.cursor, docs),
                },
            ),
        ),
{
    let w = WalkModel::Page { url, so_far: p };
    lemma_linked_pages(url, p, replies, docs);
    let before = run(w, replies);
    let last = seq![refusal];
    assert(replies.push(refusal) =~= replies + last);
    lemma_run_in_two(w, replies, last);
    assert(last.skip(1) =~= Seq::<ReplyModel>::empty());
    assert(run(before, last) == step_model(before, refusal)) by {
        assert(last[0] == refusal);
        assert(run(step_model(before, last[0]), last.skip(1)) == step_model(before, last[0]));
    }
}

/// The number that the body of a count answer stands for: the body is one
/// unsigned decimal numeral and nothing else.
pub open spec fn count_of(body: Seq<char>) -> Result<usize, ApiError> {
    match numeral_value(body, usize::MAX as nat) {
        Some(n) => Ok(n as usize),
        None => Err(ApiError::MalformedBody),
    }
}

/// Reads the body of a count answer.
pub fn users_count(body: &str) -> (r: Result<usize, ApiError>)
    ensures
        r == count_of(body@),
{
    match parse_usize(body) {
        Some(n) => Ok(n),
        None => Err(ApiError::MalformedBody),
    }
}

/// The query parameters that a caller passed, none where it passed `None`.
pub open spec fn given(params: Option<Vec<(String, String)>>) -> Seq<(Seq<char>, Seq<char>)> {
    match params {
        Some(p) => p.deep_view(),
        None => seq![],
    }
}

/// The query parameters that a caller passed, none where it passed `None`.
pub fn or_empty(params: Option<Vec<(String, String)>>) -> (r: Vec<(String, String)>)
    ensures
        r.deep_view() == given(params),
{
    match params {
        Some(p) => p,
        None => {
            let r: Vec<(String, String)> = Vec::new();
            proof {
                assert(r.deep_view() =~= given(params));
            }
            r
        },
    }
}

/// The headers of a count request: the bearer token, and the consistency
/// level that the API demands for counting.
pub open spec fn count_headers(token: Seq<char>) -> Seq<(Seq<char>, Seq<char>)> {
    seq![bearer(token), ("ConsistencyLevel"@, "eventual"@)]
}

/// The call that counts the users, for a client at `base` with `token`,
/// where `url` is the URL of the count.
pub open spec fn count_call(base: Seq<char>, token: Seq<char>, url: Option<Seq<char>>) -> Result<
    CallModel,
    ApiError,
> {
    match url {
        Some(url) => Ok(
            CallModel::Probe {
                probe: probe_of(base, token),
                request: RequestModel { url, headers: count_headers(token) },
            },
        ),
        None => Err(ApiError::InvalidUrl),
    }
}

/// The walk over the users, for a client at `base` with `token`, where
/// `url` is the URL of the first page.
pub open spec fn users_walk(
    base: Seq<char>,
    token: Seq<char>,
    url: Option<Seq<char>>,
    pages: u16,
) -> Result<WalkModel, ApiError> {
    match url {
        Some(url) => Ok(start_model(probe_of(base, token), url, pages)),
        None => Err(ApiError::InvalidUrl),
    }
}

/// The users of the tenant, as every version of the API client offers them.
pub trait UsersApi: ApiClient {
    /// The URL of the count for the query parameters `params`; `None` where
    /// none can be built.
    spec fn users_count_url(&self, params: Seq<(Seq<char>, Seq<char>)>) -> Option<Seq<char>>;

    /// The URL of the first page of users for the query parameters `params`;
    /// `None` where none can be built.
    spec fn users_url(&self, params: Seq<(Seq<char>, Seq<char>)>) -> Option<Seq<char>>;

    /// The call that counts the users of the tenant. Its body is read by
    /// `users_count`.
    fn get_users_count(&self, params: Option<Vec<(String, String)>>) -> (r: Result<
        GatedCall,
        ApiError,
    >)
        ensures
            match r {
                Ok(call) => count_call(
                    self.base_path(),
                    self.token(),
                    self.users_count_url(given(params)),
                ) == Ok::<CallModel, ApiError>(call@),
                Err(e) => count_call(
                    self.base_path(),
                    self.token(),
                    self.users_count_url(given(params)),
                ) == Err::<CallModel, ApiError>(e),
            },
    ;

    /// The walk over the users of the tenant, at most `pages` pages of them
    /// (0 for all).
    fn get_users(&self, params: Option<Vec<(String, String)>>, pages: u16) -> (r: Result<
        UsersWalk,
        ApiError,
    >)
        ensures
            match r {
                Ok(walk) => users_walk(
                    self.base_path(),
                    self.token(),
                    self.users_url(given(params)),
                    pages,
                ) == Ok::<WalkModel, ApiError>(walk@),
                Err(e) => users_walk(
                    self.base_path(),
                    self.token(),
                    self.users_url(given(params)),
                    pages,
                ) == Err::<WalkModel, ApiError>(e),
            },
    ;
}

} // verus!
