//! The feed crawl as a state machine: from the state and what the remote
//! service answered to the next state and what to do next. The caller sends
//! the requests and hands the answers back.

use vstd::prelude::*;
use crate::client::{CandfansClient, GetUserSuccessData, PostData, Request, RequestView};
use crate::error::Error;
use crate::pages::{limit_view, pages_to_fetch, spec_pages_to_fetch};

verus! {

/// Where a crawl stands.
#[derive(Debug, Clone, Copy, PartialEq, Eq, Structural)]
pub enum Phase {
    /// The account is not resolved yet.
    Resolving,
    /// The account is resolved and pages are being fetched.
    Paging,
    /// The crawl has ended, with entries or with an error.
    Finished,
}

/// What the remote service answered to the last request.
#[derive(Debug, PartialEq)]
pub enum Event {
    /// The account was resolved.
    User(GetUserSuccessData),
    /// A feed page arrived, with its entries.
    Page(Vec<PostData>),
    /// The request failed.
    Failure(Error),
}

/// What the caller is to do next.
#[derive(Debug, PartialEq)]
pub enum Action {
    /// Send this request and hand back its answer.
    Send(Request),
    /// The crawl is complete: these are its entries, in fetch order.
    Finish(Vec<PostData>),
    /// The crawl is aborted with this error; no entries are returned.
    Abort(Error),
}

/// An event as mathematical data.
pub enum EventView {
    User { id: nat, post_cnt: nat },
    Page(Seq<PostData>),
    Failure(Error),
}

/// An action as mathematical data.
pub enum ActionView {
    Send(RequestView),
    Finish(Seq<PostData>),
    Abort(Error),
}

impl View for Event {
    type V = EventView;

    open spec fn view(&self) -> EventView {
        match self {
            Event::User(data) => EventView::User {
                id: data.user.id as nat,
                post_cnt: data.user.post_cnt as nat,
            },
            Event::Page(entries) => EventView::Page(entries@),
            Event::Failure(error) => EventView::Failure(*error),
        }
    }
}

impl View for Action {
    type V = ActionView;

    open spec fn view(&self) -> ActionView {
        match self {
            Action::Send(request) => ActionView::Send(request@),
            Action::Finish(entries) => ActionView::Finish(entries@),
            Action::Abort(error) => ActionView::Abort(*error),
        }
    }
}

/// A crawl as mathematical data.
pub struct CrawlView {
    pub client: CandfansClient,
    pub target: Seq<char>,
    pub offset: nat,
    pub page_limit: Option<nat>,
    pub phase: Phase,
    pub user_id: nat,
    pub pages: nat,
    pub fetched: nat,
    pub posts: Seq<PostData>,
}

/// The crawl of one account's feed.
pub struct Crawl {
    client: CandfansClient,
    target: String,
    offset: usize,
    page_limit: Option<usize>,
    phase: Phase,
    user_id: usize,
    pages: usize,
    fetched: usize,
    posts: Vec<PostData>,
}

impl View for Crawl {
    type V = CrawlView;

    closed spec fn view(&self) -> CrawlView {
        CrawlView {
            client: self.client,
            target: self.target@,
            offset: self.offset as nat,
            page_limit: limit_view(self.page_limit),
            phase: self.phase,
            user_id: self.user_id as nat,
            pages: self.pages as nat,
            fetched: self.fetched as nat,
            posts: self.posts@,
        }
    }
}

/// The state in which a crawl begins.
pub open spec fn spec_initial(
    client: CandfansClient,
    target: Seq<char>,
    offset: nat,
    page_limit: Option<nat>,
) -> CrawlView {
    CrawlView {
        client,
        target,
        offset,
        page_limit,
        phase: Phase::Resolving,
        user_id: 0,
        pages: 0,
        fetched: 0,
        posts: Seq::empty(),
    }
}

/// What holds of every state of a crawl: entries are held only while pages
/// are being fetched, and then a page is still owed and every page index
/// is a machine integer.
pub open spec fn spec_wf(s: CrawlView) -> bool {
    &&& s.offset <= usize::MAX
    &&& s.phase == Phase::Paging ==> s.fetched < s.pages && s.offset + s.pages <= usize::MAX
        && s.user_id <= usize::MAX
    &&& s.phase != Phase::Paging ==> s.posts.len() == 0
}

/// The events that state `s` can take: a failure until the crawl has ended,
/// the account while resolving, a page while paging. The last page index
/// must be a machine integer.
pub open spec fn spec_accepts(s: CrawlView, e: EventView) -> bool {
    match e {
        EventView::Failure(_) => s.phase != Phase::Finished,
        EventView::User { id, post_cnt } => s.phase == Phase::Resolving && s.offset
            + spec_pages_to_fetch(post_cnt, s.page_limit) <= usize::MAX,
        EventView::Page(_) => s.phase == Phase::Paging,
    }
}

/// The next state and the action, for state `s` and event `e`.
pub open spec fn spec_step(s: CrawlView, e: EventView) -> (CrawlView, ActionView) {
    match e {
        EventView::Failure(error) => (
            CrawlView { phase: Phase::Finished, posts: Seq::empty(), ..s },
            ActionView::Abort(error),
        ),
        EventView::User { id, post_cnt } => {
            let pages = spec_pages_to_fetch(post_cnt, s.page_limit);
            let next = CrawlView { user_id: id, pages, fetched: 0, posts: Seq::empty(), ..s };
            if pages == 0 {
                (CrawlView { phase: Phase::Finished, ..next }, ActionView::Finish(Seq::empty()))
            } else {
                (
                    CrawlView { phase: Phase::Paging, ..next },
                    ActionView::Send(s.client.spec_get_post(id, s.offset)),
                )
            }
        },
        EventView::Page(entries) => {
            let all = s.posts + entries;
            let fetched = s.fetched + 1;
            if fetched < s.pages {
                (
                    CrawlView { fetched, posts: all, ..s },
                    ActionView::Send(s.client.spec_get_post(s.user_id, s.offset + fetched)),
                )
            } else {
                (
                    CrawlView { phase: Phase::Finished, fetched, posts: Seq::empty(), ..s },
                    ActionView::Finish(all),
                )
            }
        },
    }
}

impl Event {
    /// The event that the answer to the account request stands for.
    pub fn of_user(answer: Result<GetUserSuccessData, Error>) -> (event: Event)
        ensures
            event == match answer {
                Ok(data) => Event::User(data),
                Err(error) => Event::Failure(error),
            },
    {
        match answer {
            Ok(data) => Event::User(data),
            Err(error) => Event::Failure(error),
        }
    }

    /// The event that the answer to a page request stands for.
    pub fn of_page(answer: Result<Vec<PostData>, Error>) -> (event: Event)
        ensures
            event == match answer {
                Ok(entries) => Event::Page(entries),
                Err(error) => Event::Failure(error),
            },
    {
        match answer {
            Ok(entries) => Event::Page(entries),
            Err(error) => Event::Failure(error),
        }
    }
}

impl Crawl {
    /// A crawl of the feed of `target`, from page `offset` on, over at most
    /// `page_limit` pages where a limit is given.
    pub fn new(client: CandfansClient, target: String, offset: usize, page_limit: Option<usize>) -> (crawl:
        Crawl)
        ensures
            crawl@ == spec_initial(client, target@, offset as nat, limit_view(page_limit)),
            spec_wf(crawl@),
    {
        Crawl {
            client,
            target,
            offset,
            page_limit,
            phase: Phase::Resolving,
            user_id: 0,
            pages: 0,
            fetched: 0,
            posts: Vec::new(),
        }
    }

    /// The first request of the crawl: the one that resolves the account.
    pub fn start(&self) -> (request: Request)
        ensures
            request@ == self@.client.spec_get_user(self@.target),
    {
        self.client.get_user(self.target.as_str())
    }

    /// Where the crawl stands.
    pub fn phase(&self) -> (phase: Phase)
        ensures
            phase == self@.phase,
    {
        self.phase
    }

    /// Whether the crawl can take `event` in its present state.
    pub fn accepts(&self, event: &Event) -> (yes: bool)
        ensures
            yes == spec_accepts(self@, event@),
    {
        match event {
            Event::Failure(_) => match self.phase {
                Phase::Finished => false,
                _ => true,
            },
            Event::User(data) => match self.phase {
                Phase::Resolving => {
                    let pages: usize = pages_to_fetch(data.user.post_cnt, self.page_limit);
                    pages <= usize::MAX - self.offset
                },
                _ => false,
            },
            Event::Page(_) => match self.phase {
                Phase::Paging => true,
                _ => false,
            },
        }
    }

    /// Takes the answer to the last request and says what to do next. The
    /// account's answer fixes the number of pages; each page is added to the
    /// entries and the next one is asked for, until the last page ends the
    /// crawl with all entries. A failure ends it at once, without entries.
    pub fn step(&mut self, event: Event) -> (action: Action)
        requires
            spec_wf(old(self)@),
            spec_accepts(old(self)@, event@),
        ensures
            spec_wf(final(self)@),
            (final(self)@, action@) == spec_step(old(self)@, event@),
    {
        match event {
            Event::Failure(error) => {
                self.phase = Phase::Finished;
                self.posts = Vec::new();
                Action::Abort(error)
            },
            Event::User(data) => {
                self.user_id = data.user.id;
                self.pages = pages_to_fetch(data.user.post_cnt, self.page_limit);
                self.fetched = 0;
                self.posts = Vec::new();
                if self.pages == 0 {
                    self.phase = Phase::Finished;
                    Action::Finish(Vec::new())
                } else {
                    self.phase = Phase::Paging;
                    Action::Send(self.client.get_post(self.user_id, self.offset))
                }
            },
            Event::Page(entries) => {
                let mut entries = entries;
                self.posts.append(&mut entries);
                self.fetched = self.fetched + 1;
                if self.fetched < self.pages {
                    Action::Send(self.client.get_post(self.user_id, self.offset + self.fetched))
                } else {
                    self.phase = Phase::Finished;
                    let mut all: Vec<PostData> = Vec::new();
                    std::mem::swap(&mut self.posts, &mut all);
                    Action::Finish(all)
                }
            },
        }
    }
}

/// The state after the pages `batches` have arrived in state `s`, one after
/// another.
pub open spec fn spec_after_pages(s: CrawlView, batches: Seq<Seq<PostData>>) -> CrawlView
    decreases batches.len(),
{
    if batches.len() == 0 {
        s
    } else {
        spec_step(spec_after_pages(s, batches.drop_last()), EventView::Page(batches.last())).0
    }
}

/// While fewer pages have arrived than are to be fetched, the crawl is
/// still paging, has counted the pages, and holds their entries in the
/// order of arrival; nothing else has changed.
pub proof fn lemma_after_pages(s: CrawlView, batches: Seq<Seq<PostData>>)
    requires
        s.phase == Phase::Paging,
        s.fetched == 0,
        s.posts.len() == 0,
        batches.len() < s.pages,
    ensures
        spec_after_pages(s, batches) == (CrawlView {
            fetched: batches.len(),
            posts: batches.flatten(),
            ..s
        }),
    decreases batches.len(),
{
    if batches.len() == 0 {
        assert(batches.flatten() =~= s.posts);
    } else {
        let front = batches.drop_last();
        lemma_after_pages(s, front);
        front.lemma_flatten_push(batches.last());
        assert(batches =~= front.push(batches.last()));
    }
}

/// The pages of a crawl are asked for in order and without gaps: once the
/// account is resolved the first request is for page `offset`; after the
/// k-th page has arrived the next request is for page `offset + k`; and the
/// page that completes the count ends the crawl with the entries of all
/// pages, in the order of arrival.
pub proof fn lemma_pages_in_order(s: CrawlView, batches: Seq<Seq<PostData>>)
    requires
        s.phase == Phase::Paging,
        s.fetched == 0,
        s.posts.len() == 0,
        0 < batches.len() <= s.pages,
    ensures
        ({
            let before = spec_after_pages(s, batches.drop_last());
            let (after, action) = spec_step(before, EventView::Page(batches.last()));
            &&& spec_accepts(before, EventView::Page(batches.last()))
            &&& after == spec_after_pages(s, batches)
            &&& batches.len() < s.pages ==> action == ActionView::Send(
                s.client.spec_get_post(s.user_id, s.offset + batches.len()),
            )
            &&& batches.len() == s.pages ==> action == ActionView::Finish(batches.flatten())
                && after.phase == Phase::Finished && after.posts.len() == 0
        }),
{
    let front = batches.drop_last();
    lemma_after_pages(s, front);
    front.lemma_flatten_push(batches.last());
    assert(batches =~= front.push(batches.last()));
}

/// Resolving the account fixes the number of pages by the page bound and
/// the caller's limit, and asks for page `offset` first; with a limit of
/// zero pages the crawl ends at once with no entries.
pub proof fn lemma_first_page(s: CrawlView, id: nat, post_cnt: nat)
    requires
        s.phase == Phase::Resolving,
    ensures
        ({
            let (after, action) = spec_step(s, EventView::User { id, post_cnt });
            let pages = spec_pages_to_fetch(post_cnt, s.page_limit);
            &&& after.pages == pages
            &&& after.fetched == 0
            &&& after.posts.len() == 0
            &&& pages > 0 ==> after.phase == Phase::Paging && action == ActionView::Send(
                s.client.spec_get_post(id, s.offset),
            )
            &&& pages == 0 ==> after.phase == Phase::Finished && action == ActionView::Finish(
                Seq::empty(),
            )
        }),
{
}

/// A failure aborts the crawl in whatever phase it arrives: the error is
/// handed on and no entries are kept.
pub proof fn lemma_failure_aborts(s: CrawlView, error: Error)
    ensures
        spec_step(s, EventView::Failure(error)).1 == ActionView::Abort(error),
        spec_step(s, EventView::Failure(error)).0.phase == Phase::Finished,
        spec_step(s, EventView::Failure(error)).0.posts.len() == 0,
{
}

} // verus!
