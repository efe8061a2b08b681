//! The walk through the pages of the link list.

use vstd::prelude::*;
use crate::client::{
    is_success, list_request, request_to, status_is_success, HttpRequest, Method, Reply,
};
use crate::dto::{text_of, Link, ListData};
use crate::host::{no_effects, notice, Effects, EffectsView, Session};
use crate::text::join;

verus! {

/// How far a walk has come.
pub struct WalkState {
    /// The links of the pages read so far, in page order.
    pub links: Seq<Link>,
    /// Where the next page starts.
    pub cursor: Option<Seq<char>>,
    /// Whether the last page has been read.
    pub complete: bool,
}

/// A walk before its first page.
pub open spec fn walk_start() -> WalkState {
    WalkState { links: Seq::empty(), cursor: None, complete: false }
}

/// The walk `state` after one more page.
pub open spec fn after_page(state: WalkState, page: ListData) -> WalkState {
    WalkState {
        links: state.links + page.links@,
        cursor: text_of(page.cursor),
        complete: page.list_complete,
    }
}

/// The walk over the answers `pages` of the backend, taken one after
/// another from the start. Once a page is the last one, no further page is
/// read.
pub open spec fn after_pages(pages: Seq<ListData>) -> WalkState
    decreases pages.len(),
{
    if pages.len() == 0 {
        walk_start()
    } else {
        let before = after_pages(pages.drop_last());
        if before.complete {
            before
        } else {
            after_page(before, pages.last())
        }
    }
}

/// The links of `pages`, one page after the other.
pub open spec fn gathered(pages: Seq<ListData>) -> Seq<Link>
    decreases pages.len(),
{
    if pages.len() == 0 {
        Seq::empty()
    } else {
        gathered(pages.drop_last()) + pages.last().links@
    }
}

/// A walk over pages of which none is the last one has not halted, and
/// holds the links of them all.
pub proof fn lemma_walk_goes_on(pages: Seq<ListData>)
    requires
        forall|i: int| 0 <= i < pages.len() ==> !(#[trigger] pages[i]).list_complete,
    ensures
        !after_pages(pages).complete,
        after_pages(pages).links == gathered(pages),
        pages.len() > 0 ==> after_pages(pages).cursor == text_of(pages.last().cursor),
    decreases pages.len(),
{
    if pages.len() > 0 {
        lemma_walk_goes_on(pages.drop_last());
    }
}

/// A walk that has halted stays as it is, whatever pages follow.
pub proof fn lemma_walk_stays_halted(pages: Seq<ListData>, n: int)
    requires
        0 <= n <= pages.len(),
        after_pages(pages.take(n)).complete,
    ensures
        after_pages(pages) == after_pages(pages.take(n)),
    decreases pages.len() - n,
{
    if n < pages.len() {
        assert(pages.take(n + 1).drop_last() =~= pages.take(n));
        lemma_walk_stays_halted(pages, n + 1);
    } else {
        assert(pages.take(n) =~= pages);
    }
}

/// The list is the links of every page up to the first that is the last
/// one, in page order, and the walk halts exactly there: where page `k` is
/// the first with `list_complete`, the walk has not halted after any `j <= k`
/// pages, has halted after `k + 1`, and holds the links of these `k + 1`
/// pages, whatever pages the backend would give after them.
pub proof fn law_walk_gathers_pages(pages: Seq<ListData>, k: int)
    requires
        0 <= k < pages.len(),
        pages[k].list_complete,
        forall|i: int| 0 <= i < k ==> !(#[trigger] pages[i]).list_complete,
    ensures
        forall|j: int| 0 <= j <= k ==> !(#[trigger] after_pages(pages.take(j))).complete,
        after_pages(pages).complete,
        after_pages(pages).links == gathered(pages.take(k + 1)),
{
    assert forall|j: int| 0 <= j <= k implies !(#[trigger] after_pages(pages.take(j))).complete by {
        lemma_walk_goes_on(pages.take(j));
    }
    let upto = pages.take(k + 1);
    assert(upto.drop_last() =~= pages.take(k));
    lemma_walk_goes_on(pages.take(k));
    lemma_walk_stays_halted(pages, k + 1);
}

/// A walk through the pages of the list that has not reached the last page.
#[derive(Debug, PartialEq, Eq)]
pub struct ListWalk {
    /// The links of the pages read so far, in page order.
    pub links: Vec<Link>,
    /// Where the next page starts; `None` before the first page.
    pub cursor: Option<String>,
}

impl View for ListWalk {
    type V = WalkState;

    open spec fn view(&self) -> WalkState {
        WalkState { links: self.links@, cursor: text_of(self.cursor), complete: false }
    }
}

/// What a walk has come to after a reply.
#[derive(Debug, PartialEq, Eq)]
pub enum ListStep {
    /// The next page is to be asked for.
    Next(ListWalk),
    /// The walk is over: the list, and what the host does.
    Done { links: Vec<Link>, effects: Effects },
}

/// Whether a reply to a list request holds what the client reads from it:
/// a success that decoded carries a page.
pub open spec fn list_has_page(reply: Reply<ListData>) -> bool {
    reply matches Reply::Answered { status, envelope: Ok(envelope) } ==> (is_success(status)
        ==> envelope.data is Some)
}

/// The message for a list request that failed with `error`.
pub open spec fn list_failure(error: Seq<char>) -> EffectsView {
    notice("Failed to fetch the list. Please try again later.\n"@ + error)
}

/// The message for a list request that the backend refused with `msg`.
pub open spec fn list_refusal(msg: Seq<char>) -> EffectsView {
    notice("Failed to fetch the list.\n\nError: "@ + msg)
}

/// The end of a walk without a list: the empty list and a message.
pub open spec fn ends_with(step: ListStep, message: EffectsView) -> bool {
    step matches ListStep::Done { links, effects } && links@ == Seq::<Link>::empty() && effects@
        == message
}

impl ListStep {
    /// Whether this step is what the walk `before` comes to with `reply`.
    /// The page of a success is added to the walk, which is over with the
    /// last page. A refusal by the backend, a body that does not decode and
    /// a request that failed end the walk with the empty list and a message.
    pub open spec fn follows(self, before: WalkState, reply: Reply<ListData>) -> bool {
        match reply {
            Reply::Failed { error } => ends_with(self, list_failure(error@)),
            Reply::Answered { status, envelope: Err(error) } => ends_with(
                self,
                list_failure(error@),
            ),
            Reply::Answered { status, envelope: Ok(envelope) } => if is_success(status) {
                let after = after_page(before, envelope.data->Some_0);
                if after.complete {
                    self matches ListStep::Done { links, effects } && links@ == after.links
                        && effects@ == no_effects()
                } else {
                    self matches ListStep::Next(walk) && walk@ == after
                }
            } else {
                ends_with(self, list_refusal(envelope.msg@))
            },
        }
    }
}

impl ListWalk {
    /// A walk before its first page.
    pub fn start() -> (r: ListWalk)
        ensures
            r@ == walk_start(),
    {
        ListWalk { links: Vec::new(), cursor: None }
    }

    /// The request for the next page.
    pub fn request(&self, session: &Session) -> (r: HttpRequest)
        ensures
            r@ == request_to(Method::Get, session@, "/api/v1/list"@, self@.cursor, None),
    {
        let cursor = match &self.cursor {
            Some(c) => Some(c.clone()),
            None => None,
        };
        list_request(session, cursor)
    }

    /// Takes the reply to the request for the next page into the walk.
    pub fn absorb(self, reply: Reply<ListData>) -> (r: ListStep)
        requires
            list_has_page(reply),
        ensures
            r.follows(self@, reply),
    {
        match reply {
            Reply::Failed { error } => ListWalk::fail(
                "Failed to fetch the list. Please try again later.\n",
                error.as_str(),
            ),
            Reply::Answered { status, envelope: Err(error) } => ListWalk::fail(
                "Failed to fetch the list. Please try again later.\n",
                error.as_str(),
            ),
            Reply::Answered { status, envelope: Ok(envelope) } => {
                if !status_is_success(status) {
                    return ListWalk::fail(
                        "Failed to fetch the list.\n\nError: ",
                        envelope.msg.as_str(),
                    );
                }
                let page = envelope.data.unwrap();
                let mut links = self.links;
                let mut more = page.links;
                links.append(&mut more);
                if page.list_complete {
                    ListStep::Done { links, effects: Effects::none() }
                } else {
                    ListStep::Next(ListWalk { links, cursor: page.cursor })
                }
            },
        }
    }

    /// The end of a walk without a list: the empty list, and `words` and
    /// `detail` as the message.
    fn fail(words: &str, detail: &str) -> (r: ListStep)
        ensures
            ends_with(r, notice(words@ + detail@)),
    {
        ListStep::Done { links: Vec::new(), effects: Effects::notice(join(words, detail)) }
    }
}

} // verus!
