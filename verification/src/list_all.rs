//! Listing a whole bucket, page after page, as a state machine.
//!
//! The caller sends the request that the machine asks for and reports the
//! reply. The machine gathers the keys of every page in order and stops
//! when a page comes without a cursor for the next one, or when a request
//! fails.

use crate::error::{StorageError, StorageErrorView};
use crate::s3_client::{list_request, ListRequest, ListRequestView, ListResponse, ListResponseView};
use vstd::prelude::*;

verus! {

/// Where a listing of a whole bucket stands.
#[derive(Debug, Clone, PartialEq, Eq)]
pub enum ListAllState {
    /// Another page is to be fetched, with this cursor; `collected` holds
    /// the keys of the pages so far.
    Fetching { collected: Vec<String>, continuation_token: Option<String> },
    /// The service reported no further page; holds every key.
    Complete(Vec<String>),
    /// A request failed.
    Failed(StorageError),
}

/// Mathematical value of a [`ListAllState`].
pub enum ListAllStateView {
    Fetching { collected: Seq<Seq<char>>, continuation_token: Option<Seq<char>> },
    Complete(Seq<Seq<char>>),
    Failed(StorageErrorView),
}

impl View for ListAllState {
    type V = ListAllStateView;

    open spec fn view(&self) -> ListAllStateView {
        match self {
            ListAllState::Fetching { collected, continuation_token } => ListAllStateView::Fetching {
                collected: collected.deep_view(),
                continuation_token: continuation_token.deep_view(),
            },
            ListAllState::Complete(keys) => ListAllStateView::Complete(keys.deep_view()),
            ListAllState::Failed(e) => ListAllStateView::Failed(e@),
        }
    }
}

/// The state before the first page: nothing collected, no cursor.
pub open spec fn list_all_initial() -> ListAllStateView {
    ListAllStateView::Fetching { collected: Seq::empty(), continuation_token: None }
}

/// The request that `state` asks for, if it asks for one: the next page of
/// `bucket`, of at most `page_size` keys, from the cursor on.
pub open spec fn list_all_wanted(
    bucket: Seq<char>,
    page_size: i64,
    state: ListAllStateView,
) -> Option<ListRequestView> {
    match state {
        ListAllStateView::Fetching { continuation_token, .. } => Some(
            ListRequestView { bucket, max_keys: page_size as int, continuation_token },
        ),
        _ => None,
    }
}

/// The state that follows `state` on the reply to its request. A reply that
/// nothing asked for changes nothing.
pub open spec fn list_all_transition(
    state: ListAllStateView,
    reply: Result<ListResponseView, StorageErrorView>,
) -> ListAllStateView {
    match state {
        ListAllStateView::Fetching { collected, .. } => match reply {
            Ok(page) => match page.continuation_token {
                Some(token) => ListAllStateView::Fetching {
                    collected: collected + page.objects,
                    continuation_token: Some(token),
                },
                None => ListAllStateView::Complete(collected + page.objects),
            },
            Err(e) => ListAllStateView::Failed(e),
        },
        _ => state,
    }
}

/// The state reached from the start after these pages arrived, in their order.
pub open spec fn list_all_after(pages: Seq<ListResponseView>) -> ListAllStateView
    decreases pages.len(),
{
    if pages.len() == 0 {
        list_all_initial()
    } else {
        list_all_transition(list_all_after(pages.drop_last()), Ok(pages.last()))
    }
}

/// The keys of `pages`, page after page.
pub open spec fn keys_of_pages(pages: Seq<ListResponseView>) -> Seq<Seq<char>>
    decreases pages.len(),
{
    if pages.len() == 0 {
        Seq::empty()
    } else {
        keys_of_pages(pages.drop_last()) + pages.last().objects
    }
}

/// Starts a listing of a whole bucket.
pub fn list_all_start() -> (state: ListAllState)
    ensures
        state@ == list_all_initial(),
{
    let collected: Vec<String> = Vec::new();
    assert(collected.deep_view() =~= Seq::<Seq<char>>::empty());
    ListAllState::Fetching { collected, continuation_token: None }
}

/// The request to send next, or `None` when the listing has ended.
pub fn list_all_request(bucket: &str, page_size: i64, state: &ListAllState) -> (request: Option<
    ListRequest,
>)
    ensures
        match request {
            Some(wanted) => list_all_wanted(bucket@, page_size, state@) == Some(wanted@),
            None => list_all_wanted(bucket@, page_size, state@) is None,
        },
{
    match state {
        ListAllState::Fetching { continuation_token, .. } => {
            let cursor = match continuation_token {
                Some(token) => Some(token.clone()),
                None => None,
            };
            Some(list_request(bucket, page_size, cursor))
        },
        _ => None,
    }
}

/// Takes in the reply to the request that `state` asked for.
pub fn list_all_step(state: ListAllState, reply: Result<ListResponse, StorageError>) -> (next:
    ListAllState)
    ensures
        next@ == list_all_transition(
            state@,
            match reply {
                Ok(page) => Ok(page@),
                Err(e) => Err(e@),
            },
        ),
{
    match state {
        ListAllState::Fetching { collected, continuation_token } => match reply {
            Ok(page) => {
                let ListResponse { objects, continuation_token: next_token } = page;
                let ghost before = collected.deep_view();
                let ghost added = objects.deep_view();
                let mut collected = collected;
                let mut objects = objects;
                collected.append(&mut objects);
                assert(collected.deep_view() =~= before + added);
                match next_token {
                    Some(token) => ListAllState::Fetching {
                        collected,
                        continuation_token: Some(token),
                    },
                    None => ListAllState::Complete(collected),
                }
            },
            Err(e) => ListAllState::Failed(e),
        },
        ListAllState::Complete(keys) => ListAllState::Complete(keys),
        ListAllState::Failed(e) => ListAllState::Failed(e),
    }
}

/// Pages are gathered in order until one comes without cursor: as long as
/// every page but the last names a next page, the keys collected are those
/// of all pages, page after page; the listing is complete exactly when the
/// last page names no next page, and asks for the page at its cursor
/// otherwise.
pub proof fn lemma_pages_are_gathered(pages: Seq<ListResponseView>)
    requires
        pages.len() > 0,
        forall|i: int| 0 <= i < pages.len() - 1 ==> (#[trigger] pages[i]).continuation_token is Some,
    ensures
        list_all_after(pages) == match pages.last().continuation_token {
            Some(token) => ListAllStateView::Fetching {
                collected: keys_of_pages(pages),
                continuation_token: Some(token),
            },
            None => ListAllStateView::Complete(keys_of_pages(pages)),
        },
    decreases pages.len(),
{
    let earlier = pages.drop_last();
    if earlier.len() == 0 {
        assert(keys_of_pages(earlier) + pages.last().objects =~= pages.last().objects);
        assert(Seq::<Seq<char>>::empty() + pages.last().objects =~= pages.last().objects);
    } else {
        assert(earlier.last() == pages[pages.len() - 2]);
        lemma_pages_are_gathered(earlier);
    }
}

/// A listing that has ended stays as it is.
pub proof fn lemma_ended_listing_stays(
    state: ListAllStateView,
    reply: Result<ListResponseView, StorageErrorView>,
)
    requires
        state is Complete || state is Failed,
    ensures
        list_all_transition(state, reply) == state,
        forall|bucket: Seq<char>, page_size: i64|
            list_all_wanted(bucket, page_size, state) is None,
{
}

/// A failed request ends the listing with that failure.
pub proof fn lemma_failed_request_ends_listing(
    state: ListAllStateView,
    failure: StorageErrorView,
)
    requires
        state is Fetching,
    ensures
        list_all_transition(state, Err(failure)) == ListAllStateView::Failed(failure),
{
}

} // verus!
