use vstd::prelude::*;
use crate::errors::{ResponseError, WsError};
use crate::chat::{answers_page, keys_ascending, lemma_paged_reading_reads_history_once, next_cursor, page_cursor, is_paged_reading};
use crate::item::opt_text;
use crate::types::ChatMessageRecord;

verus! {

/// The page size used when a history request names none.
pub open spec fn default_page_size() -> i32 {
    20
}

/// Where a chat-history page request stands.
#[derive(Debug, Clone, PartialEq, Eq)]
pub enum HistoryStage {
    /// The requesting user's membership is being checked.
    CheckingMembership,
    /// The page is being read.
    Fetching,
    /// The reply has been given.
    Done,
}

/// The outcome of an operation that the history request asked for.
#[derive(Debug, PartialEq, Eq)]
pub enum HistoryEvent {
    /// The membership check ran.
    MembershipChecked(Result<(), WsError>),
    /// The page was read: its messages and the cursor of the next page.
    PageFetched(Result<(Vec<ChatMessageRecord>, Option<String>), WsError>),
}

/// A page of a group's chat history as the endpoint returns it.
#[derive(Debug, Clone, PartialEq, Eq)]
pub struct HistoryPage {
    pub status: u16,
    pub group_id: String,
    pub messages: Vec<ChatMessageRecord>,
    pub next_cursor: Option<String>,
}

/// An operation that the history request asks for, or its reply.
#[derive(Debug, PartialEq, Eq)]
pub enum HistoryAction {
    /// Check that this user is an active member of this group.
    CheckMembership { group_id: String, user_id: String },
    /// Read a page of this group's history after this cursor, of this size.
    FetchPage { group_id: String, cursor: Option<String>, limit: Option<i32> },
    /// The reply.
    Finish(Result<HistoryPage, ResponseError>),
}

/// The chat-history endpoint: a member of the group gets a page of the
/// group's messages (20 unless the request names a size) with the cursor of
/// the next page; any failure is answered as a bad request.
#[derive(Debug, Clone, PartialEq, Eq)]
pub struct HistoryFlow {
    pub group_id: String,
    pub cursor: Option<String>,
    pub limit: i32,
    pub stage: HistoryStage,
}

impl HistoryFlow {
    /// The event fits the stage the request is in.
    pub open spec fn expects(&self, event: HistoryEvent) -> bool {
        match self.stage {
            HistoryStage::CheckingMembership => event is MembershipChecked,
            HistoryStage::Fetching => event is PageFetched,
            HistoryStage::Done => false,
        }
    }

    /// Starts the request of `user_id` for a page of `group_id`'s history
    /// after `cursor`: the user's membership is checked first.
    pub fn start(user_id: String, group_id: String, cursor: Option<String>, limit: Option<i32>) -> (r: (
        HistoryFlow,
        HistoryAction,
    ))
        ensures
            r.0.group_id == group_id,
            r.0.cursor == cursor,
            r.0.limit == match limit {
                Some(l) => l,
                None => default_page_size(),
            },
            r.0.stage == HistoryStage::CheckingMembership,
            r.1 == (HistoryAction::CheckMembership { group_id, user_id }),
    {
        let size = match limit {
            Some(l) => l,
            None => 20,
        };
        let action = HistoryAction::CheckMembership { group_id: group_id.clone(), user_id };
        (HistoryFlow { group_id, cursor, limit: size, stage: HistoryStage::CheckingMembership }, action)
    }

    /// Whether the event fits the stage the request is in.
    pub fn accepts(&self, event: &HistoryEvent) -> (r: bool)
        ensures
            r == self.expects(*event),
    {
        match &self.stage {
            HistoryStage::CheckingMembership => matches!(event, HistoryEvent::MembershipChecked(_)),
            HistoryStage::Fetching => matches!(event, HistoryEvent::PageFetched(_)),
            HistoryStage::Done => false,
        }
    }

    /// What one step does: from this request, on `event`, the request
    /// becomes `next` and asks for `action`.
    pub open spec fn step_taken(&self, event: HistoryEvent, next: HistoryFlow, action: HistoryAction) -> bool {
        &&& next.group_id == self.group_id
        &&& match event {
            HistoryEvent::MembershipChecked(Err(e)) => {
                &&& next.stage == HistoryStage::Done
                &&& action == HistoryAction::Finish(Err(ResponseError::BadRequest(e)))
            },
            HistoryEvent::MembershipChecked(Ok(())) => {
                &&& next.stage == HistoryStage::Fetching
                &&& action == HistoryAction::FetchPage {
                    group_id: self.group_id,
                    cursor: self.cursor,
                    limit: Some(self.limit),
                }
            },
            HistoryEvent::PageFetched(Err(e)) => {
                &&& next.stage == HistoryStage::Done
                &&& action == HistoryAction::Finish(Err(ResponseError::BadRequest(e)))
            },
            HistoryEvent::PageFetched(Ok((messages, next_cursor))) => {
                &&& next.stage == HistoryStage::Done
                &&& action == HistoryAction::Finish(
                    Ok(HistoryPage { status: 200, group_id: self.group_id, messages, next_cursor }),
                )
            },
        }
    }

    /// Takes the outcome of the last operation and gives the next one.
    pub fn step(&mut self, event: HistoryEvent) -> (action: HistoryAction)
        requires
            old(self).expects(event),
        ensures
            (action is Finish) == (final(self).stage == HistoryStage::Done),
            old(self).step_taken(event, *final(self), action),
    {
        match event {
            HistoryEvent::MembershipChecked(Err(e)) => {
                self.stage = HistoryStage::Done;
                HistoryAction::Finish(Err(ResponseError::BadRequest(e)))
            },
            HistoryEvent::MembershipChecked(Ok(())) => {
                self.stage = HistoryStage::Fetching;
                HistoryAction::FetchPage {
                    group_id: self.group_id.clone(),
                    cursor: match &self.cursor {
                        Some(c) => Some(c.clone()),
                        None => None,
                    },
                    limit: Some(self.limit),
                }
            },
            HistoryEvent::PageFetched(Err(e)) => {
                self.stage = HistoryStage::Done;
                HistoryAction::Finish(Err(ResponseError::BadRequest(e)))
            },
            HistoryEvent::PageFetched(Ok((messages, next_cursor))) => {
                self.stage = HistoryStage::Done;
                HistoryAction::Finish(
                    Ok(HistoryPage { status: 200, group_id: self.group_id.clone(), messages, next_cursor }),
                )
            },
        }
    }
}

/// An admitted request is answered with the page the store read, whatever
/// the request's cursor: the page is read with the request's own group,
/// cursor and size, and the reply holds exactly the fetched messages and the
/// fetched next cursor, with status 200.
pub proof fn lemma_admitted_request_returns_fetched_page(
    start: HistoryFlow,
    checked: HistoryFlow,
    done: HistoryFlow,
    fetch: HistoryAction,
    reply: HistoryAction,
    messages: Vec<ChatMessageRecord>,
    fetched_cursor: Option<String>,
)
    requires
        start.stage == HistoryStage::CheckingMembership,
        start.step_taken(HistoryEvent::MembershipChecked(Ok(())), checked, fetch),
        checked.step_taken(HistoryEvent::PageFetched(Ok((messages, fetched_cursor))), done, reply),
    ensures
        fetch == (HistoryAction::FetchPage {
            group_id: start.group_id,
            cursor: start.cursor,
            limit: Some(start.limit),
        }),
        reply matches HistoryAction::Finish(Ok(page)) && page.status == 200 && page.group_id == start.group_id
            && page.messages == messages && page.next_cursor == fetched_cursor,
{
}

/// Reading a group's history through the endpoint, page after page, from no
/// cursor and on with the cursor of each reply until a reply gives none,
/// returns every message of the group exactly once, oldest first, provided
/// each page read holds what its query selects (the messages after the
/// cursor asked for, in key order, at most the size asked for) and its next
/// cursor is the one `next_page_cursor` gives for it.
pub proof fn lemma_endpoint_pages_read_history_once(
    all: Seq<ChatMessageRecord>,
    limit: i32,
    starts: Seq<HistoryFlow>,
    checks: Seq<HistoryFlow>,
    dones: Seq<HistoryFlow>,
    fetches: Seq<HistoryAction>,
    fetched: Seq<Vec<ChatMessageRecord>>,
    fetched_cursors: Seq<Option<String>>,
    mores: Seq<bool>,
    replies: Seq<HistoryPage>,
)
    requires
        keys_ascending(all),
        limit >= 1,
        replies.len() >= 1,
        starts.len() == replies.len() && checks.len() == replies.len() && dones.len() == replies.len(),
        fetches.len() == replies.len() && fetched.len() == replies.len(),
        fetched_cursors.len() == replies.len() && mores.len() == replies.len(),
        forall|k: int|
            0 <= k < replies.len() ==> {
                &&& (#[trigger] starts[k]).stage == HistoryStage::CheckingMembership
                &&& starts[k].limit == limit
                &&& opt_text(starts[k].cursor) == if k == 0 {
                    None
                } else {
                    opt_text(replies[k - 1].next_cursor)
                }
                &&& starts[k].step_taken(HistoryEvent::MembershipChecked(Ok(())), checks[k], fetches[k])
                &&& checks[k].step_taken(
                    HistoryEvent::PageFetched(Ok((fetched[k], fetched_cursors[k]))),
                    dones[k],
                    HistoryAction::Finish(Ok(replies[k])),
                )
                &&& fetches[k] matches HistoryAction::FetchPage { cursor, limit: Some(size), .. }
                    && answers_page(all, opt_text(cursor), size as int, fetched[k]@, mores[k])
                &&& opt_text(fetched_cursors[k]) == next_cursor(fetched[k]@, mores[k])
            },
        forall|k: int| 0 <= k < replies.len() - 1 ==> (#[trigger] replies[k]).next_cursor is Some,
        replies.last().next_cursor is None,
    ensures
        replies.map_values(|p: HistoryPage| p.messages@).flatten() == all,
{
    let n = replies.len() as int;
    let pages = fetched.map_values(|v: Vec<ChatMessageRecord>| v@);
    assert forall|k: int| 0 <= k < n implies #[trigger] replies[k].messages == fetched[k]
        && replies[k].next_cursor == fetched_cursors[k] && fetches[k] == (HistoryAction::FetchPage {
            group_id: starts[k].group_id,
            cursor: starts[k].cursor,
            limit: Some(limit),
        }) by {
        assert(starts[k].stage == HistoryStage::CheckingMembership);
        lemma_admitted_request_returns_fetched_page(
            starts[k],
            checks[k],
            dones[k],
            fetches[k],
            HistoryAction::Finish(Ok(replies[k])),
            fetched[k],
            fetched_cursors[k],
        );
    }
    assert forall|k: int| 0 <= k < n implies #[trigger] answers_page(
        all,
        page_cursor(pages, mores, k),
        limit as int,
        pages[k],
        mores[k],
    ) by {
        assert(starts[k].stage == HistoryStage::CheckingMembership);
        assert(replies[k].messages == fetched[k]);
        if k > 0 {
            assert(replies[k - 1].messages == fetched[k - 1]);
            assert(page_cursor(pages, mores, k) == next_cursor(fetched[k - 1]@, mores[k - 1]));
        }
    }
    assert forall|k: int| 0 <= k < n - 1 implies #[trigger] next_cursor(pages[k], mores[k]) is Some by {
        assert(replies[k].messages == fetched[k]);
        assert(replies[k].next_cursor is Some);
    }
    assert(replies[n - 1].messages == fetched[n - 1]);
    assert(is_paged_reading(all, limit as int, pages, mores));
    lemma_paged_reading_reads_history_once(all, limit as int, pages, mores);
    assert(replies.map_values(|p: HistoryPage| p.messages@) =~= pages);
}

} // verus!
