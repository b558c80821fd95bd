use vstd::prelude::*;
use vstd::string::*;
use crate::errors::{ResponseError, WsError};
use crate::notification::{mark_read_expression, read_mark, ReadMark};
use crate::utils::{clock_text, now_rfc3339};

verus! {

/// The reply of the mark-read endpoint on success.
#[derive(Debug, Clone, PartialEq, Eq)]
pub struct MarkReadReply {
    pub status: u16,
    pub message: String,
}

/// Where a mark-read request stands.
#[derive(Debug, Clone, Copy, PartialEq, Eq)]
pub enum MarkReadStage {
    /// The notification at the current index is being marked read.
    Marking,
    /// The reply has been given.
    Done,
}

/// An operation that the mark-read request asks for, or its reply.
#[derive(Debug, PartialEq, Eq)]
pub enum MarkReadAction {
    /// Apply this update.
    Apply(ReadMark),
    /// The reply.
    Finish(Result<MarkReadReply, ResponseError>),
}

/// The mark-read endpoint: the user's notifications are marked read one
/// after the other, all with the same read time; the first failure answers
/// the request as a bad request; otherwise it is answered 201.
#[derive(Debug, Clone, PartialEq, Eq)]
pub struct MarkReadFlow {
    pub user_id: String,
    pub notification_ids: Vec<String>,
    pub read_at: String,
    /// The index of the notification being marked.
    pub current: usize,
    pub stage: MarkReadStage,
}

/// `m` marks `flow`'s user's notification at `index` read at `flow`'s read time.
pub open spec fn marks(flow: MarkReadFlow, index: int, m: ReadMark) -> bool {
    &&& m.user_id@ == flow.user_id@
    &&& m.sort_key@ == flow.notification_ids@[index]@
    &&& m.read_at@ == flow.read_at@
    &&& m.update_expression@ == mark_read_expression()
    &&& m.condition_expression@ == "attribute_exists(sort_key)"@
}

/// The success reply: 201 and a confirmation.
pub open spec fn is_success(r: MarkReadReply) -> bool {
    r.status == 201 && r.message@ == "Notification was marked as read"@
}

impl MarkReadFlow {
    /// While marking, the current index names a notification.
    pub open spec fn wf(&self) -> bool {
        self.stage == MarkReadStage::Marking ==> self.current < self.notification_ids@.len()
    }

    /// The success reply.
    fn success() -> (r: MarkReadReply)
        ensures
            is_success(r),
    {
        MarkReadReply { status: 201, message: String::from_str("Notification was marked as read") }
    }

    /// Starts marking `notification_ids` read for `user_id` at the current
    /// time: the first notification is marked first; with none, the request
    /// succeeds at once.
    pub fn start(user_id: String, notification_ids: Vec<String>) -> (r: (MarkReadFlow, MarkReadAction))
        ensures
            r.0.wf(),
            r.0.user_id == user_id,
            r.0.notification_ids == notification_ids,
            r.0.current == 0,
            exists|first: i128, second: i128| r.0.read_at@ == clock_text(first, second),
            notification_ids@.len() == 0 ==> (r.0.stage == MarkReadStage::Done && (r.1 matches MarkReadAction::Finish(Ok(reply)) && is_success(reply))),
            notification_ids@.len() > 0 ==> (r.0.stage == MarkReadStage::Marking && (r.1 matches MarkReadAction::Apply(m) && marks(r.0, 0, m))),
    {
        let read_at = now_rfc3339();
        if notification_ids.len() == 0 {
            let flow = MarkReadFlow { user_id, notification_ids, read_at, current: 0, stage: MarkReadStage::Done };
            (flow, MarkReadAction::Finish(Ok(Self::success())))
        } else {
            let m = read_mark(user_id.as_str(), notification_ids[0].as_str(), read_at.as_str());
            let flow = MarkReadFlow { user_id, notification_ids, read_at, current: 0, stage: MarkReadStage::Marking };
            (flow, MarkReadAction::Apply(m))
        }
    }

    /// Takes the outcome of the current update and gives the next operation.
    pub fn marked(&mut self, outcome: Result<(), WsError>) -> (action: MarkReadAction)
        requires
            old(self).wf(),
            old(self).stage == MarkReadStage::Marking,
        ensures
            final(self).wf(),
            final(self).user_id == old(self).user_id,
            final(self).notification_ids == old(self).notification_ids,
            final(self).read_at == old(self).read_at,
            (action is Finish) == (final(self).stage == MarkReadStage::Done),
            match outcome {
                Err(e) => action == MarkReadAction::Finish(Err(ResponseError::BadRequest(e))),
                Ok(()) => if old(self).current + 1 < old(self).notification_ids@.len() {
                    &&& final(self).current == old(self).current + 1
                    &&& action matches MarkReadAction::Apply(m)
                    &&& marks(*final(self), final(self).current as int, m)
                } else {
                    action matches MarkReadAction::Finish(Ok(reply)) && is_success(reply)
                },
            },
    {
        match outcome {
            Err(e) => {
                self.stage = MarkReadStage::Done;
                MarkReadAction::Finish(Err(ResponseError::BadRequest(e)))
            },
            Ok(()) => {
                if self.notification_ids.len() - self.current > 1 {
                    self.current = self.current + 1;
                    let m = read_mark(
                        self.user_id.as_str(),
                        self.notification_ids[self.current].as_str(),
                        self.read_at.as_str(),
                    );
                    MarkReadAction::Apply(m)
                } else {
                    self.stage = MarkReadStage::Done;
                    MarkReadAction::Finish(Ok(Self::success()))
                }
            },
        }
    }
}

} // verus!
