use vstd::prelude::*;
use vstd::string::*;
use crate::connection::WsConnection;
use crate::errors::WsError;
use crate::flows::common::{or_unknown, route_ok, value_or_unknown, RouteEvent};
use crate::flows::gate::{GateAction, GateStage, MembershipGate};
use crate::flows::send::is_error_push;
use crate::flows::subscribe::invalid_body_text;
use crate::types::{ChatMessageRecord, ServerPush};

verus! {

/// What the body of a chat-history request turned out to be.
#[derive(Debug, Clone, PartialEq, Eq)]
pub enum RecapBody {
    /// A request for the history of a group.
    History { group_id: String },
    /// A client message of another kind.
    Other,
    /// Not a client message; the reader's description.
    Unreadable(String),
}

/// Where a WebSocket chat-history request stands.
#[derive(Debug, PartialEq)]
pub enum RecapStage {
    /// The body is being read.
    ReadingBody,
    /// The connection and its user's membership are being checked.
    Checking { group_id: String, gate: MembershipGate },
    /// The time the user was last seen is being read.
    ReadingLastSeen { group_id: String },
    /// The messages since then are being read.
    Fetching { group_id: String },
    /// The last push (the history or an error) is being sent.
    Answering,
    /// The reply has been given.
    Finished,
}

/// The outcome of an operation that the chat-history handler asked for.
#[derive(Debug, PartialEq)]
pub enum RecapEvent {
    BodyRead(RecapBody),
    /// An outcome for the connection-and-membership check.
    Gate(RouteEvent),
    LastSeenRead(Result<Option<String>, WsError>),
    HistoryFetched(Result<Vec<ChatMessageRecord>, WsError>),
    /// A push was attempted; its outcome does not matter.
    Pushed,
}

/// An operation that the chat-history handler asks for.
#[derive(Debug, PartialEq)]
pub enum RecapAction {
    ReadBody,
    GetConnection { connection_id: String },
    CheckMembership { group_id: String, user_id: String },
    GetLastSeen { user_id: String },
    /// Read the group's messages, those at or after `since` where given.
    FetchHistory { group_id: String, since: Option<String> },
    Push { connection_id: String, push: ServerPush },
    /// Push the group's history to the connection.
    PushHistory { connection_id: String, group_id: String, messages: Vec<ChatMessageRecord> },
    Reply { status_code: u16 },
}

/// The WebSocket chat-history handler: a member's connection is sent the
/// group's messages since the user was last seen (all of them when that time
/// is unknown or cannot be read); each failure is pushed as an error. The
/// request itself is always answered 200.
#[derive(Debug, PartialEq)]
pub struct RecapFlow {
    pub connection_id: String,
    pub stage: RecapStage,
}

impl RecapFlow {
    /// A check in progress is of this flow's connection for the group asked for.
    pub open spec fn wf(&self) -> bool {
        self.stage matches RecapStage::Checking { group_id, gate } ==> gate.group_id == group_id
            && gate.connection_id == self.connection_id
    }

    /// The event fits the stage the flow is in.
    pub open spec fn expects(&self, event: RecapEvent) -> bool {
        match (self.stage, event) {
            (RecapStage::ReadingBody, RecapEvent::BodyRead(_)) => true,
            (RecapStage::Checking { gate, .. }, RecapEvent::Gate(e)) => gate.expects(e),
            (RecapStage::ReadingLastSeen { .. }, RecapEvent::LastSeenRead(_)) => true,
            (RecapStage::Fetching { .. }, RecapEvent::HistoryFetched(_)) => true,
            (RecapStage::Answering, RecapEvent::Pushed) => true,
            _ => false,
        }
    }

    /// Starts the handling of a request on `connection_id` (`unknown` where the
    /// request has none): the body is read first.
    pub fn start(connection_id: Option<String>) -> (r: (RecapFlow, RecapAction))
        ensures
            r.0.wf(),
            r.0.connection_id@ == value_or_unknown(connection_id),
            r.0.stage == RecapStage::ReadingBody,
            r.1 == RecapAction::ReadBody,
    {
        (RecapFlow { connection_id: or_unknown(connection_id), stage: RecapStage::ReadingBody }, RecapAction::ReadBody)
    }

    /// Whether the event fits the stage the flow is in.
    pub fn accepts(&self, event: &RecapEvent) -> (r: bool)
        ensures
            r == self.expects(*event),
    {
        match (&self.stage, event) {
            (RecapStage::ReadingBody, RecapEvent::BodyRead(_)) => true,
            (RecapStage::Checking { gate, .. }, RecapEvent::Gate(e)) => gate.accepts(e),
            (RecapStage::ReadingLastSeen { .. }, RecapEvent::LastSeenRead(_)) => true,
            (RecapStage::Fetching { .. }, RecapEvent::HistoryFetched(_)) => true,
            (RecapStage::Answering, RecapEvent::Pushed) => true,
            _ => false,
        }
    }

    /// What one step does: from this flow, on `event`, the flow becomes `next`
    /// and asks for `action`.
    pub open spec fn step_taken(&self, event: RecapEvent, next: RecapFlow, action: RecapAction) -> bool {
        let reply = RecapAction::Reply { status_code: route_ok() };
        let pushes_error = |code: Seq<char>, message: Seq<char>|
            {
                &&& next.stage == RecapStage::Answering
                &&& action matches RecapAction::Push { connection_id, push }
                &&& connection_id == self.connection_id
                &&& is_error_push(push, code, message)
            };
        &&& (action is Reply) == (next.stage == RecapStage::Finished)
        &&& next.connection_id == self.connection_id
        &&& match (self.stage, event) {
            (RecapStage::ReadingBody, RecapEvent::BodyRead(RecapBody::Unreadable(e))) => {
                pushes_error("BAD_REQUEST"@, invalid_body_text(e@))
            },
            (RecapStage::ReadingBody, RecapEvent::BodyRead(RecapBody::Other)) => action == reply,
            (RecapStage::ReadingBody, RecapEvent::BodyRead(RecapBody::History { group_id })) => {
                &&& next.stage matches RecapStage::Checking { group_id: g, gate }
                &&& g == group_id
                &&& gate.stage == GateStage::LookingUpConnection
                &&& action == RecapAction::GetConnection { connection_id: self.connection_id }
            },
            (RecapStage::Checking { group_id, gate }, RecapEvent::Gate(RouteEvent::ConnectionFound(Ok(conn)))) => {
                &&& next.stage matches RecapStage::Checking { group_id: g, gate: later }
                &&& g == group_id
                &&& later.stage == GateStage::CheckingMembership { conn }
                &&& action == RecapAction::CheckMembership { group_id, user_id: conn.user_id }
            },
            (RecapStage::Checking { group_id, gate }, RecapEvent::Gate(RouteEvent::MembershipChecked(Ok(())))) => {
                &&& gate.stage matches GateStage::CheckingMembership { conn }
                &&& next.stage == RecapStage::ReadingLastSeen { group_id }
                &&& action == RecapAction::GetLastSeen { user_id: conn.user_id }
            },
            (RecapStage::Checking { group_id, gate }, RecapEvent::Gate(RouteEvent::MembershipChecked(Err(e)))) => {
                &&& next.stage matches RecapStage::Checking { group_id: g, gate: later }
                &&& g == group_id
                &&& later.stage == GateStage::ReportingForbidden
                &&& action matches RecapAction::Push { connection_id, push }
                &&& connection_id == self.connection_id
                &&& is_error_push(push, "FORBIDDEN"@, e.label() + e.detail())
            },
            (RecapStage::Checking { .. }, RecapEvent::Gate(_)) => {
                pushes_error("INTERNAL_ERROR"@, "Failed to assert connection and membership"@)
            },
            (RecapStage::ReadingLastSeen { group_id }, RecapEvent::LastSeenRead(read)) => {
                &&& next.stage == RecapStage::Fetching { group_id }
                &&& action == RecapAction::FetchHistory {
                    group_id,
                    since: match read {
                        Ok(since) => since,
                        Err(_) => None,
                    },
                }
            },
            (RecapStage::Fetching { .. }, RecapEvent::HistoryFetched(Err(_))) => {
                pushes_error("INTERNAL_ERROR"@, "Failed to fetch history"@)
            },
            (RecapStage::Fetching { group_id }, RecapEvent::HistoryFetched(Ok(messages))) => {
                &&& next.stage == RecapStage::Answering
                &&& action == RecapAction::PushHistory {
                    connection_id: self.connection_id,
                    group_id,
                    messages,
                }
            },
            (RecapStage::Answering, RecapEvent::Pushed) => action == reply,
            _ => false,
        }
    }

    /// An error push to this flow's connection.
    fn error_push(&mut self, code: &str, message: &str) -> (action: RecapAction)
        ensures
            final(self).connection_id == old(self).connection_id,
            final(self).stage == RecapStage::Answering,
            action matches RecapAction::Push { connection_id, push } && connection_id
                == old(self).connection_id && is_error_push(push, code@, message@),
    {
        self.stage = RecapStage::Answering;
        RecapAction::Push {
            connection_id: self.connection_id.clone(),
            push: ServerPush::Error { code: code.to_owned(), message: message.to_owned() },
        }
    }

    /// Takes the outcome of the last operation and gives the next one.
    pub fn step(&mut self, event: RecapEvent) -> (action: RecapAction)
        requires
            old(self).wf(),
            old(self).expects(event),
        ensures
            final(self).wf(),
            action is Reply ==> action == (RecapAction::Reply { status_code: route_ok() }),
            old(self).step_taken(event, *final(self), action),
    {
        let mut stage = RecapStage::Finished;
        std::mem::swap(&mut stage, &mut self.stage);
        match (stage, event) {
            (RecapStage::ReadingBody, RecapEvent::BodyRead(RecapBody::Unreadable(e))) => {
                let message = String::from_str("Invalid message body: ").concat(e.as_str());
                self.error_push("BAD_REQUEST", message.as_str())
            },
            (RecapStage::ReadingBody, RecapEvent::BodyRead(RecapBody::History { group_id })) => {
                let (gate, _) = MembershipGate::start(self.connection_id.clone(), group_id.clone());
                self.stage = RecapStage::Checking { group_id, gate };
                RecapAction::GetConnection { connection_id: self.connection_id.clone() }
            },
            (RecapStage::Checking { group_id, mut gate }, RecapEvent::Gate(e)) => {
                match gate.step(e) {
                    GateAction::CheckMembership { group_id: g, user_id } => {
                        self.stage = RecapStage::Checking { group_id, gate };
                        RecapAction::CheckMembership { group_id: g, user_id }
                    },
                    GateAction::Push { connection_id, push } => {
                        self.stage = RecapStage::Checking { group_id, gate };
                        RecapAction::Push { connection_id, push }
                    },
                    GateAction::Finish(Ok(conn)) => {
                        self.stage = RecapStage::ReadingLastSeen { group_id };
                        RecapAction::GetLastSeen { user_id: conn.user_id }
                    },
                    _ => self.error_push("INTERNAL_ERROR", "Failed to assert connection and membership"),
                }
            },
            (RecapStage::ReadingLastSeen { group_id }, RecapEvent::LastSeenRead(read)) => {
                let since = match read {
                    Ok(since) => since,
                    Err(_) => None,
                };
                let action = RecapAction::FetchHistory { group_id: group_id.clone(), since };
                self.stage = RecapStage::Fetching { group_id };
                action
            },
            (RecapStage::Fetching { .. }, RecapEvent::HistoryFetched(Err(_))) => {
                self.error_push("INTERNAL_ERROR", "Failed to fetch history")
            },
            (RecapStage::Fetching { group_id }, RecapEvent::HistoryFetched(Ok(messages))) => {
                self.stage = RecapStage::Answering;
                RecapAction::PushHistory { connection_id: self.connection_id.clone(), group_id, messages }
            },
            _ => RecapAction::Reply { status_code: 200 },
        }
    }
}

/// `flows`, `events` and `actions` are a run of the WebSocket chat-history
/// handler: it starts from a flow that reads the body, and each flow takes
/// the next event, becoming the next flow and asking for the next action.
pub open spec fn is_recap_run(flows: Seq<RecapFlow>, events: Seq<RecapEvent>, actions: Seq<RecapAction>) -> bool {
    &&& flows.len() == events.len() + 1
    &&& actions.len() == events.len()
    &&& flows[0].stage == RecapStage::ReadingBody
    &&& forall|i: int|
        #![trigger events[i]]
        0 <= i < events.len() ==> flows[i].expects(events[i]) && flows[i].step_taken(
            events[i],
            flows[i + 1],
            actions[i],
        )
}

/// The time from which history is read, given the outcome of reading when
/// the user was last seen: that time, or none when it is absent or could
/// not be read.
pub open spec fn since_of(read: Result<Option<String>, WsError>) -> Option<String> {
    match read {
        Ok(since) => since,
        Err(_) => None,
    }
}

/// Every flow of a run is on the run's connection.
proof fn lemma_recap_connection(flows: Seq<RecapFlow>, events: Seq<RecapEvent>, actions: Seq<RecapAction>, k: int)
    requires
        is_recap_run(flows, events, actions),
        0 <= k <= events.len(),
    ensures
        flows[k].connection_id == flows[0].connection_id,
    decreases k,
{
    if k > 0 {
        lemma_recap_connection(flows, events, actions, k - 1);
        assert(flows[k - 1].step_taken(events[k - 1], flows[k], actions[k - 1]));
    }
}

/// A run reads the group's messages only from the time the user was last
/// seen: every request for history comes on the outcome of reading that
/// time, and asks for the messages since it (all of them when it is absent
/// or unreadable).
pub proof fn lemma_recap_fetches_since_last_seen(
    flows: Seq<RecapFlow>,
    events: Seq<RecapEvent>,
    actions: Seq<RecapAction>,
    i: int,
)
    requires
        is_recap_run(flows, events, actions),
        0 <= i < actions.len(),
        actions[i] is FetchHistory,
    ensures
        events[i] matches RecapEvent::LastSeenRead(read) && actions[i] matches RecapAction::FetchHistory {
            since,
            ..
        } && since == since_of(read),
{
    assert(flows[i].expects(events[i]) && flows[i].step_taken(events[i], flows[i + 1], actions[i]));
}

/// A run pushes a group's history only after reading it, and pushes exactly
/// what was read: every history push to a connection comes on a successful
/// read of the group's messages, which was asked for right before with the
/// time the user was last seen, and goes to the run's own connection.
pub proof fn lemma_recap_pushes_fetched_history(
    flows: Seq<RecapFlow>,
    events: Seq<RecapEvent>,
    actions: Seq<RecapAction>,
    i: int,
)
    requires
        is_recap_run(flows, events, actions),
        0 <= i < actions.len(),
        actions[i] is PushHistory,
    ensures
        i >= 2,
        actions[i] matches RecapAction::PushHistory { connection_id, group_id, messages } && {
            &&& connection_id == flows[0].connection_id
            &&& events[i] == RecapEvent::HistoryFetched(Ok(messages))
            &&& actions[i - 1] matches RecapAction::FetchHistory { group_id: g, since }
            &&& g == group_id
            &&& events[i - 1] matches RecapEvent::LastSeenRead(read)
            &&& since == since_of(read)
        },
{
    lemma_recap_connection(flows, events, actions, i);
    assert(flows[i].expects(events[i]) && flows[i].step_taken(events[i], flows[i + 1], actions[i]));
    assert(flows[i].stage is Fetching);
    if i == 0 {
        assert(false);
    }
    assert(flows[i - 1].expects(events[i - 1]) && flows[i - 1].step_taken(events[i - 1], flows[i], actions[i - 1]));
    assert(flows[i - 1].stage is ReadingLastSeen);
    if i == 1 {
        assert(false);
    }
}

} // verus!
