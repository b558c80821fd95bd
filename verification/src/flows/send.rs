use vstd::prelude::*;
use vstd::string::*;
use crate::connection::WsConnection;
use crate::errors::WsError;
use crate::flows::common::{or_unknown, route_ok, value_or_unknown};
use crate::flows::subscribe::invalid_body_text;
use crate::types::{ChatMessageRecord, ServerPush};

verus! {

/// What the body of a chat-send request turned out to be.
#[derive(Debug, Clone, PartialEq, Eq)]
pub enum SendBody {
    /// A chat message for a group.
    Send { group_id: String, content: String },
    /// A client message of another kind.
    Other,
    /// Not a client message; the reader's description.
    Unreadable(String),
}

/// Where a chat-send request stands.
#[derive(Debug, PartialEq)]
pub enum SendStage {
    /// The sender's connection record is being looked up.
    FindingConnection,
    /// The body is being read.
    ReadingBody { conn: WsConnection },
    /// The connection's subscription to the group is being checked.
    CheckingSubscription { conn: WsConnection, group_id: String, content: String },
    /// The message for this group is being stored.
    Storing { group_id: String },
    /// The group's subscribed connections are being listed; this is the push.
    ListingSubscribers { push: ServerPush },
    /// The message is being pushed to the subscribed connections.
    Broadcasting,
    /// An error is being pushed to the sender.
    Answering,
    /// The reply has been given.
    Finished,
}

/// The outcome of an operation that the chat-send handler asked for.
#[derive(Debug, PartialEq)]
pub enum SendEvent {
    ConnectionFound(Result<WsConnection, WsError>),
    BodyRead(SendBody),
    /// Whether the connection is subscribed to the group.
    SubscriptionChecked(Result<bool, WsError>),
    MessageStored(Result<ChatMessageRecord, WsError>),
    SubscribersListed(Result<Vec<String>, WsError>),
    /// A push, or a broadcast, was attempted; outcomes do not matter.
    Pushed,
}

/// An operation that the chat-send handler asks for.
#[derive(Debug, PartialEq)]
pub enum SendAction {
    GetConnection { connection_id: String },
    /// Read the request body.
    ReadBody,
    CheckSubscription { group_id: String, connection_id: String },
    StoreMessage { group_id: String, sender_id: String, content: String },
    ListSubscribers { group_id: String },
    Push { connection_id: String, push: ServerPush },
    Broadcast { connection_ids: Vec<String>, push: ServerPush },
    Reply { status_code: u16 },
}

/// The message pushed to a sender who is not subscribed to the group.
pub open spec fn not_member_of_text(group_id: Seq<char>) -> Seq<char> {
    "You are not a member of group "@ + group_id
}

/// The push that delivers a stored chat message; the sort key serves as the
/// message id that clients see.
pub open spec fn message_push(record: ChatMessageRecord) -> ServerPush {
    ServerPush::ChatMessage {
        group_id: record.group_id,
        message_id: record.sort_key,
        sender_id: record.sender_id,
        content: record.content,
        created_at: record.created_at,
    }
}

/// An error push with this code and message.
pub open spec fn is_error_push(push: ServerPush, code: Seq<char>, message: Seq<char>) -> bool {
    push matches ServerPush::Error { code: c, message: m } && c@ == code && m@ == message
}

/// The chat-send handler: a message from a known connection that is
/// subscribed to the group is stored under the connection's user and pushed
/// to every connection subscribed to the group; each failure is pushed to
/// the sender as an error. The request itself is always answered 200.
#[derive(Debug, PartialEq)]
pub struct SendFlow {
    pub connection_id: String,
    pub stage: SendStage,
}

impl SendFlow {
    /// The event fits the stage the flow is in.
    pub open spec fn expects(&self, event: SendEvent) -> bool {
        match self.stage {
            SendStage::FindingConnection => event is ConnectionFound,
            SendStage::ReadingBody { .. } => event is BodyRead,
            SendStage::CheckingSubscription { .. } => event is SubscriptionChecked,
            SendStage::Storing { .. } => event is MessageStored,
            SendStage::ListingSubscribers { .. } => event is SubscribersListed,
            SendStage::Broadcasting => event is Pushed,
            SendStage::Answering => event is Pushed,
            SendStage::Finished => false,
        }
    }

    /// Starts the handling of a request on `connection_id` (`unknown` where the
    /// request has none): its connection record is looked up first.
    pub fn start(connection_id: Option<String>) -> (r: (SendFlow, SendAction))
        ensures
            r.0.connection_id@ == value_or_unknown(connection_id),
            r.0.stage == SendStage::FindingConnection,
            r.1 == (SendAction::GetConnection { connection_id: r.0.connection_id }),
    {
        let id = or_unknown(connection_id);
        let action = SendAction::GetConnection { connection_id: id.clone() };
        (SendFlow { connection_id: id, stage: SendStage::FindingConnection }, action)
    }

    /// Whether the event fits the stage the flow is in.
    pub fn accepts(&self, event: &SendEvent) -> (r: bool)
        ensures
            r == self.expects(*event),
    {
        match &self.stage {
            SendStage::FindingConnection => matches!(event, SendEvent::ConnectionFound(_)),
            SendStage::ReadingBody { .. } => matches!(event, SendEvent::BodyRead(_)),
            SendStage::CheckingSubscription { .. } => matches!(event, SendEvent::SubscriptionChecked(_)),
            SendStage::Storing { .. } => matches!(event, SendEvent::MessageStored(_)),
            SendStage::ListingSubscribers { .. } => matches!(event, SendEvent::SubscribersListed(_)),
            SendStage::Broadcasting => matches!(event, SendEvent::Pushed),
            SendStage::Answering => matches!(event, SendEvent::Pushed),
            SendStage::Finished => false,
        }
    }

    /// What one step does: from this flow, on `event`, the flow becomes `next`
    /// and asks for `action`.
    pub open spec fn step_taken(&self, event: SendEvent, next: SendFlow, action: SendAction) -> bool {
        let reply = SendAction::Reply { status_code: route_ok() };
        let pushes_error = |code: Seq<char>, message: Seq<char>|
            {
                &&& next.stage == SendStage::Answering
                &&& action matches SendAction::Push { connection_id, push }
                &&& connection_id == self.connection_id
                &&& is_error_push(push, code, message)
            };
        &&& (action is Reply) == (next.stage == SendStage::Finished)
        &&& next.connection_id == self.connection_id
        &&& match (self.stage, event) {
            (SendStage::FindingConnection, SendEvent::ConnectionFound(Err(_))) => action == reply,
            (SendStage::FindingConnection, SendEvent::ConnectionFound(Ok(conn))) => {
                &&& next.stage == SendStage::ReadingBody { conn }
                &&& action == SendAction::ReadBody
            },
            (SendStage::ReadingBody { .. }, SendEvent::BodyRead(SendBody::Unreadable(e))) => {
                pushes_error("BAD_REQUEST"@, invalid_body_text(e@))
            },
            (SendStage::ReadingBody { .. }, SendEvent::BodyRead(SendBody::Other)) => action == reply,
            (SendStage::ReadingBody { conn }, SendEvent::BodyRead(SendBody::Send { group_id, content })) => {
                &&& next.stage == SendStage::CheckingSubscription { conn, group_id, content }
                &&& action == SendAction::CheckSubscription {
                    group_id,
                    connection_id: self.connection_id,
                }
            },
            (SendStage::CheckingSubscription { .. }, SendEvent::SubscriptionChecked(Err(_))) => {
                pushes_error("INTERNAL_ERROR"@, "Unable to verify group membership"@)
            },
            (SendStage::CheckingSubscription { group_id, .. }, SendEvent::SubscriptionChecked(Ok(false))) => {
                pushes_error("UNAUTHORIZED"@, not_member_of_text(group_id@))
            },
            (
                SendStage::CheckingSubscription { conn, group_id, content },
                SendEvent::SubscriptionChecked(Ok(true)),
            ) => {
                &&& next.stage == SendStage::Storing { group_id }
                &&& action == SendAction::StoreMessage { group_id, sender_id: conn.user_id, content }
            },
            (SendStage::Storing { .. }, SendEvent::MessageStored(Err(_))) => {
                pushes_error("INTERNAL_ERROR"@, "Failed to send message"@)
            },
            (SendStage::Storing { group_id }, SendEvent::MessageStored(Ok(record))) => {
                &&& next.stage == SendStage::ListingSubscribers { push: message_push(record) }
                &&& action == SendAction::ListSubscribers { group_id }
            },
            (SendStage::ListingSubscribers { push }, SendEvent::SubscribersListed(listed)) => {
                &&& next.stage == SendStage::Broadcasting
                &&& match listed {
                    Ok(ids) => action == SendAction::Broadcast { connection_ids: ids, push },
                    Err(_) => action matches SendAction::Broadcast { connection_ids, push: p }
                        && connection_ids@.len() == 0 && p == push,
                }
            },
            (SendStage::Broadcasting, SendEvent::Pushed) => action == reply,
            (SendStage::Answering, SendEvent::Pushed) => action == reply,
            _ => false,
        }
    }

    /// An error push to this flow's connection.
    fn error_push(&mut self, code: &str, message: String) -> (action: SendAction)
        ensures
            final(self).connection_id == old(self).connection_id,
            final(self).stage == SendStage::Answering,
            action matches SendAction::Push { connection_id, push } && connection_id
                == old(self).connection_id && is_error_push(push, code@, message@),
    {
        self.stage = SendStage::Answering;
        SendAction::Push {
            connection_id: self.connection_id.clone(),
            push: ServerPush::Error { code: code.to_owned(), message },
        }
    }

    /// Takes the outcome of the last operation and gives the next one.
    pub fn step(&mut self, event: SendEvent) -> (action: SendAction)
        requires
            old(self).expects(event),
        ensures
            action is Reply ==> action == (SendAction::Reply { status_code: route_ok() }),
            old(self).step_taken(event, *final(self), action),
    {
        let mut stage = SendStage::Finished;
        std::mem::swap(&mut stage, &mut self.stage);
        match (stage, event) {
            (SendStage::FindingConnection, SendEvent::ConnectionFound(Ok(conn))) => {
                self.stage = SendStage::ReadingBody { conn };
                SendAction::ReadBody
            },
            (SendStage::ReadingBody { .. }, SendEvent::BodyRead(SendBody::Unreadable(e))) => {
                self.error_push(
                    "BAD_REQUEST",
                    String::from_str("Invalid message body: ").concat(e.as_str()),
                )
            },
            (SendStage::ReadingBody { conn }, SendEvent::BodyRead(SendBody::Send { group_id, content })) => {
                let action = SendAction::CheckSubscription {
                    group_id: group_id.clone(),
                    connection_id: self.connection_id.clone(),
                };
                self.stage = SendStage::CheckingSubscription { conn, group_id, content };
                action
            },
            (SendStage::CheckingSubscription { .. }, SendEvent::SubscriptionChecked(Err(_))) => {
                self.error_push("INTERNAL_ERROR", String::from_str("Unable to verify group membership"))
            },
            (
                SendStage::CheckingSubscription { conn, group_id, content },
                SendEvent::SubscriptionChecked(Ok(subscribed)),
            ) => {
                if subscribed {
                    self.stage = SendStage::Storing { group_id: group_id.clone() };
                    SendAction::StoreMessage { group_id, sender_id: conn.user_id, content }
                } else {
                    self.error_push(
                        "UNAUTHORIZED",
                        String::from_str("You are not a member of group ").concat(group_id.as_str()),
                    )
                }
            },
            (SendStage::Storing { .. }, SendEvent::MessageStored(Err(_))) => {
                self.error_push("INTERNAL_ERROR", String::from_str("Failed to send message"))
            },
            (SendStage::Storing { group_id }, SendEvent::MessageStored(Ok(record))) => {
                self.stage = SendStage::ListingSubscribers {
                    push: ServerPush::ChatMessage {
                        group_id: record.group_id,
                        message_id: record.sort_key,
                        sender_id: record.sender_id,
                        content: record.content,
                        created_at: record.created_at,
                    },
                };
                SendAction::ListSubscribers { group_id }
            },
            (SendStage::ListingSubscribers { push }, SendEvent::SubscribersListed(listed)) => {
                self.stage = SendStage::Broadcasting;
                let connection_ids = match listed {
                    Ok(ids) => ids,
                    Err(_) => Vec::new(),
                };
                SendAction::Broadcast { connection_ids, push }
            },
            _ => SendAction::Reply { status_code: 200 },
        }
    }
}

/// `flows`, `events` and `actions` are a run of the chat-send handler: the
/// first flow is the one that `start` gives, and each flow takes the next
/// event, becoming the next flow and asking for the next action.
pub open spec fn is_send_run(flows: Seq<SendFlow>, events: Seq<SendEvent>, actions: Seq<SendAction>) -> bool {
    &&& flows.len() == events.len() + 1
    &&& actions.len() == events.len()
    &&& flows[0].stage == SendStage::FindingConnection
    &&& forall|i: int|
        #![trigger events[i]]
        0 <= i < events.len() ==> flows[i].expects(events[i]) && flows[i].step_taken(
            events[i],
            flows[i + 1],
            actions[i],
        )
}

/// What holds of a chat-send run after its first `k` events.
pub open spec fn send_prefix_holds(flows: Seq<SendFlow>, events: Seq<SendEvent>, k: int) -> bool {
    &&& flows[k].connection_id == flows[0].connection_id
    &&& flows[k].stage matches SendStage::ReadingBody { conn } ==> exists|j: int|
        0 <= j < k && #[trigger] events[j] == SendEvent::ConnectionFound(Ok(conn))
    &&& flows[k].stage matches SendStage::CheckingSubscription { conn, group_id, content } ==> {
        &&& exists|j: int| 0 <= j < k && #[trigger] events[j] == SendEvent::ConnectionFound(Ok(conn))
        &&& exists|j: int|
            0 <= j < k && #[trigger] events[j] == SendEvent::BodyRead(SendBody::Send { group_id, content })
    }
}

proof fn lemma_send_prefix(flows: Seq<SendFlow>, events: Seq<SendEvent>, actions: Seq<SendAction>, k: int)
    requires
        is_send_run(flows, events, actions),
        0 <= k <= events.len(),
    ensures
        send_prefix_holds(flows, events, k),
    decreases k,
{
    if k > 0 {
        let j = k - 1;
        lemma_send_prefix(flows, events, actions, j);
        let e = events[j];
        assert(flows[j].expects(e) && flows[j].step_taken(e, flows[k], actions[j]));
        match flows[j].stage {
            SendStage::FindingConnection => {
                match e {
                    SendEvent::ConnectionFound(Ok(conn)) => {
                        assert(events[j] == SendEvent::ConnectionFound(Ok(conn)));
                    },
                    _ => {},
                }
            },
            SendStage::ReadingBody { conn } => {
                let c = choose|i: int| 0 <= i < j && #[trigger] events[i] == SendEvent::ConnectionFound(Ok(conn));
                assert(events[c] == SendEvent::ConnectionFound(Ok(conn)));
                match e {
                    SendEvent::BodyRead(SendBody::Send { group_id, content }) => {
                        assert(events[j] == SendEvent::BodyRead(SendBody::Send { group_id, content }));
                    },
                    _ => {},
                }
            },
            _ => {},
        }
    }
}

/// The chat-send handler stores only messages of subscribed connections: in
/// any run, a request to store a message comes right after the check found
/// the connection subscribed, and stores the text that the request's body
/// carried, for the group it named, under the user of the connection record
/// that was found.
pub proof fn lemma_only_subscribed_senders_are_stored(
    flows: Seq<SendFlow>,
    events: Seq<SendEvent>,
    actions: Seq<SendAction>,
    i: int,
)
    requires
        is_send_run(flows, events, actions),
        0 <= i < actions.len(),
        actions[i] is StoreMessage,
    ensures
        actions[i] matches SendAction::StoreMessage { group_id, sender_id, content } && {
            &&& events[i] == SendEvent::SubscriptionChecked(Ok(true))
            &&& exists|j: int|
                0 <= j < i && #[trigger] events[j] == SendEvent::BodyRead(SendBody::Send { group_id, content })
            &&& exists|j: int|
                0 <= j < i && (#[trigger] events[j] matches SendEvent::ConnectionFound(Ok(conn))
                    && conn.user_id == sender_id)
        },
{
    lemma_send_prefix(flows, events, actions, i);
    let e = events[i];
    assert(flows[i].expects(e) && flows[i].step_taken(e, flows[i + 1], actions[i]));
    match flows[i].stage {
        SendStage::CheckingSubscription { conn, group_id, content } => {
            match e {
                SendEvent::SubscriptionChecked(Ok(b)) => {
                    if b {
                        assert(events[i] == SendEvent::SubscriptionChecked(Ok(true)));
                        let c = choose|j: int| 0 <= j < i && #[trigger] events[j] == SendEvent::ConnectionFound(Ok(conn));
                        assert(events[c] matches SendEvent::ConnectionFound(Ok(cc)) && cc.user_id == conn.user_id);
                    }
                },
                _ => {},
            }
        },
        _ => {},
    }
}

} // verus!
