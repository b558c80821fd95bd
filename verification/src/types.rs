use vstd::prelude::*;

verus! {

#[verifier::external_type_specification]
#[verifier::external_body]
pub struct ExJsonValue(serde_json::Value);

/// Calls `Clone::clone` on a `serde_json::Value`, whose `Clone` is derived:
/// claims that the copy equals the original.
#[verifier::external_body]
pub(crate) fn clone_json(value: &serde_json::Value) -> (copy: serde_json::Value)
    ensures
        copy == *value,
{
    value.clone()
}

/// A request that a client sends over the WebSocket, told apart by its action.
#[derive(Debug, Clone, PartialEq, Eq)]
pub enum ClientMessage {
    /// `chat.join`: subscribe this connection to a group's chat.
    ChatJoin { group_id: String },
    /// `chat.leave`: end this connection's subscription to a group's chat.
    ChatLeave { group_id: String },
}

/// A message that the service pushes to a client connection.
#[derive(Debug, PartialEq)]
pub enum ServerPush {
    /// `connected`: sent once a connection is up.
    Connected { last_seen_at: Option<String>, unread_notification_count: i64 },
    /// `chat.message`: a new chat message in a group.
    ChatMessage {
        group_id: String,
        message_id: String,
        sender_id: String,
        content: String,
        created_at: String,
    },
    /// `notification`: a real-time notification pushed after queue consumption.
    Notification {
        /// Equals the stored sort key; used to mark the notification read.
        notification_id: String,
        notification_type: String,
        actor_id: String,
        payload: serde_json::Value,
        created_at: String,
    },
    /// `ack`: confirms the action named.
    Ack { action: String },
    /// `error`: reports a failure with a code and a message.
    Error { code: String, message: String },
}

/// A stored chat message.
#[derive(Debug, Clone, PartialEq, Eq)]
pub struct ChatMessageRecord {
    pub group_id: String,
    /// `{created_at}#{message_id}`; orders a group's messages by the text of their creation times.
    pub sort_key: String,
    pub message_id: String,
    pub sender_id: String,
    pub content: String,
    pub message_type: String,
    pub created_at: String,
}

/// A stored notification.
#[derive(Debug, PartialEq)]
pub struct NotificationRecord {
    pub user_id: String,
    /// `{created_at}#{uuid}`; the client-facing notification id for mark-read.
    pub sort_key: String,
    pub notification_id: String,
    pub notification_type: String,
    pub actor_id: String,
    pub payload: serde_json::Value,
    pub is_read: bool,
    pub read_at: Option<String>,
    pub created_at: String,
}

/// A notification event published on the queue by other modules.
#[derive(Debug, PartialEq)]
pub struct SqsNotificationEvent {
    pub event_id: String,
    pub event_type: String,
    pub actor_id: String,
    pub targeting: NotificationTargeting,
    pub payload: serde_json::Value,
    pub created_at: String,
}

/// Who a notification event is for.
#[derive(Debug, Clone, PartialEq, Eq)]
pub struct NotificationTargeting {
    pub user_ids: Vec<String>,
    pub group_id: Option<String>,
    pub exclude_user_ids: Option<Vec<String>>,
}

} // verus!
