use vstd::prelude::*;
use vstd::string::*;
use crate::keys::{joined_key, sort_key};
use crate::types::{NotificationRecord, ServerPush};
use crate::utils::{clock_text, is_hyphenated_uuid_v4, new_uuid_v4_text, now_rfc3339};

verus! {

/// The name of the attribute that marks a stored notification unread. The
/// unread index holds exactly the notifications that carry it.
pub open spec fn unread_attribute() -> Seq<char> {
    "unread_user_id"@
}

/// A new unread notification for `user_id`, stamped with the current time;
/// its sort key is the creation time, a `#` and a fresh random id, and that
/// sort key is also its notification id.
pub fn new_notification(
    user_id: &str,
    notification_type: &str,
    actor_id: &str,
    payload: serde_json::Value,
) -> (record: NotificationRecord)
    ensures
        record.user_id@ == user_id@,
        record.notification_type@ == notification_type@,
        record.actor_id@ == actor_id@,
        record.payload == payload,
        !record.is_read,
        record.read_at is None,
        exists|first: i128, second: i128| record.created_at@ == clock_text(first, second),
        record.notification_id@ == record.sort_key@,
        exists|id: Seq<char>|
            is_hyphenated_uuid_v4(id) && record.sort_key@ == joined_key(record.created_at@, id),
{
    let created_at = now_rfc3339();
    let id = new_uuid_v4_text();
    let key = sort_key(created_at.as_str(), id.as_str());
    let notification_id = key.clone();
    NotificationRecord {
        user_id: user_id.to_owned(),
        sort_key: key,
        notification_id,
        notification_type: notification_type.to_owned(),
        actor_id: actor_id.to_owned(),
        payload,
        is_read: false,
        read_at: None,
        created_at,
    }
}

/// The attribute written beside a new notification that puts it in the
/// unread index: the unread marker, holding the user's id.
pub fn unread_marker(user_id: &str) -> (attr: (String, String))
    ensures
        attr.0@ == unread_attribute(),
        attr.1@ == user_id@,
{
    (String::from_str("unread_user_id"), user_id.to_owned())
}

/// The update that marks one notification read.
#[derive(Debug, Clone, PartialEq, Eq)]
pub struct ReadMark {
    /// The partition key: the user's id.
    pub user_id: String,
    /// The sort key: the notification id.
    pub sort_key: String,
    pub update_expression: String,
    /// The update applies only to a notification that exists.
    pub condition_expression: String,
    /// The time recorded as `read_at`.
    pub read_at: String,
}

/// The update expression that marks a notification read: it sets `is_read`
/// and `read_at` and removes the unread marker.
pub open spec fn mark_read_expression() -> Seq<char> {
    "SET is_read = :r, read_at = :t REMOVE "@ + unread_attribute()
}

/// The update that marks `user_id`'s notification `notification_id` read at
/// `read_at`, on condition that the notification exists.
pub fn read_mark(user_id: &str, notification_id: &str, read_at: &str) -> (m: ReadMark)
    ensures
        m.user_id@ == user_id@,
        m.sort_key@ == notification_id@,
        m.read_at@ == read_at@,
        m.update_expression@ == mark_read_expression(),
        m.condition_expression@ == "attribute_exists(sort_key)"@,
{
    ReadMark {
        user_id: user_id.to_owned(),
        sort_key: notification_id.to_owned(),
        update_expression: String::from_str("SET is_read = :r, read_at = :t REMOVE ").concat(
            "unread_user_id",
        ),
        condition_expression: String::from_str("attribute_exists(sort_key)"),
        read_at: read_at.to_owned(),
    }
}

/// The push that delivers a stored notification to the user's connections:
/// its id, type, actor, payload and creation time.
pub fn notification_push(record: NotificationRecord) -> (push: ServerPush)
    ensures
        push == (ServerPush::Notification {
            notification_id: record.notification_id,
            notification_type: record.notification_type,
            actor_id: record.actor_id,
            payload: record.payload,
            created_at: record.created_at,
        }),
{
    ServerPush::Notification {
        notification_id: record.notification_id,
        notification_type: record.notification_type,
        actor_id: record.actor_id,
        payload: record.payload,
        created_at: record.created_at,
    }
}

/// The marker that writing a notification sets is the attribute that marking
/// it read removes: the read mark's update expression ends by removing the
/// unread marker, so the notification leaves the unread index.
pub proof fn lemma_read_mark_removes_unread_marker()
    ensures
        ({
            let remove_clause = " REMOVE "@ + unread_attribute();
            let e = mark_read_expression();
            e.len() >= remove_clause.len() && e.subrange(e.len() - remove_clause.len(), e.len() as int)
                == remove_clause
        }),
{
    reveal_strlit("SET is_read = :r, read_at = :t REMOVE ");
    reveal_strlit(" REMOVE ");
    reveal_strlit("unread_user_id");
    let remove_clause = " REMOVE "@ + unread_attribute();
    let e = mark_read_expression();
    assert(e.subrange(e.len() - remove_clause.len(), e.len() as int) =~= remove_clause);
}

} // verus!
