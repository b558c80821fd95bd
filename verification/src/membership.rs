use vstd::prelude::*;
use vstd::string::*;
use crate::errors::WsError;
use crate::item::{same_text, Item};
use crate::types::ServerPush;

verus! {

/// The message of the error for a user who has no membership in a group.
pub open spec fn not_member_text(user_id: Seq<char>, group_id: Seq<char>) -> Seq<char> {
    "user "@ + user_id + " is not a member of group "@ + group_id
}

/// The message of the error for a user whose membership in a group is not active.
pub open spec fn not_active_text(user_id: Seq<char>, group_id: Seq<char>) -> Seq<char> {
    "user "@ + user_id + " is not an active member of group "@ + group_id
}

/// The membership check's verdict on what the membership lookup found: a
/// member whose status is `active` passes; a user with no membership item, or
/// whose item's status is anything else (or absent), is forbidden.
pub fn membership_verdict(group_id: &str, user_id: &str, found: &Option<Item>) -> (r: Result<(), WsError>)
    ensures
        match found {
            None => r matches Err(WsError::Forbidden(m)) && m@ == not_member_text(user_id@, group_id@),
            Some(item) => if item.text("status"@) == Some("active"@) {
                r is Ok
            } else {
                r matches Err(WsError::Forbidden(m)) && m@ == not_active_text(user_id@, group_id@)
            },
        },
{
    match found {
        None => Err(
            WsError::Forbidden(
                String::from_str("user ").concat(user_id).concat(" is not a member of group ").concat(
                    group_id,
                ),
            ),
        ),
        Some(item) => {
            let status = item.string_attr("status");
            let active = match &status {
                Some(s) => same_text(s.as_str(), "active"),
                None => false,
            };
            if active {
                Ok(())
            } else {
                Err(
                    WsError::Forbidden(
                        String::from_str("user ").concat(user_id).concat(
                            " is not an active member of group ",
                        ).concat(group_id),
                    ),
                )
            }
        },
    }
}

/// The error push sent to a connection whose user failed the membership
/// check: code `FORBIDDEN` and the failure's message.
pub fn forbidden_push(e: &WsError) -> (push: ServerPush)
    ensures
        push matches ServerPush::Error { code, message } && code@ == "FORBIDDEN"@ && message@ == e.label()
            + e.detail(),
{
    ServerPush::Error { code: String::from_str("FORBIDDEN"), message: e.to_message() }
}

} // verus!
