use vstd::prelude::*;
use vstd::string::*;
use crate::connection::WsConnection;
use crate::errors::WsError;
use crate::flows::common::{or_unknown, route_ok, value_or_unknown};

verus! {

/// Where a `$disconnect` request stands.
#[derive(Debug, Clone, Copy, PartialEq, Eq)]
pub enum DisconnectStage {
    FindingConnection,
    DeletingConnection,
    DeletingSubscriptions,
    UpdatingPresence,
    ListingGroups,
    /// The subscribers of the current group are being listed.
    ListingSubscribers,
    /// The current group is being told that the user went offline.
    Announcing,
    Finished,
}

/// The outcome of an operation that the `$disconnect` handler asked for.
#[derive(Debug, PartialEq, Eq)]
pub enum DisconnectEvent {
    ConnectionFound(Result<WsConnection, WsError>),
    ConnectionDeleted(Result<(), WsError>),
    SubscriptionsDeleted(Result<(), WsError>),
    PresenceUpdated(Result<(), WsError>),
    /// The groups the connection is subscribed to were listed.
    GroupsListed(Result<Vec<String>, WsError>),
    SubscribersListed(Result<Vec<String>, WsError>),
    /// The presence push was attempted on every connection; outcomes do not matter.
    Announced,
}

/// An operation that the `$disconnect` handler asks for.
#[derive(Debug, PartialEq, Eq)]
pub enum DisconnectAction {
    GetConnection { connection_id: String },
    DeleteConnection { connection_id: String },
    DeleteSubscriptions { connection_id: String },
    /// Record that the user was last seen now.
    UpdateLastSeen { user_id: String },
    ListGroups { connection_id: String },
    ListSubscribers { group_id: String },
    /// Tell each of these connections that the user's presence in the group changed.
    AnnouncePresence { connection_ids: Vec<String>, group_id: String, user_id: String, status: String },
    Reply { status_code: u16 },
}

/// The `$disconnect` handler: the closing connection's record and
/// subscriptions are removed and its user's last-seen time recorded (failures
/// there are only logged); then each group the connection is still listed in
/// is told, on every subscribed connection, that the user went offline. Like
/// every route handler it always answers 200 and only reports errors: a
/// connection without a record is answered at once, and so is a failure to
/// list the groups.
#[derive(Debug, Clone, PartialEq, Eq)]
pub struct DisconnectFlow {
    pub connection_id: String,
    pub user_id: String,
    pub groups: Vec<String>,
    /// The index of the current group.
    pub current: usize,
    pub stage: DisconnectStage,
}

impl DisconnectFlow {
    /// While groups are being told, the current group is one of them.
    pub open spec fn wf(&self) -> bool {
        (self.stage == DisconnectStage::ListingSubscribers || self.stage == DisconnectStage::Announcing)
            ==> self.current < self.groups@.len()
    }

    /// The event fits the stage the flow is in.
    pub open spec fn expects(&self, event: DisconnectEvent) -> bool {
        match self.stage {
            DisconnectStage::FindingConnection => event is ConnectionFound,
            DisconnectStage::DeletingConnection => event is ConnectionDeleted,
            DisconnectStage::DeletingSubscriptions => event is SubscriptionsDeleted,
            DisconnectStage::UpdatingPresence => event is PresenceUpdated,
            DisconnectStage::ListingGroups => event is GroupsListed,
            DisconnectStage::ListingSubscribers => event is SubscribersListed,
            DisconnectStage::Announcing => event is Announced,
            DisconnectStage::Finished => false,
        }
    }

    /// Starts the handling of the closing of `connection_id` (`unknown` where
    /// the request has none): its record is looked up first.
    pub fn start(connection_id: Option<String>) -> (r: (DisconnectFlow, DisconnectAction))
        ensures
            r.0.wf(),
            r.0.connection_id@ == value_or_unknown(connection_id),
            r.0.stage == DisconnectStage::FindingConnection,
            r.1 == (DisconnectAction::GetConnection { connection_id: r.0.connection_id }),
    {
        let id = or_unknown(connection_id);
        let action = DisconnectAction::GetConnection { connection_id: id.clone() };
        let flow = DisconnectFlow {
            connection_id: id,
            user_id: String::new(),
            groups: Vec::new(),
            current: 0,
            stage: DisconnectStage::FindingConnection,
        };
        (flow, action)
    }

    /// Whether the event fits the stage the flow is in.
    pub fn accepts(&self, event: &DisconnectEvent) -> (r: bool)
        ensures
            r == self.expects(*event),
    {
        match &self.stage {
            DisconnectStage::FindingConnection => matches!(event, DisconnectEvent::ConnectionFound(_)),
            DisconnectStage::DeletingConnection => matches!(event, DisconnectEvent::ConnectionDeleted(_)),
            DisconnectStage::DeletingSubscriptions => matches!(event, DisconnectEvent::SubscriptionsDeleted(_)),
            DisconnectStage::UpdatingPresence => matches!(event, DisconnectEvent::PresenceUpdated(_)),
            DisconnectStage::ListingGroups => matches!(event, DisconnectEvent::GroupsListed(_)),
            DisconnectStage::ListingSubscribers => matches!(event, DisconnectEvent::SubscribersListed(_)),
            DisconnectStage::Announcing => matches!(event, DisconnectEvent::Announced),
            DisconnectStage::Finished => false,
        }
    }

    /// What one step does: from this flow, on `event`, the flow becomes `next`
    /// and asks for `action`.
    pub open spec fn step_taken(&self, event: DisconnectEvent, next: DisconnectFlow, action: DisconnectAction) -> bool {
        let reply = DisconnectAction::Reply { status_code: route_ok() };
        &&& next.connection_id == self.connection_id
        &&& (action is Reply) == (next.stage == DisconnectStage::Finished)
        &&& match (self.stage, event) {
            (DisconnectStage::FindingConnection, DisconnectEvent::ConnectionFound(Err(_))) => action == reply,
            (DisconnectStage::FindingConnection, DisconnectEvent::ConnectionFound(Ok(conn))) => {
                &&& next.user_id == conn.user_id
                &&& next.stage == DisconnectStage::DeletingConnection
                &&& action == DisconnectAction::DeleteConnection { connection_id: self.connection_id }
            },
            (DisconnectStage::DeletingConnection, _) => {
                &&& next.user_id == self.user_id
                &&& next.stage == DisconnectStage::DeletingSubscriptions
                &&& action == DisconnectAction::DeleteSubscriptions { connection_id: self.connection_id }
            },
            (DisconnectStage::DeletingSubscriptions, _) => {
                &&& next.user_id == self.user_id
                &&& next.stage == DisconnectStage::UpdatingPresence
                &&& action == DisconnectAction::UpdateLastSeen { user_id: self.user_id }
            },
            (DisconnectStage::UpdatingPresence, _) => {
                &&& next.user_id == self.user_id
                &&& next.stage == DisconnectStage::ListingGroups
                &&& action == DisconnectAction::ListGroups { connection_id: self.connection_id }
            },
            (DisconnectStage::ListingGroups, DisconnectEvent::GroupsListed(Err(_))) => action == reply,
            (DisconnectStage::ListingGroups, DisconnectEvent::GroupsListed(Ok(groups))) => {
                if groups@.len() == 0 {
                    action == reply
                } else {
                    &&& next.user_id == self.user_id
                    &&& next.groups == groups
                    &&& next.current == 0
                    &&& next.stage == DisconnectStage::ListingSubscribers
                    &&& action == DisconnectAction::ListSubscribers { group_id: groups@[0] }
                }
            },
            (DisconnectStage::ListingSubscribers, DisconnectEvent::SubscribersListed(listed)) => {
                &&& next.user_id == self.user_id
                &&& next.groups == self.groups
                &&& next.current == self.current
                &&& next.stage == DisconnectStage::Announcing
                &&& action matches DisconnectAction::AnnouncePresence { connection_ids, group_id, user_id, status }
                &&& connection_ids@ == match listed {
                    Ok(ids) => ids@,
                    Err(_) => Seq::<String>::empty(),
                }
                &&& group_id == self.groups@[self.current as int]
                &&& user_id == self.user_id
                &&& status@ == "offline"@
            },
            (DisconnectStage::Announcing, DisconnectEvent::Announced) => {
                if self.current + 1 < self.groups@.len() {
                    &&& next.user_id == self.user_id
                    &&& next.groups == self.groups
                    &&& next.current == self.current + 1
                    &&& next.stage == DisconnectStage::ListingSubscribers
                    &&& action == DisconnectAction::ListSubscribers {
                        group_id: self.groups@[self.current + 1],
                    }
                } else {
                    action == reply
                }
            },
            _ => false,
        }
    }

    /// Takes the outcome of the last operation and gives the next one.
    pub fn step(&mut self, event: DisconnectEvent) -> (action: DisconnectAction)
        requires
            old(self).wf(),
            old(self).expects(event),
        ensures
            final(self).wf(),
            action is Reply ==> action == (DisconnectAction::Reply { status_code: route_ok() }),
            old(self).step_taken(event, *final(self), action),
    {
        let stage = self.stage;
        self.stage = DisconnectStage::Finished;
        match (stage, event) {
            (DisconnectStage::FindingConnection, DisconnectEvent::ConnectionFound(Ok(conn))) => {
                self.user_id = conn.user_id;
                self.stage = DisconnectStage::DeletingConnection;
                DisconnectAction::DeleteConnection { connection_id: self.connection_id.clone() }
            },
            (DisconnectStage::DeletingConnection, _) => {
                self.stage = DisconnectStage::DeletingSubscriptions;
                DisconnectAction::DeleteSubscriptions { connection_id: self.connection_id.clone() }
            },
            (DisconnectStage::DeletingSubscriptions, _) => {
                self.stage = DisconnectStage::UpdatingPresence;
                DisconnectAction::UpdateLastSeen { user_id: self.user_id.clone() }
            },
            (DisconnectStage::UpdatingPresence, _) => {
                self.stage = DisconnectStage::ListingGroups;
                DisconnectAction::ListGroups { connection_id: self.connection_id.clone() }
            },
            (DisconnectStage::ListingGroups, DisconnectEvent::GroupsListed(Err(_))) => {
                DisconnectAction::Reply { status_code: 200 }
            },
            (DisconnectStage::ListingGroups, DisconnectEvent::GroupsListed(Ok(groups))) => {
                if groups.len() == 0 {
                    DisconnectAction::Reply { status_code: 200 }
                } else {
                    let first = groups[0].clone();
                    self.groups = groups;
                    self.current = 0;
                    self.stage = DisconnectStage::ListingSubscribers;
                    DisconnectAction::ListSubscribers { group_id: first }
                }
            },
            (DisconnectStage::ListingSubscribers, DisconnectEvent::SubscribersListed(listed)) => {
                self.stage = DisconnectStage::Announcing;
                let connection_ids = match listed {
                    Ok(ids) => ids,
                    Err(_) => Vec::new(),
                };
                DisconnectAction::AnnouncePresence {
                    connection_ids,
                    group_id: self.groups[self.current].clone(),
                    user_id: self.user_id.clone(),
                    status: String::from_str("offline"),
                }
            },
            (DisconnectStage::Announcing, DisconnectEvent::Announced) => {
                if self.current < self.groups.len() && self.groups.len() - self.current > 1 {
                    self.current = self.current + 1;
                    self.stage = DisconnectStage::ListingSubscribers;
                    DisconnectAction::ListSubscribers { group_id: self.groups[self.current].clone() }
                } else {
                    DisconnectAction::Reply { status_code: 200 }
                }
            },
            _ => DisconnectAction::Reply { status_code: 200 },
        }
    }
}

} // verus!
