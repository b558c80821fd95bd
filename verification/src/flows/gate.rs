use vstd::prelude::*;
use crate::connection::WsConnection;
use crate::flows::common::RouteEvent;
use crate::membership::forbidden_push;
use crate::types::ServerPush;

verus! {

/// Where the connection-and-membership check stands.
#[derive(Debug, Clone, PartialEq, Eq)]
pub enum GateStage {
    /// The connection record is being looked up.
    LookingUpConnection,
    /// The membership of the connection's user is being checked.
    CheckingMembership { conn: WsConnection },
    /// The connection is being told that it is forbidden.
    ReportingForbidden,
    /// The check is over.
    Done,
}

/// An operation that the check asks for, or its result.
#[derive(Debug, PartialEq)]
pub enum GateAction {
    /// Look up the record of this connection.
    GetConnection { connection_id: String },
    /// Check that this user is an active member of this group.
    CheckMembership { group_id: String, user_id: String },
    /// Push this message to this connection.
    Push { connection_id: String, push: ServerPush },
    /// The check is over: the connection's record when it passed.
    Finish(Result<WsConnection, ()>),
}

/// The check that a request comes from a known connection whose user is an
/// active member of the group: an unknown connection fails silently; a
/// non-member is told `FORBIDDEN` with the membership failure's message.
#[derive(Debug, Clone, PartialEq, Eq)]
pub struct MembershipGate {
    pub connection_id: String,
    pub group_id: String,
    pub stage: GateStage,
}

impl MembershipGate {
    /// The event fits the stage the check is in.
    pub open spec fn expects(&self, event: RouteEvent) -> bool {
        match (self.stage, event) {
            (GateStage::LookingUpConnection, RouteEvent::ConnectionFound(_)) => true,
            (GateStage::CheckingMembership { .. }, RouteEvent::MembershipChecked(_)) => true,
            (GateStage::ReportingForbidden, RouteEvent::Pushed) => true,
            _ => false,
        }
    }

    /// Whether the event fits the stage the check is in.
    pub fn accepts(&self, event: &RouteEvent) -> (r: bool)
        ensures
            r == self.expects(*event),
    {
        match (&self.stage, event) {
            (GateStage::LookingUpConnection, RouteEvent::ConnectionFound(_)) => true,
            (GateStage::CheckingMembership { .. }, RouteEvent::MembershipChecked(_)) => true,
            (GateStage::ReportingForbidden, RouteEvent::Pushed) => true,
            _ => false,
        }
    }

    /// Starts the check of `connection_id` for `group_id`: the first
    /// operation is to look the connection up.
    pub fn start(connection_id: String, group_id: String) -> (r: (MembershipGate, GateAction))
        ensures
            r.0.connection_id == connection_id,
            r.0.group_id == group_id,
            r.0.stage == GateStage::LookingUpConnection,
            r.1 == (GateAction::GetConnection { connection_id }),
    {
        let action = GateAction::GetConnection { connection_id: connection_id.clone() };
        let gate = MembershipGate { connection_id, group_id, stage: GateStage::LookingUpConnection };
        (gate, action)
    }

    /// Takes the outcome of the last operation and gives the next one: a
    /// failed lookup ends the check as failed; a found connection has its
    /// user's membership checked; membership passes the check with the
    /// connection's record; a failed membership check is pushed to the
    /// connection as `FORBIDDEN` with the failure's message, and then the
    /// check fails. The check is over exactly when it says `Finish`.
    pub fn step(&mut self, event: RouteEvent) -> (action: GateAction)
        requires
            old(self).expects(event),
        ensures
            final(self).connection_id == old(self).connection_id,
            final(self).group_id == old(self).group_id,
            (action is Finish) == (final(self).stage == GateStage::Done),
            match event {
                RouteEvent::ConnectionFound(Err(_)) => action == GateAction::Finish(Err(())),
                RouteEvent::ConnectionFound(Ok(conn)) => {
                    &&& final(self).stage == GateStage::CheckingMembership { conn }
                    &&& action == GateAction::CheckMembership {
                        group_id: old(self).group_id,
                        user_id: conn.user_id,
                    }
                },
                RouteEvent::MembershipChecked(Ok(())) => old(self).stage matches GateStage::CheckingMembership { conn }
                    && action == GateAction::Finish(Ok(conn)),
                RouteEvent::MembershipChecked(Err(e)) => {
                    &&& final(self).stage == GateStage::ReportingForbidden
                    &&& action matches GateAction::Push { connection_id, push }
                    &&& connection_id == old(self).connection_id
                    &&& push matches ServerPush::Error { code, message }
                    &&& code@ == "FORBIDDEN"@
                    &&& message@ == e.label() + e.detail()
                },
                RouteEvent::Pushed => action == GateAction::Finish(Err(())),
                _ => false,
            },
    {
        match event {
            RouteEvent::ConnectionFound(Err(_)) => {
                self.stage = GateStage::Done;
                GateAction::Finish(Err(()))
            },
            RouteEvent::ConnectionFound(Ok(conn)) => {
                let action = GateAction::CheckMembership {
                    group_id: self.group_id.clone(),
                    user_id: conn.user_id.clone(),
                };
                self.stage = GateStage::CheckingMembership { conn };
                action
            },
            RouteEvent::MembershipChecked(Ok(())) => {
                let mut stage = GateStage::Done;
                std::mem::swap(&mut stage, &mut self.stage);
                match stage {
                    GateStage::CheckingMembership { conn } => GateAction::Finish(Ok(conn)),
                    _ => GateAction::Finish(Err(())),
                }
            },
            RouteEvent::MembershipChecked(Err(e)) => {
                self.stage = GateStage::ReportingForbidden;
                GateAction::Push {
                    connection_id: self.connection_id.clone(),
                    push: forbidden_push(&e),
                }
            },
            _ => {
                self.stage = GateStage::Done;
                GateAction::Finish(Err(()))
            },
        }
    }
}

} // verus!
