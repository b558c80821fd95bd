use vstd::prelude::*;
use vstd::string::*;
use crate::flows::common::{or_unknown, route_ok, value_or_unknown, RouteEvent};
use crate::flows::gate::{GateAction, GateStage, MembershipGate};
use crate::types::{ClientMessage, ServerPush};

verus! {

/// Where a `chat.join` / `chat.leave` request stands.
#[derive(Debug, Clone, PartialEq, Eq)]
pub enum SubscribeStage {
    /// The body has not been read yet.
    Start,
    /// A join: the connection and its user's membership are being checked.
    Joining { group_id: String, gate: MembershipGate },
    /// A join: the subscription is being written.
    Subscribing,
    /// A leave: the subscription is being deleted.
    Unsubscribing,
    /// The last push (an acknowledgement or an error) is being sent.
    Answering,
    /// The reply has been given.
    Finished,
}

/// An operation that the subscription handler asks for.
#[derive(Debug, PartialEq)]
pub enum SubscribeAction {
    /// Look up the record of this connection.
    GetConnection { connection_id: String },
    /// Check that this user is an active member of this group.
    CheckMembership { group_id: String, user_id: String },
    /// Push this message to this connection.
    Push { connection_id: String, push: ServerPush },
    /// Subscribe this connection of this user to this group.
    PutSubscription { group_id: String, connection_id: String, user_id: String },
    /// End this connection's subscription to this group.
    DeleteSubscription { group_id: String, connection_id: String },
    /// Answer the request with this status and stop.
    Reply { status_code: u16 },
}

/// The message of the error pushed for an unreadable body.
pub open spec fn invalid_body_text(detail: Seq<char>) -> Seq<char> {
    "Invalid message body: "@ + detail
}

/// The handler of `chat.join` and `chat.leave`: a join subscribes the
/// connection once its user passed the membership check; a leave ends the
/// subscription; both are acknowledged; an unreadable body is answered with a
/// `BAD_REQUEST` push. The request itself is always answered 200.
#[derive(Debug, Clone, PartialEq, Eq)]
pub struct SubscribeFlow {
    pub connection_id: String,
    pub stage: SubscribeStage,
}

impl SubscribeFlow {
    /// A join in progress checks this flow's connection for the group it joins.
    pub open spec fn wf(&self) -> bool {
        self.stage matches SubscribeStage::Joining { group_id, gate } ==> gate.group_id == group_id
            && gate.connection_id == self.connection_id
    }

    /// The event fits the stage the flow is in.
    pub open spec fn expects(&self, event: RouteEvent) -> bool {
        match self.stage {
            SubscribeStage::Start => event is BodyParsed,
            SubscribeStage::Joining { gate, .. } => gate.expects(event),
            SubscribeStage::Subscribing => event is SubscriptionPut,
            SubscribeStage::Unsubscribing => event is SubscriptionDeleted,
            SubscribeStage::Answering => event is Pushed,
            SubscribeStage::Finished => false,
        }
    }

    /// A flow for a request on `connection_id` (`unknown` where the request
    /// has none) that has read nothing yet.
    pub fn new(connection_id: Option<String>) -> (flow: SubscribeFlow)
        ensures
            flow.wf(),
            flow.connection_id@ == value_or_unknown(connection_id),
            flow.stage == SubscribeStage::Start,
    {
        SubscribeFlow { connection_id: or_unknown(connection_id), stage: SubscribeStage::Start }
    }

    /// Whether the event fits the stage the flow is in.
    pub fn accepts(&self, event: &RouteEvent) -> (r: bool)
        ensures
            r == self.expects(*event),
    {
        match &self.stage {
            SubscribeStage::Start => matches!(event, RouteEvent::BodyParsed(_)),
            SubscribeStage::Joining { gate, .. } => gate.accepts(event),
            SubscribeStage::Subscribing => matches!(event, RouteEvent::SubscriptionPut(_)),
            SubscribeStage::Unsubscribing => matches!(event, RouteEvent::SubscriptionDeleted(_)),
            SubscribeStage::Answering => matches!(event, RouteEvent::Pushed),
            SubscribeStage::Finished => false,
        }
    }

    /// What one step does: from this flow, on `event`, the flow becomes `next`
    /// and asks for `action`.
    pub open spec fn step_taken(&self, event: RouteEvent, next: SubscribeFlow, action: SubscribeAction) -> bool {
        &&& next.connection_id == self.connection_id
        &&& (action is Reply) == (next.stage == SubscribeStage::Finished)
        &&& match (self.stage, event) {
            (SubscribeStage::Start, RouteEvent::BodyParsed(Err(e))) => {
                &&& next.stage == SubscribeStage::Answering
                &&& action matches SubscribeAction::Push { connection_id, push }
                &&& connection_id == self.connection_id
                &&& push matches ServerPush::Error { code, message }
                &&& code@ == "BAD_REQUEST"@
                &&& message@ == invalid_body_text(e@)
            },
            (SubscribeStage::Start, RouteEvent::BodyParsed(Ok(ClientMessage::ChatJoin { group_id }))) => {
                &&& next.stage matches SubscribeStage::Joining { group_id: g, gate }
                &&& g == group_id
                &&& gate.connection_id == self.connection_id
                &&& gate.group_id == group_id
                &&& gate.stage == GateStage::LookingUpConnection
                &&& action == SubscribeAction::GetConnection {
                    connection_id: self.connection_id,
                }
            },
            (SubscribeStage::Start, RouteEvent::BodyParsed(Ok(ClientMessage::ChatLeave { group_id }))) => {
                &&& next.stage == SubscribeStage::Unsubscribing
                &&& action == SubscribeAction::DeleteSubscription {
                    group_id,
                    connection_id: self.connection_id,
                }
            },
            (SubscribeStage::Joining { group_id, gate }, RouteEvent::ConnectionFound(Err(_))) => {
                action == SubscribeAction::Reply { status_code: route_ok() }
            },
            (SubscribeStage::Joining { group_id, gate }, RouteEvent::ConnectionFound(Ok(conn))) => {
                &&& next.stage matches SubscribeStage::Joining { group_id: g, gate: later }
                &&& g == group_id
                &&& later.stage == GateStage::CheckingMembership { conn }
                &&& action == SubscribeAction::CheckMembership { group_id, user_id: conn.user_id }
            },
            (SubscribeStage::Joining { group_id, gate }, RouteEvent::MembershipChecked(Ok(()))) => {
                &&& gate.stage matches GateStage::CheckingMembership { conn }
                &&& next.stage == SubscribeStage::Subscribing
                &&& action == SubscribeAction::PutSubscription {
                    group_id,
                    connection_id: self.connection_id,
                    user_id: conn.user_id,
                }
            },
            (SubscribeStage::Joining { group_id, gate }, RouteEvent::MembershipChecked(Err(e))) => {
                &&& next.stage matches SubscribeStage::Joining { group_id: g, gate: later }
                &&& g == group_id
                &&& later.stage == GateStage::ReportingForbidden
                &&& action matches SubscribeAction::Push { connection_id, push }
                &&& connection_id == self.connection_id
                &&& push matches ServerPush::Error { code, message }
                &&& code@ == "FORBIDDEN"@
                &&& message@ == e.label() + e.detail()
            },
            (SubscribeStage::Joining { group_id, gate }, RouteEvent::Pushed) => {
                action == SubscribeAction::Reply { status_code: route_ok() }
            },
            (SubscribeStage::Subscribing, _) => {
                &&& next.stage == SubscribeStage::Answering
                &&& action matches SubscribeAction::Push { connection_id, push }
                &&& connection_id == self.connection_id
                &&& push matches ServerPush::Ack { action: a }
                &&& a@ == "chat.join"@
            },
            (SubscribeStage::Unsubscribing, _) => {
                &&& next.stage == SubscribeStage::Answering
                &&& action matches SubscribeAction::Push { connection_id, push }
                &&& connection_id == self.connection_id
                &&& push matches ServerPush::Ack { action: a }
                &&& a@ == "chat.leave"@
            },
            (SubscribeStage::Answering, _) => action == SubscribeAction::Reply {
                status_code: route_ok(),
            },
            _ => false,
        }
    }

    /// Takes the outcome of the last operation and gives the next one.
    pub fn step(&mut self, event: RouteEvent) -> (action: SubscribeAction)
        requires
            old(self).wf(),
            old(self).expects(event),
        ensures
            final(self).wf(),
            action is Reply ==> action == (SubscribeAction::Reply { status_code: route_ok() }),
            old(self).step_taken(event, *final(self), action),
    {
        let mut stage = SubscribeStage::Finished;
        std::mem::swap(&mut stage, &mut self.stage);
        match stage {
            SubscribeStage::Start => match event {
                RouteEvent::BodyParsed(Err(e)) => {
                    self.stage = SubscribeStage::Answering;
                    SubscribeAction::Push {
                        connection_id: self.connection_id.clone(),
                        push: ServerPush::Error {
                            code: String::from_str("BAD_REQUEST"),
                            message: String::from_str("Invalid message body: ").concat(e.as_str()),
                        },
                    }
                },
                RouteEvent::BodyParsed(Ok(ClientMessage::ChatJoin { group_id })) => {
                    let (gate, first) = MembershipGate::start(self.connection_id.clone(), group_id.clone());
                    self.stage = SubscribeStage::Joining { group_id, gate };
                    match first {
                        GateAction::GetConnection { connection_id } => SubscribeAction::GetConnection {
                            connection_id,
                        },
                        _ => SubscribeAction::Reply { status_code: 200 },
                    }
                },
                RouteEvent::BodyParsed(Ok(ClientMessage::ChatLeave { group_id })) => {
                    self.stage = SubscribeStage::Unsubscribing;
                    SubscribeAction::DeleteSubscription {
                        group_id,
                        connection_id: self.connection_id.clone(),
                    }
                },
                _ => SubscribeAction::Reply { status_code: 200 },
            },
            SubscribeStage::Joining { group_id, mut gate } => {
                let gate_action = gate.step(event);
                match gate_action {
                    GateAction::GetConnection { connection_id } => {
                        self.stage = SubscribeStage::Joining { group_id, gate };
                        SubscribeAction::GetConnection { connection_id }
                    },
                    GateAction::CheckMembership { group_id: g, user_id } => {
                        self.stage = SubscribeStage::Joining { group_id, gate };
                        SubscribeAction::CheckMembership { group_id: g, user_id }
                    },
                    GateAction::Push { connection_id, push } => {
                        self.stage = SubscribeStage::Joining { group_id, gate };
                        SubscribeAction::Push { connection_id, push }
                    },
                    GateAction::Finish(Ok(conn)) => {
                        self.stage = SubscribeStage::Subscribing;
                        SubscribeAction::PutSubscription {
                            group_id,
                            connection_id: self.connection_id.clone(),
                            user_id: conn.user_id,
                        }
                    },
                    GateAction::Finish(Err(())) => SubscribeAction::Reply { status_code: 200 },
                }
            },
            SubscribeStage::Subscribing => {
                self.stage = SubscribeStage::Answering;
                SubscribeAction::Push {
                    connection_id: self.connection_id.clone(),
                    push: ServerPush::Ack { action: String::from_str("chat.join") },
                }
            },
            SubscribeStage::Unsubscribing => {
                self.stage = SubscribeStage::Answering;
                SubscribeAction::Push {
                    connection_id: self.connection_id.clone(),
                    push: ServerPush::Ack { action: String::from_str("chat.leave") },
                }
            },
            _ => SubscribeAction::Reply { status_code: 200 },
        }
    }
}

/// `flows`, `events` and `actions` are a run of the subscription handler:
/// it starts from a fresh flow, and each flow takes the next event, becoming
/// the next flow and asking for the next action.
pub open spec fn is_subscribe_run(flows: Seq<SubscribeFlow>, events: Seq<RouteEvent>, actions: Seq<SubscribeAction>) -> bool {
    &&& flows.len() == events.len() + 1
    &&& actions.len() == events.len()
    &&& flows[0].stage == SubscribeStage::Start
    &&& forall|i: int|
        #![trigger events[i]]
        0 <= i < events.len() ==> flows[i].wf() && flows[i].expects(events[i]) && flows[i].step_taken(
            events[i],
            flows[i + 1],
            actions[i],
        )
}

/// What holds of a subscription run after its first `k` events.
pub open spec fn subscribe_prefix_holds(flows: Seq<SubscribeFlow>, events: Seq<RouteEvent>, k: int) -> bool {
    &&& flows[k].connection_id == flows[0].connection_id
    &&& flows[k].stage matches SubscribeStage::Joining { group_id, gate } ==> {
        &&& exists|j: int|
            0 <= j < k && #[trigger] events[j] == RouteEvent::BodyParsed(
                Ok(ClientMessage::ChatJoin { group_id }),
            )
        &&& gate.stage matches GateStage::CheckingMembership { conn } ==> exists|j: int|
            0 <= j < k && #[trigger] events[j] == RouteEvent::ConnectionFound(Ok(conn))
    }
}

proof fn lemma_subscribe_prefix(flows: Seq<SubscribeFlow>, events: Seq<RouteEvent>, actions: Seq<SubscribeAction>, k: int)
    requires
        is_subscribe_run(flows, events, actions),
        0 <= k <= events.len(),
    ensures
        subscribe_prefix_holds(flows, events, k),
    decreases k,
{
    if k > 0 {
        let j = k - 1;
        lemma_subscribe_prefix(flows, events, actions, j);
        let e = events[j];
        assert(flows[j].wf() && flows[j].expects(e) && flows[j].step_taken(e, flows[k], actions[j]));
        match flows[j].stage {
            SubscribeStage::Start => {
                match e {
                    RouteEvent::BodyParsed(Ok(ClientMessage::ChatJoin { group_id })) => {
                        assert(events[j] == RouteEvent::BodyParsed(Ok(ClientMessage::ChatJoin { group_id })));
                    },
                    _ => {},
                }
            },
            SubscribeStage::Joining { group_id, gate } => {
                let g0 = choose|i: int|
                    0 <= i < j && #[trigger] events[i] == RouteEvent::BodyParsed(
                        Ok(ClientMessage::ChatJoin { group_id }),
                    );
                assert(events[g0] == RouteEvent::BodyParsed(Ok(ClientMessage::ChatJoin { group_id })));
                match e {
                    RouteEvent::ConnectionFound(Ok(conn)) => {
                        assert(events[j] == RouteEvent::ConnectionFound(Ok(conn)));
                    },
                    _ => {},
                }
            },
            _ => {},
        }
    }
}

/// The subscription handler subscribes only members: in any run, a request
/// to write a subscription comes right after a successful membership check,
/// for a group that a `chat.join` named and under the user of the connection
/// record that was found, on the run's own connection.
pub proof fn lemma_only_members_are_subscribed(
    flows: Seq<SubscribeFlow>,
    events: Seq<RouteEvent>,
    actions: Seq<SubscribeAction>,
    i: int,
)
    requires
        is_subscribe_run(flows, events, actions),
        0 <= i < actions.len(),
        actions[i] is PutSubscription,
    ensures
        actions[i] matches SubscribeAction::PutSubscription { group_id, connection_id, user_id } && {
            &&& events[i] == RouteEvent::MembershipChecked(Ok(()))
            &&& connection_id == flows[0].connection_id
            &&& exists|j: int|
                0 <= j < i && #[trigger] events[j] == RouteEvent::BodyParsed(
                    Ok(ClientMessage::ChatJoin { group_id }),
                )
            &&& exists|j: int|
                0 <= j < i && (#[trigger] events[j] matches RouteEvent::ConnectionFound(Ok(conn))
                    && conn.user_id == user_id)
        },
{
    lemma_subscribe_prefix(flows, events, actions, i);
    let e = events[i];
    assert(flows[i].wf() && flows[i].expects(e) && flows[i].step_taken(e, flows[i + 1], actions[i]));
    match flows[i].stage {
        SubscribeStage::Joining { group_id, gate } => {
            match e {
                RouteEvent::MembershipChecked(Ok(u)) => {
                    assert(u == ());
                    assert(e == RouteEvent::MembershipChecked(Ok(())));
                    match gate.stage {
                        GateStage::CheckingMembership { conn } => {
                            let c = choose|j: int|
                                0 <= j < i && #[trigger] events[j] == RouteEvent::ConnectionFound(Ok(conn));
                            assert(events[c] matches RouteEvent::ConnectionFound(Ok(cc)) && cc.user_id
                                == conn.user_id);
                        },
                        _ => {},
                    }
                },
                RouteEvent::MembershipChecked(Err(_)) => {},
                RouteEvent::ConnectionFound(_) => {},
                _ => {},
            }
        },
        SubscribeStage::Start => {
            match e {
                RouteEvent::BodyParsed(Ok(ClientMessage::ChatJoin { .. })) => {},
                _ => {},
            }
        },
        _ => {},
    }
}

/// A join is always acknowledged: in any run, the outcome of writing the
/// subscription, success or failure, is followed by a `chat.join`
/// acknowledgement pushed to the run's own connection, and the push by the
/// 200 reply.
pub proof fn lemma_join_is_acknowledged(
    flows: Seq<SubscribeFlow>,
    events: Seq<RouteEvent>,
    actions: Seq<SubscribeAction>,
    i: int,
)
    requires
        is_subscribe_run(flows, events, actions),
        0 <= i < actions.len(),
        actions[i] is PutSubscription,
    ensures
        i + 1 < actions.len() ==> (events[i + 1] is SubscriptionPut && (actions[i + 1] matches SubscribeAction::Push {
            connection_id,
            push: ServerPush::Ack { action },
        } && connection_id == flows[0].connection_id && action@ == "chat.join"@)),
        i + 2 < actions.len() ==> (events[i + 2] is Pushed && actions[i + 2] == (SubscribeAction::Reply {
            status_code: route_ok(),
        })),
{
    lemma_subscribe_prefix(flows, events, actions, i + 1);
    assert(flows[i].expects(events[i]) && flows[i].step_taken(events[i], flows[i + 1], actions[i]));
    assert(flows[i + 1].stage == SubscribeStage::Subscribing);
    if i + 1 < actions.len() {
        assert(flows[i + 1].expects(events[i + 1]) && flows[i + 1].step_taken(
            events[i + 1],
            flows[i + 2],
            actions[i + 1],
        ));
        assert(flows[i + 2].stage == SubscribeStage::Answering);
        if i + 2 < actions.len() {
            assert(flows[i + 2].expects(events[i + 2]) && flows[i + 2].step_taken(
                events[i + 2],
                flows[i + 3],
                actions[i + 2],
            ));
        }
    }
}

/// A leave is always acknowledged: in any run, the outcome of deleting the
/// subscription, success or failure, is followed by a `chat.leave`
/// acknowledgement pushed to the run's own connection, and the push by the
/// 200 reply; the deletion is of the run's own connection.
pub proof fn lemma_leave_is_acknowledged(
    flows: Seq<SubscribeFlow>,
    events: Seq<RouteEvent>,
    actions: Seq<SubscribeAction>,
    i: int,
)
    requires
        is_subscribe_run(flows, events, actions),
        0 <= i < actions.len(),
        actions[i] is DeleteSubscription,
    ensures
        actions[i] matches SubscribeAction::DeleteSubscription { group_id, connection_id }
            && connection_id == flows[0].connection_id
            && events[i] == RouteEvent::BodyParsed(Ok(ClientMessage::ChatLeave { group_id })),
        i + 1 < actions.len() ==> (events[i + 1] is SubscriptionDeleted && (actions[i + 1] matches SubscribeAction::Push {
            connection_id,
            push: ServerPush::Ack { action },
        } && connection_id == flows[0].connection_id && action@ == "chat.leave"@)),
        i + 2 < actions.len() ==> (events[i + 2] is Pushed && actions[i + 2] == (SubscribeAction::Reply {
            status_code: route_ok(),
        })),
{
    lemma_subscribe_prefix(flows, events, actions, i + 1);
    lemma_subscribe_prefix(flows, events, actions, i);
    assert(flows[i].expects(events[i]) && flows[i].step_taken(events[i], flows[i + 1], actions[i]));
    assert(flows[i + 1].stage == SubscribeStage::Unsubscribing);
    if i + 1 < actions.len() {
        assert(flows[i + 1].expects(events[i + 1]) && flows[i + 1].step_taken(
            events[i + 1],
            flows[i + 2],
            actions[i + 1],
        ));
        assert(flows[i + 2].stage == SubscribeStage::Answering);
        if i + 2 < actions.len() {
            assert(flows[i + 2].expects(events[i + 2]) && flows[i + 2].step_taken(
                events[i + 2],
                flows[i + 3],
                actions[i + 2],
            ));
        }
    }
}

} // verus!
