use vstd::prelude::*;
use crate::auth::{first_value, query_token};
use crate::errors::WsError;
use crate::flows::common::{or_unknown, value_or_unknown};

verus! {

/// Where a `$connect` request stands.
#[derive(Debug, Clone, PartialEq, Eq)]
pub enum ConnectStage {
    /// Nothing received yet.
    Start,
    /// The token is being verified.
    VerifyingToken,
    /// The connection of the user named is being stored.
    Storing { user_id: String },
    /// The reply has been given.
    Finished,
}

/// The outcome of an operation that the `$connect` handler asked for.
#[derive(Debug, PartialEq, Eq)]
pub enum ConnectEvent {
    /// The request arrived, with its connection id and query-string parameters.
    Requested { connection_id: Option<String>, query: Vec<(String, String)> },
    /// The token was verified and names this user, or was rejected with this description.
    TokenChecked(Result<String, String>),
    /// The connection record was written, or not.
    Stored(Result<(), WsError>),
}

/// An operation that the `$connect` handler asks for.
#[derive(Debug, Clone, PartialEq, Eq)]
pub enum ConnectAction {
    /// Verify this token and report its subject.
    VerifyToken { token: String },
    /// Store the record of this connection for this user.
    StoreConnection { connection_id: String, user_id: String },
    /// Answer the request with this status and stop.
    Reply { status_code: u16 },
}

/// The `$connect` handler: a connection is accepted only with a valid token,
/// and is recorded under the token's subject.
#[derive(Debug, Clone, PartialEq, Eq)]
pub struct ConnectFlow {
    pub connection_id: String,
    pub stage: ConnectStage,
}

impl ConnectFlow {
    /// The event fits the stage the flow is in.
    pub open spec fn expects(&self, event: ConnectEvent) -> bool {
        match (self.stage, event) {
            (ConnectStage::Start, ConnectEvent::Requested { .. }) => true,
            (ConnectStage::VerifyingToken, ConnectEvent::TokenChecked(_)) => true,
            (ConnectStage::Storing { .. }, ConnectEvent::Stored(_)) => true,
            _ => false,
        }
    }

    /// A flow that has received nothing.
    pub fn new() -> (flow: ConnectFlow)
        ensures
            flow.connection_id@ == Seq::<char>::empty(),
            flow.stage == ConnectStage::Start,
    {
        ConnectFlow { connection_id: String::new(), stage: ConnectStage::Start }
    }

    /// Whether the event fits the stage the flow is in.
    pub fn accepts(&self, event: &ConnectEvent) -> (r: bool)
        ensures
            r == self.expects(*event),
    {
        match (&self.stage, event) {
            (ConnectStage::Start, ConnectEvent::Requested { .. }) => true,
            (ConnectStage::VerifyingToken, ConnectEvent::TokenChecked(_)) => true,
            (ConnectStage::Storing { .. }, ConnectEvent::Stored(_)) => true,
            _ => false,
        }
    }

    /// What one step does: from this flow, on `event`, the flow becomes `next`
    /// and asks for `action`. A request without a token, or whose token is
    /// rejected, is answered 401; a verified request stores the connection
    /// under the token's subject and is answered 200 once stored, 500 when
    /// storing failed. The flow is finished exactly when it replies.
    pub open spec fn step_taken(&self, event: ConnectEvent, next: ConnectFlow, action: ConnectAction) -> bool {
        &&& (action is Reply) == (next.stage == ConnectStage::Finished)
        &&& match event {
            ConnectEvent::Requested { connection_id, query } => {
                &&& next.connection_id@ == value_or_unknown(connection_id)
                &&& match first_value(query@, "token"@) {
                    Some(t) => action matches ConnectAction::VerifyToken { token } && token@ == t
                        && next.stage == ConnectStage::VerifyingToken,
                    None => action == ConnectAction::Reply { status_code: 401 },
                }
            },
            ConnectEvent::TokenChecked(Ok(subject)) => {
                &&& next.connection_id == self.connection_id
                &&& next.stage == ConnectStage::Storing { user_id: subject }
                &&& action == ConnectAction::StoreConnection {
                    connection_id: self.connection_id,
                    user_id: subject,
                }
            },
            ConnectEvent::TokenChecked(Err(_)) => action == ConnectAction::Reply { status_code: 401 },
            ConnectEvent::Stored(Ok(())) => action == ConnectAction::Reply { status_code: 200 },
            ConnectEvent::Stored(Err(_)) => action == ConnectAction::Reply { status_code: 500 },
        }
    }

    /// Takes the outcome of the last operation and gives the next one.
    pub fn step(&mut self, event: ConnectEvent) -> (action: ConnectAction)
        requires
            old(self).expects(event),
        ensures
            old(self).step_taken(event, *final(self), action),
    {
        match event {
            ConnectEvent::Requested { connection_id, query } => {
                self.connection_id = or_unknown(connection_id);
                match query_token(&query) {
                    Ok(token) => {
                        self.stage = ConnectStage::VerifyingToken;
                        ConnectAction::VerifyToken { token }
                    },
                    Err(_) => {
                        self.stage = ConnectStage::Finished;
                        ConnectAction::Reply { status_code: 401 }
                    },
                }
            },
            ConnectEvent::TokenChecked(Ok(subject)) => {
                self.stage = ConnectStage::Storing { user_id: subject.clone() };
                ConnectAction::StoreConnection {
                    connection_id: self.connection_id.clone(),
                    user_id: subject,
                }
            },
            ConnectEvent::TokenChecked(Err(_)) => {
                self.stage = ConnectStage::Finished;
                ConnectAction::Reply { status_code: 401 }
            },
            ConnectEvent::Stored(Ok(())) => {
                self.stage = ConnectStage::Finished;
                ConnectAction::Reply { status_code: 200 }
            },
            ConnectEvent::Stored(Err(_)) => {
                self.stage = ConnectStage::Finished;
                ConnectAction::Reply { status_code: 500 }
            },
        }
    }
}

/// `flows`, `events` and `actions` are a run of the `$connect` handler: it
/// starts from a fresh flow, and each flow takes the next event, becoming
/// the next flow and asking for the next action.
pub open spec fn is_connect_run(flows: Seq<ConnectFlow>, events: Seq<ConnectEvent>, actions: Seq<ConnectAction>) -> bool {
    &&& flows.len() == events.len() + 1
    &&& actions.len() == events.len()
    &&& flows[0].stage == ConnectStage::Start
    &&& forall|i: int|
        #![trigger events[i]]
        0 <= i < events.len() ==> flows[i].expects(events[i]) && flows[i].step_taken(
            events[i],
            flows[i + 1],
            actions[i],
        )
}

/// A connection being stored was asked to be stored under the user that a
/// verified token named.
pub open spec fn connect_prefix_holds(flows: Seq<ConnectFlow>, events: Seq<ConnectEvent>, actions: Seq<ConnectAction>, k: int) -> bool {
    flows[k].stage matches ConnectStage::Storing { user_id } ==> exists|j: int|
        0 <= j < k && #[trigger] events[j] == ConnectEvent::TokenChecked(Ok(user_id)) && actions[j]
            == (ConnectAction::StoreConnection { connection_id: flows[k].connection_id, user_id })
}

proof fn lemma_connect_prefix(flows: Seq<ConnectFlow>, events: Seq<ConnectEvent>, actions: Seq<ConnectAction>, k: int)
    requires
        is_connect_run(flows, events, actions),
        0 <= k <= events.len(),
    ensures
        connect_prefix_holds(flows, events, actions, k),
    decreases k,
{
    if k > 0 {
        let j = k - 1;
        lemma_connect_prefix(flows, events, actions, j);
        let e = events[j];
        assert(flows[j].expects(e) && flows[j].step_taken(e, flows[k], actions[j]));
        match e {
            ConnectEvent::TokenChecked(Ok(subject)) => {
                assert(events[j] == ConnectEvent::TokenChecked(Ok(subject)));
            },
            _ => {},
        }
    }
}

/// A connection is accepted only once it is recorded under the user that
/// its verified token names: in any run, a 200 reply answers a successful
/// store, which was asked for, under the subject of a token that the
/// verifier accepted, on the run's connection.
pub proof fn lemma_accepted_only_when_stored_under_subject(
    flows: Seq<ConnectFlow>,
    events: Seq<ConnectEvent>,
    actions: Seq<ConnectAction>,
    i: int,
)
    requires
        is_connect_run(flows, events, actions),
        0 <= i < actions.len(),
        actions[i] == (ConnectAction::Reply { status_code: 200 }),
    ensures
        events[i] == ConnectEvent::Stored(Ok(())),
        exists|j: int|
            0 <= j < i && (#[trigger] events[j] matches ConnectEvent::TokenChecked(Ok(user_id))
                && actions[j] == (ConnectAction::StoreConnection {
                connection_id: flows[i].connection_id,
                user_id,
            })),
{
    lemma_connect_prefix(flows, events, actions, i);
    let e = events[i];
    assert(flows[i].expects(e) && flows[i].step_taken(e, flows[i + 1], actions[i]));
    match e {
        ConnectEvent::Stored(Ok(u)) => {
            assert(u == ());
            assert(e == ConnectEvent::Stored(Ok(())));
        },
        _ => {},
    }
    match flows[i].stage {
        ConnectStage::Storing { user_id } => {
            let j = choose|j: int|
                0 <= j < i && #[trigger] events[j] == ConnectEvent::TokenChecked(Ok(user_id)) && actions[j]
                    == (ConnectAction::StoreConnection { connection_id: flows[i].connection_id, user_id });
            assert(events[j] matches ConnectEvent::TokenChecked(Ok(u)) && u == user_id);
        },
        _ => {},
    }
}

} // verus!
