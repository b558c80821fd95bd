use ws_core::connection::WsConnection;
use ws_core::errors::{ResponseError, WsError};
use ws_core::flows::common::{or_unknown, RouteEvent};
use ws_core::flows::connect::{ConnectAction, ConnectEvent, ConnectFlow, ConnectStage};
use ws_core::flows::gate::{GateAction, GateStage, MembershipGate};
use ws_core::flows::history::{HistoryAction, HistoryEvent, HistoryFlow, HistoryPage};
use ws_core::flows::notify::{recipients, NotifyAction, NotifyEvent, NotifyFlow};
use ws_core::flows::subscribe::{SubscribeAction, SubscribeFlow};
use ws_core::notification::new_notification;
use ws_core::types::{ChatMessageRecord, ClientMessage, NotificationTargeting, ServerPush, SqsNotificationEvent};

fn s(x: &str) -> String {
    x.to_string()
}

fn conn(user: &str) -> WsConnection {
    WsConnection { connection_id: s("c1"), user_id: s(user), connected_at: s("t"), ttl: 1 }
}

fn step_connect(flow: &mut ConnectFlow, e: ConnectEvent) -> ConnectAction {
    assert!(flow.accepts(&e));
    flow.step(e)
}

fn step_sub(flow: &mut SubscribeFlow, e: RouteEvent) -> SubscribeAction {
    assert!(flow.accepts(&e));
    flow.step(e)
}

#[test]
fn unknown_when_absent() {
    assert_eq!(or_unknown(None), "unknown");
    assert_eq!(or_unknown(Some(s("c1"))), "c1");
}

#[test]
fn connect_accepts_valid_token() {
    let mut f = ConnectFlow::new();
    let a = step_connect(&mut f, ConnectEvent::Requested {
        connection_id: Some(s("c1")),
        query: vec![(s("token"), s("jwt"))],
    });
    assert_eq!(a, ConnectAction::VerifyToken { token: s("jwt") });
    let a = step_connect(&mut f, ConnectEvent::TokenChecked(Ok(s("u1"))));
    assert_eq!(a, ConnectAction::StoreConnection { connection_id: s("c1"), user_id: s("u1") });
    let a = step_connect(&mut f, ConnectEvent::Stored(Ok(())));
    assert_eq!(a, ConnectAction::Reply { status_code: 200 });
    assert_eq!(f.stage, ConnectStage::Finished);
    assert!(!f.accepts(&ConnectEvent::Stored(Ok(()))));
}

#[test]
fn connect_rejects_missing_or_bad_token_and_reports_store_failure() {
    let mut f = ConnectFlow::new();
    let a = step_connect(&mut f, ConnectEvent::Requested { connection_id: None, query: vec![] });
    assert_eq!(a, ConnectAction::Reply { status_code: 401 });
    assert_eq!(f.connection_id, "unknown");

    let mut f = ConnectFlow::new();
    step_connect(&mut f, ConnectEvent::Requested { connection_id: None, query: vec![(s("token"), s("x"))] });
    let a = step_connect(&mut f, ConnectEvent::TokenChecked(Err(s("expired"))));
    assert_eq!(a, ConnectAction::Reply { status_code: 401 });

    let mut f = ConnectFlow::new();
    step_connect(&mut f, ConnectEvent::Requested { connection_id: None, query: vec![(s("token"), s("x"))] });
    let a = step_connect(&mut f, ConnectEvent::TokenChecked(Ok(s("u9"))));
    assert_eq!(a, ConnectAction::StoreConnection { connection_id: s("unknown"), user_id: s("u9") });
    let a = step_connect(&mut f, ConnectEvent::Stored(Err(WsError::DynamoDB(s("down")))));
    assert_eq!(a, ConnectAction::Reply { status_code: 500 });
}

#[test]
fn gate_passes_active_member() {
    let (mut g, a) = MembershipGate::start(s("c1"), s("g1"));
    assert_eq!(a, GateAction::GetConnection { connection_id: s("c1") });
    let a = g.step(RouteEvent::ConnectionFound(Ok(conn("u1"))));
    assert_eq!(a, GateAction::CheckMembership { group_id: s("g1"), user_id: s("u1") });
    let a = g.step(RouteEvent::MembershipChecked(Ok(())));
    assert_eq!(a, GateAction::Finish(Ok(conn("u1"))));
    assert_eq!(g.stage, GateStage::Done);
}

#[test]
fn gate_reports_forbidden_and_fails_silently_on_unknown_connection() {
    let (mut g, _) = MembershipGate::start(s("c1"), s("g1"));
    g.step(RouteEvent::ConnectionFound(Ok(conn("u1"))));
    let a = g.step(RouteEvent::MembershipChecked(Err(WsError::Forbidden(s("no")))));
    assert_eq!(
        a,
        GateAction::Push {
            connection_id: s("c1"),
            push: ServerPush::Error { code: s("FORBIDDEN"), message: s("Forbidden: no") },
        }
    );
    assert!(g.accepts(&RouteEvent::Pushed));
    assert_eq!(g.step(RouteEvent::Pushed), GateAction::Finish(Err(())));

    let (mut g, _) = MembershipGate::start(s("c1"), s("g1"));
    let a = g.step(RouteEvent::ConnectionFound(Err(WsError::NotFound(s("x")))));
    assert_eq!(a, GateAction::Finish(Err(())));
}

#[test]
fn join_subscribes_member_and_acknowledges() {
    let mut f = SubscribeFlow::new(Some(s("c1")));
    let a = step_sub(&mut f, RouteEvent::BodyParsed(Ok(ClientMessage::ChatJoin { group_id: s("g1") })));
    assert_eq!(a, SubscribeAction::GetConnection { connection_id: s("c1") });
    let a = step_sub(&mut f, RouteEvent::ConnectionFound(Ok(conn("u1"))));
    assert_eq!(a, SubscribeAction::CheckMembership { group_id: s("g1"), user_id: s("u1") });
    let a = step_sub(&mut f, RouteEvent::MembershipChecked(Ok(())));
    assert_eq!(
        a,
        SubscribeAction::PutSubscription { group_id: s("g1"), connection_id: s("c1"), user_id: s("u1") }
    );
    let a = step_sub(&mut f, RouteEvent::SubscriptionPut(Err(WsError::DynamoDB(s("x")))));
    assert_eq!(
        a,
        SubscribeAction::Push { connection_id: s("c1"), push: ServerPush::Ack { action: s("chat.join") } }
    );
    assert_eq!(step_sub(&mut f, RouteEvent::Pushed), SubscribeAction::Reply { status_code: 200 });
}

#[test]
fn join_by_non_member_is_refused() {
    let mut f = SubscribeFlow::new(Some(s("c1")));
    step_sub(&mut f, RouteEvent::BodyParsed(Ok(ClientMessage::ChatJoin { group_id: s("g1") })));
    step_sub(&mut f, RouteEvent::ConnectionFound(Ok(conn("u1"))));
    let a = step_sub(&mut f, RouteEvent::MembershipChecked(Err(WsError::Forbidden(s("nope")))));
    assert_eq!(
        a,
        SubscribeAction::Push {
            connection_id: s("c1"),
            push: ServerPush::Error { code: s("FORBIDDEN"), message: s("Forbidden: nope") },
        }
    );
    assert_eq!(step_sub(&mut f, RouteEvent::Pushed), SubscribeAction::Reply { status_code: 200 });

    let mut f = SubscribeFlow::new(Some(s("c1")));
    step_sub(&mut f, RouteEvent::BodyParsed(Ok(ClientMessage::ChatJoin { group_id: s("g1") })));
    let a = step_sub(&mut f, RouteEvent::ConnectionFound(Err(WsError::NotFound(s("gone")))));
    assert_eq!(a, SubscribeAction::Reply { status_code: 200 });
}

#[test]
fn leave_and_bad_body() {
    let mut f = SubscribeFlow::new(None);
    let a = step_sub(&mut f, RouteEvent::BodyParsed(Ok(ClientMessage::ChatLeave { group_id: s("g1") })));
    assert_eq!(a, SubscribeAction::DeleteSubscription { group_id: s("g1"), connection_id: s("unknown") });
    let a = step_sub(&mut f, RouteEvent::SubscriptionDeleted(Ok(())));
    assert_eq!(
        a,
        SubscribeAction::Push { connection_id: s("unknown"), push: ServerPush::Ack { action: s("chat.leave") } }
    );
    assert_eq!(step_sub(&mut f, RouteEvent::Pushed), SubscribeAction::Reply { status_code: 200 });

    let mut f = SubscribeFlow::new(Some(s("c2")));
    let a = step_sub(&mut f, RouteEvent::BodyParsed(Err(s("expected value at line 1 column 1"))));
    assert_eq!(
        a,
        SubscribeAction::Push {
            connection_id: s("c2"),
            push: ServerPush::Error {
                code: s("BAD_REQUEST"),
                message: s("Invalid message body: expected value at line 1 column 1"),
            },
        }
    );
    assert_eq!(step_sub(&mut f, RouteEvent::Pushed), SubscribeAction::Reply { status_code: 200 });
}

#[test]
fn recipients_skip_excluded_users() {
    let t = NotificationTargeting {
        user_ids: vec![s("a"), s("b"), s("c"), s("a")],
        group_id: None,
        exclude_user_ids: Some(vec![s("b")]),
    };
    assert_eq!(recipients(&t), vec![s("a"), s("c"), s("a")]);
    let t = NotificationTargeting { user_ids: vec![s("a")], group_id: Some(s("g")), exclude_user_ids: None };
    assert_eq!(recipients(&t), vec![s("a")]);
}

fn event(targeting: NotificationTargeting) -> SqsNotificationEvent {
    SqsNotificationEvent {
        event_id: s("e1"),
        event_type: s("LIKE"),
        actor_id: s("x"),
        targeting,
        payload: serde_json::Value::from(7),
        created_at: s("2024-01-01T00:00:00Z"),
    }
}

fn write(user: &str) -> NotifyAction {
    NotifyAction::WriteNotification {
        user_id: s(user),
        notification_type: s("LIKE"),
        actor_id: s("x"),
        payload: serde_json::Value::from(7),
    }
}

#[test]
fn delivery_writes_then_pushes_each_recipient() {
    let t = NotificationTargeting {
        user_ids: vec![s("a"), s("b"), s("c")],
        group_id: None,
        exclude_user_ids: Some(vec![s("b")]),
    };
    let (mut f, a) = NotifyFlow::start(&event(t));
    assert_eq!(a, write("a"));
    let rec = new_notification("a", "LIKE", "x", serde_json::Value::from(1));
    let id = rec.notification_id.clone();
    let a = f.step(NotifyEvent::Written(Ok(rec)));
    assert_eq!(a, NotifyAction::ListConnections { user_id: s("a") });
    match f.step(NotifyEvent::Listed(Ok(vec![s("c1"), s("c2")]))) {
        NotifyAction::Broadcast { connection_ids, push } => {
            assert_eq!(connection_ids, vec![s("c1"), s("c2")]);
            assert!(matches!(push, ServerPush::Notification { notification_id, .. } if notification_id == id));
        }
        other => panic!("unexpected {:?}", other),
    }
    assert_eq!(f.step(NotifyEvent::Broadcast), write("c"));
    f.step(NotifyEvent::Written(Ok(new_notification("c", "LIKE", "x", serde_json::Value::from(1)))));
    match f.step(NotifyEvent::Listed(Err(WsError::DynamoDB(s("x"))))) {
        NotifyAction::Broadcast { connection_ids, .. } => assert!(connection_ids.is_empty()),
        other => panic!("unexpected {:?}", other),
    }
    assert_eq!(f.step(NotifyEvent::Broadcast), NotifyAction::Finish(Ok(())));
}

#[test]
fn delivery_stops_at_failed_write_and_ends_at_once_without_recipients() {
    let t = NotificationTargeting { user_ids: vec![s("a"), s("b")], group_id: None, exclude_user_ids: None };
    let (mut f, _) = NotifyFlow::start(&event(t));
    let a = f.step(NotifyEvent::Written(Err(WsError::DynamoDB(s("down")))));
    assert_eq!(a, NotifyAction::Finish(Err(WsError::DynamoDB(s("down")))));
    assert!(!f.accepts(&NotifyEvent::Broadcast));

    let t = NotificationTargeting { user_ids: vec![s("a")], group_id: None, exclude_user_ids: Some(vec![s("a")]) };
    let (_, a) = NotifyFlow::start(&event(t));
    assert_eq!(a, NotifyAction::Finish(Ok(())));
}

fn msg(k: &str) -> ChatMessageRecord {
    ChatMessageRecord {
        group_id: s("g1"),
        sort_key: s(k),
        message_id: s("m"),
        sender_id: s("u"),
        content: s("c"),
        message_type: s("TEXT"),
        created_at: s("t"),
    }
}

#[test]
fn history_page_for_member() {
    let (mut f, a) = HistoryFlow::start(s("u1"), s("g1"), None, None);
    assert_eq!(a, HistoryAction::CheckMembership { group_id: s("g1"), user_id: s("u1") });
    let a = f.step(HistoryEvent::MembershipChecked(Ok(())));
    assert_eq!(a, HistoryAction::FetchPage { group_id: s("g1"), cursor: None, limit: Some(20) });
    let a = f.step(HistoryEvent::PageFetched(Ok((vec![msg("k1")], Some(s("k1"))))));
    assert_eq!(
        a,
        HistoryAction::Finish(Ok(HistoryPage {
            status: 200,
            group_id: s("g1"),
            messages: vec![msg("k1")],
            next_cursor: Some(s("k1")),
        }))
    );
}

#[test]
fn history_refusals_are_bad_requests() {
    let (mut f, _) = HistoryFlow::start(s("u1"), s("g1"), Some(s("k0")), Some(5));
    let a = f.step(HistoryEvent::MembershipChecked(Err(WsError::Forbidden(s("no")))));
    assert_eq!(a, HistoryAction::Finish(Err(ResponseError::BadRequest(WsError::Forbidden(s("no"))))));

    let (mut f, _) = HistoryFlow::start(s("u1"), s("g1"), Some(s("k0")), Some(5));
    let a = f.step(HistoryEvent::MembershipChecked(Ok(())));
    assert_eq!(a, HistoryAction::FetchPage { group_id: s("g1"), cursor: Some(s("k0")), limit: Some(5) });
    let a = f.step(HistoryEvent::PageFetched(Err(WsError::DynamoDB(s("x")))));
    assert_eq!(a, HistoryAction::Finish(Err(ResponseError::BadRequest(WsError::DynamoDB(s("x"))))));
}
