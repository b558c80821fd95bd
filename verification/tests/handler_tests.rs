use ws_core::connection::WsConnection;
use ws_core::errors::{ResponseError, WsError};
use ws_core::flows::batch::{BatchAction, BatchFlow, RecordBody};
use ws_core::flows::common::RouteEvent;
use ws_core::flows::disconnect::{DisconnectAction, DisconnectEvent, DisconnectFlow};
use ws_core::flows::mark_read::{MarkReadAction, MarkReadFlow};
use ws_core::flows::recap::{RecapAction, RecapBody, RecapEvent, RecapFlow};
use ws_core::flows::send::{SendAction, SendBody, SendEvent, SendFlow};
use ws_core::types::{ChatMessageRecord, NotificationTargeting, ServerPush, SqsNotificationEvent};

fn s(x: &str) -> String {
    x.to_string()
}

fn conn(user: &str) -> WsConnection {
    WsConnection { connection_id: s("c1"), user_id: s(user), connected_at: s("t"), ttl: 1 }
}

fn error_push(code: &str, message: &str) -> ServerPush {
    ServerPush::Error { code: s(code), message: s(message) }
}

fn send_step(f: &mut SendFlow, e: SendEvent) -> SendAction {
    assert!(f.accepts(&e));
    f.step(e)
}

fn stored(group: &str) -> ChatMessageRecord {
    ChatMessageRecord {
        group_id: s(group),
        sort_key: s("2024-01-01T00:00:00Z#id1"),
        message_id: s("id1"),
        sender_id: s("u1"),
        content: s("hello"),
        message_type: s("TEXT"),
        created_at: s("2024-01-01T00:00:00Z"),
    }
}

#[test]
fn send_stores_and_fans_out() {
    let (mut f, a) = SendFlow::start(Some(s("c1")));
    assert_eq!(a, SendAction::GetConnection { connection_id: s("c1") });
    assert_eq!(send_step(&mut f, SendEvent::ConnectionFound(Ok(conn("u1")))), SendAction::ReadBody);
    let a = send_step(&mut f, SendEvent::BodyRead(SendBody::Send { group_id: s("g1"), content: s("hello") }));
    assert_eq!(a, SendAction::CheckSubscription { group_id: s("g1"), connection_id: s("c1") });
    let a = send_step(&mut f, SendEvent::SubscriptionChecked(Ok(true)));
    assert_eq!(a, SendAction::StoreMessage { group_id: s("g1"), sender_id: s("u1"), content: s("hello") });
    let a = send_step(&mut f, SendEvent::MessageStored(Ok(stored("g1"))));
    assert_eq!(a, SendAction::ListSubscribers { group_id: s("g1") });
    let a = send_step(&mut f, SendEvent::SubscribersListed(Ok(vec![s("c1"), s("c2")])));
    assert_eq!(
        a,
        SendAction::Broadcast {
            connection_ids: vec![s("c1"), s("c2")],
            push: ServerPush::ChatMessage {
                group_id: s("g1"),
                message_id: s("2024-01-01T00:00:00Z#id1"),
                sender_id: s("u1"),
                content: s("hello"),
                created_at: s("2024-01-01T00:00:00Z"),
            },
        }
    );
    assert_eq!(send_step(&mut f, SendEvent::Pushed), SendAction::Reply { status_code: 200 });
}

#[test]
fn send_failures_are_pushed_to_the_sender() {
    let cases: Vec<(Vec<SendEvent>, ServerPush)> = vec![
        (vec![SendEvent::BodyRead(SendBody::Unreadable(s("eof")))], error_push("BAD_REQUEST", "Invalid message body: eof")),
        (
            vec![
                SendEvent::BodyRead(SendBody::Send { group_id: s("g9"), content: s("x") }),
                SendEvent::SubscriptionChecked(Ok(false)),
            ],
            error_push("UNAUTHORIZED", "You are not a member of group g9"),
        ),
        (
            vec![
                SendEvent::BodyRead(SendBody::Send { group_id: s("g9"), content: s("x") }),
                SendEvent::SubscriptionChecked(Err(WsError::DynamoDB(s("x")))),
            ],
            error_push("INTERNAL_ERROR", "Unable to verify group membership"),
        ),
        (
            vec![
                SendEvent::BodyRead(SendBody::Send { group_id: s("g9"), content: s("x") }),
                SendEvent::SubscriptionChecked(Ok(true)),
                SendEvent::MessageStored(Err(WsError::DynamoDB(s("x")))),
            ],
            error_push("INTERNAL_ERROR", "Failed to send message"),
        ),
    ];
    for (events, expected) in cases {
        let (mut f, _) = SendFlow::start(None);
        let mut last = send_step(&mut f, SendEvent::ConnectionFound(Ok(conn("u1"))));
        for e in events {
            last = send_step(&mut f, e);
        }
        assert_eq!(last, SendAction::Push { connection_id: s("unknown"), push: expected });
        assert_eq!(send_step(&mut f, SendEvent::Pushed), SendAction::Reply { status_code: 200 });
    }
}

#[test]
fn send_from_unknown_connection_or_other_body_just_replies() {
    let (mut f, _) = SendFlow::start(Some(s("c1")));
    let a = send_step(&mut f, SendEvent::ConnectionFound(Err(WsError::NotFound(s("x")))));
    assert_eq!(a, SendAction::Reply { status_code: 200 });
    let (mut f, _) = SendFlow::start(Some(s("c1")));
    send_step(&mut f, SendEvent::ConnectionFound(Ok(conn("u1"))));
    assert_eq!(send_step(&mut f, SendEvent::BodyRead(SendBody::Other)), SendAction::Reply { status_code: 200 });
}

#[test]
fn send_without_subscribers_broadcasts_to_nobody() {
    let (mut f, _) = SendFlow::start(Some(s("c1")));
    send_step(&mut f, SendEvent::ConnectionFound(Ok(conn("u1"))));
    send_step(&mut f, SendEvent::BodyRead(SendBody::Send { group_id: s("g1"), content: s("hello") }));
    send_step(&mut f, SendEvent::SubscriptionChecked(Ok(true)));
    send_step(&mut f, SendEvent::MessageStored(Ok(stored("g1"))));
    match send_step(&mut f, SendEvent::SubscribersListed(Err(WsError::DynamoDB(s("x"))))) {
        SendAction::Broadcast { connection_ids, .. } => assert!(connection_ids.is_empty()),
        other => panic!("unexpected {:?}", other),
    }
}

fn recap_step(f: &mut RecapFlow, e: RecapEvent) -> RecapAction {
    assert!(f.accepts(&e));
    f.step(e)
}

#[test]
fn recap_sends_messages_since_last_seen() {
    let (mut f, a) = RecapFlow::start(Some(s("c1")));
    assert_eq!(a, RecapAction::ReadBody);
    let a = recap_step(&mut f, RecapEvent::BodyRead(RecapBody::History { group_id: s("g1") }));
    assert_eq!(a, RecapAction::GetConnection { connection_id: s("c1") });
    let a = recap_step(&mut f, RecapEvent::Gate(RouteEvent::ConnectionFound(Ok(conn("u1")))));
    assert_eq!(a, RecapAction::CheckMembership { group_id: s("g1"), user_id: s("u1") });
    let a = recap_step(&mut f, RecapEvent::Gate(RouteEvent::MembershipChecked(Ok(()))));
    assert_eq!(a, RecapAction::GetLastSeen { user_id: s("u1") });
    let a = recap_step(&mut f, RecapEvent::LastSeenRead(Ok(Some(s("2024")))));
    assert_eq!(a, RecapAction::FetchHistory { group_id: s("g1"), since: Some(s("2024")) });
    let a = recap_step(&mut f, RecapEvent::HistoryFetched(Ok(vec![stored("g1")])));
    assert_eq!(
        a,
        RecapAction::PushHistory { connection_id: s("c1"), group_id: s("g1"), messages: vec![stored("g1")] }
    );
    assert_eq!(recap_step(&mut f, RecapEvent::Pushed), RecapAction::Reply { status_code: 200 });
}

#[test]
fn recap_reads_everything_when_last_seen_fails() {
    let (mut f, _) = RecapFlow::start(Some(s("c1")));
    recap_step(&mut f, RecapEvent::BodyRead(RecapBody::History { group_id: s("g1") }));
    recap_step(&mut f, RecapEvent::Gate(RouteEvent::ConnectionFound(Ok(conn("u1")))));
    recap_step(&mut f, RecapEvent::Gate(RouteEvent::MembershipChecked(Ok(()))));
    let a = recap_step(&mut f, RecapEvent::LastSeenRead(Err(WsError::DynamoDB(s("x")))));
    assert_eq!(a, RecapAction::FetchHistory { group_id: s("g1"), since: None });
    let a = recap_step(&mut f, RecapEvent::HistoryFetched(Err(WsError::DynamoDB(s("x")))));
    assert_eq!(a, RecapAction::Push { connection_id: s("c1"), push: error_push("INTERNAL_ERROR", "Failed to fetch history") });
}

#[test]
fn recap_non_member_gets_forbidden_then_internal_error() {
    let (mut f, _) = RecapFlow::start(Some(s("c1")));
    recap_step(&mut f, RecapEvent::BodyRead(RecapBody::History { group_id: s("g1") }));
    recap_step(&mut f, RecapEvent::Gate(RouteEvent::ConnectionFound(Ok(conn("u1")))));
    let a = recap_step(&mut f, RecapEvent::Gate(RouteEvent::MembershipChecked(Err(WsError::Forbidden(s("no"))))));
    assert_eq!(a, RecapAction::Push { connection_id: s("c1"), push: error_push("FORBIDDEN", "Forbidden: no") });
    let a = recap_step(&mut f, RecapEvent::Gate(RouteEvent::Pushed));
    assert_eq!(
        a,
        RecapAction::Push {
            connection_id: s("c1"),
            push: error_push("INTERNAL_ERROR", "Failed to assert connection and membership"),
        }
    );
    assert_eq!(recap_step(&mut f, RecapEvent::Pushed), RecapAction::Reply { status_code: 200 });

    let (mut f, _) = RecapFlow::start(None);
    let a = recap_step(&mut f, RecapEvent::BodyRead(RecapBody::Unreadable(s("eof"))));
    assert_eq!(a, RecapAction::Push { connection_id: s("unknown"), push: error_push("BAD_REQUEST", "Invalid message body: eof") });
    let (mut f, _) = RecapFlow::start(None);
    assert_eq!(recap_step(&mut f, RecapEvent::BodyRead(RecapBody::Other)), RecapAction::Reply { status_code: 200 });
}

fn disc_step(f: &mut DisconnectFlow, e: DisconnectEvent) -> DisconnectAction {
    assert!(f.accepts(&e));
    f.step(e)
}

#[test]
fn disconnect_cleans_up_and_announces_offline() {
    let (mut f, a) = DisconnectFlow::start(Some(s("c1")));
    assert_eq!(a, DisconnectAction::GetConnection { connection_id: s("c1") });
    let a = disc_step(&mut f, DisconnectEvent::ConnectionFound(Ok(conn("u1"))));
    assert_eq!(a, DisconnectAction::DeleteConnection { connection_id: s("c1") });
    let a = disc_step(&mut f, DisconnectEvent::ConnectionDeleted(Err(WsError::DynamoDB(s("x")))));
    assert_eq!(a, DisconnectAction::DeleteSubscriptions { connection_id: s("c1") });
    let a = disc_step(&mut f, DisconnectEvent::SubscriptionsDeleted(Ok(())));
    assert_eq!(a, DisconnectAction::UpdateLastSeen { user_id: s("u1") });
    let a = disc_step(&mut f, DisconnectEvent::PresenceUpdated(Ok(())));
    assert_eq!(a, DisconnectAction::ListGroups { connection_id: s("c1") });
    let a = disc_step(&mut f, DisconnectEvent::GroupsListed(Ok(vec![s("g1"), s("g2")])));
    assert_eq!(a, DisconnectAction::ListSubscribers { group_id: s("g1") });
    let a = disc_step(&mut f, DisconnectEvent::SubscribersListed(Ok(vec![s("c7")])));
    assert_eq!(
        a,
        DisconnectAction::AnnouncePresence {
            connection_ids: vec![s("c7")],
            group_id: s("g1"),
            user_id: s("u1"),
            status: s("offline"),
        }
    );
    assert_eq!(disc_step(&mut f, DisconnectEvent::Announced), DisconnectAction::ListSubscribers { group_id: s("g2") });
    let a = disc_step(&mut f, DisconnectEvent::SubscribersListed(Err(WsError::DynamoDB(s("x")))));
    assert_eq!(
        a,
        DisconnectAction::AnnouncePresence { connection_ids: vec![], group_id: s("g2"), user_id: s("u1"), status: s("offline") }
    );
    assert_eq!(disc_step(&mut f, DisconnectEvent::Announced), DisconnectAction::Reply { status_code: 200 });
}

#[test]
fn disconnect_edge_cases() {
    let (mut f, _) = DisconnectFlow::start(None);
    assert_eq!(f.connection_id, "unknown");
    let a = disc_step(&mut f, DisconnectEvent::ConnectionFound(Err(WsError::NotFound(s("x")))));
    assert_eq!(a, DisconnectAction::Reply { status_code: 200 });

    let (mut f, _) = DisconnectFlow::start(Some(s("c1")));
    disc_step(&mut f, DisconnectEvent::ConnectionFound(Ok(conn("u1"))));
    disc_step(&mut f, DisconnectEvent::ConnectionDeleted(Ok(())));
    disc_step(&mut f, DisconnectEvent::SubscriptionsDeleted(Ok(())));
    disc_step(&mut f, DisconnectEvent::PresenceUpdated(Err(WsError::DynamoDB(s("x")))));
    let a = disc_step(&mut f, DisconnectEvent::GroupsListed(Err(WsError::DynamoDB(s("down")))));
    assert_eq!(a, DisconnectAction::Reply { status_code: 200 });

    let (mut f, _) = DisconnectFlow::start(Some(s("c1")));
    disc_step(&mut f, DisconnectEvent::ConnectionFound(Ok(conn("u1"))));
    disc_step(&mut f, DisconnectEvent::ConnectionDeleted(Ok(())));
    disc_step(&mut f, DisconnectEvent::SubscriptionsDeleted(Ok(())));
    disc_step(&mut f, DisconnectEvent::PresenceUpdated(Ok(())));
    assert_eq!(disc_step(&mut f, DisconnectEvent::GroupsListed(Ok(vec![]))), DisconnectAction::Reply { status_code: 200 });
}

fn event(user: &str) -> SqsNotificationEvent {
    SqsNotificationEvent {
        event_id: s("e"),
        event_type: s("LIKE"),
        actor_id: s("a"),
        targeting: NotificationTargeting { user_ids: vec![s(user)], group_id: None, exclude_user_ids: None },
        payload: serde_json::Value::Null,
        created_at: s("t"),
    }
}

#[test]
fn batch_skips_unreadable_records_and_stops_at_failure() {
    let records = vec![
        RecordBody::Missing,
        RecordBody::Event(event("a")),
        RecordBody::Unreadable(s("bad json")),
        RecordBody::Event(event("b")),
        RecordBody::Event(event("c")),
    ];
    let (mut f, a) = BatchFlow::start(records);
    assert_eq!(a, BatchAction::Deliver { index: 1 });
    assert_eq!(f.delivered(Ok(())), BatchAction::Deliver { index: 3 });
    assert_eq!(
        f.delivered(Err(WsError::DynamoDB(s("x")))),
        BatchAction::Finish(Err(WsError::DynamoDB(s("x"))))
    );

    let (mut f, a) = BatchFlow::start(vec![RecordBody::Event(event("a")), RecordBody::Missing]);
    assert_eq!(a, BatchAction::Deliver { index: 0 });
    assert_eq!(f.delivered(Ok(())), BatchAction::Finish(Ok(())));

    let (_, a) = BatchFlow::start(vec![RecordBody::Missing, RecordBody::Unreadable(s("x"))]);
    assert_eq!(a, BatchAction::Finish(Ok(())));
}

#[test]
fn mark_read_marks_each_with_one_time() {
    let (mut f, a) = MarkReadFlow::start(s("u1"), vec![s("n1"), s("n2")]);
    let first = match a {
        MarkReadAction::Apply(m) => m,
        other => panic!("unexpected {:?}", other),
    };
    assert_eq!(first.user_id, "u1");
    assert_eq!(first.sort_key, "n1");
    assert_eq!(first.read_at, f.read_at);
    let second = match f.marked(Ok(())) {
        MarkReadAction::Apply(m) => m,
        other => panic!("unexpected {:?}", other),
    };
    assert_eq!(second.sort_key, "n2");
    assert_eq!(second.read_at, first.read_at);
    match f.marked(Ok(())) {
        MarkReadAction::Finish(Ok(r)) => {
            assert_eq!(r.status, 201);
            assert_eq!(r.message, "Notification was marked as read");
        }
        other => panic!("unexpected {:?}", other),
    }
}

#[test]
fn mark_read_failure_and_empty_request() {
    let (mut f, _) = MarkReadFlow::start(s("u1"), vec![s("n1"), s("n2")]);
    assert_eq!(
        f.marked(Err(WsError::DynamoDB(s("ConditionalCheckFailed")))),
        MarkReadAction::Finish(Err(ResponseError::BadRequest(WsError::DynamoDB(s("ConditionalCheckFailed")))))
    );
    let (_, a) = MarkReadFlow::start(s("u1"), vec![]);
    assert!(matches!(a, MarkReadAction::Finish(Ok(r)) if r.status == 201));
}
