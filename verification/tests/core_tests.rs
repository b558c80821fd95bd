use ws_core::auth::query_token;
use ws_core::chat::{decoded_records, history_page_query, history_query, new_chat_message, next_page_cursor};
use ws_core::connection::{new_connection, resolve_connection, WsConnection};
use ws_core::errors::{ResponseError, WsError};
use ws_core::item::{Attribute, Item};
use ws_core::keys::{group_pk, member_sk, sort_key};
use ws_core::management::{delivered, post_failure};
use ws_core::membership::{forbidden_push, membership_verdict};
use ws_core::notification::{new_notification, notification_push, read_mark, unread_marker};
use ws_core::presence::last_seen_at;
use ws_core::subscription::{new_subscription, subscription_rows, CleanupAction, SubscriptionCleanup};
use ws_core::types::{ChatMessageRecord, ServerPush};
use ws_core::utils::{now_rfc3339, return_collection_ids, ttl_hours};

fn s(x: &str) -> String {
    x.to_string()
}

fn item(attrs: &[(&str, Option<&str>)]) -> Item {
    Item {
        attributes: attrs
            .iter()
            .map(|(n, t)| Attribute { name: s(n), text: t.map(s) })
            .collect(),
    }
}

fn record(sort: &str) -> ChatMessageRecord {
    ChatMessageRecord {
        group_id: s("g1"),
        sort_key: s(sort),
        message_id: s("m"),
        sender_id: s("u1"),
        content: s("hi"),
        message_type: s("TEXT"),
        created_at: s("t"),
    }
}

fn is_uuid_v4_text(id: &str) -> bool {
    id.len() == 36
        && id.chars().enumerate().all(|(i, c)| match i {
            8 | 13 | 18 | 23 => c == '-',
            _ => c.is_ascii_digit() || ('a'..='f').contains(&c),
        })
        && id.as_bytes()[14] == b'4'
}

#[test]
fn status_codes_follow_error_kind() {
    assert_eq!(WsError::Unauthorized(s("x")).status_code(), 401);
    assert_eq!(WsError::Forbidden(s("x")).status_code(), 403);
    assert_eq!(WsError::BadRequest(s("x")).status_code(), 400);
    assert_eq!(WsError::NotFound(s("x")).status_code(), 404);
    assert_eq!(WsError::DynamoDB(s("x")).status_code(), 500);
    assert_eq!(WsError::ConnectionGone(s("x")).status_code(), 500);
    assert_eq!(WsError::ManagementApi(s("x")).status_code(), 500);
    assert_eq!(WsError::Serialization(s("x")).status_code(), 500);
    assert_eq!(WsError::Internal(s("x")).status_code(), 500);
}

#[test]
fn error_messages_name_their_kind() {
    assert_eq!(WsError::Unauthorized(s("no token query")).to_message(), "Unauthorized: no token query");
    assert_eq!(WsError::Forbidden(s("f")).to_message(), "Forbidden: f");
    assert_eq!(WsError::BadRequest(s("b")).to_message(), "Bad request: b");
    assert_eq!(WsError::NotFound(s("n")).to_message(), "Not found: n");
    assert_eq!(WsError::DynamoDB(s("d")).to_message(), "DynamoDB error: d");
    assert_eq!(WsError::ConnectionGone(s("c")).to_message(), "Connection gone: c");
    assert_eq!(WsError::ManagementApi(s("m")).to_message(), "Management API error: m");
    assert_eq!(WsError::Serialization(s("z")).to_message(), "Serialization error: z");
    assert_eq!(WsError::Internal(s("i")).to_message(), "Internal error: i");
}

#[test]
fn response_error_wraps_and_hides_cause() {
    let e: ResponseError = ResponseError::from(WsError::DynamoDB(s("boom")));
    assert_eq!(e, ResponseError::BadRequest(WsError::DynamoDB(s("boom"))));
    let r = e.reply();
    assert_eq!(r.status, 400);
    assert_eq!(r.code, "korabo_noti_401");
    assert_eq!(r.message, "An unexpected error occurred");
}

#[test]
fn membership_keys() {
    assert_eq!(group_pk("g42"), "GROUP#g42");
    assert_eq!(member_sk("u7"), "MEMBER#u7");
}

#[test]
fn sort_key_joins_time_and_id() {
    assert_eq!(sort_key("2024-01-01T00:00:00Z", "abc"), "2024-01-01T00:00:00Z#abc");
}

#[test]
fn sort_keys_keep_creation_order() {
    let a = sort_key("2024-01-01T00:00:00Z", "ffffffff-ffff-4fff-bfff-ffffffffffff");
    let b = sort_key("2024-01-02T00:00:00Z", "00000000-0000-4000-8000-000000000000");
    assert!(a < b);
}

#[test]
fn sort_key_determines_its_parts() {
    let k1 = sort_key("2024-01-01T00:00:00Z", "11111111-1111-4111-8111-111111111111");
    let k2 = sort_key("2024-01-01T00:00:00Z", "22222222-2222-4222-8222-222222222222");
    assert_ne!(k1, k2);
    let (created, id) = k1.rsplit_once('#').unwrap();
    assert_eq!(created, "2024-01-01T00:00:00Z");
    assert_eq!(id, "11111111-1111-4111-8111-111111111111");
}

#[test]
fn new_chat_message_is_stamped() {
    let r = new_chat_message("g1", "u1", "hello");
    assert_eq!(r.group_id, "g1");
    assert_eq!(r.sender_id, "u1");
    assert_eq!(r.content, "hello");
    assert_eq!(r.message_type, "TEXT");
    assert!(is_uuid_v4_text(&r.message_id));
    assert_eq!(r.sort_key, format!("{}#{}", r.created_at, r.message_id));
    let other = new_chat_message("g1", "u1", "hello");
    assert_ne!(r.message_id, other.message_id);
}

#[test]
fn history_query_with_and_without_since() {
    let q = history_query("g1", &None);
    assert_eq!(q.key_condition, "group_id = :gid");
    assert_eq!(q.values, vec![(s(":gid"), s("g1"))]);
    assert!(q.ascending);
    assert_eq!(q.limit, None);
    let q = history_query("g1", &Some(s("2024")));
    assert_eq!(q.key_condition, "group_id = :gid AND sort_key >= :since");
    assert_eq!(q.values, vec![(s(":gid"), s("g1")), (s(":since"), s("2024"))]);
}

#[test]
fn history_page_query_with_and_without_cursor() {
    let q = history_page_query("g1", &None, Some(20));
    assert_eq!(q.key_condition, "group_id = :gid");
    assert_eq!(q.values, vec![(s(":gid"), s("g1"))]);
    assert_eq!(q.limit, Some(20));
    let q = history_page_query("g1", &Some(s("c9")), None);
    assert_eq!(q.key_condition, "group_id = :gid AND sort_key > :cursor");
    assert_eq!(q.values, vec![(s(":gid"), s("g1")), (s(":cursor"), s("c9"))]);
    assert_eq!(q.limit, None);
}

#[test]
fn undecodable_records_are_dropped() {
    let out = decoded_records(vec![Some(record("a")), None, Some(record("b")), None]);
    assert_eq!(out, vec![record("a"), record("b")]);
    assert!(decoded_records(vec![None]).is_empty());
}

#[test]
fn next_cursor_only_when_more() {
    let page = vec![record("a"), record("b")];
    assert_eq!(next_page_cursor(&page, true), Some(s("b")));
    assert_eq!(next_page_cursor(&page, false), None);
    assert_eq!(next_page_cursor(&Vec::new(), true), None);
}

#[test]
fn new_connection_expires_in_a_day() {
    let before = time::OffsetDateTime::now_utc().unix_timestamp();
    let c = new_connection("c1", "u1");
    let after = time::OffsetDateTime::now_utc().unix_timestamp();
    assert_eq!(c.connection_id, "c1");
    assert_eq!(c.user_id, "u1");
    assert!(c.ttl >= before + 86400 && c.ttl <= after + 86400);
    assert!(c.connected_at.ends_with('Z'));
}

#[test]
fn resolve_connection_cases() {
    let conn = WsConnection { connection_id: s("c1"), user_id: s("u1"), connected_at: s("t"), ttl: 5 };
    assert_eq!(resolve_connection("c1", Some(Ok(conn.clone()))), Ok(conn));
    assert_eq!(
        resolve_connection("c1", None),
        Err(WsError::NotFound(s("connection c1 not found")))
    );
    assert_eq!(
        resolve_connection("c1", Some(Err(s("bad item")))),
        Err(WsError::Serialization(s("bad item")))
    );
}

#[test]
fn ttl_hours_adds_hours() {
    let before = time::OffsetDateTime::now_utc().unix_timestamp();
    let t = ttl_hours(2);
    let after = time::OffsetDateTime::now_utc().unix_timestamp();
    assert!(t >= before + 7200 && t <= after + 7200);
    let past = ttl_hours(-1);
    assert!(past <= after - 3600);
}

#[test]
fn now_is_rfc3339_text() {
    let before = time::OffsetDateTime::now_utc().unix_timestamp();
    let t = now_rfc3339();
    let after = time::OffsetDateTime::now_utc().unix_timestamp();
    let parsed = time::OffsetDateTime::parse(&t, &time::format_description::well_known::Rfc3339);
    assert!(parsed.is_ok());
    assert!(t.ends_with('Z'));
    let ts = parsed.unwrap().unix_timestamp();
    assert!(before <= ts && ts <= after);
}

#[test]
fn collection_ids_keep_string_ids_in_order() {
    let items = vec![
        item(&[("connection_id", Some("c1"))]),
        item(&[("connection_id", None)]),
        item(&[("other", Some("x"))]),
        item(&[("user_id", Some("u")), ("connection_id", Some("c2"))]),
    ];
    assert_eq!(return_collection_ids(&items), vec![s("c1"), s("c2")]);
}

#[test]
fn subscription_rows_skip_incomplete_items() {
    let items = vec![
        item(&[("group_id", Some("g1")), ("connection_id", Some("c1"))]),
        item(&[("group_id", Some("")), ("connection_id", Some("c2"))]),
        item(&[("group_id", Some("g3"))]),
        item(&[("connection_id", Some("c4")), ("group_id", Some("g4"))]),
        item(&[("group_id", None), ("connection_id", Some("c5"))]),
    ];
    assert_eq!(subscription_rows(&items), vec![(s("g1"), s("c1")), (s("g4"), s("c4"))]);
}

#[test]
fn new_subscription_fields() {
    let sub = new_subscription("g1", "c1", "u1");
    assert_eq!((sub.group_id.as_str(), sub.connection_id.as_str(), sub.user_id.as_str()), ("g1", "c1", "u1"));
    let now = time::OffsetDateTime::now_utc().unix_timestamp();
    assert!((sub.ttl - (now + 86400)).abs() <= 5);
}

#[test]
fn membership_verdicts() {
    assert_eq!(membership_verdict("g1", "u1", &Some(item(&[("status", Some("active"))]))), Ok(()));
    assert_eq!(
        membership_verdict("g1", "u1", &Some(item(&[("status", Some("pending"))]))),
        Err(WsError::Forbidden(s("user u1 is not an active member of group g1")))
    );
    assert_eq!(
        membership_verdict("g1", "u1", &Some(item(&[("status", None)]))),
        Err(WsError::Forbidden(s("user u1 is not an active member of group g1")))
    );
    assert_eq!(
        membership_verdict("g1", "u1", &Some(item(&[]))),
        Err(WsError::Forbidden(s("user u1 is not an active member of group g1")))
    );
    assert_eq!(
        membership_verdict("g1", "u1", &None),
        Err(WsError::Forbidden(s("user u1 is not a member of group g1")))
    );
}

#[test]
fn forbidden_push_carries_message() {
    let p = forbidden_push(&WsError::Forbidden(s("nope")));
    assert_eq!(p, ServerPush::Error { code: s("FORBIDDEN"), message: s("Forbidden: nope") });
}

#[test]
fn last_seen_from_presence_item() {
    assert_eq!(last_seen_at(&Some(item(&[("last_seen_at", Some("2024"))]))), Some(s("2024")));
    assert_eq!(last_seen_at(&Some(item(&[("last_seen_at", None)]))), None);
    assert_eq!(last_seen_at(&None), None);
}

#[test]
fn query_token_takes_first_token() {
    let q = vec![(s("a"), s("1")), (s("token"), s("t1")), (s("token"), s("t2"))];
    assert_eq!(query_token(&q), Ok(s("t1")));
    assert_eq!(query_token(&vec![(s("a"), s("1"))]), Err(WsError::Unauthorized(s("no token query"))));
}

#[test]
fn post_failures_and_delivery() {
    assert_eq!(post_failure("c1", true, s("gone")), WsError::ConnectionGone(s("c1")));
    assert_eq!(post_failure("c1", false, s("throttled")), WsError::ManagementApi(s("throttled")));
    assert!(delivered(&Ok(())));
    assert!(!delivered(&Err(WsError::ConnectionGone(s("c1")))));
    assert!(!delivered(&Err(WsError::ManagementApi(s("x")))));
}

#[test]
fn new_notification_is_unread_and_keyed_by_sort_key() {
    let payload = serde_json::Value::from(vec![7]);
    let r = new_notification("u1", "LIKE", "a1", payload.clone());
    assert_eq!(r.user_id, "u1");
    assert_eq!(r.notification_type, "LIKE");
    assert_eq!(r.actor_id, "a1");
    assert_eq!(r.payload, payload);
    assert!(!r.is_read);
    assert_eq!(r.read_at, None);
    assert_eq!(r.notification_id, r.sort_key);
    let (created, id) = r.sort_key.rsplit_once('#').unwrap();
    assert_eq!(created, r.created_at);
    assert!(is_uuid_v4_text(id));
}

#[test]
fn unread_marker_and_read_mark_agree() {
    let (name, value) = unread_marker("u1");
    assert_eq!(name, "unread_user_id");
    assert_eq!(value, "u1");
    let m = read_mark("u1", "t#id", "2024");
    assert_eq!(m.user_id, "u1");
    assert_eq!(m.sort_key, "t#id");
    assert_eq!(m.read_at, "2024");
    assert_eq!(m.update_expression, "SET is_read = :r, read_at = :t REMOVE unread_user_id");
    assert!(m.update_expression.ends_with(&format!(" REMOVE {}", name)));
    assert_eq!(m.condition_expression, "attribute_exists(sort_key)");
}

#[test]
fn notification_push_copies_record() {
    let r = new_notification("u1", "LIKE", "a1", serde_json::Value::from(vec![1]));
    let (id, created) = (r.notification_id.clone(), r.created_at.clone());
    let p = notification_push(r);
    assert_eq!(
        p,
        ServerPush::Notification {
            notification_id: id,
            notification_type: s("LIKE"),
            actor_id: s("a1"),
            payload: serde_json::Value::from(vec![1]),
            created_at: created,
        }
    );
}

#[test]
fn cleanup_deletes_listed_rows_in_order() {
    let items = vec![
        item(&[("group_id", Some("g1")), ("connection_id", Some("c1"))]),
        item(&[("group_id", Some("")), ("connection_id", Some("c1"))]),
        item(&[("group_id", Some("g2")), ("connection_id", Some("c1"))]),
    ];
    let (mut f, a) = SubscriptionCleanup::start(Ok(items));
    assert_eq!(a, CleanupAction::Delete { group_id: s("g1"), connection_id: s("c1") });
    assert_eq!(f.deleted(Ok(())), CleanupAction::Delete { group_id: s("g2"), connection_id: s("c1") });
    assert_eq!(f.deleted(Ok(())), CleanupAction::Finish(Ok(())));
    assert!(f.done);
}

#[test]
fn cleanup_stops_at_first_failure() {
    let items = vec![
        item(&[("group_id", Some("g1")), ("connection_id", Some("c1"))]),
        item(&[("group_id", Some("g2")), ("connection_id", Some("c1"))]),
    ];
    let (mut f, _) = SubscriptionCleanup::start(Ok(items));
    let a = f.deleted(Err(WsError::DynamoDB(s("down"))));
    assert_eq!(a, CleanupAction::Finish(Err(WsError::DynamoDB(s("down")))));
    let (_, a) = SubscriptionCleanup::start(Err(WsError::DynamoDB(s("q"))));
    assert_eq!(a, CleanupAction::Finish(Err(WsError::DynamoDB(s("q")))));
    let (_, a) = SubscriptionCleanup::start(Ok(vec![]));
    assert_eq!(a, CleanupAction::Finish(Ok(())));
}

#[test]
fn new_records_are_stamped_with_rfc3339_time() {
    let rfc = &time::format_description::well_known::Rfc3339;
    let m = new_chat_message("g1", "u1", "hi");
    assert!(time::OffsetDateTime::parse(&m.created_at, rfc).is_ok());
    let n = new_notification("u1", "LIKE", "a", serde_json::Value::from(1));
    assert!(time::OffsetDateTime::parse(&n.created_at, rfc).is_ok());
    let c = new_connection("c1", "u1");
    assert!(time::OffsetDateTime::parse(&c.connected_at, rfc).is_ok());
    let sub = new_subscription("g1", "c1", "u1");
    assert!(time::OffsetDateTime::parse(&sub.subscribed_at, rfc).is_ok());
}

#[test]
fn paged_reading_reads_each_record_once() {
    let all: Vec<ChatMessageRecord> = ["a#1", "a#2", "b#1", "b#2", "c#1"].iter().map(|k| record(k)).collect();
    let limit = 2usize;
    let mut cursor: Option<String> = None;
    let mut read: Vec<ChatMessageRecord> = Vec::new();
    loop {
        let after: Vec<ChatMessageRecord> = all
            .iter()
            .filter(|r| cursor.as_ref().map_or(true, |c| r.sort_key.as_str() > c.as_str()))
            .cloned()
            .collect();
        let page: Vec<ChatMessageRecord> = after.iter().take(limit).cloned().collect();
        let more = after.len() >= limit;
        read.extend(page.iter().cloned());
        cursor = next_page_cursor(&page, more);
        if cursor.is_none() {
            break;
        }
    }
    assert_eq!(read, all);
}
