use vstd::prelude::*;
use crate::errors::WsError;
use crate::item::Item;
use crate::utils::{clock_text, now_rfc3339, representable_unix_time, ttl_hours};

verus! {

/// A connection's subscription to a group's chat.
#[derive(Debug, Clone, PartialEq, Eq)]
pub struct ChatSubscription {
    pub group_id: String,
    pub connection_id: String,
    pub user_id: String,
    pub subscribed_at: String,
    /// Unix time after which the record expires.
    pub ttl: i64,
}

/// The record of a new subscription, stamped with the current time and set to
/// expire 24 hours from now.
pub fn new_subscription(group_id: &str, connection_id: &str, user_id: &str) -> (sub: ChatSubscription)
    ensures
        sub.group_id@ == group_id@,
        sub.connection_id@ == connection_id@,
        sub.user_id@ == user_id@,
        exists|first: i128, second: i128| sub.subscribed_at@ == clock_text(first, second),
        exists|now: int| representable_unix_time(now) && sub.ttl == now + 24 * 3600,
{
    let subscribed_at = now_rfc3339();
    let ttl = ttl_hours(24);
    ChatSubscription {
        group_id: group_id.to_owned(),
        connection_id: connection_id.to_owned(),
        user_id: user_id.to_owned(),
        subscribed_at,
        ttl,
    }
}

/// The string an attribute holds, or empty text when it holds none.
pub open spec fn text_or_empty(o: Option<Seq<char>>) -> Seq<char> {
    match o {
        Some(s) => s,
        None => Seq::empty(),
    }
}

/// The key of the subscription row that an item names: its group id and
/// connection id, or none where either is missing or empty.
pub open spec fn row_key(item: Item) -> Option<(Seq<char>, Seq<char>)> {
    let g = text_or_empty(item.text("group_id"@));
    let c = text_or_empty(item.text("connection_id"@));
    if g.len() == 0 || c.len() == 0 {
        None
    } else {
        Some((g, c))
    }
}

/// The keys of the subscription rows that the items name, in order, items
/// without a full key left out.
pub open spec fn row_keys(items: Seq<Item>) -> Seq<(Seq<char>, Seq<char>)>
    decreases items.len(),
{
    if items.len() == 0 {
        Seq::empty()
    } else {
        let rest = row_keys(items.drop_last());
        match row_key(items.last()) {
            Some(k) => rest.push(k),
            None => rest,
        }
    }
}

/// The view of a list of key pairs.
pub open spec fn pairs_view(v: Seq<(String, String)>) -> Seq<(Seq<char>, Seq<char>)> {
    v.map_values(|p: (String, String)| (p.0@, p.1@))
}

/// The (group id, connection id) keys of the subscription rows to delete when
/// a connection closes, from the rows that the connection's index returned:
/// each row with both ids present and non-empty, in order.
pub fn subscription_rows(items: &Vec<Item>) -> (keys: Vec<(String, String)>)
    ensures
        pairs_view(keys@) == row_keys(items@),
{
    let mut keys: Vec<(String, String)> = Vec::new();
    let n = items.len();
    let mut i: usize = 0;
    while i < n
        invariant
            n == items@.len(),
            i <= n,
            pairs_view(keys@) =~= row_keys(items@.take(i as int)),
        decreases n - i,
    {
        let item = &items[i];
        assert(items@.take(i + 1).drop_last() =~= items@.take(i as int));
        assert(items@.take(i + 1).last() == items@[i as int]);
        let gid = match item.string_attr("group_id") {
            Some(s) => s,
            None => String::new(),
        };
        let cid = match item.string_attr("connection_id") {
            Some(s) => s,
            None => String::new(),
        };
        if !gid.as_str().is_empty() && !cid.as_str().is_empty() {
            keys.push((gid, cid));
        }
        i = i + 1;
    }
    assert(items@.take(n as int) =~= items@);
    keys
}

/// An operation that the clean-up of a closing connection's subscriptions
/// asks for, or its result.
#[derive(Debug, PartialEq, Eq)]
pub enum CleanupAction {
    /// Delete this subscription row.
    Delete { group_id: String, connection_id: String },
    /// The clean-up is over, with this outcome.
    Finish(Result<(), WsError>),
}

/// The clean-up of a closing connection's subscriptions: the rows its index
/// listed are deleted one after the other, in order; the first failed
/// delete ends the clean-up with its error.
#[derive(Debug, PartialEq, Eq)]
pub struct SubscriptionCleanup {
    /// The keys of the rows to delete.
    pub rows: Vec<(String, String)>,
    /// The index of the row being deleted.
    pub current: usize,
    pub done: bool,
}

impl SubscriptionCleanup {
    /// While rows are being deleted, the current one is a row.
    pub open spec fn wf(&self) -> bool {
        !self.done ==> self.current < self.rows@.len()
    }

    /// The operation that deletes row `i`.
    pub open spec fn deletes(&self, i: int, action: CleanupAction) -> bool {
        action matches CleanupAction::Delete { group_id, connection_id }
            && group_id@ == self.rows@[i].0@ && connection_id@ == self.rows@[i].1@
    }

    fn delete_current(&self) -> (action: CleanupAction)
        requires
            self.current < self.rows@.len(),
        ensures
            self.deletes(self.current as int, action),
    {
        let row = &self.rows[self.current];
        CleanupAction::Delete { group_id: row.0.clone(), connection_id: row.1.clone() }
    }

    /// Starts the clean-up from the outcome of listing the connection's rows:
    /// a failed listing ends it with that error; otherwise the rows with a
    /// full key are deleted, the first one first, and with none it succeeds
    /// at once.
    pub fn start(listed: Result<Vec<Item>, WsError>) -> (r: (SubscriptionCleanup, CleanupAction))
        ensures
            r.0.wf(),
            r.0.current == 0,
            r.0.done == (r.1 is Finish),
            match listed {
                Err(e) => r.1 == CleanupAction::Finish(Err(e)),
                Ok(items) => {
                    &&& pairs_view(r.0.rows@) == row_keys(items@)
                    &&& if r.0.rows@.len() == 0 {
                        r.1 == CleanupAction::Finish(Ok(()))
                    } else {
                        r.0.deletes(0, r.1)
                    }
                },
            },
    {
        match listed {
            Err(e) => {
                (SubscriptionCleanup { rows: Vec::new(), current: 0, done: true }, CleanupAction::Finish(Err(e)))
            },
            Ok(items) => {
                let rows = subscription_rows(&items);
                if rows.len() == 0 {
                    (SubscriptionCleanup { rows, current: 0, done: true }, CleanupAction::Finish(Ok(())))
                } else {
                    let flow = SubscriptionCleanup { rows, current: 0, done: false };
                    let action = flow.delete_current();
                    (flow, action)
                }
            },
        }
    }

    /// Takes the outcome of the current delete and gives the next operation.
    pub fn deleted(&mut self, outcome: Result<(), WsError>) -> (action: CleanupAction)
        requires
            old(self).wf(),
            !old(self).done,
        ensures
            final(self).wf(),
            final(self).rows == old(self).rows,
            final(self).done == (action is Finish),
            match outcome {
                Err(e) => action == CleanupAction::Finish(Err(e)),
                Ok(()) => if old(self).current + 1 < old(self).rows@.len() {
                    &&& final(self).current == old(self).current + 1
                    &&& final(self).deletes(final(self).current as int, action)
                } else {
                    action == CleanupAction::Finish(Ok(()))
                },
            },
    {
        match outcome {
            Err(e) => {
                self.done = true;
                CleanupAction::Finish(Err(e))
            },
            Ok(()) => {
                if self.rows.len() - self.current > 1 {
                    self.current = self.current + 1;
                    self.delete_current()
                } else {
                    self.done = true;
                    CleanupAction::Finish(Ok(()))
                }
            },
        }
    }
}

} // verus!
