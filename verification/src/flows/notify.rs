use vstd::prelude::*;
use crate::errors::WsError;
use crate::notification::notification_push;
use crate::types::{clone_json, NotificationRecord, NotificationTargeting, ServerPush, SqsNotificationEvent};

verus! {

/// `x` is among the texts of `list`.
pub open spec fn listed(list: Seq<String>, x: Seq<char>) -> bool {
    exists|i: int| 0 <= i < list.len() && #[trigger] list[i]@ == x
}

/// The users an event excludes.
pub open spec fn exclusions(t: NotificationTargeting) -> Seq<String> {
    match t.exclude_user_ids {
        Some(ex) => ex@,
        None => Seq::empty(),
    }
}

/// The targeted users that are not excluded, in order, each as often as it
/// is targeted.
pub open spec fn kept_users(users: Seq<String>, excluded: Seq<String>) -> Seq<Seq<char>>
    decreases users.len(),
{
    if users.len() == 0 {
        Seq::empty()
    } else {
        let rest = kept_users(users.drop_last(), excluded);
        if listed(excluded, users.last()@) {
            rest
        } else {
            rest.push(users.last()@)
        }
    }
}

/// The users that a notification event is delivered to.
pub open spec fn recipient_ids(t: NotificationTargeting) -> Seq<Seq<char>> {
    kept_users(t.user_ids@, exclusions(t))
}

/// A user receives an event's notification exactly when the event targets
/// the user and does not exclude the user.
pub proof fn lemma_recipient_iff_targeted_and_not_excluded(t: NotificationTargeting, u: Seq<char>)
    ensures
        recipient_ids(t).contains(u) <==> (listed(t.user_ids@, u) && !listed(exclusions(t), u)),
{
    lemma_kept_users_members(t.user_ids@, exclusions(t), u);
}

/// `kept_users(users, excluded)` holds `u` exactly when `users` lists `u`
/// and `excluded` does not.
proof fn lemma_kept_users_members(users: Seq<String>, excluded: Seq<String>, u: Seq<char>)
    ensures
        kept_users(users, excluded).contains(u) <==> (listed(users, u) && !listed(excluded, u)),
    decreases users.len(),
{
    if users.len() == 0 {
        assert(!kept_users(users, excluded).contains(u));
    } else {
        let init = users.drop_last();
        lemma_kept_users_members(init, excluded, u);
        let rest = kept_users(init, excluded);
        assert(listed(users, u) <==> (listed(init, u) || users.last()@ == u)) by {
            if listed(users, u) {
                let i = choose|i: int| 0 <= i < users.len() && #[trigger] users[i]@ == u;
                if i < users.len() - 1 {
                    assert(init[i] == users[i]);
                }
            }
            if listed(init, u) {
                let i = choose|i: int| 0 <= i < init.len() && #[trigger] init[i]@ == u;
                assert(users[i] == init[i]);
            }
            if users.last()@ == u {
                assert(users[users.len() - 1]@ == u);
            }
        }
        if !listed(excluded, users.last()@) {
            assert(rest.push(users.last()@).contains(u) <==> (rest.contains(u) || users.last()@ == u)) by {
                if rest.push(users.last()@).contains(u) {
                    let k = choose|k: int| 0 <= k < rest.len() + 1 && rest.push(users.last()@)[k] == u;
                    if k < rest.len() {
                        assert(rest[k] == u);
                    }
                }
                if rest.contains(u) {
                    let k = choose|k: int| 0 <= k < rest.len() && rest[k] == u;
                    assert(rest.push(users.last()@)[k] == u);
                }
                if users.last()@ == u {
                    assert(rest.push(users.last()@)[rest.len() as int] == u);
                }
            }
        }
    }
}

/// Whether `x` is among the texts of `list`.
pub fn contains_text(list: &Vec<String>, x: &String) -> (r: bool)
    ensures
        r == listed(list@, x@),
{
    let n = list.len();
    let mut i: usize = 0;
    while i < n
        invariant
            n == list@.len(),
            i <= n,
            forall|j: int| 0 <= j < i ==> list@[j]@ != x@,
        decreases n - i,
    {
        if list[i] == *x {
            return true;
        }
        i = i + 1;
    }
    false
}

/// The users that a notification event is delivered to: the targeted users
/// that the event does not exclude, in order.
pub fn recipients(t: &NotificationTargeting) -> (users: Vec<String>)
    ensures
        users@.map_values(|s: String| s@) == recipient_ids(*t),
{
    let empty: Vec<String> = Vec::new();
    let excluded: &Vec<String> = match &t.exclude_user_ids {
        Some(ex) => ex,
        None => &empty,
    };
    assert(excluded@ == exclusions(*t));
    let mut users: Vec<String> = Vec::new();
    let n = t.user_ids.len();
    let mut i: usize = 0;
    while i < n
        invariant
            n == t.user_ids@.len(),
            i <= n,
            excluded@ == exclusions(*t),
            users@.map_values(|s: String| s@) =~= kept_users(t.user_ids@.take(i as int), excluded@),
        decreases n - i,
    {
        assert(t.user_ids@.take(i + 1).drop_last() =~= t.user_ids@.take(i as int));
        assert(t.user_ids@.take(i + 1).last() == t.user_ids@[i as int]);
        let u = &t.user_ids[i];
        if !contains_text(excluded, u) {
            users.push(u.clone());
        }
        i = i + 1;
    }
    assert(t.user_ids@.take(n as int) =~= t.user_ids@);
    users
}

/// Where the delivery of one notification event stands.
#[derive(Debug, PartialEq)]
pub enum NotifyStage {
    /// The notification of the current recipient is being stored.
    Writing,
    /// The current recipient's connections are being listed; this is the push.
    Listing { push: ServerPush },
    /// The push is being sent to the current recipient's connections.
    Pushing,
    /// The delivery is over.
    Done,
}

/// The outcome of an operation that the delivery asked for.
#[derive(Debug, PartialEq)]
pub enum NotifyEvent {
    /// The current recipient's notification was stored, or not.
    Written(Result<NotificationRecord, WsError>),
    /// The current recipient's connections were listed, or not.
    Listed(Result<Vec<String>, WsError>),
    /// The push was sent to every connection asked for; outcomes do not matter.
    Broadcast,
}

/// An operation that the delivery asks for, or its result.
#[derive(Debug, PartialEq)]
pub enum NotifyAction {
    /// Store a notification for this user with the event's type, actor and
    /// payload.
    WriteNotification {
        user_id: String,
        notification_type: String,
        actor_id: String,
        payload: serde_json::Value,
    },
    /// List this user's connections.
    ListConnections { user_id: String },
    /// Push this message to each of these connections.
    Broadcast { connection_ids: Vec<String>, push: ServerPush },
    /// The delivery is over, with this outcome.
    Finish(Result<(), WsError>),
}

/// The delivery of a notification event: each recipient in turn has the
/// notification stored and pushed to all of the recipient's connections; a
/// failed store ends the delivery with that error; a failed connection
/// listing pushes to no connection and goes on.
#[derive(Debug, PartialEq)]
pub struct NotifyFlow {
    pub recipients: Vec<String>,
    /// The event's type, stored with each notification.
    pub notification_type: String,
    /// The event's actor, stored with each notification.
    pub actor_id: String,
    /// The event's payload, stored with each notification.
    pub payload: serde_json::Value,
    /// The index of the current recipient.
    pub current: usize,
    pub stage: NotifyStage,
}

impl NotifyFlow {
    /// The current recipient is a recipient unless the delivery is over.
    pub open spec fn wf(&self) -> bool {
        !(self.stage is Done) ==> self.current < self.recipients@.len()
    }

    /// The event fits the stage the delivery is in.
    pub open spec fn expects(&self, event: NotifyEvent) -> bool {
        match self.stage {
            NotifyStage::Writing => event is Written,
            NotifyStage::Listing { .. } => event is Listed,
            NotifyStage::Pushing => event is Broadcast,
            NotifyStage::Done => false,
        }
    }

    /// The operation that stores the notification of recipient `i`.
    pub open spec fn write_for(&self, i: int) -> NotifyAction {
        NotifyAction::WriteNotification {
            user_id: self.recipients@[i],
            notification_type: self.notification_type,
            actor_id: self.actor_id,
            payload: self.payload,
        }
    }

    /// The operation that stores the notification of the current recipient.
    fn write_current(&self) -> (action: NotifyAction)
        requires
            self.current < self.recipients@.len(),
        ensures
            action == self.write_for(self.current as int),
    {
        NotifyAction::WriteNotification {
            user_id: self.recipients[self.current].clone(),
            notification_type: self.notification_type.clone(),
            actor_id: self.actor_id.clone(),
            payload: clone_json(&self.payload),
        }
    }

    /// Starts the delivery of an event: its recipients are the users its
    /// targeting keeps, and each gets a notification with the event's type,
    /// actor and payload. The first recipient's notification is stored first;
    /// with no recipient, the delivery is over at once.
    pub fn start(event: &SqsNotificationEvent) -> (r: (NotifyFlow, NotifyAction))
        ensures
            r.0.wf(),
            r.0.recipients@.map_values(|s: String| s@) == recipient_ids(event.targeting),
            r.0.notification_type == event.event_type,
            r.0.actor_id == event.actor_id,
            r.0.payload == event.payload,
            r.0.current == 0,
            r.0.recipients@.len() == 0 ==> r.0.stage == NotifyStage::Done && r.1 == NotifyAction::Finish(
                Ok(()),
            ),
            r.0.recipients@.len() > 0 ==> r.0.stage == NotifyStage::Writing && r.1 == r.0.write_for(0),
    {
        let users = recipients(&event.targeting);
        let empty = users.len() == 0;
        let flow = NotifyFlow {
            recipients: users,
            notification_type: event.event_type.clone(),
            actor_id: event.actor_id.clone(),
            payload: clone_json(&event.payload),
            current: 0,
            stage: if empty { NotifyStage::Done } else { NotifyStage::Writing },
        };
        if empty {
            (flow, NotifyAction::Finish(Ok(())))
        } else {
            let action = flow.write_current();
            (flow, action)
        }
    }

    /// Whether the event fits the stage the delivery is in.
    pub fn accepts(&self, event: &NotifyEvent) -> (r: bool)
        ensures
            r == self.expects(*event),
    {
        match &self.stage {
            NotifyStage::Writing => matches!(event, NotifyEvent::Written(_)),
            NotifyStage::Listing { .. } => matches!(event, NotifyEvent::Listed(_)),
            NotifyStage::Pushing => matches!(event, NotifyEvent::Broadcast),
            NotifyStage::Done => false,
        }
    }

    /// What one step does: from this delivery, on `event`, the delivery
    /// becomes `next` and asks for `action`.
    pub open spec fn step_taken(&self, event: NotifyEvent, next: NotifyFlow, action: NotifyAction) -> bool {
        &&& next.recipients == self.recipients
        &&& next.notification_type == self.notification_type
        &&& next.actor_id == self.actor_id
        &&& next.payload == self.payload
        &&& match (self.stage, event) {
            (NotifyStage::Writing, NotifyEvent::Written(Err(e))) => {
                &&& next.stage == NotifyStage::Done
                &&& action == NotifyAction::Finish(Err(e))
            },
            (NotifyStage::Writing, NotifyEvent::Written(Ok(record))) => {
                &&& next.current == self.current
                &&& next.stage == (NotifyStage::Listing {
                    push: ServerPush::Notification {
                        notification_id: record.notification_id,
                        notification_type: record.notification_type,
                        actor_id: record.actor_id,
                        payload: record.payload,
                        created_at: record.created_at,
                    },
                })
                &&& action == NotifyAction::ListConnections {
                    user_id: self.recipients@[self.current as int],
                }
            },
            (NotifyStage::Listing { push }, NotifyEvent::Listed(listed)) => {
                &&& next.current == self.current
                &&& next.stage == NotifyStage::Pushing
                &&& match listed {
                    Ok(ids) => action == NotifyAction::Broadcast { connection_ids: ids, push },
                    Err(_) => action matches NotifyAction::Broadcast { connection_ids, push: p }
                        && connection_ids@.len() == 0 && p == push,
                }
            },
            (NotifyStage::Pushing, NotifyEvent::Broadcast) => {
                if self.current + 1 < self.recipients@.len() {
                    &&& next.current == self.current + 1
                    &&& next.stage == NotifyStage::Writing
                    &&& action == self.write_for(self.current + 1)
                } else {
                    &&& next.stage == NotifyStage::Done
                    &&& action == NotifyAction::Finish(Ok(()))
                }
            },
            _ => false,
        }
    }

    /// Takes the outcome of the last operation and gives the next one.
    pub fn step(&mut self, event: NotifyEvent) -> (action: NotifyAction)
        requires
            old(self).wf(),
            old(self).expects(event),
        ensures
            final(self).wf(),
            (action is Finish) == (final(self).stage is Done),
            old(self).step_taken(event, *final(self), action),
    {
        let mut stage = NotifyStage::Done;
        std::mem::swap(&mut stage, &mut self.stage);
        match (stage, event) {
            (NotifyStage::Writing, NotifyEvent::Written(Err(e))) => NotifyAction::Finish(Err(e)),
            (NotifyStage::Writing, NotifyEvent::Written(Ok(record))) => {
                self.stage = NotifyStage::Listing { push: notification_push(record) };
                NotifyAction::ListConnections { user_id: self.recipients[self.current].clone() }
            },
            (NotifyStage::Listing { push }, NotifyEvent::Listed(listed)) => {
                self.stage = NotifyStage::Pushing;
                let connection_ids = match listed {
                    Ok(ids) => ids,
                    Err(_) => Vec::new(),
                };
                NotifyAction::Broadcast { connection_ids, push }
            },
            (NotifyStage::Pushing, NotifyEvent::Broadcast) => {
                if self.current < self.recipients.len() && self.recipients.len() - self.current > 1 {
                    self.current = self.current + 1;
                    self.stage = NotifyStage::Writing;
                    self.write_current()
                } else {
                    NotifyAction::Finish(Ok(()))
                }
            },
            _ => NotifyAction::Finish(Ok(())),
        }
    }
}

/// The users whose notifications the actions ask to store, in order.
pub open spec fn written_users(actions: Seq<NotifyAction>) -> Seq<String>
    decreases actions.len(),
{
    if actions.len() == 0 {
        Seq::empty()
    } else {
        let rest = written_users(actions.drop_last());
        match actions.last() {
            NotifyAction::WriteNotification { user_id, .. } => rest.push(user_id),
            _ => rest,
        }
    }
}

/// `flows`, `events` and `actions` are a run of a delivery: the first flow
/// and action are those that `start` gives, and each flow takes the next
/// event, becoming the next flow and asking for the next action.
pub open spec fn is_delivery_run(flows: Seq<NotifyFlow>, events: Seq<NotifyEvent>, actions: Seq<NotifyAction>) -> bool {
    &&& flows.len() == events.len() + 1
    &&& actions.len() == flows.len()
    &&& flows[0].wf()
    &&& flows[0].current == 0
    &&& flows[0].recipients@.len() == 0 ==> flows[0].stage == NotifyStage::Done && actions[0]
        == NotifyAction::Finish(Ok(()))
    &&& flows[0].recipients@.len() > 0 ==> flows[0].stage == NotifyStage::Writing && actions[0]
        == flows[0].write_for(0)
    &&& forall|i: int|
        #![trigger events[i]]
        0 <= i < events.len() ==> flows[i].wf() && flows[i].expects(events[i]) && flows[i].step_taken(
            events[i],
            flows[i + 1],
            actions[i + 1],
        )
}

/// What holds after the first `k` events of a delivery run.
pub open spec fn delivery_prefix_holds(flows: Seq<NotifyFlow>, actions: Seq<NotifyAction>, k: int) -> bool {
    let w = written_users(actions.take(k + 1));
    let r = flows[0].recipients@;
    &&& flows[k].recipients == flows[0].recipients
    &&& !(flows[k].stage is Done) ==> {
        &&& flows[k].current < r.len()
        &&& w == r.take(flows[k].current + 1)
        &&& !(actions[k] is Finish)
    }
    &&& flows[k].stage is Done ==> {
        &&& w.len() <= r.len()
        &&& w == r.take(w.len() as int)
        &&& actions[k] == NotifyAction::Finish(Ok(())) ==> w == r
    }
}

proof fn lemma_delivery_prefix(flows: Seq<NotifyFlow>, events: Seq<NotifyEvent>, actions: Seq<NotifyAction>, k: int)
    requires
        is_delivery_run(flows, events, actions),
        0 <= k <= events.len(),
    ensures
        delivery_prefix_holds(flows, actions, k),
    decreases k,
{
    let r = flows[0].recipients@;
    if k == 0 {
        assert(actions.take(1).drop_last() =~= Seq::<NotifyAction>::empty());
        assert(actions.take(1).last() == actions[0]);
        assert(written_users(Seq::<NotifyAction>::empty()) =~= Seq::<String>::empty());
        if r.len() > 0 {
            assert(written_users(actions.take(1)) =~= r.take(1));
        } else {
            assert(written_users(actions.take(1)) =~= r);
            assert(r.take(0) =~= r);
        }
    } else {
        lemma_delivery_prefix(flows, events, actions, k - 1);
        let j = k - 1;
        let e = events[j];
        assert(flows[j].wf() && flows[j].expects(e) && flows[j].step_taken(e, flows[j + 1], actions[j + 1]));
        assert(actions.take(k + 1).drop_last() =~= actions.take(k));
        assert(actions.take(k + 1).last() == actions[k]);
        let w0 = written_users(actions.take(k));
        let w1 = written_users(actions.take(k + 1));
        let f = flows[j];
        match f.stage {
            NotifyStage::Pushing => {
                if f.current + 1 < f.recipients@.len() {
                    assert(w1 =~= r.take(f.current + 2));
                } else {
                    assert(w1 =~= r);
                }
            },
            _ => {},
        }
        if flows[k].stage is Done {
            assert(w1 =~= r.take(w1.len() as int));
        }
    }
}

/// Every flow of a delivery run keeps the event's type, actor and payload.
proof fn lemma_delivery_keeps_event(flows: Seq<NotifyFlow>, events: Seq<NotifyEvent>, actions: Seq<NotifyAction>, k: int)
    requires
        is_delivery_run(flows, events, actions),
        0 <= k <= events.len(),
    ensures
        flows[k].notification_type == flows[0].notification_type,
        flows[k].actor_id == flows[0].actor_id,
        flows[k].payload == flows[0].payload,
    decreases k,
{
    if k > 0 {
        lemma_delivery_keeps_event(flows, events, actions, k - 1);
        assert(flows[k - 1].step_taken(events[k - 1], flows[k], actions[k]));
    }
}

/// Every notification that a delivery run asks to store carries the event's
/// type, actor and payload.
pub proof fn lemma_delivery_writes_carry_event(
    flows: Seq<NotifyFlow>,
    events: Seq<NotifyEvent>,
    actions: Seq<NotifyAction>,
)
    requires
        is_delivery_run(flows, events, actions),
    ensures
        forall|i: int|
            0 <= i < actions.len() ==> (#[trigger] actions[i] matches NotifyAction::WriteNotification {
                notification_type,
                actor_id,
                payload,
                ..
            } ==> notification_type == flows[0].notification_type && actor_id == flows[0].actor_id
                && payload == flows[0].payload),
{
    assert forall|i: int|
        0 <= i < actions.len() implies (#[trigger] actions[i] matches NotifyAction::WriteNotification {
            notification_type,
            actor_id,
            payload,
            ..
        } ==> notification_type == flows[0].notification_type && actor_id == flows[0].actor_id
            && payload == flows[0].payload) by {
        if i > 0 {
            lemma_delivery_keeps_event(flows, events, actions, i - 1);
            assert(flows[i - 1].step_taken(events[i - 1], flows[i], actions[i]));
        }
    }
}

/// A delivery run stores notifications for the recipients one after the
/// other, in order, each once; when it finishes successfully it has stored
/// one for every recipient.
pub proof fn lemma_delivery_writes_recipients_in_order(
    flows: Seq<NotifyFlow>,
    events: Seq<NotifyEvent>,
    actions: Seq<NotifyAction>,
)
    requires
        is_delivery_run(flows, events, actions),
    ensures
        written_users(actions) == flows[0].recipients@.take(written_users(actions).len() as int),
        actions.last() == NotifyAction::Finish(Ok(())) ==> written_users(actions) == flows[0].recipients@,
{
    let k = events.len() as int;
    lemma_delivery_prefix(flows, events, actions, k);
    assert(actions.take(k + 1) =~= actions);
    let w = written_users(actions);
    if !(flows[k].stage is Done) {
        assert(w.len() == flows[k].current + 1);
    }
}

/// In a delivery run, a flow that is storing a notification asked for the
/// store of its current recipient's notification.
proof fn lemma_writing_asked_write(flows: Seq<NotifyFlow>, events: Seq<NotifyEvent>, actions: Seq<NotifyAction>, k: int)
    requires
        is_delivery_run(flows, events, actions),
        0 <= k <= events.len(),
        flows[k].stage == NotifyStage::Writing,
    ensures
        actions[k] == flows[k].write_for(flows[k].current as int),
{
    if k > 0 {
        let j = k - 1;
        assert(flows[j].expects(events[j]) && flows[j].step_taken(events[j], flows[j + 1], actions[j + 1]));
    }
}

/// A delivery lists the connections of the recipient whose notification it
/// has just stored, and of no one else: in any delivery run, every request
/// to list a user's connections comes right after the successful store of
/// that user's notification.
pub proof fn lemma_delivery_lists_connections_of_stored_recipient(
    flows: Seq<NotifyFlow>,
    events: Seq<NotifyEvent>,
    actions: Seq<NotifyAction>,
    i: int,
)
    requires
        is_delivery_run(flows, events, actions),
        0 <= i < actions.len(),
        actions[i] is ListConnections,
    ensures
        i >= 1,
        events[i - 1] matches NotifyEvent::Written(Ok(_)),
        actions[i] matches NotifyAction::ListConnections { user_id } && actions[i - 1] matches NotifyAction::WriteNotification {
            user_id: written,
            ..
        } && written == user_id,
{
    if i == 0 {
        assert(false);
    }
    let f = flows[i - 1];
    assert(f.expects(events[i - 1]) && f.step_taken(events[i - 1], flows[i], actions[i]));
    assert(f.stage == NotifyStage::Writing);
    lemma_writing_asked_write(flows, events, actions, i - 1);
}

/// A delivery pushes a recipient's notification only to the connections
/// listed for that recipient: in any delivery run, every push goes to the
/// connections that the listing right before it returned (none when the
/// listing failed), that listing was of the user whose notification was
/// stored just before, and the push carries the stored notification.
pub proof fn lemma_delivery_pushes_to_listed_connections(
    flows: Seq<NotifyFlow>,
    events: Seq<NotifyEvent>,
    actions: Seq<NotifyAction>,
    i: int,
)
    requires
        is_delivery_run(flows, events, actions),
        0 <= i < actions.len(),
        actions[i] is Broadcast,
    ensures
        i >= 2,
        actions[i - 1] matches NotifyAction::ListConnections { user_id } && actions[i - 2] matches NotifyAction::WriteNotification {
            user_id: written,
            ..
        } && written == user_id,
        actions[i] matches NotifyAction::Broadcast { connection_ids, push } && {
            &&& match events[i - 1] {
                NotifyEvent::Listed(Ok(ids)) => connection_ids == ids,
                NotifyEvent::Listed(Err(_)) => connection_ids@.len() == 0,
                _ => false,
            }
            &&& events[i - 2] matches NotifyEvent::Written(Ok(record)) && push == (ServerPush::Notification {
                notification_id: record.notification_id,
                notification_type: record.notification_type,
                actor_id: record.actor_id,
                payload: record.payload,
                created_at: record.created_at,
            })
        },
{
    if i == 0 {
        assert(false);
    }
    let f = flows[i - 1];
    assert(f.expects(events[i - 1]) && f.step_taken(events[i - 1], flows[i], actions[i]));
    assert(f.stage is Listing);
    if i == 1 {
        assert(false);
    }
    let g = flows[i - 2];
    assert(g.expects(events[i - 2]) && g.step_taken(events[i - 2], flows[i - 1], actions[i - 1]));
    assert(g.stage == NotifyStage::Writing);
    lemma_writing_asked_write(flows, events, actions, i - 2);
}

} // verus!
