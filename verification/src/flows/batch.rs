use vstd::prelude::*;
use crate::errors::WsError;
use crate::types::SqsNotificationEvent;

verus! {

/// A queue record as the notification worker reads it.
#[derive(Debug, PartialEq)]
pub enum RecordBody {
    /// The record has no body.
    Missing,
    /// The body is not a notification event; the reader's description.
    Unreadable(String),
    /// The notification event that the body holds.
    Event(SqsNotificationEvent),
}

/// The index of the first record at or after `from` that holds an event, or
/// the number of records when none does.
pub open spec fn next_event_index(records: Seq<RecordBody>, from: int) -> int
    decreases records.len() - from,
{
    if from >= records.len() {
        records.len() as int
    } else if records[from] is Event {
        from
    } else {
        next_event_index(records, from + 1)
    }
}

/// Where a batch of queue records stands.
#[derive(Debug, Clone, Copy, PartialEq, Eq)]
pub enum BatchStage {
    /// The event of this record is being delivered.
    Delivering { index: usize },
    /// The batch is over.
    Done,
}

/// An operation that the batch asks for, or its outcome.
#[derive(Debug, PartialEq, Eq)]
pub enum BatchAction {
    /// Deliver the event of the record at this index.
    Deliver { index: usize },
    /// The batch is over, with this outcome.
    Finish(Result<(), WsError>),
}

/// The notification worker's handling of a batch of queue records: records
/// without a body or without a readable event are skipped; the events are
/// delivered in order; the first failed delivery fails the batch.
#[derive(Debug, PartialEq)]
pub struct BatchFlow {
    pub records: Vec<RecordBody>,
    pub stage: BatchStage,
}

impl BatchFlow {
    /// A delivery in progress is of a record that holds an event.
    pub open spec fn wf(&self) -> bool {
        self.stage matches BatchStage::Delivering { index } ==> index < self.records@.len()
            && self.records@[index as int] is Event
    }

    /// The action that follows once the records before `from` are dealt with.
    pub open spec fn continues_at(&self, from: int, next: BatchFlow, action: BatchAction) -> bool {
        let i = next_event_index(self.records@, from);
        if i < self.records@.len() {
            &&& next.stage matches BatchStage::Delivering { index }
            &&& index == i
            &&& action == BatchAction::Deliver { index }
        } else {
            &&& next.stage == BatchStage::Done
            &&& action == BatchAction::Finish(Ok(()))
        }
    }

    /// Finds the first record at or after `from` that holds an event.
    fn seek(&mut self, from: usize) -> (action: BatchAction)
        requires
            from <= old(self).records@.len(),
        ensures
            final(self).records == old(self).records,
            final(self).wf(),
            old(self).continues_at(from as int, *final(self), action),
        decreases old(self).records@.len() - from,
    {
        if from >= self.records.len() {
            self.stage = BatchStage::Done;
            BatchAction::Finish(Ok(()))
        } else if matches!(self.records[from], RecordBody::Event(_)) {
            self.stage = BatchStage::Delivering { index: from };
            BatchAction::Deliver { index: from }
        } else {
            self.seek(from + 1)
        }
    }

    /// Starts a batch: the first record that holds an event is delivered
    /// first; with none, the batch is over at once.
    pub fn start(records: Vec<RecordBody>) -> (r: (BatchFlow, BatchAction))
        ensures
            r.0.records == records,
            r.0.wf(),
            (BatchFlow { records, stage: BatchStage::Done }).continues_at(0, r.0, r.1),
    {
        let mut flow = BatchFlow { records, stage: BatchStage::Done };
        let action = flow.seek(0);
        (flow, action)
    }

    /// Takes the outcome of the current delivery and gives the next
    /// operation: a failure ends the batch with that error; a success moves
    /// on to the next record that holds an event.
    pub fn delivered(&mut self, outcome: Result<(), WsError>) -> (action: BatchAction)
        requires
            old(self).wf(),
            old(self).stage is Delivering,
        ensures
            final(self).records == old(self).records,
            final(self).wf(),
            (action is Finish) == (final(self).stage is Done),
            match outcome {
                Err(e) => final(self).stage == BatchStage::Done && action == BatchAction::Finish(Err(e)),
                Ok(()) => old(self).stage matches BatchStage::Delivering { index } && old(self).continues_at(
                    index + 1,
                    *final(self),
                    action,
                ),
            },
    {
        match outcome {
            Err(e) => {
                self.stage = BatchStage::Done;
                BatchAction::Finish(Err(e))
            },
            Ok(()) => match self.stage {
                BatchStage::Delivering { index } => {
                    let n = self.records.len();
                    assert(index < n);
                    self.seek(index + 1)
                },
                BatchStage::Done => BatchAction::Finish(Ok(())),
            },
        }
    }
}

/// The indices of the records at or after `from` that hold events, in order.
pub open spec fn event_indices(records: Seq<RecordBody>, from: int) -> Seq<int>
    decreases records.len() - from,
{
    if from >= records.len() {
        Seq::empty()
    } else if records[from] is Event {
        seq![from].add(event_indices(records, from + 1))
    } else {
        event_indices(records, from + 1)
    }
}

/// The event indices from `from` start with the first event record at or
/// after `from`, followed by those after it.
proof fn lemma_event_indices_split(records: Seq<RecordBody>, from: int)
    requires
        0 <= from <= records.len(),
    ensures
        next_event_index(records, from) < records.len() ==> event_indices(records, from) == seq![
            next_event_index(records, from),
        ].add(event_indices(records, next_event_index(records, from) + 1)),
        next_event_index(records, from) >= records.len() ==> event_indices(records, from) == Seq::<
            int,
        >::empty(),
        from <= next_event_index(records, from) <= records.len(),
    decreases records.len() - from,
{
    if from < records.len() && !(records[from] is Event) {
        lemma_event_indices_split(records, from + 1);
    }
}

/// The indices `event_indices` gives from `from` are exactly the records at
/// or after `from` that hold events, in increasing order.
proof fn lemma_event_indices_are_events(records: Seq<RecordBody>, from: int)
    requires
        0 <= from <= records.len(),
    ensures
        forall|a: int, b: int|
            0 <= a < b < event_indices(records, from).len() ==> #[trigger] event_indices(records, from)[a]
                < #[trigger] event_indices(records, from)[b],
        forall|a: int|
            0 <= a < event_indices(records, from).len() ==> from <= #[trigger] event_indices(records, from)[a]
                < records.len(),
        forall|i: int|
            from <= i < records.len() ==> (event_indices(records, from).contains(i) <==> #[trigger] records[i] is Event),
    decreases records.len() - from,
{
    if from < records.len() {
        lemma_event_indices_are_events(records, from + 1);
        let rest = event_indices(records, from + 1);
        if records[from] is Event {
            let all = seq![from].add(rest);
            assert(event_indices(records, from) == all);
            assert forall|a: int| 0 <= a < all.len() implies from <= #[trigger] all[a] < records.len() by {
                if a > 0 {
                    assert(all[a] == rest[a - 1]);
                }
            }
            assert forall|a: int, b: int| 0 <= a < b < all.len() implies #[trigger] all[a] < #[trigger] all[b] by {
                assert(all[b] == rest[b - 1]);
                if a > 0 {
                    assert(all[a] == rest[a - 1]);
                }
            }
            assert forall|i: int| from <= i < records.len() implies (all.contains(i) <==> #[trigger] records[i] is Event) by {
                if i == from {
                    assert(all[0] == from);
                } else {
                    if rest.contains(i) {
                        let a = choose|a: int| 0 <= a < rest.len() && rest[a] == i;
                        assert(all[a + 1] == i);
                    }
                    if all.contains(i) {
                        let a = choose|a: int| 0 <= a < all.len() && all[a] == i;
                        assert(a != 0);
                        assert(rest[a - 1] == i);
                    }
                }
            }
        } else {
            assert(event_indices(records, from) == rest);
            assert forall|i: int| from <= i < records.len() implies (rest.contains(i) <==> #[trigger] records[i] is Event) by {
                if i == from && rest.contains(i) {
                    let a = choose|a: int| 0 <= a < rest.len() && rest[a] == i;
                    assert(from + 1 <= rest[a]);
                }
            }
        }
    }
}

/// The record indices that the actions ask to deliver, in order.
pub open spec fn delivered_indices(actions: Seq<BatchAction>) -> Seq<int>
    decreases actions.len(),
{
    if actions.len() == 0 {
        Seq::empty()
    } else {
        let rest = delivered_indices(actions.drop_last());
        match actions.last() {
            BatchAction::Deliver { index } => rest.push(index as int),
            _ => rest,
        }
    }
}

/// `flows`, `outcomes` and `actions` are a run of a batch: the first flow and
/// action are those that `start` gives, and each flow takes the outcome of
/// its delivery, becoming the next flow and asking for the next action.
pub open spec fn is_batch_run(flows: Seq<BatchFlow>, outcomes: Seq<Result<(), WsError>>, actions: Seq<BatchAction>) -> bool {
    &&& flows.len() == outcomes.len() + 1
    &&& actions.len() == flows.len()
    &&& flows[0].wf()
    &&& (BatchFlow { records: flows[0].records, stage: BatchStage::Done }).continues_at(0, flows[0], actions[0])
    &&& forall|i: int|
        #![trigger outcomes[i]]
        0 <= i < outcomes.len() ==> {
            &&& flows[i].wf()
            &&& flows[i].stage is Delivering
            &&& flows[i + 1].records == flows[i].records
            &&& flows[i + 1].wf()
            &&& match outcomes[i] {
                Err(e) => flows[i + 1].stage == BatchStage::Done && actions[i + 1] == BatchAction::Finish(Err(e)),
                Ok(()) => flows[i].stage matches BatchStage::Delivering { index } && flows[i].continues_at(
                    index + 1,
                    flows[i + 1],
                    actions[i + 1],
                ),
            }
        }
}

/// What holds of a batch run after `k` deliveries.
pub open spec fn batch_prefix_holds(flows: Seq<BatchFlow>, actions: Seq<BatchAction>, k: int) -> bool {
    let d = delivered_indices(actions.take(k + 1));
    let all = event_indices(flows[0].records@, 0);
    &&& flows[k].records == flows[0].records
    &&& match flows[k].stage {
        BatchStage::Delivering { index } => d.add(event_indices(flows[0].records@, index + 1)) == all
            && actions[k] == BatchAction::Deliver { index },
        BatchStage::Done => {
            &&& d.len() <= all.len()
            &&& d == all.take(d.len() as int)
            &&& actions[k] == BatchAction::Finish(Ok(())) ==> d == all
        },
    }
}

proof fn lemma_batch_prefix(flows: Seq<BatchFlow>, outcomes: Seq<Result<(), WsError>>, actions: Seq<BatchAction>, k: int)
    requires
        is_batch_run(flows, outcomes, actions),
        0 <= k <= outcomes.len(),
    ensures
        batch_prefix_holds(flows, actions, k),
    decreases k,
{
    let recs = flows[0].records@;
    let all = event_indices(recs, 0);
    if k == 0 {
        lemma_event_indices_split(recs, 0);
        assert(actions.take(1).drop_last() =~= Seq::<BatchAction>::empty());
        assert(actions.take(1).last() == actions[0]);
        assert(delivered_indices(Seq::<BatchAction>::empty()) =~= Seq::<int>::empty());
        let d = delivered_indices(actions.take(1));
        match flows[0].stage {
            BatchStage::Delivering { index } => {
                assert(d =~= seq![index as int]);
                assert(d.add(event_indices(recs, index + 1)) =~= all);
            },
            BatchStage::Done => {
                assert(d =~= Seq::<int>::empty());
                assert(all.take(0) =~= d);
            },
        }
    } else {
        let j = k - 1;
        lemma_batch_prefix(flows, outcomes, actions, j);
        let o = outcomes[j];
        assert(flows[j].stage is Delivering && flows[j + 1].records == flows[j].records);
        assert(actions.take(k + 1).drop_last() =~= actions.take(k));
        assert(actions.take(k + 1).last() == actions[k]);
        let d0 = delivered_indices(actions.take(k));
        let d1 = delivered_indices(actions.take(k + 1));
        match flows[j].stage {
            BatchStage::Delivering { index } => {
                let rest = event_indices(recs, index + 1);
                assert(index < recs.len());
                match o {
                    Err(e) => {
                        assert(d1 == d0);
                        assert(all.take(d0.len() as int) =~= d0);
                    },
                    Ok(()) => {
                        lemma_event_indices_split(recs, index + 1);
                        let n = next_event_index(recs, index + 1);
                        if n < recs.len() {
                            assert(d1 =~= d0.push(n));
                            assert(d1.add(event_indices(recs, n + 1)) =~= all);
                        } else {
                            assert(d1 == d0);
                            assert(rest =~= Seq::<int>::empty());
                            assert(d0 =~= all);
                            assert(all.take(d0.len() as int) =~= d0);
                        }
                    },
                }
            },
            BatchStage::Done => {},
        }
    }
}

/// A batch run delivers the records that hold events, in order, each once:
/// what it has delivered is always the first of them, and when it finishes
/// successfully it has delivered all of them. Put without reference to how
/// the records are walked: the delivered indices strictly increase, each
/// names a record that holds an event, and a batch that finishes
/// successfully has delivered every record that holds an event.
pub proof fn lemma_batch_delivers_events_in_order(
    flows: Seq<BatchFlow>,
    outcomes: Seq<Result<(), WsError>>,
    actions: Seq<BatchAction>,
)
    requires
        is_batch_run(flows, outcomes, actions),
    ensures
        delivered_indices(actions) == event_indices(flows[0].records@, 0).take(
            delivered_indices(actions).len() as int,
        ),
        actions.last() == BatchAction::Finish(Ok(())) ==> delivered_indices(actions) == event_indices(
            flows[0].records@,
            0,
        ),
        forall|a: int, b: int|
            0 <= a < b < delivered_indices(actions).len() ==> #[trigger] delivered_indices(actions)[a]
                < #[trigger] delivered_indices(actions)[b],
        forall|a: int|
            0 <= a < delivered_indices(actions).len() ==> 0 <= #[trigger] delivered_indices(actions)[a]
                < flows[0].records@.len() && flows[0].records@[delivered_indices(actions)[a]] is Event,
        actions.last() == BatchAction::Finish(Ok(())) ==> forall|i: int|
            0 <= i < flows[0].records@.len() && #[trigger] flows[0].records@[i] is Event
                ==> delivered_indices(actions).contains(i),
{
    lemma_batch_delivered_prefix(flows, outcomes, actions);
    let recs = flows[0].records@;
    let all = event_indices(recs, 0);
    let d = delivered_indices(actions);
    lemma_event_indices_are_events(recs, 0);
    assert forall|a: int, b: int| 0 <= a < b < d.len() implies #[trigger] d[a] < #[trigger] d[b] by {
        assert(d[a] == all[a] && d[b] == all[b]);
    }
    assert forall|a: int| 0 <= a < d.len() implies 0 <= #[trigger] d[a] < recs.len() && recs[d[a]] is Event by {
        assert(d[a] == all[a]);
        assert(all.contains(all[a]));
    }
}

/// What a batch run has delivered is a prefix of the records' event indices,
/// and all of them once it finished successfully.
proof fn lemma_batch_delivered_prefix(
    flows: Seq<BatchFlow>,
    outcomes: Seq<Result<(), WsError>>,
    actions: Seq<BatchAction>,
)
    requires
        is_batch_run(flows, outcomes, actions),
    ensures
        delivered_indices(actions) == event_indices(flows[0].records@, 0).take(
            delivered_indices(actions).len() as int,
        ),
        delivered_indices(actions).len() <= event_indices(flows[0].records@, 0).len(),
        actions.last() == BatchAction::Finish(Ok(())) ==> delivered_indices(actions) == event_indices(
            flows[0].records@,
            0,
        ),
{
    let k = outcomes.len() as int;
    lemma_batch_prefix(flows, outcomes, actions, k);
    assert(actions.take(k + 1) =~= actions);
    let d = delivered_indices(actions);
    let all = event_indices(flows[0].records@, 0);
    match flows[k].stage {
        BatchStage::Delivering { index } => {
            assert(all.take(d.len() as int) =~= d);
        },
        BatchStage::Done => {},
    }
}

} // verus!
