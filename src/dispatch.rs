use vstd::prelude::*;

verus! {

/// One event of the merged stream that the dispatcher reads.
pub enum DispatchEvent<W> {
    /// An inbound work item from the listener.
    WorkItem(W),
    /// The one-shot stop notification.
    Stop,
}

/// What the dispatcher's loop does with an event.
pub enum DispatchAction<W> {
    /// Hand the item to the pool as a job.
    Forward(W),
    /// Leave the loop; read no further event.
    Halt,
    /// Drop the item explicitly: it arrived after stop was observed.
    Discard(W),
}

/// The work items of `events` that come before its first `Stop`, in order.
pub open spec fn accepted<W>(events: Seq<DispatchEvent<W>>) -> Seq<W>
    decreases events.len(),
{
    if events.len() == 0 {
        Seq::empty()
    } else {
        match events[0] {
            DispatchEvent::WorkItem(w) => seq![w] + accepted(events.drop_first()),
            DispatchEvent::Stop => Seq::empty(),
        }
    }
}

/// Whether `events` holds a `Stop`.
pub open spec fn has_stop<W>(events: Seq<DispatchEvent<W>>) -> bool {
    exists|i: int| 0 <= i < events.len() && events[i] is Stop
}

/// The work items of `events`, in order.
pub open spec fn items<W>(events: Seq<DispatchEvent<W>>) -> Seq<W>
    decreases events.len(),
{
    if events.len() == 0 {
        Seq::empty()
    } else {
        match events[0] {
            DispatchEvent::WorkItem(w) => seq![w] + items(events.drop_first()),
            DispatchEvent::Stop => items(events.drop_first()),
        }
    }
}

/// The abstract state of a dispatcher.
pub ghost struct DispatcherView<W> {
    /// Whether the stop event has been observed.
    pub stopped: bool,
    /// Every event observed, in order.
    pub seen: Seq<DispatchEvent<W>>,
    /// Every item forwarded to the pool, in order.
    pub forwarded: Seq<W>,
}

/// The decision half of the dispatcher's loop: it observes the merged stream
/// one event at a time and says what to do with each.
pub struct Dispatcher<W> {
    stopped: bool,
    seen: Ghost<Seq<DispatchEvent<W>>>,
    forwarded: Ghost<Seq<W>>,
}

impl<W> View for Dispatcher<W> {
    type V = DispatcherView<W>;

    closed spec fn view(&self) -> DispatcherView<W> {
        DispatcherView { stopped: self.stopped, seen: self.seen@, forwarded: self.forwarded@ }
    }
}

proof fn lemma_accepted_push<W>(events: Seq<DispatchEvent<W>>, e: DispatchEvent<W>)
    ensures
        !has_stop(events) ==> accepted(events.push(e)) == match e {
            DispatchEvent::WorkItem(w) => accepted(events).push(w),
            DispatchEvent::Stop => accepted(events),
        },
        has_stop(events) ==> accepted(events.push(e)) == accepted(events),
    decreases events.len(),
{
    if events.len() > 0 {
        assert(events.push(e).drop_first() =~= events.drop_first().push(e));
        lemma_accepted_push(events.drop_first(), e);
        if !has_stop(events) {
            assert(!has_stop(events.drop_first())) by {
                if has_stop(events.drop_first()) {
                    let i = choose|i: int|
                        0 <= i < events.drop_first().len() && events.drop_first()[i] is Stop;
                    assert(events[i + 1] is Stop);
                }
            }
        } else if !(events[0] is Stop) {
            let i = choose|i: int| 0 <= i < events.len() && events[i] is Stop;
            assert(events.drop_first()[i - 1] is Stop);
        }
        match events[0] {
            DispatchEvent::WorkItem(w) => {
                assert((seq![w] + accepted(events.drop_first())).push(e->WorkItem_0)
                    =~= seq![w] + accepted(events.drop_first()).push(e->WorkItem_0));
            },
            DispatchEvent::Stop => {},
        }
    } else {
        assert(events.push(e).drop_first() =~= Seq::<DispatchEvent<W>>::empty());
        if let DispatchEvent::WorkItem(w) = e {
            assert(seq![w] + accepted(Seq::<DispatchEvent<W>>::empty()) =~= accepted(events).push(w));
        }
    }
}

impl<W> Dispatcher<W> {
    /// What has been forwarded is exactly the items before the first stop,
    /// and the dispatcher is stopped exactly when it has seen a stop.
    pub open spec fn wf(&self) -> bool {
        &&& self@.forwarded == accepted(self@.seen)
        &&& self@.stopped == has_stop(self@.seen)
    }

    /// A dispatcher that has observed nothing yet.
    pub fn new() -> (r: Self)
        ensures
            r.wf(),
            r@.seen == Seq::<DispatchEvent<W>>::empty(),
            !r@.stopped,
    {
        Dispatcher { stopped: false, seen: Ghost(Seq::empty()), forwarded: Ghost(Seq::empty()) }
    }

    /// Whether the stop event has been observed.
    pub fn is_stopped(&self) -> (r: bool)
        ensures
            r == self@.stopped,
    {
        self.stopped
    }

    /// Observes one event. Before stop, a work item is forwarded and `Stop`
    /// halts; after stop, a work item is discarded and `Stop` halts again.
    pub fn on_event(&mut self, event: DispatchEvent<W>) -> (r: DispatchAction<W>)
        requires
            old(self).wf(),
        ensures
            final(self).wf(),
            final(self)@.seen == old(self)@.seen.push(event),
            final(self)@.stopped == (old(self)@.stopped || event is Stop),
            match event {
                DispatchEvent::WorkItem(w) => if old(self)@.stopped {
                    r == DispatchAction::Discard(w) && final(self)@.forwarded == old(self)@.forwarded
                } else {
                    r == DispatchAction::Forward(w) && final(self)@.forwarded
                        == old(self)@.forwarded.push(w)
                },
                DispatchEvent::Stop => r is Halt && final(self)@.forwarded == old(self)@.forwarded,
            },
    {
        proof {
            lemma_accepted_push(self.seen@, event);
            let s = self.seen@.push(event);
            if has_stop(self.seen@) {
                let i = choose|i: int| 0 <= i < self.seen@.len() && self.seen@[i] is Stop;
                assert(s[i] is Stop);
            }
            if event is Stop {
                assert(s[s.len() - 1] is Stop);
            }
            if has_stop(s) && !has_stop(self.seen@) {
                let i = choose|i: int| 0 <= i < s.len() && s[i] is Stop;
                if i < self.seen@.len() {
                    assert(self.seen@[i] is Stop);
                }
            }
        }
        let ghost old_forwarded = self.forwarded@;
        self.seen = Ghost(self.seen@.push(event));
        match event {
            DispatchEvent::WorkItem(w) => {
                if self.stopped {
                    DispatchAction::Discard(w)
                } else {
                    self.forwarded = Ghost(old_forwarded.push(w));
                    DispatchAction::Forward(w)
                }
            },
            DispatchEvent::Stop => {
                self.stopped = true;
                DispatchAction::Halt
            },
        }
    }
}

/// Every work item that arrives before the stop event is forwarded, in
/// order, and none that arrives after it is.
pub proof fn lemma_items_before_stop_forwarded<W>(
    before: Seq<DispatchEvent<W>>,
    after: Seq<DispatchEvent<W>>,
)
    requires
        !has_stop(before),
    ensures
        accepted(before + seq![DispatchEvent::Stop] + after) == items(before),
    decreases before.len(),
{
    let all = before + seq![DispatchEvent::Stop] + after;
    if before.len() == 0 {
        assert(all[0] is Stop);
    } else {
        assert(all.drop_first() =~= before.drop_first() + seq![DispatchEvent::Stop] + after);
        assert(!has_stop(before.drop_first())) by {
            if has_stop(before.drop_first()) {
                let i = choose|i: int|
                    0 <= i < before.drop_first().len() && before.drop_first()[i] is Stop;
                assert(before[i + 1] is Stop);
            }
        }
        assert(!(before[0] is Stop));
        lemma_items_before_stop_forwarded(before.drop_first(), after);
        assert(all[0] == before[0]);
    }
}

/// A stop observed before any work item forwards nothing, whatever arrives
/// after it.
pub proof fn lemma_stop_first_forwards_nothing<W>(after: Seq<DispatchEvent<W>>)
    ensures
        accepted(seq![DispatchEvent::Stop] + after) == Seq::<W>::empty(),
{
    assert((seq![DispatchEvent::Stop] + after)[0] is Stop);
}

} // verus!
