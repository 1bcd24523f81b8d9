//! The coordinator: a single-threaded state machine over the pending-request
//! queue, the in-flight flag and the subscription registry.
//!
//! The wire protocol carries no request identifier, so ordering is the
//! correlation key: at most one request is in flight at any instant, and a
//! solicited response always answers the oldest pending request.  The
//! embedding feeds the machine one [`TaskItem`] at a time and performs the
//! returned [`StepEffects`]; every transition equals the specification
//! function [`spec_step`], and the trace-level ordering laws are proved from
//! it at the end of this module.

use vstd::prelude::*;

use std::collections::VecDeque;

use crate::error::Error;

verus! {

/// A serialized request together with its completion slot.  The slot is a
/// number; the embedding maps it to whatever single-use channel the caller
/// is waiting on, and every slot is fulfilled exactly once.
pub struct SendRequest {
    pub buf: Vec<u8>,
    pub slot: u64,
}

/// One complete PDU as read off the wire, together with the embedding's
/// shallow sniff of its unilateral-push envelope: `Some(name)` when the
/// bytes decode as a map holding a boolean `unilateral` field and a string
/// `subscription` field naming `name`.
///
/// The sniff needs the codec's full decoder, which is not total on hostile
/// bytes (see [`crate::codec`]), so the embedding performs it where a panic
/// can be contained and hands the outcome in here; the coordinator routes
/// on that value and is verified for every value it may take.  A decode
/// that fails — or is caught panicking — yields `None`, and the PDU is then
/// treated as the response to the request in flight, exactly as a
/// non-unilateral message is.
pub struct ReceivedPdu {
    pub bytes: Vec<u8>,
    pub unilateral: Option<String>,
}

/// One message consumed by the coordinator's event loop.
pub enum TaskItem {
    /// A caller submits a serialized request.
    QueueRequest(SendRequest),
    /// The frame reader assembled one complete PDU off the wire, and the
    /// embedding sniffed its envelope.
    ProcessReceivedPdu(ReceivedPdu),
    /// A new subscription asks for unilateral PDUs bearing its name to be
    /// delivered to the channel with this identifier.
    RegisterSubscription(String, u64),
}

/// The specification-level image of the coordinator's inputs.  Beside the
/// three queue items it also names the two transitions the embedding
/// invokes directly: dropping a subscription whose receiver is gone, and
/// the terminal drain when the connection fails.
pub enum Event {
    QueueRequest { request: SendRequest },
    ProcessReceivedPdu { pdu: Seq<u8>, unilateral: Option<String> },
    RegisterSubscription { name: String, channel: u64 },
    DropSubscription { name: String },
    Fail,
}

impl View for TaskItem {
    type V = Event;

    open spec fn view(&self) -> Event {
        match self {
            TaskItem::QueueRequest(r) => Event::QueueRequest { request: *r },
            TaskItem::ProcessReceivedPdu(p) => Event::ProcessReceivedPdu {
                pdu: p.bytes@,
                unilateral: p.unilateral,
            },
            TaskItem::RegisterSubscription(n, c) => Event::RegisterSubscription {
                name: *n,
                channel: *c,
            },
        }
    }
}

/// The coordinator's state, as the specification sees it.
pub struct TaskModel {
    /// The pending requests, oldest first.
    pub queue: Seq<SendRequest>,
    /// Whether the front request has been written and awaits its response.
    pub waiting: bool,
    /// The subscription registry: name and delivery-channel identifier.
    pub subs: Seq<(String, u64)>,
}

/// What the embedding must perform after one step, in this order: deliver,
/// complete, send.
pub struct StepEffects {
    /// Forward this PDU to the subscription channel with this identifier;
    /// when the receiving end is gone, call
    /// [`ClientTask::drop_subscription`] — that is not connection-fatal.
    pub deliver: Option<(u64, Vec<u8>)>,
    /// Fulfill this completion slot with these response bytes.
    pub complete: Option<(u64, Vec<u8>)>,
    /// Write these bytes to the transport; a write failure is
    /// connection-fatal: call [`ClientTask::fail_all`] and stop.
    pub send: Option<Vec<u8>>,
    /// A protocol violation: call [`ClientTask::fail_all`] and stop.
    pub fatal: Option<Error>,
}

/// The specification-level image of [`StepEffects`].
pub struct EffectsModel {
    pub deliver: Option<(u64, Seq<u8>)>,
    pub complete: Option<(u64, Seq<u8>)>,
    pub send: Option<Seq<u8>>,
    pub fatal: Option<Seq<char>>,
}

impl View for StepEffects {
    type V = EffectsModel;

    open spec fn view(&self) -> EffectsModel {
        EffectsModel {
            deliver: match self.deliver {
                Some(p) => Some((p.0, p.1@)),
                None => None,
            },
            complete: match self.complete {
                Some(p) => Some((p.0, p.1@)),
                None => None,
            },
            send: view_bytes_opt(self.send),
            fatal: match self.fatal {
                Some(e) => Some(e.spec_message()),
                None => None,
            },
        }
    }
}

/// The bytes of an optional buffer.
pub open spec fn view_bytes_opt(o: Option<Vec<u8>>) -> Option<Seq<u8>> {
    match o {
        Some(b) => Some(b@),
        None => None,
    }
}

pub open spec fn no_effects() -> EffectsModel {
    EffectsModel { deliver: None, complete: None, send: None, fatal: None }
}

/// The channel registered for this name, scanning oldest entry first.
pub open spec fn spec_lookup(subs: Seq<(String, u64)>, name: Seq<char>) -> Option<u64>
    decreases subs.len(),
{
    if subs.len() == 0 {
        None
    } else if subs[0].0@ == name {
        Some(subs[0].1)
    } else {
        spec_lookup(subs.skip(1), name)
    }
}

/// The registry after registering a name: the first entry bearing the name
/// is overwritten, or a new entry is appended.
pub open spec fn spec_register(subs: Seq<(String, u64)>, name: String, channel: u64) -> Seq<
    (String, u64),
>
    decreases subs.len(),
{
    if subs.len() == 0 {
        seq![(name, channel)]
    } else if subs[0].0@ == name@ {
        seq![(name, channel)] + subs.skip(1)
    } else {
        seq![subs[0]] + spec_register(subs.skip(1), name, channel)
    }
}

/// The registry after dropping a name: the first entry bearing the name is
/// removed.
pub open spec fn spec_remove(subs: Seq<(String, u64)>, name: Seq<char>) -> Seq<(String, u64)>
    decreases subs.len(),
{
    if subs.len() == 0 {
        subs
    } else if subs[0].0@ == name {
        subs.skip(1)
    } else {
        seq![subs[0]] + spec_remove(subs.skip(1), name)
    }
}

/// The send attempt made after every queue item: when no request is in
/// flight and the queue is not empty, the front request's bytes go to the
/// transport and the in-flight flag is set.
pub open spec fn spec_send_next(s: TaskModel) -> (TaskModel, Option<Seq<u8>>) {
    if !s.waiting && s.queue.len() > 0 {
        (TaskModel { waiting: true, ..s }, Some(s.queue[0].buf@))
    } else {
        (s, None)
    }
}

/// How an arrived PDU is handled when it is not a registered push: a
/// request in flight is answered (strict FIFO: the front of the queue), and
/// otherwise the connection has seen a message nobody asked for, which is a
/// protocol violation.
pub open spec fn spec_respond_or_fail(s: TaskModel, pdu: Seq<u8>) -> (TaskModel, EffectsModel) {
    if s.waiting && s.queue.len() > 0 {
        let popped = TaskModel { queue: s.queue.skip(1), waiting: false, ..s };
        let (s2, send) = spec_send_next(popped);
        (
            s2,
            EffectsModel {
                complete: Some((s.queue[0].slot, pdu)),
                send,
                ..no_effects()
            },
        )
    } else {
        (
            s,
            EffectsModel {
                fatal: Some("received a unilateral PDU from the server"@),
                ..no_effects()
            },
        )
    }
}

/// One transition of the coordinator.
pub open spec fn spec_step(s: TaskModel, ev: Event) -> (TaskModel, EffectsModel) {
    match ev {
        Event::QueueRequest { request } => {
            let queued = TaskModel { queue: s.queue.push(request), ..s };
            let (s2, send) = spec_send_next(queued);
            (s2, EffectsModel { send, ..no_effects() })
        },
        Event::ProcessReceivedPdu { pdu, unilateral } => match unilateral {
            Some(name) => match spec_lookup(s.subs, name@) {
                Some(channel) => {
                    let (s2, send) = spec_send_next(s);
                    (s2, EffectsModel { deliver: Some((channel, pdu)), send, ..no_effects() })
                },
                None => spec_respond_or_fail(s, pdu),
            },
            None => spec_respond_or_fail(s, pdu),
        },
        Event::RegisterSubscription { name, channel } => (
            TaskModel { subs: spec_register(s.subs, name, channel), ..s },
            no_effects(),
        ),
        Event::DropSubscription { name } => (
            TaskModel { subs: spec_remove(s.subs, name@), ..s },
            no_effects(),
        ),
        Event::Fail => (TaskModel { queue: Seq::empty(), waiting: false, subs: s.subs },
        no_effects()),
    }
}

/// The coordinator.  It owns the pending-request queue, the in-flight flag
/// and the subscription registry; nothing else mutates them.
pub struct ClientTask {
    pub request_queue: VecDeque<SendRequest>,
    pub waiting_response: bool,
    pub subscriptions: Vec<(String, u64)>,
}

impl View for ClientTask {
    type V = TaskModel;

    open spec fn view(&self) -> TaskModel {
        TaskModel {
            queue: self.request_queue@,
            waiting: self.waiting_response,
            subs: self.subscriptions@,
        }
    }
}

/// The coordinator's invariant: the in-flight flag is set only while the
/// queue holds the request that was written.
pub open spec fn task_inv(s: TaskModel) -> bool {
    s.waiting ==> s.queue.len() > 0
}

impl ClientTask {
    /// A fresh coordinator: nothing pending, nothing in flight, no
    /// subscriptions.
    pub fn new() -> (t: ClientTask)
        ensures
            t@.queue.len() == 0,
            !t@.waiting,
            t@.subs.len() == 0,
            task_inv(t@),
    {
        ClientTask {
            request_queue: VecDeque::new(),
            waiting_response: false,
            subscriptions: Vec::new(),
        }
    }

    /// The channel registered for this subscription name, if any.
    fn lookup_subscription(&self, name: &String) -> (r: Option<u64>)
        ensures
            r == spec_lookup(self@.subs, name@),
    {
        let n = self.subscriptions.len();
        let mut i: usize = 0;
        proof {
            assert(self@.subs.skip(0) =~= self@.subs);
        }
        while i < n
            invariant
                n == self.subscriptions@.len(),
                i <= n,
                spec_lookup(self@.subs, name@) == spec_lookup(
                    self@.subs.skip(i as int),
                    name@,
                ),
            decreases n - i,
        {
            let entry = &self.subscriptions[i];
            proof {
                assert(self@.subs.skip(i as int)[0] == self@.subs[i as int]);
            }
            if entry.0 == *name {
                return Some(entry.1);
            }
            proof {
                assert(self@.subs.skip(i as int).skip(1) =~= self@.subs.skip(i as int + 1));
            }
            i = i + 1;
        }
        None
    }

    /// If no request is in flight, hand the embedding the front request's
    /// bytes to write, and mark it in flight.
    fn send_next_request(&mut self) -> (send: Option<Vec<u8>>)
        ensures
            (final(self)@, view_bytes_opt(send)) == spec_send_next(old(self)@),
            task_inv(old(self)@) ==> task_inv(final(self)@),
    {
        if !self.waiting_response && self.request_queue.len() > 0 {
            let buf = self.request_queue[0].buf.clone();
            self.waiting_response = true;
            Some(buf)
        } else {
            None
        }
    }

    /// Queue a caller's request at the back, then attempt a send.
    pub fn queue_request(&mut self, request: SendRequest) -> (effects: StepEffects)
        requires
            task_inv(old(self)@),
        ensures
            (final(self)@, effects@) == spec_step(
                old(self)@,
                Event::QueueRequest { request },
            ),
            task_inv(final(self)@),
    {
        self.request_queue.push_back(request);
        let send = self.send_next_request();
        StepEffects { deliver: None, complete: None, send, fatal: None }
    }

    /// Dispatch one complete PDU: a push whose sniffed name is registered
    /// goes to its subscription, anything else answers the oldest pending
    /// request, and a message nobody asked for is a protocol violation.
    pub fn process_pdu(&mut self, pdu: ReceivedPdu) -> (effects: StepEffects)
        requires
            task_inv(old(self)@),
        ensures
            (final(self)@, effects@) == spec_step(
                old(self)@,
                Event::ProcessReceivedPdu { pdu: pdu.bytes@, unilateral: pdu.unilateral },
            ),
            task_inv(final(self)@),
    {
        let ReceivedPdu { bytes, unilateral } = pdu;
        let routed: Option<u64> = match &unilateral {
            Some(name) => self.lookup_subscription(name),
            None => None,
        };
        match routed {
            Some(channel) => {
                let send = self.send_next_request();
                StepEffects { deliver: Some((channel, bytes)), complete: None, send, fatal: None }
            },
            None => {
                if self.waiting_response {
                    match self.request_queue.pop_front() {
                        Some(request) => {
                            self.waiting_response = false;
                            let send = self.send_next_request();
                            StepEffects {
                                deliver: None,
                                complete: Some((request.slot, bytes)),
                                send,
                                fatal: None,
                            }
                        },
                        None => unreached(),
                    }
                } else {
                    StepEffects {
                        deliver: None,
                        complete: None,
                        send: None,
                        fatal: Some(
                            Error::Generic(
                                String::from_str("received a unilateral PDU from the server"),
                            ),
                        ),
                    }
                }
            },
        }
    }

    /// Insert a subscription's delivery channel, overwriting a stale entry
    /// with the same name.
    pub fn register_subscription(&mut self, name: String, channel: u64)
        ensures
            final(self)@ == (TaskModel {
                subs: spec_register(old(self)@.subs, name, channel),
                ..old(self)@
            }),
    {
        let n = self.subscriptions.len();
        let mut i: usize = 0;
        while i < n
            invariant
                n == self.subscriptions@.len(),
                i <= n,
                *self == *old(self),
                forall|j: int| 0 <= j < i ==> self.subscriptions@[j].0@ != name@,
            decreases n - i,
        {
            let found = self.subscriptions[i].0 == name;
            if found {
                proof {
                    lemma_register_at(self@.subs, name, channel, i as int);
                }
                self.subscriptions.set(i, (name, channel));
                return ;
            }
            i = i + 1;
        }
        proof {
            lemma_register_absent(self@.subs, name, channel);
        }
        self.subscriptions.push((name, channel));
    }

    /// Forget a subscription whose receiving end is gone.  This is not
    /// connection-fatal; the queue and the in-flight flag are untouched.
    pub fn drop_subscription(&mut self, name: &String)
        ensures
            final(self)@ == spec_step(old(self)@, Event::DropSubscription { name: *name }).0,
    {
        let n = self.subscriptions.len();
        let mut i: usize = 0;
        while i < n
            invariant
                n == self.subscriptions@.len(),
                i <= n,
                *self == *old(self),
                forall|j: int| 0 <= j < i ==> self.subscriptions@[j].0@ != name@,
            decreases n - i,
        {
            let found = self.subscriptions[i].0 == *name;
            if found {
                proof {
                    lemma_remove_at(self@.subs, name@, i as int);
                }
                self.subscriptions.remove(i);
                return ;
            }
            i = i + 1;
        }
        proof {
            lemma_remove_absent(self@.subs, name@);
        }
    }

    /// Consume one event-loop item and report what to perform.
    pub fn handle_item(&mut self, item: TaskItem) -> (effects: StepEffects)
        requires
            task_inv(old(self)@),
        ensures
            (final(self)@, effects@) == spec_step(old(self)@, item@),
            task_inv(final(self)@),
    {
        match item {
            TaskItem::QueueRequest(request) => self.queue_request(request),
            TaskItem::ProcessReceivedPdu(pdu) => self.process_pdu(pdu),
            TaskItem::RegisterSubscription(name, channel) => {
                self.register_subscription(name, channel);
                StepEffects { deliver: None, complete: None, send: None, fatal: None }
            },
        }
    }

    /// Drain the queue when the connection is beyond recovery: every
    /// pending request — queued or in flight — is completed at once with
    /// the terminal error, oldest first, so no caller waits forever.  The
    /// in-flight flag is cleared with the queue.
    pub fn fail_all(&mut self, error: &Error) -> (failed: Vec<(u64, String)>)
        ensures
            final(self)@ == spec_step(old(self)@, Event::Fail).0,
            failed@.len() == old(self)@.queue.len(),
            forall|i: int|
                0 <= i < failed@.len() ==> failed@[i].0 == old(self)@.queue[i].slot && failed@[i].1@
                    == error.spec_message(),
            task_inv(final(self)@),
    {
        self.waiting_response = false;
        let mut failed: Vec<(u64, String)> = Vec::new();
        proof {
            assert(old(self)@.queue.skip(0) =~= old(self)@.queue);
        }
        while self.request_queue.len() > 0
            invariant
                !self.waiting_response,
                self.subscriptions == old(self).subscriptions,
                failed@.len() + self.request_queue@.len() == old(self)@.queue.len(),
                self.request_queue@ == old(self)@.queue.skip(failed@.len() as int),
                forall|i: int|
                    0 <= i < failed@.len() ==> failed@[i].0 == old(self)@.queue[i].slot
                        && failed@[i].1@ == error.spec_message(),
            decreases self.request_queue@.len(),
        {
            match self.request_queue.pop_front() {
                Some(request) => {
                    proof {
                        assert(old(self)@.queue.skip(failed@.len() as int).skip(1)
                            =~= old(self)@.queue.skip(failed@.len() as int + 1));
                    }
                    failed.push((request.slot, error.message()));
                },
                None => unreached(),
            }
        }
        proof {
            assert(self.request_queue@ =~= Seq::<SendRequest>::empty());
        }
        failed
    }
}

// ---------------------------------------------------------------------------
// Registry lemmas: the recursive registry functions agree with the indexed
// operations the executable code performs.
// ---------------------------------------------------------------------------

proof fn lemma_register_at(subs: Seq<(String, u64)>, name: String, channel: u64, i: int)
    requires
        0 <= i < subs.len(),
        forall|j: int| 0 <= j < i ==> subs[j].0@ != name@,
        subs[i].0@ == name@,
    ensures
        spec_register(subs, name, channel) == subs.update(i, (name, channel)),
    decreases i,
{
    if i == 0 {
        assert(seq![(name, channel)] + subs.skip(1) =~= subs.update(0, (name, channel)));
    } else {
        assert(forall|j: int| 0 <= j < i - 1 ==> subs.skip(1)[j].0@ != name@);
        lemma_register_at(subs.skip(1), name, channel, i - 1);
        assert(seq![subs[0]] + subs.skip(1).update(i - 1, (name, channel)) =~= subs.update(
            i,
            (name, channel),
        ));
    }
}

proof fn lemma_register_absent(subs: Seq<(String, u64)>, name: String, channel: u64)
    requires
        forall|j: int| 0 <= j < subs.len() ==> subs[j].0@ != name@,
    ensures
        spec_register(subs, name, channel) == subs.push((name, channel)),
    decreases subs.len(),
{
    if subs.len() == 0 {
        assert(seq![(name, channel)] =~= subs.push((name, channel)));
    } else {
        assert(forall|j: int| 0 <= j < subs.skip(1).len() ==> subs.skip(1)[j].0@ != name@);
        lemma_register_absent(subs.skip(1), name, channel);
        assert(seq![subs[0]] + subs.skip(1).push((name, channel)) =~= subs.push((name, channel)));
    }
}

proof fn lemma_remove_at(subs: Seq<(String, u64)>, name: Seq<char>, i: int)
    requires
        0 <= i < subs.len(),
        forall|j: int| 0 <= j < i ==> subs[j].0@ != name,
        subs[i].0@ == name,
    ensures
        spec_remove(subs, name) == subs.remove(i),
    decreases i,
{
    if i == 0 {
        assert(subs.skip(1) =~= subs.remove(0));
    } else {
        assert(forall|j: int| 0 <= j < i - 1 ==> subs.skip(1)[j].0@ != name);
        lemma_remove_at(subs.skip(1), name, i - 1);
        assert(seq![subs[0]] + subs.skip(1).remove(i - 1) =~= subs.remove(i));
    }
}

proof fn lemma_remove_absent(subs: Seq<(String, u64)>, name: Seq<char>)
    requires
        forall|j: int| 0 <= j < subs.len() ==> subs[j].0@ != name,
    ensures
        spec_remove(subs, name) == subs,
    decreases subs.len(),
{
    if subs.len() > 0 {
        assert(forall|j: int| 0 <= j < subs.skip(1).len() ==> subs.skip(1)[j].0@ != name);
        lemma_remove_absent(subs.skip(1), name);
        assert(seq![subs[0]] + subs.skip(1) =~= subs);
    }
}

// ---------------------------------------------------------------------------
// Trace-level laws: over any sequence of events, completions happen in
// submission order, and a drain completes everything that was pending.
// ---------------------------------------------------------------------------

/// The coordinator's initial state.
pub open spec fn init_model() -> TaskModel {
    TaskModel { queue: Seq::empty(), waiting: false, subs: Seq::empty() }
}

/// One event's completions: `Some(bytes)` is a server response, `None` is
/// the terminal connection error.
pub open spec fn completions_of(s: TaskModel, ev: Event) -> Seq<(u64, Option<Seq<u8>>)> {
    match ev {
        Event::Fail => s.queue.map_values(|r: SendRequest| (r.slot, None::<Seq<u8>>)),
        _ => match spec_step(s, ev).1.complete {
            Some(p) => seq![(p.0, Some(p.1))],
            None => Seq::empty(),
        },
    }
}

/// The state reached and the completions emitted by a whole event trace,
/// from the initial state.
pub open spec fn spec_run(evs: Seq<Event>) -> (TaskModel, Seq<(u64, Option<Seq<u8>>)>)
    decreases evs.len(),
{
    if evs.len() == 0 {
        (init_model(), Seq::empty())
    } else {
        let (s, comps) = spec_run(evs.drop_last());
        (spec_step(s, evs.last()).0, comps + completions_of(s, evs.last()))
    }
}

/// The completion slots submitted by a trace, in submission order.
pub open spec fn enqueued_of(evs: Seq<Event>) -> Seq<u64>
    decreases evs.len(),
{
    if evs.len() == 0 {
        Seq::empty()
    } else {
        enqueued_of(evs.drop_last()) + (match evs.last() {
            Event::QueueRequest { request } => seq![request.slot],
            _ => Seq::empty(),
        })
    }
}

/// The slots of a queue, oldest first.
pub open spec fn queue_slots(q: Seq<SendRequest>) -> Seq<u64> {
    q.map_values(|r: SendRequest| r.slot)
}

/// The slots of a completion sequence, in completion order.
pub open spec fn completed_slots(c: Seq<(u64, Option<Seq<u8>>)>) -> Seq<u64> {
    c.map_values(|p: (u64, Option<Seq<u8>>)| p.0)
}

/// Every submitted request is accounted for, in order: the slots completed
/// so far, followed by the slots still queued, are exactly the slots
/// submitted — whatever mixture of submissions, responses, pushes,
/// registrations and failures the trace holds.
pub proof fn lemma_trace_accounting(evs: Seq<Event>)
    ensures
        ({
            let (s, comps) = spec_run(evs);
            completed_slots(comps) + queue_slots(s.queue) == enqueued_of(evs)
        }),
    decreases evs.len(),
{
    if evs.len() == 0 {
        assert(completed_slots(Seq::empty()) + queue_slots(Seq::empty()) =~= Seq::<u64>::empty());
    } else {
        let prefix = evs.drop_last();
        let ev = evs.last();
        lemma_trace_accounting(prefix);
        let (s0, c0) = spec_run(prefix);
        let s1 = spec_step(s0, ev).0;
        let c1 = c0 + completions_of(s0, ev);
        match ev {
            Event::QueueRequest { request } => {
                assert(completed_slots(c1) =~= completed_slots(c0));
                assert(queue_slots(s1.queue) =~= queue_slots(s0.queue).push(request.slot));
                assert(completed_slots(c0) + queue_slots(s0.queue).push(request.slot)
                    =~= (completed_slots(c0) + queue_slots(s0.queue)) + seq![request.slot]);
            },
            Event::ProcessReceivedPdu { pdu, unilateral } => {
                let delivered = match unilateral {
                    Some(name) => spec_lookup(s0.subs, name@) is Some,
                    None => false,
                };
                if delivered || !(s0.waiting && s0.queue.len() > 0) {
                    assert(completed_slots(c1) =~= completed_slots(c0));
                    assert(s1.queue == s0.queue);
                } else {
                    assert(completed_slots(c1) =~= completed_slots(c0).push(s0.queue[0].slot));
                    assert(queue_slots(s1.queue) =~= queue_slots(s0.queue).skip(1));
                    assert(completed_slots(c0).push(s0.queue[0].slot) + queue_slots(
                        s0.queue,
                    ).skip(1) =~= completed_slots(c0) + queue_slots(s0.queue));
                }
                assert(enqueued_of(evs) =~= enqueued_of(prefix));
            },
            Event::RegisterSubscription { .. } => {
                assert(completed_slots(c1) =~= completed_slots(c0));
                assert(enqueued_of(evs) =~= enqueued_of(prefix));
            },
            Event::DropSubscription { .. } => {
                assert(completed_slots(c1) =~= completed_slots(c0));
                assert(enqueued_of(evs) =~= enqueued_of(prefix));
            },
            Event::Fail => {
                assert(completed_slots(c1) =~= completed_slots(c0) + queue_slots(s0.queue));
                assert(queue_slots(s1.queue) =~= Seq::<u64>::empty());
                assert(completed_slots(c1) + queue_slots(s1.queue) =~= completed_slots(c1));
                assert(enqueued_of(evs) =~= enqueued_of(prefix));
            },
        }
    }
}

/// Registration feeds routing: after a name is registered, a lookup of that
/// name finds exactly the channel it was registered with, and every other
/// name still resolves as before.
pub proof fn lemma_register_then_lookup(subs: Seq<(String, u64)>, name: String, channel: u64)
    ensures
        spec_lookup(spec_register(subs, name, channel), name@) == Some(channel),
        forall|other: Seq<char>|
            other != name@ ==> spec_lookup(spec_register(subs, name, channel), other)
                == spec_lookup(subs, other),
    decreases subs.len(),
{
    let registered = spec_register(subs, name, channel);
    if subs.len() == 0 {
        assert forall|other: Seq<char>| other != name@ implies spec_lookup(registered, other)
            == spec_lookup(subs, other) by {
            assert(registered.skip(1) =~= subs);
        }
    } else if subs[0].0@ == name@ {
        assert(registered.skip(1) =~= subs.skip(1));
        assert forall|other: Seq<char>| other != name@ implies spec_lookup(registered, other)
            == spec_lookup(subs, other) by {
            assert(spec_lookup(registered, other) == spec_lookup(subs.skip(1), other));
            assert(spec_lookup(subs, other) == spec_lookup(subs.skip(1), other));
        }
    } else {
        lemma_register_then_lookup(subs.skip(1), name, channel);
        assert(registered[0] == subs[0]);
        assert(registered.skip(1) =~= spec_register(subs.skip(1), name, channel));
        assert forall|other: Seq<char>| other != name@ implies spec_lookup(registered, other)
            == spec_lookup(subs, other) by {
            assert(registered.len() > 0);
            if subs[0].0@ == other {
                assert(spec_lookup(registered, other) == Some(subs[0].1));
                assert(spec_lookup(subs, other) == Some(subs[0].1));
            } else {
                assert(spec_lookup(registered, other) == spec_lookup(registered.skip(1), other));
                assert(spec_lookup(registered.skip(1), other) == spec_lookup(
                    spec_register(subs.skip(1), name, channel),
                    other,
                ));
                assert(spec_lookup(subs, other) == spec_lookup(subs.skip(1), other));
            }
        }
    }
}

/// A registry without two entries for one name.  A registry only ever grows
/// through [`spec_register`], which overwrites instead of duplicating, so
/// every reachable registry is of this shape.
pub open spec fn unique_names(subs: Seq<(String, u64)>) -> bool {
    forall|i: int, j: int| 0 <= i < j < subs.len() ==> subs[i].0@ != subs[j].0@
}

/// Registering keeps the registry free of duplicate names.
pub proof fn lemma_register_keeps_unique_names(subs: Seq<(String, u64)>, name: String, channel: u64)
    requires
        unique_names(subs),
    ensures
        unique_names(spec_register(subs, name, channel)),
    decreases subs.len(),
{
    let registered = spec_register(subs, name, channel);
    if subs.len() == 0 {
    } else if subs[0].0@ == name@ {
        assert forall|i: int, j: int| 0 <= i < j < registered.len() implies registered[i].0@
            != registered[j].0@ by {
            assert(registered[j] == subs[j]);
            if i > 0 {
                assert(registered[i] == subs[i]);
            }
        }
    } else {
        assert(forall|i: int, j: int|
            0 <= i < j < subs.skip(1).len() ==> subs.skip(1)[i].0@ != subs.skip(1)[j].0@);
        lemma_register_keeps_unique_names(subs.skip(1), name, channel);
        let tail = spec_register(subs.skip(1), name, channel);
        lemma_register_then_lookup(subs.skip(1), name, channel);
        assert forall|i: int, j: int| 0 <= i < j < registered.len() implies registered[i].0@
            != registered[j].0@ by {
            assert(registered[j] == tail[j - 1]);
            if i > 0 {
                assert(registered[i] == tail[i - 1]);
            } else {
                lemma_register_members(subs.skip(1), name, channel, tail[j - 1].0@);
                if tail[j - 1].0@ != name@ {
                    let k = choose|k: int|
                        0 <= k < subs.skip(1).len() && subs.skip(1)[k].0@ == tail[j - 1].0@;
                    assert(subs[k + 1].0@ == tail[j - 1].0@);
                }
            }
        }
    }
}

/// Registration introduces no name but the registered one: every name in
/// the new registry is that name or was already present.
proof fn lemma_register_members(
    subs: Seq<(String, u64)>,
    name: String,
    channel: u64,
    member: Seq<char>,
)
    requires
        exists|i: int|
            0 <= i < spec_register(subs, name, channel).len() && spec_register(
                subs,
                name,
                channel,
            )[i].0@ == member,
    ensures
        member == name@ || (exists|i: int| 0 <= i < subs.len() && subs[i].0@ == member),
    decreases subs.len(),
{
    let registered = spec_register(subs, name, channel);
    if subs.len() == 0 {
    } else if subs[0].0@ == name@ {
        let i = choose|i: int| 0 <= i < registered.len() && registered[i].0@ == member;
        if i > 0 {
            assert(registered[i] == subs.skip(1)[i - 1]);
            assert(subs[i].0@ == member);
        }
    } else {
        let tail = spec_register(subs.skip(1), name, channel);
        let i = choose|i: int| 0 <= i < registered.len() && registered[i].0@ == member;
        if i > 0 {
            assert(registered[i] == tail[i - 1]);
            lemma_register_members(subs.skip(1), name, channel, member);
            if member != name@ {
                let j = choose|j: int| 0 <= j < subs.skip(1).len() && subs.skip(1)[j].0@ == member;
                assert(subs[j + 1].0@ == member);
            }
        }
    }
}

/// Deregistration stops routing: once a name is dropped from a registry
/// free of duplicates, a lookup of that name finds nothing, and every other
/// name still resolves as before.
pub proof fn lemma_remove_then_lookup(subs: Seq<(String, u64)>, name: Seq<char>)
    requires
        unique_names(subs),
    ensures
        spec_lookup(spec_remove(subs, name), name) is None,
        forall|other: Seq<char>|
            other != name ==> spec_lookup(spec_remove(subs, name), other) == spec_lookup(
                subs,
                other,
            ),
        unique_names(spec_remove(subs, name)),
    decreases subs.len(),
{
    let removed = spec_remove(subs, name);
    if subs.len() == 0 {
    } else if subs[0].0@ == name {
        assert(removed =~= subs.skip(1));
        assert(forall|i: int, j: int|
            0 <= i < j < removed.len() ==> removed[i].0@ != removed[j].0@);
        assert forall|i: int| 0 <= i < removed.len() implies removed[i].0@ != name by {
            assert(removed[i] == subs[i + 1]);
        }
        if spec_lookup(removed, name) is Some {
            lemma_lookup_is_a_member(removed, name);
        }
    } else {
        assert(forall|i: int, j: int|
            0 <= i < j < subs.skip(1).len() ==> subs.skip(1)[i].0@ != subs.skip(1)[j].0@);
        lemma_remove_then_lookup(subs.skip(1), name);
        let tail = spec_remove(subs.skip(1), name);
        assert(removed[0] == subs[0]);
        assert(removed.skip(1) =~= tail);
        assert forall|other: Seq<char>| other != name implies spec_lookup(removed, other)
            == spec_lookup(subs, other) by {
            if subs[0].0@ != other {
                assert(spec_lookup(removed, other) == spec_lookup(tail, other));
                assert(spec_lookup(subs, other) == spec_lookup(subs.skip(1), other));
            }
        }
        assert forall|i: int, j: int| 0 <= i < j < removed.len() implies removed[i].0@
            != removed[j].0@ by {
            assert(removed[j] == tail[j - 1]);
            if i > 0 {
                assert(removed[i] == tail[i - 1]);
            } else {
                lemma_remove_keeps_members(subs.skip(1), name, tail[j - 1].0@);
            }
        }
    }
}

/// A looked-up name belongs to some entry.
proof fn lemma_lookup_is_a_member(subs: Seq<(String, u64)>, name: Seq<char>)
    requires
        spec_lookup(subs, name) is Some,
    ensures
        exists|i: int| 0 <= i < subs.len() && subs[i].0@ == name,
    decreases subs.len(),
{
    if subs.len() > 0 && subs[0].0@ != name {
        lemma_lookup_is_a_member(subs.skip(1), name);
        let i = choose|i: int| 0 <= i < subs.skip(1).len() && subs.skip(1)[i].0@ == name;
        assert(subs[i + 1].0@ == name);
    }
}

/// Removal introduces no entry: every name in the smaller registry was in
/// the larger one.
proof fn lemma_remove_keeps_members(subs: Seq<(String, u64)>, name: Seq<char>, member: Seq<char>)
    requires
        exists|i: int|
            0 <= i < spec_remove(subs, name).len() && spec_remove(subs, name)[i].0@ == member,
    ensures
        exists|i: int| 0 <= i < subs.len() && subs[i].0@ == member,
    decreases subs.len(),
{
    let removed = spec_remove(subs, name);
    if subs.len() == 0 {
    } else if subs[0].0@ == name {
        let i = choose|i: int| 0 <= i < removed.len() && removed[i].0@ == member;
        assert(subs.skip(1)[i] == subs[i + 1]);
        assert(subs[i + 1].0@ == member);
    } else {
        let tail = spec_remove(subs.skip(1), name);
        let i = choose|i: int| 0 <= i < removed.len() && removed[i].0@ == member;
        if i == 0 {
            assert(subs[0].0@ == member);
        } else {
            assert(removed[i] == tail[i - 1]);
            lemma_remove_keeps_members(subs.skip(1), name, member);
            let j = choose|j: int| 0 <= j < subs.skip(1).len() && subs.skip(1)[j].0@ == member;
            assert(subs[j + 1].0@ == member);
        }
    }
}

/// The queue and the in-flight flag as they stand between steps: the flag
/// is set exactly when the queue is non-empty, because every step ends by
/// writing the front request whenever none is in flight.
pub open spec fn task_at_rest(s: TaskModel) -> bool {
    s.waiting <==> s.queue.len() > 0
}

/// The queue and the in-flight flag stay consistent along every trace: the
/// flag is set if and only if a request is queued — and then its front has
/// been written.
pub proof fn lemma_inv_along_every_trace(evs: Seq<Event>)
    ensures
        task_at_rest(spec_run(evs).0),
        task_inv(spec_run(evs).0),
    decreases evs.len(),
{
    if evs.len() > 0 {
        lemma_inv_along_every_trace(evs.drop_last());
    }
}

/// Every registry a trace can reach is free of duplicate names, so a push
/// is only ever delivered to the one channel its name resolves to.
pub proof fn lemma_registry_unique_along_every_trace(evs: Seq<Event>)
    ensures
        unique_names(spec_run(evs).0.subs),
    decreases evs.len(),
{
    if evs.len() > 0 {
        lemma_registry_unique_along_every_trace(evs.drop_last());
        let s = spec_run(evs.drop_last()).0;
        match evs.last() {
            Event::RegisterSubscription { name, channel } => {
                lemma_register_keeps_unique_names(s.subs, name, channel);
            },
            Event::DropSubscription { name } => {
                lemma_remove_then_lookup(s.subs, name@);
            },
            _ => {},
        }
    }
}

/// FIFO correlation: however many requests a trace submits concurrently,
/// the responses (and terminal errors) are handed to callers in exactly the
/// order the requests were submitted — the completed slots are a prefix of
/// the submitted slots.
pub proof fn lemma_completions_in_submission_order(evs: Seq<Event>)
    ensures
        ({
            let (s, comps) = spec_run(evs);
            completed_slots(comps) == enqueued_of(evs).take(completed_slots(comps).len() as int)
        }),
{
    lemma_trace_accounting(evs);
    let (s, comps) = spec_run(evs);
    assert(completed_slots(comps) =~= enqueued_of(evs).take(
        completed_slots(comps).len() as int,
    ));
}

/// The drain on connection failure: the moment a trace sees the failure,
/// every request still pending — queued or in flight — is completed with
/// the terminal marker, oldest first, and nothing stays queued.  No caller
/// hangs past that one step.
pub proof fn lemma_failure_drains_every_pending_request(s: TaskModel)
    ensures
        spec_step(s, Event::Fail).0.queue.len() == 0,
        completions_of(s, Event::Fail).len() == s.queue.len(),
        forall|i: int|
            0 <= i < s.queue.len() ==> completions_of(s, Event::Fail)[i] == (
                s.queue[i].slot,
                None::<Seq<u8>>,
            ),
{
}

/// Push routing: a PDU sniffed as unilateral and bearing a registered name
/// is delivered to exactly that subscription's channel and leaves the
/// pending-request queue untouched — in a state at rest it changes nothing
/// at all, in particular not the in-flight flag; the same PDU with an
/// unregistered name while no request is in flight is connection-fatal.
pub proof fn lemma_push_routing(s: TaskModel, pdu: Seq<u8>, name: String)
    requires
        task_inv(s),
    ensures
        spec_lookup(s.subs, name@) matches Some(channel) ==> {
            let (s2, eff) = spec_step(
                s,
                Event::ProcessReceivedPdu { pdu, unilateral: Some(name) },
            );
            &&& eff.deliver == Some((channel, pdu))
            &&& eff.complete is None
            &&& eff.fatal is None
            &&& s2.queue == s.queue
            &&& s2.subs == s.subs
        },
        task_at_rest(s) && spec_lookup(s.subs, name@) is Some ==> {
            let (s2, eff) = spec_step(
                s,
                Event::ProcessReceivedPdu { pdu, unilateral: Some(name) },
            );
            &&& s2 == s
            &&& eff.send is None
        },
        spec_lookup(s.subs, name@) is None && !s.waiting ==> {
            let (s2, eff) = spec_step(
                s,
                Event::ProcessReceivedPdu { pdu, unilateral: Some(name) },
            );
            &&& eff.fatal is Some
            &&& eff.deliver is None
            &&& eff.complete is None
            &&& s2 == s
        },
{
}

} // verus!

