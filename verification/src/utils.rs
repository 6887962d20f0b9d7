//! The stable unit identifier, and the progress channel: the ordered,
//! bounded hand-off of progress events from a background worker to a
//! streaming consumer.

use crate::proto::GithubRequest;
use crate::proto::GithubRequestView;
use crate::status::Status;
use crate::status::StatusView;
use vstd::prelude::*;

verus! {

/// The delimiter joining owner, repository and branch in a unit name.
pub open spec fn delimiter() -> Seq<char> {
    ".-."@
}

/// The stable external unit name of a request: owner, repository and
/// branch joined with the delimiter.
pub open spec fn identifier(r: GithubRequestView) -> Seq<char> {
    r.username + delimiter() + r.repository + delimiter() + r.branch
}

impl GithubRequest {
    /// Derives the external unit name.  Total and deterministic; injective
    /// as long as no component holds a `.` (see
    /// [`lemma_identifier_injective`]).
    pub fn get_identifier(&self) -> (r: String)
        ensures
            r@ == identifier(self@),
    {
        let mut s = self.username.clone();
        s.append(".-.");
        s.append(self.repository.as_str());
        s.append(".-.");
        s.append(self.branch.as_str());
        proof {
            assert(s@ =~= identifier(self@));
        }
        s
    }
}

proof fn lemma_split_at_delimiter(u1: Seq<char>, t1: Seq<char>, u2: Seq<char>, t2: Seq<char>)
    requires
        !u1.contains('.'),
        !u2.contains('.'),
        u1 + delimiter() + t1 == u2 + delimiter() + t2,
    ensures
        u1 == u2,
        t1 == t2,
{
    reveal_strlit(".-.");
    let s1 = u1 + delimiter() + t1;
    let s2 = u2 + delimiter() + t2;
    assert(delimiter()[0] == '.');
    if u1.len() < u2.len() {
        assert(s1[u1.len() as int] == '.');
        assert(s2[u1.len() as int] == u2[u1.len() as int]);
        assert(u2.contains('.')) by {
            assert(u2[u1.len() as int] == '.');
        }
        assert(false);
    }
    if u2.len() < u1.len() {
        assert(s2[u2.len() as int] == '.');
        assert(s1[u2.len() as int] == u1[u2.len() as int]);
        assert(u1.contains('.')) by {
            assert(u1[u2.len() as int] == '.');
        }
        assert(false);
    }
    assert(u1 =~= u2) by {
        assert forall|i: int| 0 <= i < u1.len() implies u1[i] == u2[i] by {
            assert(s1[i] == u1[i]);
            assert(s2[i] == u2[i]);
        }
    }
    assert(u1.len() == u2.len());
    assert(s1.len() == u1.len() + delimiter().len() + t1.len());
    assert(s2.len() == u2.len() + delimiter().len() + t2.len());
    assert(t1.len() == t2.len());
    assert(t1 =~= t2) by {
        assert forall|i: int| 0 <= i < t1.len() implies t1[i] == t2[i] by {
            let k = u1.len() + delimiter().len() + i;
            assert(s1[k] == t1[i]);
            assert(k == u2.len() + delimiter().len() + i);
            assert(s2[k] == t2[i]);
        }
    }
}

/// The identifier scheme is injective over non-colliding components: two
/// requests whose owner, repository and branch are free of the delimiter
/// character `.` and whose identifiers are equal are the same request.
pub proof fn lemma_identifier_injective(a: GithubRequestView, b: GithubRequestView)
    requires
        !a.username.contains('.'),
        !a.repository.contains('.'),
        !a.branch.contains('.'),
        !b.username.contains('.'),
        !b.repository.contains('.'),
        !b.branch.contains('.'),
        identifier(a) == identifier(b),
    ensures
        a.username == b.username,
        a.repository == b.repository,
        a.branch == b.branch,
{
    assert(identifier(a) =~= a.username + delimiter() + (a.repository + delimiter() + a.branch));
    assert(identifier(b) =~= b.username + delimiter() + (b.repository + delimiter() + b.branch));
    lemma_split_at_delimiter(
        a.username,
        a.repository + delimiter() + a.branch,
        b.username,
        b.repository + delimiter() + b.branch,
    );
    lemma_split_at_delimiter(a.repository, a.branch, b.repository, b.branch);
}

/// The bound of the progress channel between a workflow and its consumer.
pub const CHANNEL_CAPACITY: usize = 4;

/// Spec-level value of a [`ProgressEvent`].
pub enum EventView {
    Message(Seq<char>),
    Terminal(StatusView),
}

/// One event of a progress stream: a human-readable progress message, or
/// the single terminal error that ends the stream.
#[derive(Debug)]
pub enum ProgressEvent {
    Message(String),
    Terminal(Status),
}

impl View for ProgressEvent {
    type V = EventView;

    open spec fn view(&self) -> EventView {
        match self {
            ProgressEvent::Message(m) => EventView::Message(m@),
            ProgressEvent::Terminal(s) => EventView::Terminal(s@),
        }
    }
}

/// What a send reports to the producer.  `Dropped` — the consumer has
/// disconnected and the event was discarded — is a documented non-error
/// outcome: a disconnected client must not abort work that has side
/// effects on the external system.
#[derive(Clone, Copy, PartialEq, Eq, Structural, Debug)]
pub enum SendResult {
    Sent,
    Dropped,
}

/// Spec-level state of a [`MessageChannel`]: the bound, whether the
/// consumer is still connected, the events queued but not yet observed,
/// the events the consumer has observed, and every event the producer has
/// handed to the channel (delivered or dropped).
pub struct ChannelView {
    pub capacity: nat,
    pub connected: bool,
    pub queue: Seq<EventView>,
    pub delivered: Seq<EventView>,
    pub emitted: Seq<EventView>,
}

/// The events accepted by the channel, in emission order: those already
/// observed by the consumer followed by those still queued.
pub open spec fn accepted(v: ChannelView) -> Seq<EventView> {
    v.delivered + v.queue
}

/// One send, as the producer completes it.  On a disconnected channel the
/// event is discarded and the send reports `Dropped`.  On a full channel
/// the producer blocks; its send completes only once the consumer has read
/// the head of the queue, so that read is part of the send's effect.
/// Otherwise the event is simply queued.
pub open spec fn spec_send(v: ChannelView, e: EventView) -> (ChannelView, SendResult) {
    if !v.connected {
        (
            ChannelView { emitted: v.emitted.push(e), ..v },
            SendResult::Dropped,
        )
    } else if v.queue.len() == v.capacity {
        (
            ChannelView {
                emitted: v.emitted.push(e),
                delivered: v.delivered.push(v.queue[0]),
                queue: v.queue.drop_first().push(e),
                ..v
            },
            SendResult::Sent,
        )
    } else {
        (
            ChannelView { emitted: v.emitted.push(e), queue: v.queue.push(e), ..v },
            SendResult::Sent,
        )
    }
}

/// One receive: the consumer observes the head of the queue, or sees the
/// stream end when nothing is queued.
pub open spec fn spec_recv(v: ChannelView) -> (ChannelView, Option<EventView>) {
    if v.queue.len() == 0 {
        (v, None)
    } else {
        (
            ChannelView {
                queue: v.queue.drop_first(),
                delivered: v.delivered.push(v.queue[0]),
                ..v
            },
            Some(v.queue[0]),
        )
    }
}

/// The ordered, bounded pipe of progress events between one producer (a
/// workflow) and one consumer (the streaming response).
pub struct MessageChannel {
    queue: Vec<ProgressEvent>,
    capacity: usize,
    connected: bool,
    delivered: Ghost<Seq<EventView>>,
    emitted: Ghost<Seq<EventView>>,
}

impl View for MessageChannel {
    type V = ChannelView;

    closed spec fn view(&self) -> ChannelView {
        ChannelView {
            capacity: self.capacity as nat,
            connected: self.connected,
            queue: self.queue@.map_values(|e: ProgressEvent| e@),
            delivered: self.delivered@,
            emitted: self.emitted@,
        }
    }
}

impl MessageChannel {
    /// The channel never holds more than its bound.
    pub open spec fn wf(&self) -> bool {
        self@.queue.len() <= self@.capacity && self@.capacity >= 1
    }

    /// A fresh, connected, empty channel with the given bound.
    pub fn new(capacity: usize) -> (c: MessageChannel)
        requires
            capacity >= 1,
        ensures
            c.wf(),
            c@ == (ChannelView {
                capacity: capacity as nat,
                connected: true,
                queue: Seq::<EventView>::empty(),
                delivered: Seq::<EventView>::empty(),
                emitted: Seq::<EventView>::empty(),
            }),
    {
        let c = MessageChannel {
            queue: Vec::new(),
            capacity,
            connected: true,
            delivered: Ghost(Seq::empty()),
            emitted: Ghost(Seq::empty()),
        };
        proof {
            assert(c@.queue =~= Seq::<EventView>::empty());
        }
        c
    }

    /// Hands one event to the channel.
    pub fn send(&mut self, ev: ProgressEvent) -> (r: SendResult)
        requires
            old(self).wf(),
        ensures
            final(self).wf(),
            (final(self)@, r) == spec_send(old(self)@, ev@),
    {
        let ghost evv = ev@;
        if !self.connected {
            proof {
                self.emitted@ = self.emitted@.push(evv);
            }
            return SendResult::Dropped;
        }
        if self.queue.len() == self.capacity {
            let head = self.queue.remove(0);
            proof {
                self.delivered@ = self.delivered@.push(head@);
                assert(self.queue@.map_values(|e: ProgressEvent| e@) =~= old(
                    self,
                )@.queue.drop_first());
            }
        }
        self.queue.push(ev);
        proof {
            self.emitted@ = self.emitted@.push(evv);
            assert((final(self)@, SendResult::Sent) == spec_send(old(self)@, evv)) by {
                assert(final(self)@.queue =~= spec_send(old(self)@, evv).0.queue);
            }
        }
        SendResult::Sent
    }

    /// Sends one progress message.
    pub fn send_message(&mut self, msg: &str) -> (r: SendResult)
        requires
            old(self).wf(),
        ensures
            final(self).wf(),
            (final(self)@, r) == spec_send(old(self)@, EventView::Message(msg@)),
    {
        self.send(ProgressEvent::Message(msg.to_owned()))
    }

    /// Sends the terminal status that ends the stream.
    pub fn send_status(&mut self, status: Status) -> (r: SendResult)
        requires
            old(self).wf(),
        ensures
            final(self).wf(),
            (final(self)@, r) == spec_send(old(self)@, EventView::Terminal(status@)),
    {
        let ghost sv = status@;
        self.send(ProgressEvent::Terminal(status))
    }

    /// The consumer reads the next event, in emission order, or sees the
    /// stream end.
    pub fn recv(&mut self) -> (r: Option<ProgressEvent>)
        requires
            old(self).wf(),
        ensures
            final(self).wf(),
            final(self)@ == spec_recv(old(self)@).0,
            (match r {
                Some(e) => Some(e@),
                None => None::<EventView>,
            }) == spec_recv(old(self)@).1,
    {
        if self.queue.len() == 0 {
            return None;
        }
        let head = self.queue.remove(0);
        proof {
            self.delivered@ = self.delivered@.push(head@);
            assert(final(self)@.queue =~= spec_recv(old(self)@).0.queue);
        }
        Some(head)
    }

    /// The consumer goes away: later sends are discarded, not errors.
    pub fn disconnect(&mut self)
        requires
            old(self).wf(),
        ensures
            final(self).wf(),
            final(self)@ == (ChannelView { connected: false, ..old(self)@ }),
    {
        self.connected = false;
    }

    /// How many events are queued and not yet observed.
    pub fn queued(&self) -> (n: usize)
        ensures
            n == self@.queue.len(),
    {
        self.queue.len()
    }

    /// Whether the consumer is still connected.
    pub fn is_connected(&self) -> (b: bool)
        ensures
            b == self@.connected,
    {
        self.connected
    }
}

/// Every event of `s` is a progress message.
pub open spec fn all_messages(s: Seq<EventView>) -> bool {
    forall|i: int| 0 <= i < s.len() ==> s[i] is Message
}

/// A progress stream is well formed when at most one terminal signal
/// stands in it, and only as its last event.
pub open spec fn stream_wf(s: Seq<EventView>) -> bool {
    forall|i: int| 0 <= i < s.len() && s[i] is Terminal ==> i == s.len() - 1
}

/// Appending progress messages to a stream of progress messages yields a
/// stream of progress messages.
pub proof fn lemma_all_messages_append(a: Seq<EventView>, b: Seq<EventView>)
    requires
        all_messages(a),
        all_messages(b),
    ensures
        all_messages(a + b),
{
    assert forall|i: int| 0 <= i < (a + b).len() implies (a + b)[i] is Message by {
        if i < a.len() {
            assert((a + b)[i] == a[i]);
        } else {
            assert((a + b)[i] == b[i - a.len()]);
        }
    }
}

/// A stream of progress messages is well formed, and stays well formed
/// when the single terminal signal is appended at its end: each request's
/// stream terminates with at most one terminal signal.
pub proof fn lemma_stream_single_terminal(s: Seq<EventView>, t: EventView)
    requires
        all_messages(s),
    ensures
        stream_wf(s),
        stream_wf(s.push(t)),
{
    assert forall|i: int| 0 <= i < s.push(t).len() && s.push(t)[i] is Terminal implies i == s.push(
        t,
    ).len() - 1 by {
        if i < s.len() {
            assert(s.push(t)[i] == s[i]);
        }
    }
}

/// Ordering: a send on a connected channel appends the event at the tail
/// of the accepted sequence and changes nothing else about it, so events
/// are accepted exactly in emission order.
pub proof fn lemma_send_keeps_order(v: ChannelView, e: EventView)
    requires
        v.connected,
        v.queue.len() <= v.capacity,
        v.capacity >= 1,
    ensures
        accepted(spec_send(v, e).0) == accepted(v).push(e),
{
    assert(accepted(spec_send(v, e).0) =~= accepted(v).push(e));
}

/// Ordering: a receive observes exactly the next accepted event after
/// those already delivered — the consumer sees events in emission order —
/// and leaves the accepted sequence unchanged.
pub proof fn lemma_recv_in_order(v: ChannelView)
    requires
        v.queue.len() > 0,
    ensures
        spec_recv(v).1 == Some(accepted(v)[v.delivered.len() as int]),
        spec_recv(v).0.delivered == v.delivered.push(accepted(v)[v.delivered.len() as int]),
        accepted(spec_recv(v).0) == accepted(v),
{
    assert(accepted(v)[v.delivered.len() as int] == v.queue[0]);
    assert(accepted(spec_recv(v).0) =~= accepted(v));
}

/// The consumer's history is always the first prefix of the accepted
/// events: nothing is observed out of order.
pub proof fn lemma_delivered_prefix(v: ChannelView)
    ensures
        v.delivered == accepted(v).take(v.delivered.len() as int),
{
    assert(v.delivered =~= accepted(v).take(v.delivered.len() as int));
}

/// Backpressure: on a full channel the producer's send completes only
/// together with a consumer read — the head of the queue is delivered to
/// the consumer — and the queue stays at its bound.
pub proof fn lemma_send_backpressure(v: ChannelView, e: EventView)
    requires
        v.connected,
        v.queue.len() == v.capacity,
        v.capacity >= 1,
    ensures
        spec_send(v, e).0.delivered == v.delivered.push(v.queue[0]),
        spec_send(v, e).0.queue.len() == v.capacity,
{
    assert(spec_send(v, e).0.queue.len() == v.queue.drop_first().push(e).len());
}

/// With free space the producer does not wait: nothing is delivered as
/// part of the send, the event is only queued.
pub proof fn lemma_send_no_wait(v: ChannelView, e: EventView)
    requires
        v.connected,
        v.queue.len() < v.capacity,
    ensures
        spec_send(v, e).0.delivered == v.delivered,
        spec_send(v, e).0.queue == v.queue.push(e),
{
}

/// Disconnected-consumer resilience: a send after the consumer has gone
/// reports `Dropped`, which is not an error; the queue and the delivered
/// history are untouched and the producer is free to carry on.
pub proof fn lemma_send_disconnected(v: ChannelView, e: EventView)
    requires
        !v.connected,
    ensures
        spec_send(v, e).1 == SendResult::Dropped,
        spec_send(v, e).0.queue == v.queue,
        spec_send(v, e).0.delivered == v.delivered,
        spec_send(v, e).0.emitted == v.emitted.push(e),
        !spec_send(v, e).0.connected,
{
}

} // verus!
