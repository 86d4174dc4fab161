use vstd::prelude::*;

verus! {

/// Bound of the inbound broadcast buffer: a consumer further than this many
/// messages behind the newest observes a gap.
pub const BROADCAST_CAPACITY: usize = 64;

/// Bound of the outbound collector channel: when the transport cannot keep
/// up, producers block rather than drop outbound messages.
pub const COLLECTOR_CAPACITY: usize = 64;

/// One structured message on the bus. The core never inspects a message; it
/// only carries it, so a message is modelled as an opaque pair of an
/// address-like identifier and a payload token.
#[derive(Clone, Copy, Debug, PartialEq, Eq)]
pub struct Message {
    pub address: u64,
    pub payload: u64,
}

/// The inbound side of the message bus: a bounded multi-consumer broadcast
/// ring buffer. `buf` holds the newest messages, at most `capacity` of them;
/// `dropped` counts the older messages that have fallen out of the buffer;
/// the ghost `history` records everything ever published. A slow consumer
/// whose cursor falls behind `dropped` observes a gap, never a stalled
/// producer.
pub struct Broadcast {
    pub buf: Vec<Message>,
    pub dropped: usize,
    pub capacity: usize,
    pub history: Ghost<Seq<Message>>,
}

/// One consumer's position on the broadcast bus: the history index of the
/// next message it will observe.
#[derive(Clone, Copy, Debug, PartialEq, Eq)]
pub struct Subscriber {
    pub cursor: usize,
}

/// What one receive step reports: nothing pending, a gap of the given width
/// (messages missed because the consumer fell behind the buffer), or the
/// next message.
#[derive(Clone, Copy, Debug, PartialEq, Eq)]
pub enum RecvOutcome {
    Empty,
    Lagged(usize),
    Received(Message),
}

impl Broadcast {
    /// The buffer really is the tail of the full publication history.
    pub open spec fn wf(&self) -> bool {
        &&& 0 < self.capacity
        &&& self.buf.len() <= self.capacity
        &&& self.history@.len() <= usize::MAX
        &&& self.history@.len() == self.dropped + self.buf.len()
        &&& forall|i: int|
            0 <= i < self.buf.len() ==> self.buf[i] == self.history@[self.dropped + i]
    }

    /// How many messages have ever been published.
    pub open spec fn published(&self) -> int {
        self.history@.len() as int
    }

    pub fn new(capacity: usize) -> (b: Self)
        requires
            capacity > 0,
        ensures
            b.wf(),
            b.published() == 0,
            b.capacity == capacity,
            b.dropped == 0,
    {
        Broadcast { buf: Vec::new(), dropped: 0, capacity, history: Ghost(Seq::empty()) }
    }

    /// Publish a message: it is appended to the history, and when the buffer
    /// is already full the oldest buffered message is dropped — publication
    /// never blocks on slow consumers.
    pub fn publish(&mut self, m: Message)
        requires
            old(self).wf(),
            old(self).published() < usize::MAX,
        ensures
            final(self).wf(),
            final(self).capacity == old(self).capacity,
            final(self).history@ == old(self).history@.push(m),
            final(self).dropped == (if old(self).buf.len() == old(self).capacity {
                old(self).dropped + 1
            } else {
                old(self).dropped as int
            }),
    {
        if self.buf.len() == self.capacity {
            self.buf.remove(0);
            self.dropped = self.dropped + 1;
        }
        self.buf.push(m);
        proof {
            self.history@ = self.history@.push(m);
        }
    }

    /// Take a fresh subscription: its cursor starts at the current
    /// publication count, so nothing published earlier is ever delivered to
    /// it.
    pub fn subscribe(&self) -> (s: Subscriber)
        requires
            self.wf(),
        ensures
            s.cursor == self.published(),
    {
        Subscriber { cursor: self.dropped + self.buf.len() }
    }

    /// The history index of the next message the subscriber can actually
    /// observe: its own cursor, or the oldest retained message once it has
    /// fallen behind the buffer.
    pub open spec fn readable_from(&self, cursor: int) -> int {
        if cursor >= self.dropped {
            cursor
        } else {
            self.dropped as int
        }
    }

    /// Everything a subscriber standing at `cursor` can still observe, in
    /// publication order: exactly the tail of the history from
    /// `readable_from(cursor)`.
    pub open spec fn deliverable(&self, cursor: int) -> Seq<Message> {
        self.history@.subrange(self.readable_from(cursor), self.published())
    }

    /// One receive step. A consumer behind the buffer is moved up to the
    /// oldest retained message and told the width of the gap; otherwise the
    /// message at its cursor is delivered, or nothing if it has seen all of
    /// the history. The cursor never moves backwards.
    pub fn recv(&self, s: &mut Subscriber) -> (r: RecvOutcome)
        requires
            self.wf(),
            old(s).cursor <= self.published(),
        ensures
            final(s).cursor <= self.published(),
            old(s).cursor <= final(s).cursor,
            r == (if old(s).cursor < self.dropped {
                RecvOutcome::Lagged((self.dropped - old(s).cursor) as usize)
            } else if old(s).cursor < self.published() {
                RecvOutcome::Received(self.history@[old(s).cursor as int])
            } else {
                RecvOutcome::Empty
            }),
            final(s).cursor == (if old(s).cursor < self.dropped {
                self.dropped as int
            } else if old(s).cursor < self.published() {
                old(s).cursor + 1
            } else {
                old(s).cursor as int
            }),
    {
        if s.cursor < self.dropped {
            let gap = self.dropped - s.cursor;
            s.cursor = self.dropped;
            RecvOutcome::Lagged(gap)
        } else if s.cursor < self.dropped + self.buf.len() {
            let m = self.buf[s.cursor - self.dropped];
            s.cursor = s.cursor + 1;
            RecvOutcome::Received(m)
        } else {
            RecvOutcome::Empty
        }
    }

    /// Receive until nothing is pending. The messages that come out are
    /// exactly `deliverable` from the subscriber's starting cursor: every
    /// message from that point through the newest, each exactly once, in
    /// publication order — and nothing published before the cursor.
    pub fn drain(&self, s: &mut Subscriber) -> (msgs: Vec<Message>)
        requires
            self.wf(),
            old(s).cursor <= self.published(),
        ensures
            final(s).cursor == self.published(),
            msgs@ == self.deliverable(old(s).cursor as int),
    {
        let ghost start = self.readable_from(old(s).cursor as int);
        let mut msgs: Vec<Message> = Vec::new();
        loop
            invariant
                self.wf(),
                s.cursor <= self.published(),
                old(s).cursor <= s.cursor,
                start == self.readable_from(old(s).cursor as int),
                if s.cursor < start {
                    msgs@ == Seq::<Message>::empty()
                } else {
                    msgs@ == self.history@.subrange(start, s.cursor as int)
                },
            ensures
                s.cursor == self.published(),
                start <= s.cursor,
                msgs@ == self.history@.subrange(start, s.cursor as int),
            decreases self.published() - s.cursor + (if s.cursor < self.dropped {
                1int
            } else {
                0int
            }),
        {
            let before = s.cursor;
            match self.recv(s) {
                RecvOutcome::Received(m) => {
                    proof {
                        assert(self.history@.subrange(start, before + 1) =~= self.history@
                            .subrange(start, before as int).push(self.history@[before as int]));
                    }
                    msgs.push(m);
                },
                RecvOutcome::Lagged(_) => {
                    proof {
                        assert(self.history@.subrange(start, start) =~= Seq::<Message>::empty());
                    }
                },
                RecvOutcome::Empty => {
                    break;
                },
            }
        }
        msgs
    }
}

/// Law: a consumer that subscribes after a message was published never
/// observes it. Each deliverable message stands at a history position at or
/// beyond the consumer's cursor, so every position before the cursor — in
/// particular every message published before a fresh subscription was taken
/// — is out of its reach for good, since no operation moves a cursor
/// backwards.
pub proof fn lemma_nothing_before_cursor_delivered(bus: Broadcast, cursor: int, j: int)
    requires
        bus.wf(),
        0 <= cursor <= bus.published(),
        0 <= j < bus.deliverable(cursor).len(),
    ensures
        bus.deliverable(cursor)[j] == bus.history@[bus.readable_from(cursor) + j],
        bus.readable_from(cursor) + j >= cursor,
{
}

/// Law: a consumer that has not lagged behind the buffer is delivered every
/// message from its cursor through the newest exactly once, in publication
/// order: the message at history position `i` appears at position
/// `i - cursor` of what it drains, and nowhere else.
pub proof fn lemma_in_window_delivered_exactly_once(bus: Broadcast, cursor: int, i: int)
    requires
        bus.wf(),
        bus.dropped <= cursor <= i < bus.published(),
    ensures
        bus.deliverable(cursor).len() == bus.published() - cursor,
        bus.deliverable(cursor)[i - cursor] == bus.history@[i],
        forall|j: int|
            0 <= j < bus.deliverable(cursor).len() && j != i - cursor ==> bus.deliverable(
                cursor,
            )[j] == bus.history@[cursor + j] && cursor + j != i,
{
}

} // verus!
