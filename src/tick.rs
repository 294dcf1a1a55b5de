//! The interrupt-fed tick stream.
//!
//! The timer interrupt adds pulses to an accumulator; the foreground drains
//! it, one [`TickEvent`] per drain. If a pulse would push the accumulator past
//! its capacity, the stream hands out what it still holds, then a single
//! [`TickOverflow`], and then ends for good.
use vstd::prelude::*;
use crate::wait::Poll;

verus! {

/// A number of timer pulses, at least one, gathered since the previous event.
#[derive(Debug, Clone, Copy, PartialEq, Eq)]
pub struct TickEvent {
    count: usize,
}

impl TickEvent {
    #[verifier::type_invariant]
    spec fn positive(self) -> bool {
        self.count >= 1
    }

    /// The number of pulses this event carries.
    pub closed spec fn count(self) -> nat {
        self.count as nat
    }

    /// An event of `count` pulses; `None` for zero, which is no event.
    pub fn new(count: usize) -> (r: Option<TickEvent>)
        ensures
            count == 0 ==> r is None,
            count > 0 ==> (r matches Some(e) && e.count() == count),
    {
        if count == 0 {
            None
        } else {
            Some(TickEvent { count })
        }
    }

    /// The number of pulses this event carries.
    pub fn get(&self) -> (r: usize)
        ensures
            r == self.count(),
            r >= 1,
    {
        proof {
            use_type_invariant(self);
        }
        self.count
    }
}

/// The tick accumulator overflowed: the stream can no longer count faithfully.
#[derive(Debug, Clone, Copy, PartialEq, Eq, Structural)]
pub struct TickOverflow;

/// The life of a tick stream.
#[derive(Debug, Clone, Copy, PartialEq, Eq, Structural)]
pub enum StreamStatus {
    /// Counting.
    Open,
    /// A pulse did not fit; the error is still to be handed out.
    Overflowed,
    /// The error was handed out; no element follows.
    Terminated,
}

/// What a consumer sees on one poll of the stream.
pub enum Output {
    /// No pulse since the last element.
    Pending,
    /// An event of this many pulses.
    Tick(nat),
    /// The overflow error.
    Overflow,
    /// The end of the stream.
    End,
}

/// The abstract state of a tick stream.
pub struct StreamModel {
    pub pending: nat,
    pub capacity: nat,
    pub status: StreamStatus,
}

/// The accumulator after the interrupt adds `pulses` pulses.
pub open spec fn record_spec(s: StreamModel, pulses: nat) -> StreamModel {
    if s.status != StreamStatus::Open {
        s
    } else if s.pending + pulses > s.capacity {
        StreamModel { status: StreamStatus::Overflowed, ..s }
    } else {
        StreamModel { pending: s.pending + pulses, ..s }
    }
}

/// One poll by the consumer: the state after it and what it returns.
pub open spec fn poll_spec(s: StreamModel) -> (StreamModel, Output) {
    if s.pending > 0 {
        (StreamModel { pending: 0, ..s }, Output::Tick(s.pending))
    } else if s.status == StreamStatus::Overflowed {
        (StreamModel { status: StreamStatus::Terminated, ..s }, Output::Overflow)
    } else if s.status == StreamStatus::Terminated {
        (s, Output::End)
    } else {
        (s, Output::Pending)
    }
}

/// What a consumer sees in a polled element.
pub open spec fn output_of(r: Poll<Option<Result<TickEvent, TickOverflow>>>) -> Output {
    match r {
        Poll::Pending => Output::Pending,
        Poll::Ready(Some(Ok(e))) => Output::Tick(e.count()),
        Poll::Ready(Some(Err(_))) => Output::Overflow,
        Poll::Ready(None) => Output::End,
    }
}

/// Accumulates timer pulses for the consumer.
#[derive(Debug)]
pub struct TickStream {
    pending: usize,
    capacity: usize,
    status: StreamStatus,
}

impl View for TickStream {
    type V = StreamModel;

    closed spec fn view(&self) -> StreamModel {
        StreamModel {
            pending: self.pending as nat,
            capacity: self.capacity as nat,
            status: self.status,
        }
    }
}

/// A stream state that can be reached: the accumulator fits its capacity and
/// a terminated stream holds nothing.
pub open spec fn stream_wf(s: StreamModel) -> bool {
    &&& s.pending <= s.capacity
    &&& s.status == StreamStatus::Terminated ==> s.pending == 0
}

impl TickStream {
    /// An open stream holding no pulse, whose accumulator holds at most
    /// `capacity` pulses.
    pub fn new(capacity: usize) -> (r: TickStream)
        ensures
            r@ == (StreamModel { pending: 0, capacity: capacity as nat, status: StreamStatus::Open }),
            stream_wf(r@),
    {
        TickStream { pending: 0, capacity, status: StreamStatus::Open }
    }

    /// The stream's status.
    pub fn status(&self) -> (r: StreamStatus)
        ensures
            r == self@.status,
    {
        self.status
    }

    /// The pulses gathered and not yet handed out.
    pub fn pending(&self) -> (r: usize)
        ensures
            r == self@.pending,
    {
        self.pending
    }

    /// Adds `pulses` timer pulses (interrupt side).
    pub fn record(&mut self, pulses: usize)
        requires
            stream_wf(old(self)@),
        ensures
            final(self)@ == record_spec(old(self)@, pulses as nat),
            stream_wf(final(self)@),
    {
        if self.status == StreamStatus::Open {
            if pulses > self.capacity - self.pending {
                self.status = StreamStatus::Overflowed;
            } else {
                self.pending = self.pending + pulses;
            }
        }
    }

    /// Takes the next element (consumer side): all gathered pulses as one
    /// event, else the overflow error once, else the end of the stream.
    pub fn poll_next(&mut self) -> (r: Poll<Option<Result<TickEvent, TickOverflow>>>)
        requires
            stream_wf(old(self)@),
        ensures
            (final(self)@, output_of(r)) == poll_spec(old(self)@),
            stream_wf(final(self)@),
    {
        if self.pending > 0 {
            let count = self.pending;
            self.pending = 0;
            Poll::Ready(Some(Ok(TickEvent { count })))
        } else if self.status == StreamStatus::Overflowed {
            self.status = StreamStatus::Terminated;
            Poll::Ready(Some(Err(TickOverflow)))
        } else if self.status == StreamStatus::Terminated {
            Poll::Ready(None)
        } else {
            Poll::Pending
        }
    }
}

/// The outputs of the polls among `ops`, run from `s`: `Some(p)` is an
/// interrupt of `p` pulses, `None` a poll.
pub open spec fn run_ops(s: StreamModel, ops: Seq<Option<nat>>) -> Seq<Output>
    decreases ops.len(),
{
    if ops.len() == 0 {
        Seq::empty()
    } else {
        match ops[0] {
            Some(p) => run_ops(record_spec(s, p), ops.drop_first()),
            None => seq![poll_spec(s).1] + run_ops(poll_spec(s).0, ops.drop_first()),
        }
    }
}

/// The number of polls among `ops`.
pub open spec fn poll_count(ops: Seq<Option<nat>>) -> nat
    decreases ops.len(),
{
    if ops.len() == 0 {
        0
    } else {
        (if ops[0] is None { 1nat } else { 0nat }) + poll_count(ops.drop_first())
    }
}

/// What an overflowed stream still hands out before its end: the pulses it
/// held, if any, then the error once.
pub open spec fn closing_outputs(s: StreamModel) -> Seq<Output> {
    if s.status == StreamStatus::Overflowed {
        if s.pending > 0 {
            seq![Output::Tick(s.pending), Output::Overflow]
        } else {
            seq![Output::Overflow]
        }
    } else {
        Seq::empty()
    }
}

/// Once the stream has overflowed, whatever interrupts and polls follow, the
/// polls return the pulses still held, then exactly one overflow error, and
/// from then on only the end of the stream: no further error or event.
pub proof fn lemma_overflow_terminates(s: StreamModel, ops: Seq<Option<nat>>)
    requires
        stream_wf(s),
        s.status != StreamStatus::Open,
    ensures
        run_ops(s, ops).len() == poll_count(ops),
        forall|k: int|
            0 <= k < run_ops(s, ops).len() ==> #[trigger] run_ops(s, ops)[k] == if k < closing_outputs(
                s,
            ).len() {
                closing_outputs(s)[k]
            } else {
                Output::End
            },
    decreases ops.len(),
{
    if ops.len() > 0 {
        let rest = ops.drop_first();
        match ops[0] {
            Some(p) => {
                lemma_overflow_terminates(s, rest);
            },
            None => {
                let (s2, o) = poll_spec(s);
                lemma_overflow_terminates(s2, rest);
                let out = run_ops(s, ops);
                assert(out == seq![o] + run_ops(s2, rest));
                assert forall|k: int| 0 <= k < out.len() implies #[trigger] out[k] == if k
                    < closing_outputs(s).len() {
                    closing_outputs(s)[k]
                } else {
                    Output::End
                } by {
                    if k > 0 {
                        assert(out[k] == run_ops(s2, rest)[k - 1]);
                    }
                }
            },
        }
    }
}

} // verus!
