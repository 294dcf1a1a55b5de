//! The clock-tree bring-up sequence.
//!
//! The sequencer never touches hardware: each step hands back the register
//! writes to perform, in order, and the caller reports the readiness flag it
//! read. The multiplier is configured only after the oscillator is ready, and
//! the bus prescalers and clock source only after the multiplier is ready.
use vstd::prelude::*;
use crate::config::{FLASH_LATENCY, HPRE, PLL_M, PLL_N, PLL_P, PLL_Q, PLL_SELECTED, PPRE1, PPRE2};
use crate::wait::{Poll, ReadyFlag, WaitCondition};

verus! {

/// One write to a clock-control register field.
#[derive(Debug, Clone, Copy, PartialEq, Eq, Structural)]
pub enum RegWrite {
    /// Enable the oscillator-ready and multiplier-ready interrupts.
    EnableReadyInterrupts,
    /// Switch the external oscillator on.
    EnableOscillator,
    /// Acknowledge (clear) a readiness flag.
    Clear(ReadyFlag),
    /// Program the flash wait states.
    FlashLatency(u32),
    /// Program the multiplier's divisors, factor and input source.
    MultiplierConfig { m: u32, n: u32, p: u32, q: u32 },
    /// Switch the multiplier on.
    EnableMultiplier,
    /// Program the AHB, APB1 and APB2 prescalers.
    BusPrescalers { hpre: u32, ppre1: u32, ppre2: u32 },
    /// Select the system clock source.
    SelectSource(u32),
}

/// Where the bring-up sequence stands.
#[derive(Debug, Clone, Copy, PartialEq, Eq, Structural)]
pub enum Stage {
    /// Not started.
    Idle,
    /// Waiting for the oscillator-ready flag.
    AwaitOscillator,
    /// Waiting for the multiplier-ready flag.
    AwaitMultiplier,
    /// The system runs from the multiplied clock.
    Running,
}

/// Whether `s` waits on a readiness flag.
pub open spec fn is_waiting(s: Stage) -> bool {
    s == Stage::AwaitOscillator || s == Stage::AwaitMultiplier
}

/// The flag that a waiting stage reads.
pub open spec fn awaited(s: Stage) -> ReadyFlag {
    if s == Stage::AwaitOscillator {
        ReadyFlag::Oscillator
    } else {
        ReadyFlag::Multiplier
    }
}

/// The writes that start the sequence.
pub open spec fn begin_writes() -> Seq<RegWrite> {
    seq![RegWrite::EnableReadyInterrupts, RegWrite::EnableOscillator]
}

/// The writes made once the oscillator is ready.
pub open spec fn oscillator_ready_writes() -> Seq<RegWrite> {
    seq![
        RegWrite::Clear(ReadyFlag::Oscillator),
        RegWrite::FlashLatency(FLASH_LATENCY),
        RegWrite::MultiplierConfig { m: PLL_M, n: PLL_N, p: PLL_P, q: PLL_Q },
        RegWrite::EnableMultiplier,
    ]
}

/// The writes made once the multiplier is ready.
pub open spec fn multiplier_ready_writes() -> Seq<RegWrite> {
    seq![
        RegWrite::Clear(ReadyFlag::Multiplier),
        RegWrite::BusPrescalers { hpre: HPRE, ppre1: PPRE1, ppre2: PPRE2 },
        RegWrite::SelectSource(PLL_SELECTED),
    ]
}

/// Everything written by a bring-up that runs to completion.
pub open spec fn complete_writes() -> Seq<RegWrite> {
    begin_writes() + oscillator_ready_writes() + multiplier_ready_writes()
}

/// One poll of a waiting stage: the next stage and the writes to perform.
pub open spec fn next_stage(s: Stage, flag_set: bool) -> (Stage, Seq<RegWrite>) {
    if !flag_set {
        (s, Seq::empty())
    } else if s == Stage::AwaitOscillator {
        (Stage::AwaitMultiplier, oscillator_ready_writes())
    } else {
        (Stage::Running, multiplier_ready_writes())
    }
}

/// The writes made from stage `s` when the flag readings come in as `readings`
/// (readings after the sequence completes are not taken).
pub open spec fn writes_from(s: Stage, readings: Seq<bool>) -> Seq<RegWrite>
    decreases readings.len(),
{
    if readings.len() == 0 || !is_waiting(s) {
        Seq::empty()
    } else {
        next_stage(s, readings[0]).1 + writes_from(next_stage(s, readings[0]).0, readings.drop_first())
    }
}

/// The stage reached from `s` after `readings`.
pub open spec fn stage_after(s: Stage, readings: Seq<bool>) -> Stage
    decreases readings.len(),
{
    if readings.len() == 0 || !is_waiting(s) {
        s
    } else {
        stage_after(next_stage(s, readings[0]).0, readings.drop_first())
    }
}

/// Everything a bring-up writes when its flag readings come in as `readings`.
pub open spec fn bring_up_trace(readings: Seq<bool>) -> Seq<RegWrite> {
    begin_writes() + writes_from(Stage::AwaitOscillator, readings)
}

/// Whether `w` programs a multiplier setting.
pub open spec fn configures_multiplier(w: RegWrite) -> bool {
    w is MultiplierConfig || w is EnableMultiplier
}

/// Whether `w` programs a bus prescaler or the clock source.
pub open spec fn configures_bus(w: RegWrite) -> bool {
    w is BusPrescalers || w is SelectSource
}

/// Drives the clock tree from its reset state to the multiplied clock.
#[derive(Debug)]
pub struct ClockSequencer {
    stage: Stage,
    wait: WaitCondition,
}

impl ClockSequencer {
    /// The current stage.
    pub closed spec fn stage_spec(&self) -> Stage {
        self.stage
    }

    /// While waiting, the wait condition is open and watches the awaited flag.
    pub closed spec fn wf(&self) -> bool {
        is_waiting(self.stage) ==> {
            &&& !self.wait.is_resolved()
            &&& self.wait.watched() == awaited(self.stage)
        }
    }

    /// A sequencer that has not started.
    pub fn new() -> (r: ClockSequencer)
        ensures
            r.wf(),
            r.stage_spec() == Stage::Idle,
    {
        ClockSequencer { stage: Stage::Idle, wait: WaitCondition::new(ReadyFlag::Oscillator) }
    }

    /// The current stage.
    pub fn stage(&self) -> (r: Stage)
        ensures
            r == self.stage_spec(),
    {
        self.stage
    }

    /// The flag to read before the next poll, if the sequence waits on one.
    pub fn awaiting(&self) -> (r: Option<ReadyFlag>)
        ensures
            is_waiting(self.stage_spec()) ==> r == Some(awaited(self.stage_spec())),
            !is_waiting(self.stage_spec()) ==> r is None,
    {
        match self.stage {
            Stage::AwaitOscillator => Some(ReadyFlag::Oscillator),
            Stage::AwaitMultiplier => Some(ReadyFlag::Multiplier),
            _ => None,
        }
    }

    /// Starts the sequence: enables the ready interrupts and the oscillator,
    /// then waits for the oscillator.
    pub fn begin(&mut self) -> (w: Vec<RegWrite>)
        requires
            old(self).stage_spec() == Stage::Idle,
        ensures
            final(self).wf(),
            final(self).stage_spec() == Stage::AwaitOscillator,
            w@ == begin_writes(),
    {
        self.wait = WaitCondition::new(ReadyFlag::Oscillator);
        self.stage = Stage::AwaitOscillator;
        let w = vec![RegWrite::EnableReadyInterrupts, RegWrite::EnableOscillator];
        assert(w@ =~= begin_writes());
        w
    }

    /// Polls the awaited flag, given its current reading; returns the writes
    /// to perform now, which are none while the flag is unset.
    pub fn poll(&mut self, flag_set: bool) -> (w: Vec<RegWrite>)
        requires
            old(self).wf(),
            is_waiting(old(self).stage_spec()),
        ensures
            final(self).wf(),
            (final(self).stage_spec(), w@) == next_stage(old(self).stage_spec(), flag_set),
    {
        match self.wait.poll(flag_set) {
            Poll::Pending => Vec::new(),
            Poll::Ready(ack) => {
                if self.stage == Stage::AwaitOscillator {
                    self.wait = WaitCondition::new(ReadyFlag::Multiplier);
                    self.stage = Stage::AwaitMultiplier;
                    let w = vec![
                        RegWrite::Clear(ack.flag),
                        RegWrite::FlashLatency(FLASH_LATENCY),
                        RegWrite::MultiplierConfig { m: PLL_M, n: PLL_N, p: PLL_P, q: PLL_Q },
                        RegWrite::EnableMultiplier,
                    ];
                    assert(w@ =~= oscillator_ready_writes());
                    w
                } else {
                    self.stage = Stage::Running;
                    let w = vec![
                        RegWrite::Clear(ack.flag),
                        RegWrite::BusPrescalers { hpre: HPRE, ppre1: PPRE1, ppre2: PPRE2 },
                        RegWrite::SelectSource(PLL_SELECTED),
                    ];
                    assert(w@ =~= multiplier_ready_writes());
                    w
                }
            },
        }
    }
}

/// Runs the whole bring-up against flag readings that come in as `readings`,
/// one per poll, and returns the writes made, in order, and the stage reached.
pub fn bring_up(readings: &Vec<bool>) -> (r: (Vec<RegWrite>, Stage))
    ensures
        r.0@ == bring_up_trace(readings@),
        r.1 == stage_after(Stage::AwaitOscillator, readings@),
{
    let mut sequencer = ClockSequencer::new();
    let mut writes = sequencer.begin();
    let mut i: usize = 0;
    assert(readings@.skip(0) =~= readings@);
    while i < readings.len()
        invariant
            i <= readings.len(),
            sequencer.wf(),
            sequencer.stage_spec() != Stage::Idle,
            writes@ + writes_from(sequencer.stage_spec(), readings@.skip(i as int))
                == bring_up_trace(readings@),
            stage_after(sequencer.stage_spec(), readings@.skip(i as int)) == stage_after(
                Stage::AwaitOscillator,
                readings@,
            ),
        decreases readings.len() - i,
    {
        let rest = Ghost(readings@.skip(i as int));
        assert(rest@.drop_first() =~= readings@.skip(i + 1));
        assert(rest@[0] == readings@[i as int]);
        if sequencer.awaiting().is_some() {
            let mut step = sequencer.poll(readings[i]);
            assert(writes@ + step@ + writes_from(sequencer.stage_spec(), readings@.skip(i + 1))
                =~= writes@ + (step@ + writes_from(sequencer.stage_spec(), readings@.skip(i + 1))));
            writes.append(&mut step);
        } else {
            assert(writes_from(sequencer.stage_spec(), readings@.skip(i + 1)) =~= Seq::empty());
        }
        i = i + 1;
    }
    assert(readings@.skip(i as int) =~= Seq::<bool>::empty());
    assert(writes@ + Seq::empty() =~= writes@);
    (writes, sequencer.stage())
}

/// From the oscillator wait, what is written is a prefix of the oscillator
/// and multiplier writes, ending on a group boundary.
proof fn lemma_writes_from_oscillator(readings: Seq<bool>)
    ensures
        ({
            let t = writes_from(Stage::AwaitOscillator, readings);
            let all = oscillator_ready_writes() + multiplier_ready_writes();
            &&& t == all.take(t.len() as int)
            &&& t.len() == 0 || t.len() == 4 || t.len() == 7
        }),
    decreases readings.len(),
{
    let all = oscillator_ready_writes() + multiplier_ready_writes();
    if readings.len() > 0 {
        let rest = readings.drop_first();
        if readings[0] {
            lemma_writes_from_multiplier(rest);
            let m = writes_from(Stage::AwaitMultiplier, rest);
            if m.len() == 0 {
                assert(oscillator_ready_writes() + m =~= all.take(4));
            } else {
                assert(oscillator_ready_writes() + m =~= all.take(7));
            }
        } else {
            lemma_writes_from_oscillator(rest);
            assert(Seq::<RegWrite>::empty() + writes_from(Stage::AwaitOscillator, rest)
                =~= writes_from(Stage::AwaitOscillator, rest));
        }
    } else {
        assert(all.take(0) =~= Seq::<RegWrite>::empty());
    }
}

/// From the multiplier wait, either nothing or the multiplier writes are made.
proof fn lemma_writes_from_multiplier(readings: Seq<bool>)
    ensures
        writes_from(Stage::AwaitMultiplier, readings) == Seq::<RegWrite>::empty()
            || writes_from(Stage::AwaitMultiplier, readings) == multiplier_ready_writes(),
    decreases readings.len(),
{
    if readings.len() > 0 {
        let rest = readings.drop_first();
        if readings[0] {
            assert(writes_from(Stage::Running, rest) =~= Seq::<RegWrite>::empty());
            assert(multiplier_ready_writes() + Seq::<RegWrite>::empty() =~= multiplier_ready_writes());
        } else {
            lemma_writes_from_multiplier(rest);
            assert(Seq::<RegWrite>::empty() + writes_from(Stage::AwaitMultiplier, rest)
                =~= writes_from(Stage::AwaitMultiplier, rest));
        }
    }
}

/// Whatever the flag readings, a bring-up writes a prefix of the complete
/// sequence, ending where a wait begins or at the end; every multiplier setting is written after the oscillator-ready
/// flag was acknowledged, and every prescaler or clock-source setting after
/// the multiplier-ready flag was acknowledged.
pub proof fn lemma_bring_up_order(readings: Seq<bool>)
    ensures
        bring_up_trace(readings).len() == 2 || bring_up_trace(readings).len() == 6
            || bring_up_trace(readings).len() == 9,
        bring_up_trace(readings).len() <= complete_writes().len(),
        bring_up_trace(readings) == complete_writes().take(bring_up_trace(readings).len() as int),
        forall|i: int|
            0 <= i < bring_up_trace(readings).len() && configures_multiplier(
                #[trigger] bring_up_trace(readings)[i],
            ) ==> exists|j: int|
                0 <= j < i && bring_up_trace(readings)[j] == RegWrite::Clear(ReadyFlag::Oscillator),
        forall|i: int|
            0 <= i < bring_up_trace(readings).len() && configures_bus(
                #[trigger] bring_up_trace(readings)[i],
            ) ==> exists|j: int|
                0 <= j < i && bring_up_trace(readings)[j] == RegWrite::Clear(ReadyFlag::Multiplier),
{
    lemma_writes_from_oscillator(readings);
    let t = bring_up_trace(readings);
    let all = complete_writes();
    assert(all =~= begin_writes() + (oscillator_ready_writes() + multiplier_ready_writes()));
    assert(t =~= all.take(t.len() as int));
    assert forall|i: int| 0 <= i < t.len() && configures_multiplier(#[trigger] t[i]) implies exists|j: int|
        0 <= j < i && t[j] == RegWrite::Clear(ReadyFlag::Oscillator) by {
        assert(t[2] == RegWrite::Clear(ReadyFlag::Oscillator));
    }
    assert forall|i: int| 0 <= i < t.len() && configures_bus(#[trigger] t[i]) implies exists|j: int|
        0 <= j < i && t[j] == RegWrite::Clear(ReadyFlag::Multiplier) by {
        assert(t[6] == RegWrite::Clear(ReadyFlag::Multiplier));
    }
}

} // verus!
