//! The beacon: a repeating 8-phase output pattern paced by tick events.
//!
//! Each unit of a tick event is one step of the pattern. The step taken from
//! phase 0 emits the cycle marker; the steps from phases 0 and 2 drive the
//! line low and all others drive it high, which gives a double pulse once per
//! cycle. A tick event of `n` pulses takes `n` steps, each with its own effect,
//! in order.
use vstd::prelude::*;
use vstd::arithmetic::div_mod::{lemma_add_mod_noop, lemma_mod_multiples_vanish};
use crate::config::{SAMPLE_DIVISOR, TICK_RELOAD, TIMER_CLOCK};
use crate::tick::{TickEvent, TickOverflow};

verus! {

/// The number of phases in one beacon cycle.
pub const PHASES: u8 = 8;

/// The state of the output line.
#[derive(Debug, Clone, Copy, PartialEq, Eq, Structural)]
pub enum Level {
    Low,
    High,
}

/// The side effects of one unit step of the beacon.
#[derive(Debug, Clone, Copy, PartialEq, Eq, Structural)]
pub struct UnitEffect {
    /// Whether the once-per-cycle marker is emitted.
    pub marker: bool,
    /// The state the line is driven to.
    pub level: Level,
}

/// Whether the step taken after `c` steps from phase 0 drives the line low.
pub open spec fn line_low(c: int) -> bool {
    c % 8 == 0 || c % 8 == 2
}

/// The line state of the step taken after `c` steps from phase 0.
pub open spec fn level_of(c: int) -> Level {
    if line_low(c) {
        Level::Low
    } else {
        Level::High
    }
}

/// The effects of the step taken from phase `phase` (read modulo 8).
pub open spec fn unit_effect(phase: int) -> UnitEffect {
    UnitEffect { marker: phase % 8 == 0, level: level_of(phase) }
}

/// The effects of `n` consecutive steps starting from phase `start`.
pub open spec fn effects_from(start: int, n: nat) -> Seq<UnitEffect> {
    Seq::new(n, |i: int| unit_effect(start + i))
}

/// The line state for a tick counter `counter`: low when `counter % 8` is 0
/// or 2, high otherwise.
pub fn line_level(counter: u64) -> (r: Level)
    ensures
        r == level_of(counter as int),
        (r == Level::Low) <==> (counter % 8 == 0 || counter % 8 == 2),
{
    let phase = counter % 8;
    if phase == 0 || phase == 2 {
        Level::Low
    } else {
        Level::High
    }
}

/// Drives the beacon pattern.
#[derive(Debug)]
pub struct BeaconDriver {
    phase: u8,
}

impl BeaconDriver {
    #[verifier::type_invariant]
    spec fn in_range(self) -> bool {
        self.phase < 8
    }

    /// The current phase, in `[0, 8)`.
    pub closed spec fn phase_spec(self) -> nat {
        self.phase as nat
    }

    /// A driver at phase 0; the line starts in the phase-0 state,
    /// `line_level(0)`.
    pub fn new() -> (r: BeaconDriver)
        ensures
            r.phase_spec() == 0,
    {
        BeaconDriver { phase: 0 }
    }

    /// The current phase.
    pub fn phase(&self) -> (r: u8)
        ensures
            r == self.phase_spec(),
            r < 8,
    {
        proof {
            use_type_invariant(self);
        }
        self.phase
    }

    /// Takes one unit step: returns its effects and advances the phase.
    pub fn step(&mut self) -> (r: UnitEffect)
        ensures
            r == unit_effect(old(self).phase_spec() as int),
            final(self).phase_spec() == (old(self).phase_spec() + 1) % 8,
            final(self).phase_spec() < 8,
    {
        proof {
            use_type_invariant(&*self);
        }
        let phase = self.phase;
        let r = UnitEffect { marker: phase == 0, level: line_level(phase as u64) };
        self.phase = (phase + 1) % PHASES;
        r
    }

    /// Takes one step per pulse of `tick`, returning the effects in order.
    pub fn apply(&mut self, tick: &TickEvent) -> (r: Vec<UnitEffect>)
        ensures
            r@ == effects_from(old(self).phase_spec() as int, tick.count()),
            final(self).phase_spec() == (old(self).phase_spec() + tick.count()) % 8,
    {
        proof {
            use_type_invariant(&*self);
        }
        let n = tick.get();
        let start = Ghost(self.phase_spec() as int);
        let mut effects: Vec<UnitEffect> = Vec::new();
        let mut i: usize = 0;
        while i < n
            invariant
                i <= n,
                n == tick.count(),
                self.phase_spec() == (start@ + i) % 8,
                effects@ == effects_from(start@, i as nat),
            decreases n - i,
        {
            let e = self.step();
            assert(unit_effect((start@ + i) % 8) == unit_effect(start@ + i));
            effects.push(e);
            assert(effects@ =~= effects_from(start@, (i + 1) as nat));
            i = i + 1;
        }
        effects
    }

    /// Handles one element of the tick stream: an event's steps, or the
    /// overflow error passed on with the phase left as it was.
    pub fn handle(&mut self, item: Result<TickEvent, TickOverflow>) -> (r: Result<
        Vec<UnitEffect>,
        TickOverflow,
    >)
        ensures
            match item {
                Ok(e) => {
                    &&& r matches Ok(v) && v@ == effects_from(old(self).phase_spec() as int, e.count())
                    &&& final(self).phase_spec() == (old(self).phase_spec() + e.count()) % 8
                },
                Err(_) => {
                    &&& r is Err
                    &&& final(self).phase_spec() == old(self).phase_spec()
                },
            },
    {
        match item {
            Ok(e) => Ok(self.apply(&e)),
            Err(err) => Err(err),
        }
    }
}

/// The effects of tick events of `counts` pulses each, handled in order
/// starting from phase `start`.
pub open spec fn replay(start: int, counts: Seq<nat>) -> Seq<UnitEffect>
    decreases counts.len(),
{
    if counts.len() == 0 {
        Seq::empty()
    } else {
        effects_from(start, counts[0]) + replay(start + counts[0], counts.drop_first())
    }
}

/// The total number of pulses in `counts`.
pub open spec fn total(counts: Seq<nat>) -> nat
    decreases counts.len(),
{
    if counts.len() == 0 {
        0
    } else {
        counts[0] + total(counts.drop_first())
    }
}

/// Steps taken in two runs equal the steps taken in one: `a` steps from
/// `start` followed by `b` steps have the effects of `a + b` steps.
pub proof fn lemma_split_steps(start: int, a: nat, b: nat)
    ensures
        effects_from(start, a) + effects_from(start + a, b) == effects_from(start, a + b),
{
    assert(effects_from(start, a) + effects_from(start + a, b) =~= effects_from(start, a + b));
}

/// Coalesced events apply every unit step: tick events of `counts` pulses,
/// handled in order, have the same effects, in the same order, as one event
/// of their total, and as that many single-pulse events.
pub proof fn lemma_coalescing(start: int, counts: Seq<nat>)
    ensures
        replay(start, counts) == effects_from(start, total(counts)),
        replay(start, Seq::new(total(counts), |i: int| 1nat)) == effects_from(start, total(counts)),
    decreases counts.len(),
{
    if counts.len() > 0 {
        lemma_coalescing(start + counts[0], counts.drop_first());
        lemma_split_steps(start, counts[0], total(counts.drop_first()));
    } else {
        assert(effects_from(start, 0) =~= Seq::<UnitEffect>::empty());
    }
    lemma_unit_events(start, total(counts));
}

/// `n` single-pulse events from `start` have the effects of `n` steps.
proof fn lemma_unit_events(start: int, n: nat)
    ensures
        replay(start, Seq::new(n, |i: int| 1nat)) == effects_from(start, n),
    decreases n,
{
    let ones = Seq::new(n, |i: int| 1nat);
    if n > 0 {
        lemma_unit_events(start + 1, (n - 1) as nat);
        assert(ones.drop_first() =~= Seq::new((n - 1) as nat, |i: int| 1nat));
        lemma_split_steps(start, 1, (n - 1) as nat);
    } else {
        assert(effects_from(start, 0) =~= Seq::<UnitEffect>::empty());
    }
}

/// From phase 0, the step taken after `c` steps drives the line low exactly
/// when `c % 8` is 0 or 2, and high otherwise.
pub proof fn lemma_line_state(c: nat, n: nat)
    requires
        c < n,
    ensures
        (effects_from(0, n)[c as int].level == Level::Low) <==> (c % 8 == 0 || c % 8 == 2),
        (effects_from(0, n)[c as int].level == Level::High) <==> !(c % 8 == 0 || c % 8 == 2),
{
}

/// Any 8 consecutive steps emit the marker exactly once, on the step taken
/// from phase 0.
pub proof fn lemma_marker_once_per_cycle(start: int)
    ensures
        forall|i: int|
            0 <= i < 8 ==> (#[trigger] effects_from(start, 8)[i].marker <==> (start + i) % 8 == 0),
        exists|i: int|
            0 <= i < 8 && effects_from(start, 8)[i].marker && forall|j: int|
                0 <= j < 8 && j != i ==> !#[trigger] effects_from(start, 8)[j].marker,
{
    let r = start % 8;
    let k = (8 - r) % 8;
    assert forall|i: int| 0 <= i < 8 implies (#[trigger] ((start + i) % 8) == 0 <==> i == k) by {
        lemma_add_mod_noop(start, i, 8);
    }
    assert(effects_from(start, 8)[k].marker);
}

/// Eight single-pulse events from phase 0 drive the line low, high, low,
/// then high five times, and emit the marker on the first event only.
pub proof fn lemma_cycle_pattern()
    ensures
        replay(0, seq![1nat, 1, 1, 1, 1, 1, 1, 1]) == seq![
            UnitEffect { marker: true, level: Level::Low },
            UnitEffect { marker: false, level: Level::High },
            UnitEffect { marker: false, level: Level::Low },
            UnitEffect { marker: false, level: Level::High },
            UnitEffect { marker: false, level: Level::High },
            UnitEffect { marker: false, level: Level::High },
            UnitEffect { marker: false, level: Level::High },
            UnitEffect { marker: false, level: Level::High },
        ],
{
    let ones = seq![1nat, 1, 1, 1, 1, 1, 1, 1];
    lemma_coalescing(0, ones);
    assert(total(ones) == 8) by {
        reveal_with_fuel(total, 9);
    }
    assert(effects_from(0, 8) =~= seq![
        UnitEffect { marker: true, level: Level::Low },
        UnitEffect { marker: false, level: Level::High },
        UnitEffect { marker: false, level: Level::Low },
        UnitEffect { marker: false, level: Level::High },
        UnitEffect { marker: false, level: Level::High },
        UnitEffect { marker: false, level: Level::High },
        UnitEffect { marker: false, level: Level::High },
        UnitEffect { marker: false, level: Level::High },
    ]);
}

/// Steps read their phase modulo 8: starting from `t % 8` or from `t` gives
/// the same effects.
proof fn lemma_phase_mod(t: int, c: nat)
    ensures
        effects_from(t % 8, c) == effects_from(t, c),
{
    assert forall|j: int| 0 <= j < c implies #[trigger] unit_effect(t % 8 + j) == unit_effect(t + j) by {
        lemma_add_mod_noop(t, j, 8);
        lemma_add_mod_noop(t % 8, j, 8);
    }
    assert(effects_from(t % 8, c) =~= effects_from(t, c));
}

/// Whether an element of `items` is the overflow error.
pub open spec fn has_error(items: Seq<Result<TickEvent, TickOverflow>>) -> bool {
    exists|i: int| 0 <= i < items.len() && #[trigger] items[i] is Err
}

/// The pulse counts of the events in `items` that come before the first error.
pub open spec fn ticks_before_error(items: Seq<Result<TickEvent, TickOverflow>>) -> Seq<nat>
    decreases items.len(),
{
    if items.len() == 0 {
        Seq::empty()
    } else {
        match items[0] {
            Ok(e) => seq![e.count()] + ticks_before_error(items.drop_first()),
            Err(_) => Seq::empty(),
        }
    }
}

/// Runs the beacon from phase 0 over the elements a tick stream handed out,
/// in order: the effects of every step taken, and the overflow error if one
/// came, which ends the run.
pub fn run(items: &Vec<Result<TickEvent, TickOverflow>>) -> (r: (Vec<UnitEffect>, Result<(), TickOverflow>))
    ensures
        r.0@ == replay(0, ticks_before_error(items@)),
        r.1 is Err <==> has_error(items@),
{
    let mut driver = BeaconDriver::new();
    let mut effects: Vec<UnitEffect> = Vec::new();
    let ghost mut t: nat = 0;
    let mut i: usize = 0;
    proof {
        lemma_coalescing(0, ticks_before_error(items@));
        assert(items@.skip(0) =~= items@);
    }
    while i < items.len()
        invariant
            i <= items.len(),
            driver.phase_spec() == t % 8,
            effects@ == effects_from(0, t),
            t + total(ticks_before_error(items@.skip(i as int))) == total(ticks_before_error(items@)),
            forall|j: int| 0 <= j < i ==> #[trigger] items@[j] is Ok,
        decreases items.len() - i,
    {
        let rest = Ghost(items@.skip(i as int));
        assert(rest@.drop_first() =~= items@.skip(i + 1));
        assert(rest@[0] == items@[i as int]);
        match &items[i] {
            Ok(e) => {
                let mut step = driver.apply(e);
                proof {
                    let ts = ticks_before_error(rest@);
                    assert(ts == seq![e.count()] + ticks_before_error(items@.skip(i + 1)));
                    assert(ts.drop_first() =~= ticks_before_error(items@.skip(i + 1)));
                    lemma_phase_mod(t as int, e.count());
                    lemma_split_steps(0, t, e.count());
                    t = t + e.count();
                }
                effects.append(&mut step);
                assert(effects@ =~= effects_from(0, t));
            },
            Err(err) => {
                assert(ticks_before_error(rest@) =~= Seq::<nat>::empty());
                assert(total(ticks_before_error(rest@)) == 0);
                assert(items@[i as int] is Err);
                proof {
                    lemma_coalescing(0, ticks_before_error(items@));
                }
                return (effects, Err(*err));
            },
        }
        i = i + 1;
    }
    assert(items@.skip(i as int) =~= Seq::<Result<TickEvent, TickOverflow>>::empty());
    (effects, Ok(()))
}

/// With one timer period lasting `TICK_RELOAD + 1` cycles of the timer
/// clock, the step taken on the `i`-th tick from phase 0 emits the marker
/// exactly when a whole number of seconds (`TIMER_CLOCK` timer cycles) has
/// elapsed since the start.
pub proof fn lemma_marker_each_second(i: nat, n: nat)
    requires
        i < n,
    ensures
        effects_from(0, n)[i as int].marker <==> (i * (TICK_RELOAD as int + 1)) % (TIMER_CLOCK as int)
            == 0,
        effects_from(0, n)[i as int].marker <==> (i as int) % (SAMPLE_DIVISOR as int) == 0,
{
    let q = i as int / 8;
    let r = i as int % 8;
    assert(i * 2_625_000 == 21_000_000 * q + r * 2_625_000) by (nonlinear_arith)
        requires
            i == 8 * q + r,
    ;
    lemma_mod_multiples_vanish(q, r * 2_625_000, 21_000_000);
    assert((r * 2_625_000) % 21_000_000 == r * 2_625_000);
}

} // verus!
