use clock_beacon::clock::{bring_up, ClockSequencer, RegWrite, Stage};
use clock_beacon::config::{
    FLASH_LATENCY, HPRE, PLL_M, PLL_N, PLL_P, PLL_Q, PLL_SELECTED, PPRE1, PPRE2, SAMPLE_DIVISOR, SYSCLK,
    TICK_RELOAD, TIMER_CLOCK,
};
use clock_beacon::wait::{Acknowledge, Poll, ReadyFlag, WaitCondition};

fn complete() -> Vec<RegWrite> {
    vec![
        RegWrite::EnableReadyInterrupts,
        RegWrite::EnableOscillator,
        RegWrite::Clear(ReadyFlag::Oscillator),
        RegWrite::FlashLatency(5),
        RegWrite::MultiplierConfig { m: 8, n: 336, p: 0, q: 7 },
        RegWrite::EnableMultiplier,
        RegWrite::Clear(ReadyFlag::Multiplier),
        RegWrite::BusPrescalers { hpre: 1, ppre1: 0b101, ppre2: 0b100 },
        RegWrite::SelectSource(0b10),
    ]
}

#[test]
fn clock_constants() {
    assert_eq!(SYSCLK, 168_000_000);
    assert_eq!(FLASH_LATENCY, 5);
    assert_eq!(TIMER_CLOCK, 21_000_000);
    assert_eq!(TICK_RELOAD, 2_624_999);
    assert!(TICK_RELOAD <= 0x00FF_FFFF);
    assert_eq!((TICK_RELOAD + 1) * SAMPLE_DIVISOR, TIMER_CLOCK);
    assert_eq!(8_000_000 / PLL_M * PLL_N / (2 * (PLL_P + 1)), SYSCLK);
    assert_eq!((HPRE, PPRE1, PPRE2, PLL_SELECTED, PLL_Q), (1, 5, 4, 2, 7));
}

#[test]
fn wait_condition_pending_until_flag_set() {
    let mut w = WaitCondition::new(ReadyFlag::Multiplier);
    assert!(!w.resolved());
    assert_eq!(w.poll(false), Poll::Pending);
    assert_eq!(w.poll(false), Poll::Pending);
    assert!(!w.resolved());
    assert_eq!(w.poll(true), Poll::Ready(Acknowledge { flag: ReadyFlag::Multiplier }));
    assert!(w.resolved());
    assert_eq!(w.flag(), ReadyFlag::Multiplier);
}

#[test]
fn bring_up_runs_to_completion() {
    let (writes, stage) = bring_up(&vec![false, false, true, false, true]);
    assert_eq!(writes, complete());
    assert_eq!(stage, Stage::Running);
}

#[test]
fn bring_up_ignores_readings_after_completion() {
    let (writes, stage) = bring_up(&vec![true, true, true, false]);
    assert_eq!(writes, complete());
    assert_eq!(stage, Stage::Running);
}

#[test]
fn bring_up_stalls_without_oscillator() {
    let (writes, stage) = bring_up(&vec![false, false, false]);
    assert_eq!(writes, vec![RegWrite::EnableReadyInterrupts, RegWrite::EnableOscillator]);
    assert_eq!(stage, Stage::AwaitOscillator);
    let (writes, stage) = bring_up(&vec![]);
    assert_eq!(writes.len(), 2);
    assert_eq!(stage, Stage::AwaitOscillator);
}

#[test]
fn bring_up_stalls_without_multiplier() {
    let (writes, stage) = bring_up(&vec![true, false, false]);
    assert_eq!(writes, complete()[..6].to_vec());
    assert_eq!(stage, Stage::AwaitMultiplier);
}

#[test]
fn bring_up_orders_configuration_after_readiness() {
    let readings = [
        vec![],
        vec![false, true],
        vec![true, false, false, true],
        vec![false, true, true],
        vec![true],
    ];
    for r in readings.iter() {
        let (writes, _) = bring_up(r);
        let osc = writes.iter().position(|w| *w == RegWrite::Clear(ReadyFlag::Oscillator));
        let mul = writes.iter().position(|w| *w == RegWrite::Clear(ReadyFlag::Multiplier));
        for (i, w) in writes.iter().enumerate() {
            match w {
                RegWrite::MultiplierConfig { .. } | RegWrite::EnableMultiplier => {
                    assert!(osc.unwrap() < i)
                }
                RegWrite::BusPrescalers { .. } | RegWrite::SelectSource(_) => assert!(mul.unwrap() < i),
                _ => {}
            }
        }
    }
}

#[test]
fn sequencer_steps() {
    let mut s = ClockSequencer::new();
    assert_eq!(s.stage(), Stage::Idle);
    assert_eq!(s.awaiting(), None);
    assert_eq!(s.begin().len(), 2);
    assert_eq!(s.awaiting(), Some(ReadyFlag::Oscillator));
    assert!(s.poll(false).is_empty());
    assert_eq!(s.stage(), Stage::AwaitOscillator);
    let w = s.poll(true);
    assert_eq!(w[0], RegWrite::Clear(ReadyFlag::Oscillator));
    assert_eq!(w[1], RegWrite::FlashLatency(FLASH_LATENCY));
    assert_eq!(s.awaiting(), Some(ReadyFlag::Multiplier));
    let w = s.poll(true);
    assert_eq!(w.len(), 3);
    assert_eq!(w[2], RegWrite::SelectSource(PLL_SELECTED));
    assert_eq!(s.stage(), Stage::Running);
    assert_eq!(s.awaiting(), None);
}
