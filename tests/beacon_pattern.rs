use clock_beacon::beacon::{line_level, run, BeaconDriver, Level, UnitEffect};
use clock_beacon::tick::{TickEvent, TickOverflow};

fn ev(n: usize) -> TickEvent {
    TickEvent::new(n).unwrap()
}

fn fx(marker: bool, level: Level) -> UnitEffect {
    UnitEffect { marker, level }
}

fn cycle() -> Vec<UnitEffect> {
    vec![
        fx(true, Level::Low),
        fx(false, Level::High),
        fx(false, Level::Low),
        fx(false, Level::High),
        fx(false, Level::High),
        fx(false, Level::High),
        fx(false, Level::High),
        fx(false, Level::High),
    ]
}

#[test]
fn line_level_by_counter() {
    for c in 0u64..40 {
        let low = c % 8 == 0 || c % 8 == 2;
        assert_eq!(line_level(c) == Level::Low, low);
    }
    assert_eq!(line_level(0), Level::Low);
    assert_eq!(line_level(1), Level::High);
    assert_eq!(line_level(10), Level::Low);
    assert_eq!(line_level(u64::MAX), Level::High);
}

#[test]
fn eight_unit_events_give_double_pulse() {
    let mut d = BeaconDriver::new();
    let mut all = Vec::new();
    for _ in 0..8 {
        let v = d.apply(&ev(1));
        assert_eq!(v.len(), 1);
        all.extend(v);
    }
    assert_eq!(all, cycle());
    assert_eq!(d.phase(), 0);
    let again: Vec<UnitEffect> = (0..8).flat_map(|_| d.apply(&ev(1))).collect();
    assert_eq!(again, cycle());
}

#[test]
fn one_event_of_eight_applies_every_step() {
    let mut d = BeaconDriver::new();
    assert_eq!(d.apply(&ev(8)), cycle());
    assert_eq!(d.phase(), 0);
}

#[test]
fn split_events_match_single_steps() {
    let mut d = BeaconDriver::new();
    let mut all = d.apply(&ev(3));
    assert_eq!(d.phase(), 3);
    all.extend(d.apply(&ev(7)));
    assert_eq!(d.phase(), 2);
    let mut e = BeaconDriver::new();
    let singles: Vec<UnitEffect> = (0..10).map(|_| e.step()).collect();
    assert_eq!(all, singles);
    assert_eq!(all.iter().filter(|u| u.marker).count(), 2);
}

#[test]
fn marker_once_in_any_eight_steps() {
    for start in 0..8 {
        let mut d = BeaconDriver::new();
        d.apply(&ev(start + 1));
        let v = d.apply(&ev(8));
        assert_eq!(v.iter().filter(|u| u.marker).count(), 1);
        let at = v.iter().position(|u| u.marker).unwrap();
        assert_eq!((start + 1 + at) % 8, 0);
    }
}

#[test]
fn handle_passes_overflow_on() {
    let mut d = BeaconDriver::new();
    assert_eq!(d.handle(Ok(ev(5))).unwrap().len(), 5);
    assert_eq!(d.handle(Err(TickOverflow)), Err(TickOverflow));
    assert_eq!(d.phase(), 5);
}

#[test]
fn run_stops_at_overflow() {
    let (fx_all, res) = run(&vec![Ok(ev(2)), Ok(ev(1)), Err(TickOverflow), Ok(ev(4))]);
    assert_eq!(res, Err(TickOverflow));
    assert_eq!(fx_all, cycle()[..3].to_vec());
}

#[test]
fn run_without_overflow() {
    let (fx_all, res) = run(&vec![Ok(ev(8)), Ok(ev(1)), Ok(ev(7))]);
    assert_eq!(res, Ok(()));
    let mut expected = cycle();
    expected.extend(cycle());
    assert_eq!(fx_all, expected);
    let (none, res) = run(&vec![]);
    assert!(none.is_empty());
    assert_eq!(res, Ok(()));
}

#[test]
fn marker_each_second() {
    let items: Vec<Result<TickEvent, TickOverflow>> = (0..24).map(|_| Ok(ev(1))).collect();
    let (fx_all, _) = run(&items);
    let markers: Vec<usize> = fx_all.iter().enumerate().filter(|(_, u)| u.marker).map(|(i, _)| i).collect();
    assert_eq!(markers, vec![0, 8, 16]);
}
