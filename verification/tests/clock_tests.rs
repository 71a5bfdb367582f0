use pic_emulator_rs::clock::SystemClock;

#[test]
fn a_new_clock_has_every_line_low() {
    let clock = SystemClock::new(4, 4_000_000);
    assert_eq!(clock.phase, 0);
    assert_eq!(clock.phases, 4);
    assert_eq!(clock.frequency, 4_000_000);
    assert_eq!(clock.quadrature_clocks, vec![false; 4]);
    assert!(clock.can_tick());
}

#[test]
fn a_tick_raises_the_line_of_the_next_phase() {
    let mut clock = SystemClock::new(4, 1000);
    clock.tick();
    assert_eq!(clock.phase, 1);
    assert_eq!(clock.quadrature_clocks, vec![false, true, false, false]);
    clock.tick();
    assert_eq!(clock.quadrature_clocks, vec![false, false, true, false]);
    clock.tick();
    assert_eq!(clock.quadrature_clocks, vec![false, false, false, true]);
    clock.tick();
    assert_eq!(clock.phase, 4);
    assert_eq!(clock.quadrature_clocks, vec![true, false, false, false]);
    assert_eq!(clock.phases, 4);
    assert_eq!(clock.frequency, 1000);
}

#[test]
fn a_clock_of_one_phase_keeps_its_line_high() {
    let mut clock = SystemClock::new(1, 1);
    for count in 1..=5 {
        assert!(clock.can_tick());
        clock.tick();
        assert_eq!(clock.phase, count);
        assert_eq!(clock.quadrature_clocks, vec![true]);
    }
}

#[test]
fn a_clock_without_phases_cannot_tick() {
    let clock = SystemClock::new(0, 1000);
    assert_eq!(clock.quadrature_clocks, Vec::<bool>::new());
    assert!(!clock.can_tick());
}

#[test]
fn a_clock_cannot_tick_past_the_last_count_or_a_missing_line() {
    let mut clock = SystemClock::new(4, 1000);
    clock.phase = u32::MAX;
    assert!(!clock.can_tick());
    clock.phase = u32::MAX - 1;
    assert!(clock.can_tick());
    clock.tick();
    assert_eq!(clock.phase, u32::MAX);
    assert_eq!(clock.quadrature_clocks, vec![false, false, false, true]);
    let mut short = SystemClock::new(4, 1000);
    short.quadrature_clocks.truncate(1);
    assert!(!short.can_tick());
    short.phase = 3;
    assert!(short.can_tick());
    short.tick();
    assert_eq!(short.quadrature_clocks, vec![true]);
}

#[test]
fn a_clone_of_a_clock_ticks_apart() {
    let mut clock = SystemClock::new(3, 50);
    clock.tick();
    let mut copy = clock.clone();
    assert_eq!(copy.phase, 1);
    assert_eq!(copy.phases, 3);
    assert_eq!(copy.frequency, 50);
    assert_eq!(copy.quadrature_clocks, vec![false, true, false]);
    copy.tick();
    assert_eq!(copy.quadrature_clocks, vec![false, false, true]);
    assert_eq!(clock.quadrature_clocks, vec![false, true, false]);
}
