use rangefinder::clock::{prescale_from_value, prescale_value, Clock, Prescale};

#[test]
fn reading_advances_by_one_per_interrupt() {
    let mut c = Clock::new();
    assert_eq!(c.now(), 0);
    for _ in 0..5 {
        c.tick();
    }
    assert_eq!(c.now(), 5);
}

#[test]
fn folding_interrupt_advances_reading_too() {
    let mut c = Clock { counter: 1000, part: 251 };
    assert_eq!(c.now(), 1251);
    c.tick();
    assert_eq!(c.part, 0);
    assert_eq!(c.counter, 1252);
    assert_eq!(c.now(), 1252);
    c.tick();
    assert_eq!(c.now(), 1253);
}

#[test]
fn reading_counts_every_interrupt_across_folds() {
    let mut c = Clock::new();
    for _ in 0..251 {
        c.tick();
    }
    // The sub-counter sits just past the threshold; the counter is as yet
    // untouched.
    assert_eq!(c.now(), 251);
    assert_eq!(c.counter, 0);
    // The next call folds — and the reading still advances by one.
    c.tick();
    assert_eq!(c.counter, 252);
    assert_eq!(c.part, 0);
    assert_eq!(c.now(), 252);
    // No tick is ever lost, however many folds a window crosses.
    for _ in 0..1000 {
        c.tick();
    }
    assert_eq!(c.now(), 1252);
}

#[test]
fn reading_wraps_modulo_counter_width() {
    let mut c = Clock { counter: u32::MAX, part: 0 };
    c.tick();
    assert_eq!(c.now(), 0);
}

#[test]
fn timer_configuration_for_supported_rates() {
    let c = Clock::new();
    let cfg = c.start(40, 8);
    assert_eq!(cfg.top, 49);
    assert_eq!(cfg.prescale, Prescale::Prescale8);
    let cfg = c.start(20, 8);
    assert_eq!(cfg.top, 99);
    assert_eq!(cfg.prescale, Prescale::Prescale8);
    let cfg = c.start(1, 64);
    assert_eq!(cfg.top, 249);
    assert_eq!(cfg.prescale, Prescale::Prescale64);
}

#[test]
fn prescale_values_round_trip() {
    for v in [0u32, 1, 8, 64, 256, 1024] {
        let p = prescale_from_value(v);
        assert_eq!(prescale_value(p), v);
    }
    assert_eq!(prescale_from_value(8), Prescale::Prescale8);
    assert_eq!(prescale_value(Prescale::NoClock), 0);
}
