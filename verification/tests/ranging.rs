use rangefinder::hc_sr04::{echo_edge, HcSr04, HcSr04Error, HcSr04State, RangingShared};

fn sensor() -> HcSr04 {
    HcSr04::new(23)
}

#[test]
fn speed_of_sound_is_temperature_compensated() {
    let s = sensor();
    assert_eq!(s.speed_of_sound_mm_s, 344_938);
    assert_eq!(s.timeout_ticks, 640_000_000 / 344_938);
    assert_eq!(s.timeout_ticks, 1855);
    assert_eq!(s.trigger_time_us, 10);
    assert_eq!(s.wait_time_us, 10);
}

#[test]
fn state_codes_decode_with_unknown_as_idle() {
    assert_eq!(HcSr04State::from(1u8), HcSr04State::Triggered);
    assert_eq!(HcSr04State::from(2u8), HcSr04State::Measuring);
    assert_eq!(HcSr04State::from(0u8), HcSr04State::Idle);
    assert_eq!(HcSr04State::from(7u8), HcSr04State::Idle);
}

#[test]
fn edge_interrupt_timestamps_by_phase() {
    let mut shared = RangingShared::new();
    shared.state = HcSr04State::Triggered;
    echo_edge(&mut shared, 100);
    assert_eq!(shared.trigger_time, 100);
    assert_eq!(shared.echo_time, 0);
    shared.state = HcSr04State::Measuring;
    echo_edge(&mut shared, 130);
    assert_eq!(shared.trigger_time, 100);
    assert_eq!(shared.echo_time, 130);
}

#[test]
fn spurious_edge_after_idle_is_ignored() {
    let mut shared = RangingShared::new();
    echo_edge(&mut shared, 42);
    assert_eq!(shared.trigger_time, 0);
    assert_eq!(shared.echo_time, 0);
}

#[test]
fn measurement_without_edges_times_out_as_no_trigger() {
    let s = sensor();
    let mut shared = RangingShared::new();
    s.begin_measurement(&mut shared);
    assert_eq!(shared.state, HcSr04State::Triggered);
    let mut now = 0u32;
    loop {
        let o = s.measure_poll(&mut shared, 0, now);
        if o.finished {
            break;
        }
        now += 100;
    }
    let r = s.finish_measurement(&mut shared);
    assert_eq!(r, Err(HcSr04Error::NoTrigger));
    assert_eq!(shared.state, HcSr04State::Idle);
}

#[test]
fn missing_falling_edge_times_out_as_no_echo() {
    let s = sensor();
    let mut shared = RangingShared::new();
    s.begin_measurement(&mut shared);
    echo_edge(&mut shared, 100);
    let o = s.measure_poll(&mut shared, 90, 110);
    assert!(o.arm_falling);
    assert!(!o.finished);
    assert_eq!(shared.state, HcSr04State::Measuring);
    // No falling edge ever arrives; the wait expires.
    let o = s.measure_poll(&mut shared, 90, 90 + s.timeout_ticks + 1);
    assert!(o.finished);
    let r = s.finish_measurement(&mut shared);
    assert_eq!(r, Err(HcSr04Error::NoEcho));
}

#[test]
fn full_measurement_yields_elapsed_ticks() {
    let s = sensor();
    let mut shared = RangingShared::new();
    s.begin_measurement(&mut shared);
    echo_edge(&mut shared, 100);
    let o = s.measure_poll(&mut shared, 95, 120);
    assert!(o.arm_falling);
    echo_edge(&mut shared, 130);
    let o = s.measure_poll(&mut shared, 95, 140);
    assert!(o.finished);
    let r = s.finish_measurement(&mut shared);
    assert_eq!(r, Ok(30));
    assert_eq!(shared.state, HcSr04State::Idle);
}

#[test]
fn echo_not_after_trigger_is_invalid_never_wrapped() {
    let s = sensor();
    let mut shared = RangingShared::new();
    shared.trigger_time = 100;
    shared.echo_time = 90;
    assert_eq!(s.finish_measurement(&mut shared), Err(HcSr04Error::InvalidResult));
    let mut shared = RangingShared::new();
    shared.trigger_time = 100;
    shared.echo_time = 100;
    assert_eq!(s.finish_measurement(&mut shared), Err(HcSr04Error::InvalidResult));
}

#[test]
fn short_range_distance_is_plausible() {
    let s = sensor();
    // Thirty ticks of round trip at 23 degrees: about thirteen centimetres.
    assert_eq!(s.measure_distance(30), 129);
    assert_eq!(s.measure_distance(0), 0);
}
