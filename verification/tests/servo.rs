use rangefinder::servo::{
    donate_tc1, ticks_to_us, timer1_compa, us_to_ticks, Servo, ServoBank, ServoDetached,
    ServoError, DEFAULT_PULSE_WIDTH, MAX_SERVOS,
};

#[test]
fn test_timer1_compa() {}

fn donated_bank() -> ServoBank {
    let mut bank = ServoBank::new();
    donate_tc1(&mut bank);
    bank
}

#[test]
fn registration_without_timer_fails() {
    let mut bank = ServoBank::new();
    let r = Servo::<ServoDetached>::new(&mut bank, 9);
    assert!(matches!(r, Err(ServoError::NotInitialized)));
}

#[test]
fn thirteenth_registration_fails_and_twelve_stay_writable() {
    let mut bank = donated_bank();
    let mut servos = Vec::new();
    for pin in 0..12u8 {
        let s = Servo::<ServoDetached>::new(&mut bank, pin).expect("slot free");
        assert_eq!(s.index, pin as usize);
        servos.push(s.attach(&mut bank));
    }
    let thirteenth = Servo::<ServoDetached>::new(&mut bank, 12);
    assert!(matches!(thirteenth, Err(ServoError::TooManyServos)));
    assert_eq!(bank.slots.len(), MAX_SERVOS);

    // Every registered actuator still takes its own value, independently.
    for (i, s) in servos.iter().enumerate() {
        s.write_us(&mut bank, 1000 + 100 * i as i16);
    }
    for (i, s) in servos.iter().enumerate() {
        assert_eq!(s.read_us(&bank), 1000 + 100 * i as u16);
    }
}

#[test]
fn registration_fails_never_earlier_than_capacity() {
    let mut bank = donated_bank();
    for pin in 0..12u8 {
        assert!(Servo::<ServoDetached>::new(&mut bank, pin).is_ok());
    }
}

#[test]
fn fresh_slot_holds_default_pulse_value() {
    let mut bank = donated_bank();
    let s = Servo::<ServoDetached>::new(&mut bank, 3).unwrap();
    // The 1500 us neutral default, stored at two ticks per microsecond.
    assert_eq!(bank.slots[s.index].ticks, 3000);
    assert_eq!(us_to_ticks(DEFAULT_PULSE_WIDTH as u32), 3000);
    assert!(!bank.slots[s.index].attached);
    let s = s.attach(&mut bank);
    assert_eq!(s.read_us(&bank), 1500);
}

#[test]
fn attach_arms_timer_and_detach_of_last_disarms_it() {
    let mut bank = donated_bank();
    let a = Servo::<ServoDetached>::new(&mut bank, 1).unwrap();
    let b = Servo::<ServoDetached>::new(&mut bank, 2).unwrap();
    assert!(!bank.timer_enabled);
    let a = a.attach(&mut bank);
    assert!(bank.timer_enabled);
    let b = b.attach(&mut bank);
    let _a = a.detach(&mut bank);
    assert!(bank.timer_enabled);
    let _b = b.detach(&mut bank);
    assert!(!bank.timer_enabled);
}

#[test]
fn unit_conversions_are_two_ticks_per_microsecond() {
    assert_eq!(us_to_ticks(1500), 3000);
    assert_eq!(ticks_to_us(3000), 1500);
    assert_eq!(us_to_ticks(20_000), 40_000);
    assert_eq!(ticks_to_us(1), 0);
}

#[test]
fn map_interpolates_with_truncation() {
    assert_eq!(rangefinder::servo::map(90, 0, 180, 544, 2400), 1472);
    assert_eq!(rangefinder::servo::map(1, 0, 180, 544, 2400), 554);
    assert_eq!(rangefinder::servo::map(0, 0, 180, 544, 2400), 544);
    assert_eq!(rangefinder::servo::map(180, 0, 180, 544, 2400), 2400);
    assert_eq!(rangefinder::servo::map(1472, 544, 2400, 0, 180), 90);
}

#[test]
fn write_clamps_to_configured_range() {
    let mut bank = donated_bank();
    let s = Servo::<ServoDetached>::new(&mut bank, 1).unwrap().attach(&mut bank);
    s.write_us(&mut bank, 100);
    assert_eq!(s.read_us(&bank), 544);
    s.write_us(&mut bank, 30_000);
    assert_eq!(s.read_us(&bank), 2400);
}

#[test]
fn logical_write_round_trips_through_read() {
    let mut bank = donated_bank();
    let s = Servo::<ServoDetached>::new(&mut bank, 1).unwrap().attach(&mut bank);
    s.write(&mut bank, 90);
    assert_eq!(s.read_us(&bank), 1472);
    assert_eq!(s.read(&bank), 90);
    s.write(&mut bank, 0);
    assert_eq!(s.read_us(&bank), 544);
    assert_eq!(s.read(&bank), 0);
}

#[test]
fn servo_limits_expand_from_encoding() {
    let mut bank = donated_bank();
    let s = Servo::<ServoDetached>::new(&mut bank, 1).unwrap();
    let s = s.attach_with_limits(&mut bank, 1000, 2000);
    assert_eq!(s.servo_min(), 544 - 4 * ((544 - 1000) / 4));
    assert_eq!(s.servo_max(), 2400 - 4 * ((2400 - 2000) / 4));
    assert_eq!(s.servo_min(), 1000);
    assert_eq!(s.servo_max(), 2000);
}

#[test]
fn compare_interrupt_walks_slots_and_pads_frame() {
    let mut bank = donated_bank();
    let a = Servo::<ServoDetached>::new(&mut bank, 1).unwrap().attach(&mut bank);
    let b = Servo::<ServoDetached>::new(&mut bank, 2).unwrap().attach(&mut bank);
    a.write_us(&mut bank, 1000); // 2000 ticks
    b.write_us(&mut bank, 700); // 1400 ticks

    // End of the previous frame: the counter resets and slot 0 goes high.
    bank.channel = -1;
    let ev = timer1_compa(&mut bank, 39_990);
    assert!(ev.reset_counter);
    assert_eq!(ev.next_compare, 2000);
    assert_eq!(bank.channel, 0);
    assert!(bank.slots[0].high);
    assert!(!bank.slots[1].high);

    // The event at slot 0's compare value ends its pulse: exactly the
    // written width, two ticks per microsecond.
    let ev = timer1_compa(&mut bank, 2000);
    assert!(!ev.reset_counter);
    assert_eq!(ev.next_compare, 2000 + 1400);
    assert_eq!(bank.channel, 1);
    assert!(!bank.slots[0].high);
    assert!(bank.slots[1].high);

    // After the last slot the next event pads the frame to its boundary.
    let ev = timer1_compa(&mut bank, 3400);
    assert!(!ev.reset_counter);
    assert_eq!(ev.next_compare, 40_000);
    assert_eq!(bank.channel, -1);
    assert!(!bank.slots[1].high);
}

#[test]
fn compare_interrupt_guards_overrun_frame_boundary() {
    let mut bank = donated_bank();
    let a = Servo::<ServoDetached>::new(&mut bank, 1).unwrap().attach(&mut bank);
    a.write_us(&mut bank, 1000);
    bank.channel = 0;
    // The counter already ran past the refresh boundary: the next event is
    // scheduled a guard margin ahead instead.
    let ev = timer1_compa(&mut bank, 41_000);
    assert_eq!(bank.channel, -1);
    assert_eq!(ev.next_compare, 41_004);
}

#[test]
fn detached_slot_is_skipped_silently() {
    let mut bank = donated_bank();
    let a = Servo::<ServoDetached>::new(&mut bank, 1).unwrap().attach(&mut bank);
    let _d = a.detach(&mut bank);
    bank.channel = -1;
    let ev = timer1_compa(&mut bank, 0);
    // The slot exists, so its width — the untouched 1500 us default —
    // still paces the frame, but its pin is not driven.
    assert_eq!(ev.next_compare, 3000);
    assert!(!bank.slots[0].high);
}
