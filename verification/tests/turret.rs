use rangefinder::ir::{DecodedCommand, DOWN, LEFT, OK, RIGHT, STAR, UP};
use rangefinder::servo::{donate_tc1, ServoBank};
use rangefinder::turret::{Actuator, MotionStep, Turret};

fn build_turret() -> (Turret, ServoBank) {
    let mut bank = ServoBank::new();
    donate_tc1(&mut bank);
    let turret = Turret::builder()
        .range_finder()
        .yaw(&mut bank, 10)
        .expect("yaw servo")
        .pitch(&mut bank, 11)
        .expect("pitch servo")
        .roll(&mut bank, 12)
        .expect("roll servo")
        .build();
    (turret, bank)
}

fn cmd(code: u8, repeat: bool) -> Option<DecodedCommand> {
    Some(DecodedCommand { addr: 0, cmd: code, repeat })
}

#[test]
fn builder_wires_three_actuators_and_starts_centred() {
    let (turret, bank) = build_turret();
    assert_eq!(turret.pitch_value, 100);
    assert_eq!(turret.yaw.index, 0);
    assert_eq!(turret.pitch.index, 1);
    assert_eq!(turret.roll.index, 2);
    assert_eq!(bank.slots.len(), 3);
    assert!(bank.slots.iter().all(|s| s.attached));
    assert_eq!(turret.range_finder.speed_of_sound_mm_s, 344_938);
}

#[test]
fn builder_aborts_without_timer() {
    let mut bank = ServoBank::new();
    let r = Turret::builder().yaw(&mut bank, 10);
    assert!(r.is_err());
}

#[test]
fn up_steps_pitch_and_stops_at_minimum() {
    let (mut turret, _bank) = build_turret();
    let plan = turret.handle_command(cmd(UP, false));
    assert_eq!(turret.pitch_value, 92);
    assert_eq!(
        plan,
        vec![MotionStep { target: Actuator::Pitch, value: 92, delay_ms: 50 }]
    );

    // Walk the pitch down to its bound: the last effective step clamps
    // exactly onto the minimum, and a further ask moves nothing.
    let _ = turret.move_up(12);
    assert_eq!(turret.pitch_value, 10);
    let plan = turret.handle_command(cmd(UP, false));
    assert_eq!(turret.pitch_value, 10);
    assert!(plan.is_empty());
}

#[test]
fn up_at_exact_minimum_is_a_no_op() {
    let (mut turret, _bank) = build_turret();
    turret.pitch_value = 10;
    let plan = turret.handle_command(cmd(UP, false));
    assert_eq!(turret.pitch_value, 10);
    assert!(plan.is_empty());
}

#[test]
fn down_steps_pitch_and_stops_at_maximum() {
    let (mut turret, _bank) = build_turret();
    let plan = turret.handle_command(cmd(DOWN, false));
    assert_eq!(turret.pitch_value, 108);
    assert_eq!(
        plan,
        vec![MotionStep { target: Actuator::Pitch, value: 108, delay_ms: 50 }]
    );
    turret.pitch_value = 175;
    let plan = turret.handle_command(cmd(DOWN, false));
    assert_eq!(turret.pitch_value, 175);
    assert!(plan.is_empty());
    // A step that would overshoot clamps exactly onto the maximum.
    turret.pitch_value = 172;
    let plan = turret.handle_command(cmd(DOWN, false));
    assert_eq!(turret.pitch_value, 175);
    assert_eq!(
        plan,
        vec![MotionStep { target: Actuator::Pitch, value: 175, delay_ms: 50 }]
    );
}

#[test]
fn left_and_right_spin_yaw_time_boxed() {
    let (mut turret, _bank) = build_turret();
    let plan = turret.handle_command(cmd(LEFT, false));
    assert_eq!(
        plan,
        vec![
            MotionStep { target: Actuator::Yaw, value: 180, delay_ms: 75 },
            MotionStep { target: Actuator::Yaw, value: 90, delay_ms: 5 },
        ]
    );
    let plan = turret.handle_command(cmd(RIGHT, false));
    assert_eq!(
        plan,
        vec![
            MotionStep { target: Actuator::Yaw, value: 0, delay_ms: 75 },
            MotionStep { target: Actuator::Yaw, value: 90, delay_ms: 5 },
        ]
    );
    assert_eq!(turret.pitch_value, 100);
}

#[test]
fn ok_fires_once_and_returns_roll_to_stop() {
    let (mut turret, mut bank) = build_turret();
    let plan = turret.handle_command(cmd(OK, false));
    assert_eq!(
        plan,
        vec![
            MotionStep { target: Actuator::Roll, value: 0, delay_ms: 115 },
            MotionStep { target: Actuator::Roll, value: 90, delay_ms: 5 },
        ]
    );
    for step in &plan {
        turret.apply_step(&mut bank, step);
    }
    // After the fixed fire delay the roll actuator is back at stop speed.
    assert_eq!(turret.roll.read(&bank), 90);
    assert_eq!(turret.roll.read_us(&bank), 1472);
}

#[test]
fn ok_repeat_does_not_fire() {
    let (mut turret, bank) = build_turret();
    let before = bank.slots[turret.roll.index].ticks;
    let plan = turret.handle_command(cmd(OK, true));
    assert!(plan.is_empty());
    assert_eq!(bank.slots[turret.roll.index].ticks, before);
    assert_eq!(turret.pitch_value, 100);
}

#[test]
fn star_fires_a_six_fold_burst_unless_repeated() {
    let (mut turret, _bank) = build_turret();
    let plan = turret.handle_command(cmd(STAR, false));
    assert_eq!(
        plan,
        vec![
            MotionStep { target: Actuator::Roll, value: 0, delay_ms: 690 },
            MotionStep { target: Actuator::Roll, value: 90, delay_ms: 5 },
        ]
    );
    let plan = turret.handle_command(cmd(STAR, true));
    assert!(plan.is_empty());
}

#[test]
fn unknown_and_absent_commands_do_nothing() {
    let (mut turret, _bank) = build_turret();
    assert!(turret.handle_command(cmd(0x45, false)).is_empty());
    assert!(turret.handle_command(None).is_empty());
    assert_eq!(turret.pitch_value, 100);
}

#[test]
fn applying_a_pitch_step_writes_the_pitch_slot_only() {
    let (mut turret, mut bank) = build_turret();
    let yaw_before = bank.slots[turret.yaw.index].ticks;
    let roll_before = bank.slots[turret.roll.index].ticks;
    let plan = turret.handle_command(cmd(UP, false));
    for step in &plan {
        turret.apply_step(&mut bank, step);
    }
    // 92 on the logical scale maps into the configured pulse range.
    assert_eq!(turret.pitch.read_us(&bank), 1492);
    assert_eq!(bank.slots[turret.yaw.index].ticks, yaw_before);
    assert_eq!(bank.slots[turret.roll.index].ticks, roll_before);
}

#[test]
fn repeated_moves_emit_one_pulse_pair_each() {
    let (mut turret, _bank) = build_turret();
    let plan = turret.move_left(2);
    assert_eq!(plan.len(), 4);
    assert_eq!(plan[0], plan[2]);
    assert_eq!(plan[1], plan[3]);
    let plan = turret.move_up(3);
    assert_eq!(plan.len(), 3);
    let values: Vec<u8> = plan.iter().map(|s| s.value).collect();
    assert_eq!(values, vec![92, 84, 76]);
    assert_eq!(turret.pitch_value, 76);
}

#[test]
fn range_finder_accessors_reach_the_driver() {
    let (mut turret, _bank) = build_turret();
    assert_eq!(turret.range_finder().timeout_ticks, 1855);
    assert_eq!(turret.range_finder_mut().measure_distance(30), 129);
}
