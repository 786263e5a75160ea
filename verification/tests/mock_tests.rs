use rov_interface::commands::RovCommand;
use rov_interface::mock::{InvariantError, MockRov};

#[test]
fn fresh_mirror_is_all_off() {
    let m = MockRov::new();
    assert_eq!(m.motors, [0i16; 6]);
    assert!(!m.light_relay);
    assert!(!m.sampler_relay);
    assert!(!m.robot_is_on);
}

#[test]
fn commands_update_their_slot_and_relays() {
    let mut m = MockRov::new();
    assert_eq!(m.apply_command(&RovCommand::ControlMotor { id: 2, throttle: -1234 }), Ok(()));
    assert_eq!(m.motors, [0, 0, -1234, 0, 0, 0]);
    assert_eq!(m.apply_command(&RovCommand::LightsOn), Ok(()));
    assert!(m.light_relay);
    assert_eq!(m.apply_command(&RovCommand::LightsOff), Ok(()));
    assert!(!m.light_relay);
    assert_eq!(m.apply_command(&RovCommand::CollectSamples { amount: 3 }), Ok(()));
    assert!(m.sampler_relay);
}

#[test]
fn out_of_range_motor_index_is_rejected_and_motors_unchanged() {
    let mut m = MockRov::new();
    let before = m.motors;
    let r = m.apply_command(&RovCommand::ControlMotor { id: 6, throttle: 100 });
    assert_eq!(r, Err(InvariantError::MotorIndexOutOfRange { id: 6 }));
    assert_eq!(m.motors, before);
    assert!(!m.light_relay);
    assert!(!m.sampler_relay);
}

#[test]
fn apply_commands_surfaces_errors_and_applies_the_rest() {
    let mut m = MockRov::new();
    let commands = vec![
        RovCommand::ControlMotor { id: 0, throttle: 500 },
        RovCommand::ControlMotor { id: 9, throttle: 1 },
        RovCommand::LightsOn,
    ];
    let errors = m.apply_commands(&commands);
    assert_eq!(errors, vec![InvariantError::MotorIndexOutOfRange { id: 9 }]);
    assert_eq!(m.motors, [500, 0, 0, 0, 0, 0]);
    assert!(m.light_relay);
}

#[test]
fn replaying_a_sequence_on_a_fresh_mirror_is_deterministic() {
    let commands = vec![
        RovCommand::ControlMotor { id: 1, throttle: 42 },
        RovCommand::LightsOn,
        RovCommand::CollectSamples { amount: 2 },
        RovCommand::ControlMotor { id: 5, throttle: -7 },
        RovCommand::LightsOff,
    ];
    let mut first = MockRov::new();
    first.apply_commands(&commands);
    let mut second = MockRov::new();
    second.apply_commands(&commands);
    assert_eq!(first, second);
}
