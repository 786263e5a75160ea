use rov_interface::commands::RovCommand;
use rov_interface::control_state::{Axis, Button, InputEvent};
use rov_interface::link::LinkError;
use rov_interface::session::{dispatch_due, Config, RovControl, SessionState, Trans};

#[test]
fn default_config_dispatches_every_five_milliseconds() {
    let config = Config::default();
    assert_eq!(config.dispatch_interval_ms, 5);
    assert!(!dispatch_due(4, &config));
    assert!(dispatch_due(5, &config));
    assert!(dispatch_due(6, &config));
}

#[test]
fn quit_event_terminates_the_session() {
    let mut session = RovControl::new();
    assert_eq!(session.frame_trans(), Trans::Continue);
    session.handle_event(InputEvent::Quit);
    assert_eq!(session.state, SessionState::Terminating);
    assert_eq!(session.frame_trans(), Trans::Quit);
}

#[test]
fn dispatch_cycle_sends_the_diff_and_updates_the_mirror() {
    let mut session = RovControl::new();
    session.handle_event(InputEvent::AxisMotion { axis: Axis::LeftY, value: 16384 });
    session.handle_event(InputEvent::ButtonDown { button: Button::Y });
    let commands = session.dispatch_cycle();
    assert_eq!(
        commands,
        vec![
            RovCommand::ControlMotor { id: 0, throttle: 16384 },
            RovCommand::ControlMotor { id: 1, throttle: 16384 },
            RovCommand::ControlMotor { id: 2, throttle: 16384 },
            RovCommand::ControlMotor { id: 3, throttle: 16384 },
            RovCommand::LightsOn,
        ]
    );
    assert_eq!(session.mock_rov.motors, [16384, 16384, 16384, 16384, 0, 0]);
    assert!(session.mock_rov.light_relay);
    // A steady frame later, nothing is left to send.
    assert_eq!(session.dispatch_cycle(), vec![]);
}

#[test]
fn dispatch_cycle_always_clears_the_one_shot_sampler_flag() {
    let mut session = RovControl::new();
    session.handle_event(InputEvent::ButtonDown { button: Button::B });
    assert!(session.control_state.sampler_release);
    let commands = session.dispatch_cycle();
    assert_eq!(commands, vec![RovCommand::CollectSamples { amount: 1 }]);
    assert!(!session.prev_control_state.sampler_release);
    assert!(!session.control_state.sampler_release);
    // The flag was consumed: the next cycle emits nothing.
    let commands = session.dispatch_cycle();
    assert_eq!(commands, vec![]);
    assert!(!session.prev_control_state.sampler_release);
}

#[test]
fn send_failure_is_absorbed_and_the_next_cycle_dispatches_again() {
    let mut session = RovControl::new();
    session.handle_event(InputEvent::AxisMotion { axis: Axis::LeftY, value: 8192 });
    let commands = session.dispatch_cycle();
    assert_eq!(commands.len(), 4);
    // The link times out on one command: the session surfaces the error
    // and continues instead of terminating.
    let (message, trans) = session.handle_send_failure(&LinkError::Timeout);
    assert_eq!(message, "link write timed out");
    assert_eq!(trans, Trans::Continue);
    assert_eq!(session.state, SessionState::Active);
    // The following frame still runs its dispatch cycle.
    session.handle_event(InputEvent::AxisMotion { axis: Axis::LeftY, value: 0 });
    let commands = session.dispatch_cycle();
    assert_eq!(commands.len(), 4);
}

#[test]
fn update_drains_events_then_dispatches_when_due() {
    let mut session = RovControl::new();
    let config = Config::default();
    let events = vec![
        InputEvent::AxisMotion { axis: Axis::LeftY, value: 16384 },
        InputEvent::ButtonDown { button: Button::Y },
    ];
    let (commands, trans) = session.update(&events, 6, &config);
    assert_eq!(trans, Trans::Continue);
    assert_eq!(
        commands,
        vec![
            RovCommand::ControlMotor { id: 0, throttle: 16384 },
            RovCommand::ControlMotor { id: 1, throttle: 16384 },
            RovCommand::ControlMotor { id: 2, throttle: 16384 },
            RovCommand::ControlMotor { id: 3, throttle: 16384 },
            RovCommand::LightsOn,
        ]
    );
    assert!(session.mock_rov.light_relay);
}

#[test]
fn update_before_the_cadence_keeps_intent_and_sends_nothing() {
    let mut session = RovControl::new();
    let config = Config::default();
    let events = vec![InputEvent::AxisMotion { axis: Axis::LeftY, value: 16384 }];
    let (commands, trans) = session.update(&events, 4, &config);
    assert_eq!(commands, vec![]);
    assert_eq!(trans, Trans::Continue);
    assert_eq!(session.control_state.forward_thrust, 16384);
    // The intent accumulated; the next due frame dispatches it.
    let (commands, _) = session.update(&vec![], 5, &config);
    assert_eq!(commands.len(), 4);
}

#[test]
fn update_with_a_quit_event_skips_dispatch_and_signals_quit() {
    let mut session = RovControl::new();
    let config = Config::default();
    let events = vec![
        InputEvent::AxisMotion { axis: Axis::LeftY, value: 16384 },
        InputEvent::Quit,
    ];
    let (commands, trans) = session.update(&events, 10, &config);
    assert_eq!(commands, vec![]);
    assert_eq!(trans, Trans::Quit);
    assert_eq!(session.state, SessionState::Terminating);
}
