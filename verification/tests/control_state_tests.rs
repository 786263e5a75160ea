use rov_interface::control_state::{
    Axis, Button, ControlState, InputEvent, SamplerReleaseMode, ThrustMode,
};

#[test]
fn fresh_state_is_all_off() {
    let s = ControlState::new();
    assert_eq!(s.forward_thrust, 0);
    assert_eq!(s.sideways_thrust, 0);
    assert_eq!(s.rotational_thrust, 0);
    assert_eq!(s.ascent_thrust, 0);
    assert_eq!(s.descent_thrust, 0);
    assert!(!s.power_master);
    assert!(!s.power_lights);
    assert!(!s.sampler_release);
    assert_eq!(s.thrust_mode, ThrustMode::Normal);
    assert_eq!(s.sampler_release_mode, SamplerReleaseMode::One);
}

#[test]
fn axis_events_set_exactly_one_field() {
    let mut s = ControlState::new();
    s.apply_input_event(InputEvent::AxisMotion { axis: Axis::LeftY, value: 1000 });
    assert_eq!(s.forward_thrust, 1000);
    s.apply_input_event(InputEvent::AxisMotion { axis: Axis::LeftX, value: -2000 });
    assert_eq!(s.sideways_thrust, -2000);
    s.apply_input_event(InputEvent::AxisMotion { axis: Axis::RightX, value: 3000 });
    assert_eq!(s.rotational_thrust, 3000);
    s.apply_input_event(InputEvent::AxisMotion { axis: Axis::TriggerLeft, value: 4000 });
    assert_eq!(s.ascent_thrust, 4000);
    s.apply_input_event(InputEvent::AxisMotion { axis: Axis::TriggerRight, value: 5000 });
    assert_eq!(s.descent_thrust, 5000);
    assert!(!s.power_lights);
    assert_eq!(s.thrust_mode, ThrustMode::Normal);
}

#[test]
fn raw_axis_extremes_normalize_to_unit_range() {
    let mut s = ControlState::new();
    s.apply_input_event(InputEvent::AxisMotion { axis: Axis::LeftY, value: -32768 });
    let low = s.forward_thrust as f64 / 32768.0;
    assert_eq!(low, -1.0);
    s.apply_input_event(InputEvent::AxisMotion { axis: Axis::LeftY, value: 32767 });
    let high = s.forward_thrust as f64 / 32768.0;
    assert!(high > 0.9999);
    assert!(high < 1.0);
    assert!((-1.0..=1.0).contains(&low));
    assert!((-1.0..=1.0).contains(&high));
}

#[test]
fn button_edges_follow_their_field_semantics() {
    let mut s = ControlState::new();
    s.apply_input_event(InputEvent::ButtonDown { button: Button::Y });
    assert!(s.power_lights);
    s.apply_input_event(InputEvent::ButtonDown { button: Button::Y });
    assert!(!s.power_lights);
    s.apply_input_event(InputEvent::ButtonDown { button: Button::Start });
    assert!(s.power_master);
    s.apply_input_event(InputEvent::ButtonDown { button: Button::B });
    assert!(s.sampler_release);
    s.apply_input_event(InputEvent::ButtonDown { button: Button::RightShoulder });
    assert_eq!(s.thrust_mode, ThrustMode::Emergency);
    s.apply_input_event(InputEvent::ButtonUp { button: Button::RightShoulder });
    assert_eq!(s.thrust_mode, ThrustMode::Normal);
    s.apply_input_event(InputEvent::ButtonDown { button: Button::LeftShoulder });
    assert_eq!(s.sampler_release_mode, SamplerReleaseMode::All);
    s.apply_input_event(InputEvent::ButtonUp { button: Button::LeftShoulder });
    assert_eq!(s.sampler_release_mode, SamplerReleaseMode::One);
}

#[test]
fn unrecognized_events_are_ignored() {
    let mut s = ControlState::new();
    let before = s;
    s.apply_input_event(InputEvent::AxisMotion { axis: Axis::RightY, value: 12345 });
    assert_eq!(s, before);
    s.apply_input_event(InputEvent::ButtonDown { button: Button::A });
    assert_eq!(s, before);
    s.apply_input_event(InputEvent::ButtonUp { button: Button::Y });
    assert_eq!(s, before);
    s.apply_input_event(InputEvent::Quit);
    assert_eq!(s, before);
}

#[test]
fn level_triggered_events_are_idempotent() {
    let mut s = ControlState::new();
    s.apply_input_event(InputEvent::AxisMotion { axis: Axis::LeftY, value: 777 });
    let once = s;
    s.apply_input_event(InputEvent::AxisMotion { axis: Axis::LeftY, value: 777 });
    assert_eq!(s, once);
    s.apply_input_event(InputEvent::ButtonDown { button: Button::RightShoulder });
    let once = s;
    s.apply_input_event(InputEvent::ButtonDown { button: Button::RightShoulder });
    assert_eq!(s, once);
    s.apply_input_event(InputEvent::ButtonDown { button: Button::B });
    let once = s;
    s.apply_input_event(InputEvent::ButtonDown { button: Button::B });
    assert_eq!(s, once);
}
