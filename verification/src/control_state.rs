//! Operator intent: a snapshot of the control inputs, updated by decoded
//! controller events.

use vstd::prelude::*;

verus! {

/// Scaling applied to every motor output during diffing.
#[derive(Clone, Copy, Debug, PartialEq, Eq, Structural)]
pub enum ThrustMode {
    Normal,
    Emergency,
}

/// How many loaded sample units a sampler release asks for.
#[derive(Clone, Copy, Debug, PartialEq, Eq, Structural)]
pub enum SamplerReleaseMode {
    One,
    All,
}

/// Analog sticks and triggers of the game controller, as plain values.
#[derive(Clone, Copy, Debug, PartialEq, Eq, Structural)]
pub enum Axis {
    LeftX,
    LeftY,
    RightX,
    RightY,
    TriggerLeft,
    TriggerRight,
}

/// Buttons of the game controller, as plain values.
#[derive(Clone, Copy, Debug, PartialEq, Eq, Structural)]
pub enum Button {
    A,
    B,
    X,
    Y,
    Start,
    Back,
    LeftShoulder,
    RightShoulder,
}

/// A decoded input event handed in by the host loop.
///
/// `Quit` stands for an explicit quit signal (window close or escape key);
/// it does not touch the control state and is interpreted by the session.
#[derive(Clone, Copy, Debug, PartialEq, Eq, Structural)]
pub enum InputEvent {
    AxisMotion { axis: Axis, value: i16 },
    ButtonDown { button: Button },
    ButtonUp { button: Button },
    Quit,
}

/// Snapshot of current operator intent.
///
/// Each thrust field holds the raw signed 16-bit axis reading; the
/// normalized thrust it stands for is the reading divided by 32768, so the
/// normalized value always lies within [-1, 1].
#[derive(Clone, Copy, Debug, PartialEq, Eq, Structural)]
pub struct ControlState {
    pub forward_thrust: i16,
    pub sideways_thrust: i16,
    pub rotational_thrust: i16,
    pub ascent_thrust: i16,
    pub descent_thrust: i16,
    pub power_master: bool,
    pub power_lights: bool,
    /// One-shot: set on button press, cleared by every dispatch cycle.
    pub sampler_release: bool,
    pub thrust_mode: ThrustMode,
    pub sampler_release_mode: SamplerReleaseMode,
}

impl ControlState {
    /// The state at session start: no thrust, everything off.
    pub open spec fn spec_new() -> ControlState {
        ControlState {
            forward_thrust: 0,
            sideways_thrust: 0,
            rotational_thrust: 0,
            ascent_thrust: 0,
            descent_thrust: 0,
            power_master: false,
            power_lights: false,
            sampler_release: false,
            thrust_mode: ThrustMode::Normal,
            sampler_release_mode: SamplerReleaseMode::One,
        }
    }

    pub fn new() -> (s: ControlState)
        ensures
            s == ControlState::spec_new(),
    {
        ControlState {
            forward_thrust: 0,
            sideways_thrust: 0,
            rotational_thrust: 0,
            ascent_thrust: 0,
            descent_thrust: 0,
            power_master: false,
            power_lights: false,
            sampler_release: false,
            thrust_mode: ThrustMode::Normal,
            sampler_release_mode: SamplerReleaseMode::One,
        }
    }

    /// The state after one event: exactly one field changes, and an event
    /// that maps to no field leaves the state as it was.
    pub open spec fn spec_apply_event(self, event: InputEvent) -> ControlState {
        match event {
            InputEvent::AxisMotion { axis: Axis::LeftY, value } => ControlState {
                forward_thrust: value,
                ..self
            },
            InputEvent::AxisMotion { axis: Axis::LeftX, value } => ControlState {
                sideways_thrust: value,
                ..self
            },
            InputEvent::AxisMotion { axis: Axis::RightX, value } => ControlState {
                rotational_thrust: value,
                ..self
            },
            InputEvent::AxisMotion { axis: Axis::TriggerLeft, value } => ControlState {
                ascent_thrust: value,
                ..self
            },
            InputEvent::AxisMotion { axis: Axis::TriggerRight, value } => ControlState {
                descent_thrust: value,
                ..self
            },
            InputEvent::ButtonDown { button: Button::Y } => ControlState {
                power_lights: !self.power_lights,
                ..self
            },
            InputEvent::ButtonDown { button: Button::Start } => ControlState {
                power_master: !self.power_master,
                ..self
            },
            InputEvent::ButtonDown { button: Button::B } => ControlState {
                sampler_release: true,
                ..self
            },
            InputEvent::ButtonDown { button: Button::RightShoulder } => ControlState {
                thrust_mode: ThrustMode::Emergency,
                ..self
            },
            InputEvent::ButtonUp { button: Button::RightShoulder } => ControlState {
                thrust_mode: ThrustMode::Normal,
                ..self
            },
            InputEvent::ButtonDown { button: Button::LeftShoulder } => ControlState {
                sampler_release_mode: SamplerReleaseMode::All,
                ..self
            },
            InputEvent::ButtonUp { button: Button::LeftShoulder } => ControlState {
                sampler_release_mode: SamplerReleaseMode::One,
                ..self
            },
            _ => self,
        }
    }

    /// Mutates exactly the field the event addresses; unrecognized events
    /// are ignored.  Thrust fields hold the raw reading, so the normalized
    /// thrust they stand for stays within [-1, 1] by construction.
    pub fn apply_input_event(&mut self, event: InputEvent)
        ensures
            *final(self) == old(self).spec_apply_event(event),
    {
        match event {
            InputEvent::AxisMotion { axis: Axis::LeftY, value } => {
                self.forward_thrust = value;
            },
            InputEvent::AxisMotion { axis: Axis::LeftX, value } => {
                self.sideways_thrust = value;
            },
            InputEvent::AxisMotion { axis: Axis::RightX, value } => {
                self.rotational_thrust = value;
            },
            InputEvent::AxisMotion { axis: Axis::TriggerLeft, value } => {
                self.ascent_thrust = value;
            },
            InputEvent::AxisMotion { axis: Axis::TriggerRight, value } => {
                self.descent_thrust = value;
            },
            InputEvent::ButtonDown { button: Button::Y } => {
                self.power_lights = !self.power_lights;
            },
            InputEvent::ButtonDown { button: Button::Start } => {
                self.power_master = !self.power_master;
            },
            InputEvent::ButtonDown { button: Button::B } => {
                self.sampler_release = true;
            },
            InputEvent::ButtonDown { button: Button::RightShoulder } => {
                self.thrust_mode = ThrustMode::Emergency;
            },
            InputEvent::ButtonUp { button: Button::RightShoulder } => {
                self.thrust_mode = ThrustMode::Normal;
            },
            InputEvent::ButtonDown { button: Button::LeftShoulder } => {
                self.sampler_release_mode = SamplerReleaseMode::All;
            },
            InputEvent::ButtonUp { button: Button::LeftShoulder } => {
                self.sampler_release_mode = SamplerReleaseMode::One;
            },
            _ => {},
        }
    }
}

/// Every thrust reading a state can hold stays within the signed 16-bit
/// range, so the normalized thrust (reading / 32768) lies within [-1, 1];
/// the raw extremes -32768 and 32767 normalize to exactly -1 and just
/// under 1.
pub proof fn lemma_thrust_within_unit_range(s: ControlState)
    ensures
        -32768 <= s.forward_thrust <= 32767,
        -32768 <= s.sideways_thrust <= 32767,
        -32768 <= s.rotational_thrust <= 32767,
        -32768 <= s.ascent_thrust <= 32767,
        -32768 <= s.descent_thrust <= 32767,
{
}

} // verus!
