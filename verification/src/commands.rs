//! Discrete hardware commands sent to the vehicle.

use vstd::prelude::*;

verus! {

/// Number of motor channels on the vehicle; a geometry constant.
pub const MOTOR_COUNT: usize = 6;

/// Indices of the six motor channels: four diagonal horizontal thrusters
/// and two vertical ones.
pub const MOTOR_1: u8 = 0;

pub const MOTOR_2: u8 = 1;

pub const MOTOR_3: u8 = 2;

pub const MOTOR_4: u8 = 3;

pub const MOTOR_5: u8 = 4;

pub const MOTOR_6: u8 = 5;

/// Amount that asks the sampler to release every loaded unit.
pub const SAMPLER_ALL_UNITS: u8 = 255;

/// One discrete instruction for the vehicle hardware.
#[derive(Clone, Copy, Debug, PartialEq, Eq, Structural)]
pub enum RovCommand {
    ControlMotor { id: u8, throttle: i16 },
    CollectSamples { amount: u8 },
    LightsOn,
    LightsOff,
}

impl RovCommand {
    /// A motor command may only address one of the six motor channels;
    /// every other command is well formed as it stands.
    pub open spec fn well_formed(self) -> bool {
        match self {
            RovCommand::ControlMotor { id, .. } => id < MOTOR_COUNT as u8,
            _ => true,
        }
    }
}

} // verus!
