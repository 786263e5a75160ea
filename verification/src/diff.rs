//! The command diff engine: compares two intent snapshots and emits the
//! minimal ordered command sequence that moves the vehicle from the old
//! intent to the new one.

use vstd::prelude::*;
use crate::commands::{RovCommand, MOTOR_COUNT, SAMPLER_ALL_UNITS};
use crate::control_state::{ControlState, SamplerReleaseMode, ThrustMode};

verus! {

/// Factor applied to every mixed motor output while emergency thrust mode
/// is active; a geometry constant of the vehicle, not a tunable.
pub const EMERGENCY_GAIN: i32 = 2;

/// Output scaling for a thrust mode: emergency doubles every mixed output
/// before clamping, normal mode passes it through.
pub open spec fn spec_mode_gain(mode: ThrustMode) -> int {
    match mode {
        ThrustMode::Normal => 1,
        ThrustMode::Emergency => EMERGENCY_GAIN as int,
    }
}

/// Raw mix of the five thrust axes for one motor channel, before mode
/// scaling and clamping.  Channels 0..4 are the diagonal horizontal
/// thrusters in an X arrangement; channels 4 and 5 are the vertical pair.
/// The mixing weights are a vehicle-geometry constant.
pub open spec fn spec_mix(s: ControlState, i: int) -> int
    recommends
        0 <= i < MOTOR_COUNT,
{
    if i == 0 {
        s.forward_thrust + s.sideways_thrust + s.rotational_thrust
    } else if i == 1 {
        s.forward_thrust - s.sideways_thrust - s.rotational_thrust
    } else if i == 2 {
        s.forward_thrust - s.sideways_thrust + s.rotational_thrust
    } else if i == 3 {
        s.forward_thrust + s.sideways_thrust - s.rotational_thrust
    } else {
        s.ascent_thrust - s.descent_thrust
    }
}

/// Saturates a mixed output into the signed 16-bit command range.
pub open spec fn spec_clamp_throttle(x: int) -> int {
    if x < -32768 {
        -32768
    } else if x > 32767 {
        32767
    } else {
        x
    }
}

/// The throttle the engine dispatches for one motor channel of a given
/// intent snapshot: the axis mix, scaled by the thrust mode, saturated to
/// the 16-bit command range.
pub open spec fn spec_motor_output(s: ControlState, i: int) -> int
    recommends
        0 <= i < MOTOR_COUNT,
{
    spec_clamp_throttle(spec_mix(s, i) * spec_mode_gain(s.thrust_mode))
}

/// Motor commands for the channels below `n`, in channel order: one
/// command exactly for each channel whose output changed.
pub open spec fn spec_motor_commands(prev: ControlState, curr: ControlState, n: int) -> Seq<
    RovCommand,
>
    decreases n,
{
    if n <= 0 {
        Seq::empty()
    } else {
        spec_motor_commands(prev, curr, n - 1) + (if spec_motor_output(curr, n - 1)
            != spec_motor_output(prev, n - 1) {
            seq![
                RovCommand::ControlMotor {
                    id: (n - 1) as u8,
                    throttle: spec_motor_output(curr, n - 1) as i16,
                },
            ]
        } else {
            Seq::empty()
        })
    }
}

/// The light relay command emitted when the lights toggle changed.
pub open spec fn spec_light_commands(prev: ControlState, curr: ControlState) -> Seq<RovCommand> {
    if curr.power_lights != prev.power_lights {
        if curr.power_lights {
            seq![RovCommand::LightsOn]
        } else {
            seq![RovCommand::LightsOff]
        }
    } else {
        Seq::empty()
    }
}

/// The sample-collection command a release request maps to.
pub open spec fn spec_collect_command(mode: SamplerReleaseMode) -> RovCommand {
    match mode {
        SamplerReleaseMode::One => RovCommand::CollectSamples { amount: 1 },
        SamplerReleaseMode::All => RovCommand::CollectSamples { amount: SAMPLER_ALL_UNITS },
    }
}

/// The one-shot sampler command: emitted whenever the current snapshot
/// requests a release, regardless of the previous snapshot.
pub open spec fn spec_sampler_commands(curr: ControlState) -> Seq<RovCommand> {
    if curr.sampler_release {
        seq![spec_collect_command(curr.sampler_release_mode)]
    } else {
        Seq::empty()
    }
}

/// The full diff: motor commands in channel order, then the light toggle,
/// then the one-shot sampler command.
pub open spec fn spec_diff(prev: ControlState, curr: ControlState) -> Seq<RovCommand> {
    spec_motor_commands(prev, curr, MOTOR_COUNT as int) + spec_light_commands(prev, curr)
        + spec_sampler_commands(curr)
}

/// Saturates a scaled mix into the signed 16-bit command range.
pub fn clamp_throttle(x: i32) -> (r: i16)
    ensures
        r as int == spec_clamp_throttle(x as int),
{
    if x < -32768 {
        -32768
    } else if x > 32767 {
        32767
    } else {
        x as i16
    }
}

/// Computes the dispatched throttle for one motor channel.
pub fn motor_output(s: &ControlState, i: usize) -> (r: i16)
    requires
        i < MOTOR_COUNT,
    ensures
        r as int == spec_motor_output(*s, i as int),
{
    let forward = s.forward_thrust as i32;
    let sideways = s.sideways_thrust as i32;
    let rotational = s.rotational_thrust as i32;
    let mix: i32 = if i == 0 {
        forward + sideways + rotational
    } else if i == 1 {
        forward - sideways - rotational
    } else if i == 2 {
        forward - sideways + rotational
    } else if i == 3 {
        forward + sideways - rotational
    } else {
        s.ascent_thrust as i32 - s.descent_thrust as i32
    };
    let gain: i32 = match s.thrust_mode {
        ThrustMode::Normal => 1,
        ThrustMode::Emergency => EMERGENCY_GAIN,
    };
    clamp_throttle(mix * gain)
}

impl ControlState {
    /// Appends to `buffer` the minimal ordered command sequence that moves
    /// the vehicle from the intent in `previous` to the intent in `self`:
    /// one motor command per channel whose output changed, the light
    /// toggle if it changed, and the one-shot sampler command if requested.
    /// Pure in both snapshots: the engine keeps no state of its own.
    pub fn generate_commands_diff(&self, previous: &ControlState, buffer: &mut Vec<RovCommand>)
        ensures
            final(buffer)@ == old(buffer)@ + spec_diff(*previous, *self),
    {
        let ghost buffer0: Seq<RovCommand> = buffer@;
        let mut i: usize = 0;
        while i < MOTOR_COUNT
            invariant
                i <= MOTOR_COUNT,
                buffer@ == buffer0 + spec_motor_commands(*previous, *self, i as int),
            decreases MOTOR_COUNT - i,
        {
            let curr_out = motor_output(self, i);
            let prev_out = motor_output(previous, i);
            if curr_out != prev_out {
                buffer.push(RovCommand::ControlMotor { id: i as u8, throttle: curr_out });
                assert(buffer@ =~= buffer0 + spec_motor_commands(
                    *previous,
                    *self,
                    i as int + 1,
                ));
            } else {
                assert(buffer@ =~= buffer0 + spec_motor_commands(
                    *previous,
                    *self,
                    i as int + 1,
                ));
            }
            i = i + 1;
        }
        if self.power_lights != previous.power_lights {
            if self.power_lights {
                buffer.push(RovCommand::LightsOn);
            } else {
                buffer.push(RovCommand::LightsOff);
            }
        }
        if self.sampler_release {
            let amount: u8 = match self.sampler_release_mode {
                SamplerReleaseMode::One => 1,
                SamplerReleaseMode::All => SAMPLER_ALL_UNITS,
            };
            buffer.push(RovCommand::CollectSamples { amount });
        }
        assert(buffer@ =~= buffer0 + spec_diff(*previous, *self));
    }
}

/// Every command the diff engine emits is well formed: in particular each
/// motor command addresses a valid channel index.
proof fn lemma_motor_commands_well_formed(prev: ControlState, curr: ControlState, n: int)
    requires
        n <= MOTOR_COUNT,
    ensures
        forall|j: int|
            0 <= j < spec_motor_commands(prev, curr, n).len() ==> (#[trigger] spec_motor_commands(
                prev,
                curr,
                n,
            )[j]).well_formed(),
    decreases n,
{
    if n > 0 {
        lemma_motor_commands_well_formed(prev, curr, n - 1);
        let s = spec_motor_commands(prev, curr, n);
        let s0 = spec_motor_commands(prev, curr, n - 1);
        assert forall|j: int| 0 <= j < s.len() implies s[j].well_formed() by {
            if j < s0.len() {
                assert(s[j] == s0[j]);
            } else {
                assert(s[j] == RovCommand::ControlMotor {
                    id: (n - 1) as u8,
                    throttle: spec_motor_output(curr, n - 1) as i16,
                });
            }
        }
    }
}

/// Every command the diff engine emits is well formed.
pub proof fn lemma_diff_well_formed(prev: ControlState, curr: ControlState)
    ensures
        forall|j: int|
            0 <= j < spec_diff(prev, curr).len() ==> (#[trigger] spec_diff(
                prev,
                curr,
            )[j]).well_formed(),
{
    lemma_motor_commands_well_formed(prev, curr, MOTOR_COUNT as int);
}

/// Diffing a snapshot against itself emits no motor command.
proof fn lemma_motor_commands_self(p: ControlState, n: int)
    ensures
        spec_motor_commands(p, p, n) =~= Seq::<RovCommand>::empty(),
    decreases n,
{
    if n > 0 {
        lemma_motor_commands_self(p, n - 1);
    }
}

/// Diffing any snapshot against itself yields the empty sequence, except
/// for the one-shot sampler command, which is emitted exactly when the
/// snapshot requests a release.
pub proof fn lemma_diff_of_identical_states(p: ControlState)
    ensures
        spec_diff(p, p) =~= (if p.sampler_release {
            seq![spec_collect_command(p.sampler_release_mode)]
        } else {
            Seq::<RovCommand>::empty()
        }),
{
    lemma_motor_commands_self(p, MOTOR_COUNT as int);
}

} // verus!
