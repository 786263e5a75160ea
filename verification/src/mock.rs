//! A mock ROV: a local mirror of the vehicle state, kept consistent with
//! the exact command sequence it has been fed.  Pure visualization state,
//! independent of what the real hardware acknowledged.

use vstd::prelude::*;
use vstd::array::*;
use crate::commands::{RovCommand, MOTOR_COUNT};

verus! {

broadcast use vstd::array::group_array_axioms;

/// A malformed command reaching the mirror; surfaced to the caller so the
/// operator can see it, never silently swallowed.
#[derive(Clone, Copy, Debug, PartialEq, Eq, Structural)]
pub enum InvariantError {
    MotorIndexOutOfRange { id: u8 },
}

/// Local mirror of the vehicle: one throttle slot per motor channel plus
/// the relay and power flags.
#[derive(Debug, PartialEq, Eq)]
pub struct MockRov {
    pub motors: [i16; 6],
    pub light_relay: bool,
    pub sampler_relay: bool,
    pub robot_is_on: bool,
}

impl MockRov {
    /// The mirror at session start: all throttles zero, everything off.
    pub open spec fn spec_new() -> MockRov {
        MockRov {
            motors: spec_zero_motors(),
            light_relay: false,
            sampler_relay: false,
            robot_is_on: false,
        }
    }

    /// The mirror after one command: a valid motor command sets its slot,
    /// a sample collection pulses the sampler relay, the light commands
    /// set the light relay, and a malformed command changes nothing.
    pub open spec fn spec_apply(self, command: RovCommand) -> MockRov {
        match command {
            RovCommand::ControlMotor { id, throttle } => if id < MOTOR_COUNT as u8 {
                MockRov { motors: spec_array_update(self.motors, id as int, throttle), ..self }
            } else {
                self
            },
            RovCommand::CollectSamples { .. } => MockRov { sampler_relay: true, ..self },
            RovCommand::LightsOn => MockRov { light_relay: true, ..self },
            RovCommand::LightsOff => MockRov { light_relay: false, ..self },
        }
    }

    /// The mirror after a whole command sequence, applied in order.
    pub open spec fn spec_apply_all(self, commands: Seq<RovCommand>) -> MockRov
        decreases commands.len(),
    {
        if commands.len() == 0 {
            self
        } else {
            self.spec_apply(commands[0]).spec_apply_all(commands.drop_first())
        }
    }

    pub fn new() -> (m: MockRov)
        ensures
            m == MockRov::spec_new(),
    {
        let m = MockRov {
            motors: [0i16; 6],
            light_relay: false,
            sampler_relay: false,
            robot_is_on: false,
        };
        proof {
            assert(m.motors =~= spec_zero_motors());
        }
        m
    }

    /// Applies each command in order, collecting an error for every
    /// malformed command instead of applying it.
    pub fn apply_commands(&mut self, commands: &Vec<RovCommand>) -> (errors: Vec<InvariantError>)
        ensures
            *final(self) == old(self).spec_apply_all(commands@),
            errors@ == spec_command_errors(commands@),
    {
        let ghost initial: MockRov = *self;
        let mut errors: Vec<InvariantError> = Vec::new();
        let mut i: usize = 0;
        while i < commands.len()
            invariant
                i <= commands.len(),
                *self == initial.spec_apply_all(commands@.take(i as int)),
                errors@ == spec_command_errors(commands@.take(i as int)),
            decreases commands.len() - i,
        {
            proof {
                lemma_apply_all_take_step(initial, commands@, i as int);
                lemma_command_errors_take_step(commands@, i as int);
            }
            match self.apply_command(&commands[i]) {
                Ok(()) => {},
                Err(e) => {
                    errors.push(e);
                },
            }
            i = i + 1;
        }
        proof {
            assert(commands@.take(commands@.len() as int) =~= commands@);
        }
        errors
    }

    /// Applies one command to the mirror.  A motor command whose index is
    /// out of range for the six-motor vehicle is rejected: the motor array
    /// is left unchanged and the violation is surfaced as an error.
    pub fn apply_command(&mut self, command: &RovCommand) -> (r: Result<(), InvariantError>)
        ensures
            *final(self) == old(self).spec_apply(*command),
            command.well_formed() ==> r is Ok,
            !command.well_formed() ==> (r matches Err(e) && *command matches
                RovCommand::ControlMotor { id, throttle } && e == (InvariantError::MotorIndexOutOfRange {
                id,
            })),
    {
        match *command {
            RovCommand::ControlMotor { id, throttle } => {
                if (id as usize) < MOTOR_COUNT {
                    self.motors[id as usize] = throttle;
                    proof {
                        assert(self.motors =~= spec_array_update(
                            old(self).motors,
                            id as int,
                            throttle,
                        ));
                    }
                    Ok(())
                } else {
                    Err(InvariantError::MotorIndexOutOfRange { id })
                }
            },
            RovCommand::CollectSamples { amount: _ } => {
                self.sampler_relay = true;
                Ok(())
            },
            RovCommand::LightsOn => {
                self.light_relay = true;
                Ok(())
            },
            RovCommand::LightsOff => {
                self.light_relay = false;
                Ok(())
            },
        }
    }
}

/// The all-zero motor array.
pub open spec fn spec_zero_motors() -> [i16; 6] {
    spec_array_fill_for_copy_type(0i16)
}

/// The errors a command sequence provokes on the mirror, in order: one
/// for each malformed command.
pub open spec fn spec_command_errors(commands: Seq<RovCommand>) -> Seq<InvariantError>
    decreases commands.len(),
{
    if commands.len() == 0 {
        Seq::empty()
    } else {
        (match commands[0] {
            RovCommand::ControlMotor { id, .. } => if id >= MOTOR_COUNT as u8 {
                seq![InvariantError::MotorIndexOutOfRange { id }]
            } else {
                Seq::empty()
            },
            _ => Seq::empty(),
        }) + spec_command_errors(commands.drop_first())
    }
}

/// Unrolls `spec_apply_all` one step at the end of a prefix.
proof fn lemma_apply_all_take_step(m: MockRov, commands: Seq<RovCommand>, i: int)
    requires
        0 <= i < commands.len(),
    ensures
        m.spec_apply_all(commands.take(i + 1)) == m.spec_apply_all(commands.take(i)).spec_apply(
            commands[i],
        ),
    decreases i,
{
    if i == 0 {
        assert(commands.take(1).drop_first() =~= commands.take(0));
        assert(commands.take(1)[0] == commands[0]);
        assert(m.spec_apply_all(commands.take(0)) == m);
        assert(m.spec_apply_all(commands.take(1)) == m.spec_apply(commands[0]).spec_apply_all(
            commands.take(0),
        ));
    } else {
        let m1 = m.spec_apply(commands[0]);
        lemma_apply_all_take_step(m1, commands.drop_first(), i - 1);
        assert(commands.take(i + 1)[0] == commands[0]);
        assert(commands.take(i)[0] == commands[0]);
        assert(commands.take(i + 1).drop_first() =~= commands.drop_first().take(i));
        assert(commands.take(i).drop_first() =~= commands.drop_first().take(i - 1));
        assert(commands.drop_first()[i - 1] == commands[i]);
        assert(m.spec_apply_all(commands.take(i + 1)) == m1.spec_apply_all(
            commands.drop_first().take(i),
        ));
        assert(m.spec_apply_all(commands.take(i)) == m1.spec_apply_all(
            commands.drop_first().take(i - 1),
        ));
    }
}

/// Unrolls `spec_command_errors` one step at the end of a prefix.
proof fn lemma_command_errors_take_step(commands: Seq<RovCommand>, i: int)
    requires
        0 <= i < commands.len(),
    ensures
        spec_command_errors(commands.take(i + 1)) =~= spec_command_errors(commands.take(i)) + (
        match commands[i] {
            RovCommand::ControlMotor { id, .. } => if id >= MOTOR_COUNT as u8 {
                seq![InvariantError::MotorIndexOutOfRange { id }]
            } else {
                Seq::<InvariantError>::empty()
            },
            _ => Seq::<InvariantError>::empty(),
        }),
    decreases i,
{
    if i == 0 {
        assert(commands.take(1).drop_first() =~= commands.take(0));
    } else {
        assert(commands.take(i + 1).drop_first() =~= commands.drop_first().take(i));
        assert(commands.take(i).drop_first() =~= commands.drop_first().take(i - 1));
        lemma_command_errors_take_step(commands.drop_first(), i - 1);
        assert(commands.drop_first()[i - 1] == commands[i]);
    }
}

/// Replaying a command sequence is deterministic: two mirrors that start
/// in the same state, in particular two fresh mirrors, end in identical
/// states after the same sequence.
pub proof fn lemma_replay_deterministic(a: MockRov, b: MockRov, commands: Seq<RovCommand>)
    requires
        a == b,
    ensures
        a.spec_apply_all(commands) == b.spec_apply_all(commands),
{
}

/// A well-formed command sequence provokes no error on the mirror.
pub proof fn lemma_well_formed_commands_no_errors(commands: Seq<RovCommand>)
    requires
        forall|j: int| 0 <= j < commands.len() ==> (#[trigger] commands[j]).well_formed(),
    ensures
        spec_command_errors(commands) =~= Seq::<InvariantError>::empty(),
    decreases commands.len(),
{
    if commands.len() > 0 {
        assert(commands[0].well_formed());
        assert forall|j: int| 0 <= j < commands.drop_first().len() implies (
        #[trigger] commands.drop_first()[j]).well_formed() by {
            assert(commands.drop_first()[j] == commands[j + 1]);
        }
        lemma_well_formed_commands_no_errors(commands.drop_first());
    }
}

} // verus!
