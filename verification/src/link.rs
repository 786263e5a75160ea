//! The command side of the vehicle link: the channel error taxonomy and a
//! stable byte framing for commands.  The transport itself (a serial
//! device or a simulator) lives outside the library; it carries exactly
//! the frames produced here, and every frame round-trips through
//! encode-then-decode to an equal command.

use vstd::prelude::*;
use crate::commands::{RovCommand, MOTOR_COUNT};

verus! {

/// Failures of the vehicle link.  `Disconnected`: the transport is gone.
/// `Timeout`: a bounded write did not complete in time.  `EncodingError`:
/// the command cannot be framed; never happens for well-formed commands.
#[derive(Clone, Copy, Debug, PartialEq, Eq, Structural)]
pub enum LinkError {
    Disconnected,
    Timeout,
    EncodingError,
}

impl LinkError {
    /// A short description for surfacing the error to the operator.
    pub fn describe(&self) -> (r: &'static str)
        ensures
            (*self is Disconnected) == (r@ == "link disconnected"@),
            (*self is Timeout) == (r@ == "link write timed out"@),
            (*self is EncodingError) == (r@ == "command could not be encoded"@),
    {
        proof {
            reveal_strlit("link disconnected");
            reveal_strlit("link write timed out");
            reveal_strlit("command could not be encoded");
            assert("link disconnected"@.len() == 17);
            assert("link write timed out"@.len() == 20);
            assert("command could not be encoded"@.len() == 28);
        }
        match *self {
            LinkError::Disconnected => "link disconnected",
            LinkError::Timeout => "link write timed out",
            LinkError::EncodingError => "command could not be encoded",
        }
    }
}

/// Frame tags, one per command kind.
pub const TAG_CONTROL_MOTOR: u8 = 0;

pub const TAG_COLLECT_SAMPLES: u8 = 1;

pub const TAG_LIGHTS_ON: u8 = 2;

pub const TAG_LIGHTS_OFF: u8 = 3;

/// A throttle shifted into 0..=65535 so it splits into two bytes without
/// sign handling.
pub open spec fn spec_bias_throttle(throttle: i16) -> int {
    throttle + 32768
}

/// The stable frame of a well-formed command.
pub open spec fn spec_encode(command: RovCommand) -> Seq<u8>
    recommends
        command.well_formed(),
{
    match command {
        RovCommand::ControlMotor { id, throttle } => seq![
            TAG_CONTROL_MOTOR,
            id,
            (spec_bias_throttle(throttle) / 256) as u8,
            (spec_bias_throttle(throttle) % 256) as u8,
        ],
        RovCommand::CollectSamples { amount } => seq![TAG_COLLECT_SAMPLES, amount],
        RovCommand::LightsOn => seq![TAG_LIGHTS_ON],
        RovCommand::LightsOff => seq![TAG_LIGHTS_OFF],
    }
}

/// The command a frame stands for: `Some` exactly on the frames that
/// `spec_encode` produces for well-formed commands.
pub open spec fn spec_decode(bytes: Seq<u8>) -> Option<RovCommand> {
    if bytes.len() == 4 && bytes[0] == TAG_CONTROL_MOTOR && bytes[1] < MOTOR_COUNT as u8 {
        Some(
            RovCommand::ControlMotor {
                id: bytes[1],
                throttle: (bytes[2] * 256 + bytes[3] - 32768) as i16,
            },
        )
    } else if bytes.len() == 2 && bytes[0] == TAG_COLLECT_SAMPLES {
        Some(RovCommand::CollectSamples { amount: bytes[1] })
    } else if bytes.len() == 1 && bytes[0] == TAG_LIGHTS_ON {
        Some(RovCommand::LightsOn)
    } else if bytes.len() == 1 && bytes[0] == TAG_LIGHTS_OFF {
        Some(RovCommand::LightsOff)
    } else {
        None
    }
}

/// Frames one command for the transport.  Succeeds exactly on well-formed
/// commands; a malformed command is refused with `EncodingError` before
/// anything reaches the link.
pub fn encode_command(command: &RovCommand) -> (r: Result<Vec<u8>, LinkError>)
    ensures
        command.well_formed() ==> (r matches Ok(bytes) && bytes@ == spec_encode(*command)),
        !command.well_formed() ==> (r matches Err(e) && e is EncodingError),
{
    match *command {
        RovCommand::ControlMotor { id, throttle } => {
            if id < MOTOR_COUNT as u8 {
                let biased: u32 = (throttle as i32 + 32768) as u32;
                let mut bytes: Vec<u8> = Vec::new();
                bytes.push(TAG_CONTROL_MOTOR);
                bytes.push(id);
                bytes.push((biased / 256) as u8);
                bytes.push((biased % 256) as u8);
                proof {
                    assert(bytes@ =~= spec_encode(*command));
                }
                Ok(bytes)
            } else {
                Err(LinkError::EncodingError)
            }
        },
        RovCommand::CollectSamples { amount } => {
            let mut bytes: Vec<u8> = Vec::new();
            bytes.push(TAG_COLLECT_SAMPLES);
            bytes.push(amount);
            proof {
                assert(bytes@ =~= spec_encode(*command));
            }
            Ok(bytes)
        },
        RovCommand::LightsOn => {
            let mut bytes: Vec<u8> = Vec::new();
            bytes.push(TAG_LIGHTS_ON);
            proof {
                assert(bytes@ =~= spec_encode(*command));
            }
            Ok(bytes)
        },
        RovCommand::LightsOff => {
            let mut bytes: Vec<u8> = Vec::new();
            bytes.push(TAG_LIGHTS_OFF);
            proof {
                assert(bytes@ =~= spec_encode(*command));
            }
            Ok(bytes)
        },
    }
}

/// Reads one frame back into a command; `None` on anything that is not
/// the frame of a well-formed command.
pub fn decode_command(bytes: &Vec<u8>) -> (r: Option<RovCommand>)
    ensures
        r == spec_decode(bytes@),
{
    if bytes.len() == 4 && bytes[0] == TAG_CONTROL_MOTOR && bytes[1] < MOTOR_COUNT as u8 {
        let word: u32 = bytes[2] as u32 * 256 + bytes[3] as u32;
        let throttle: i16 = (word as i32 - 32768) as i16;
        Some(RovCommand::ControlMotor { id: bytes[1], throttle })
    } else if bytes.len() == 2 && bytes[0] == TAG_COLLECT_SAMPLES {
        Some(RovCommand::CollectSamples { amount: bytes[1] })
    } else if bytes.len() == 1 && bytes[0] == TAG_LIGHTS_ON {
        Some(RovCommand::LightsOn)
    } else if bytes.len() == 1 && bytes[0] == TAG_LIGHTS_OFF {
        Some(RovCommand::LightsOff)
    } else {
        None
    }
}

/// Every well-formed command round-trips through the frame: decoding its
/// encoding gives back an equal command.
pub proof fn lemma_encode_decode_round_trip(command: RovCommand)
    requires
        command.well_formed(),
    ensures
        spec_decode(spec_encode(command)) == Some(command),
{
    match command {
        RovCommand::ControlMotor { id, throttle } => {
            let biased = spec_bias_throttle(throttle);
            assert(0 <= biased <= 65535);
            assert(biased == (biased / 256) * 256 + biased % 256) by (nonlinear_arith);
            assert(0 <= biased / 256 <= 255) by (nonlinear_arith)
                requires
                    0 <= biased <= 65535,
            ;
            assert(0 <= biased % 256 <= 255);
            let hi = (biased / 256) as u8;
            let lo = (biased % 256) as u8;
            assert(hi * 256 + lo - 32768 == throttle);
        },
        _ => {},
    }
}

/// Every frame that decodes at all decodes to a well-formed command.
pub proof fn lemma_decode_well_formed(bytes: Seq<u8>)
    ensures
        spec_decode(bytes) matches Some(command) ==> command.well_formed(),
{
}

} // verus!
