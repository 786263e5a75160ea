//! The control session: the per-frame protocol that turns accumulated
//! operator intent into dispatched commands.  The host loop polls input,
//! keeps the clock and owns the transport; it hands the session plain
//! events and elapsed times and carries the returned commands to the
//! link.

use vstd::prelude::*;
use crate::commands::RovCommand;
use crate::control_state::{ControlState, InputEvent};
use crate::diff::{lemma_diff_well_formed, spec_diff};
use crate::link::LinkError;
use crate::mock::{lemma_well_formed_commands_no_errors, MockRov};

verus! {

/// Milliseconds that must pass between two dispatch cycles.
pub const DEFAULT_DISPATCH_INTERVAL_MS: u64 = 5;

/// Externally injected numeric tuning.
#[derive(Clone, Copy, Debug, PartialEq, Eq, Structural)]
pub struct Config {
    pub dispatch_interval_ms: u64,
}

impl Default for Config {
    /// The tuning used when no configuration is supplied.
    fn default() -> (c: Config)
        ensures
            c.dispatch_interval_ms == DEFAULT_DISPATCH_INTERVAL_MS,
    {
        Config { dispatch_interval_ms: DEFAULT_DISPATCH_INTERVAL_MS }
    }
}

/// What the session asks of the host loop after a frame.
#[derive(Clone, Copy, Debug, PartialEq, Eq, Structural)]
pub enum Trans {
    Continue,
    Quit,
}

/// The two session states: `Active` runs frames, `Terminating` asks the
/// host loop to wind the session down.
#[derive(Clone, Copy, Debug, PartialEq, Eq, Structural)]
pub enum SessionState {
    Active,
    Terminating,
}

/// A control session over one vehicle: current and previously dispatched
/// intent, the local mirror, and the state machine flag.
pub struct RovControl {
    pub control_state: ControlState,
    pub prev_control_state: ControlState,
    pub mock_rov: MockRov,
    pub state: SessionState,
}

/// Whether enough wall-clock time has passed since the last dispatch to
/// run another cycle.
pub fn dispatch_due(elapsed_ms: u64, config: &Config) -> (due: bool)
    ensures
        due == (elapsed_ms >= config.dispatch_interval_ms),
{
    elapsed_ms >= config.dispatch_interval_ms
}

/// A snapshot with its one-shot sampler flag cleared.
pub open spec fn spec_clear_sampler(s: ControlState) -> ControlState {
    ControlState { sampler_release: false, ..s }
}

/// The session after one event: a quit signal moves the state machine to
/// `Terminating`; any other event updates the intent snapshot.
pub open spec fn spec_after_event(session: RovControl, event: InputEvent) -> RovControl {
    if event is Quit {
        RovControl { state: SessionState::Terminating, ..session }
    } else {
        RovControl { control_state: session.control_state.spec_apply_event(event), ..session }
    }
}

/// The session after draining a whole frame's events, in order.
pub open spec fn spec_after_events(session: RovControl, events: Seq<InputEvent>) -> RovControl
    decreases events.len(),
{
    if events.len() == 0 {
        session
    } else {
        spec_after_events(spec_after_event(session, events[0]), events.drop_first())
    }
}

/// Unrolls `spec_after_events` one step at the end of a prefix.
proof fn lemma_after_events_take_step(session: RovControl, events: Seq<InputEvent>, i: int)
    requires
        0 <= i < events.len(),
    ensures
        spec_after_events(session, events.take(i + 1)) == spec_after_event(
            spec_after_events(session, events.take(i)),
            events[i],
        ),
    decreases i,
{
    if i == 0 {
        assert(events.take(1).drop_first() =~= events.take(0));
        assert(events.take(1)[0] == events[0]);
        assert(spec_after_events(session, events.take(0)) == session);
        assert(spec_after_events(session, events.take(1)) == spec_after_events(
            spec_after_event(session, events[0]),
            events.take(0),
        ));
    } else {
        let stepped = spec_after_event(session, events[0]);
        lemma_after_events_take_step(stepped, events.drop_first(), i - 1);
        assert(events.take(i + 1)[0] == events[0]);
        assert(events.take(i)[0] == events[0]);
        assert(events.take(i + 1).drop_first() =~= events.drop_first().take(i));
        assert(events.take(i).drop_first() =~= events.drop_first().take(i - 1));
        assert(events.drop_first()[i - 1] == events[i]);
        assert(spec_after_events(session, events.take(i + 1)) == spec_after_events(
            stepped,
            events.drop_first().take(i),
        ));
        assert(spec_after_events(session, events.take(i)) == spec_after_events(
            stepped,
            events.drop_first().take(i - 1),
        ));
    }
}

impl RovControl {
    /// The session right after construction.
    pub open spec fn spec_new() -> RovControl {
        RovControl {
            control_state: ControlState::spec_new(),
            prev_control_state: ControlState::spec_new(),
            mock_rov: MockRov::spec_new(),
            state: SessionState::Active,
        }
    }

    /// Opens a session in the `Active` state with fresh intent snapshots
    /// and a fresh mirror.  The host loop owns the transport and the
    /// clock.
    pub fn new() -> (session: RovControl)
        ensures
            session == RovControl::spec_new(),
    {
        RovControl {
            control_state: ControlState::new(),
            prev_control_state: ControlState::new(),
            mock_rov: MockRov::new(),
            state: SessionState::Active,
        }
    }

    /// Feeds one decoded input event to the session: a quit signal moves
    /// the state machine to `Terminating` and touches nothing else; any
    /// other event mutates exactly the intent field it addresses.
    pub fn handle_event(&mut self, event: InputEvent)
        ensures
            event is Quit ==> *final(self) == (RovControl {
                state: SessionState::Terminating,
                ..*old(self)
            }),
            !(event is Quit) ==> *final(self) == (RovControl {
                control_state: old(self).control_state.spec_apply_event(event),
                ..*old(self)
            }),
    {
        match event {
            InputEvent::Quit => {
                self.state = SessionState::Terminating;
            },
            _ => {
                self.control_state.apply_input_event(event);
            },
        }
    }

    /// Runs one dispatch cycle: diffs the previous dispatched intent
    /// against the current one, applies the resulting commands to the
    /// mirror, and returns them, in the same order, for the host loop to
    /// send over the link.  The one-shot sampler flag is cleared, so the
    /// stored previous snapshot never carries it across cycles, and every
    /// returned command is well formed.
    pub fn dispatch_cycle(&mut self) -> (commands: Vec<RovCommand>)
        ensures
            commands@ == spec_diff(old(self).prev_control_state, old(self).control_state),
            forall|j: int| 0 <= j < commands@.len() ==> (#[trigger] commands@[j]).well_formed(),
            final(self).mock_rov == old(self).mock_rov.spec_apply_all(commands@),
            final(self).control_state == spec_clear_sampler(old(self).control_state),
            final(self).prev_control_state == spec_clear_sampler(old(self).control_state),
            !final(self).prev_control_state.sampler_release,
            final(self).state == old(self).state,
    {
        let mut buffer: Vec<RovCommand> = Vec::new();
        self.control_state.generate_commands_diff(&self.prev_control_state, &mut buffer);
        proof {
            lemma_diff_well_formed(old(self).prev_control_state, old(self).control_state);
        }
        let errors = self.mock_rov.apply_commands(&buffer);
        proof {
            lemma_well_formed_commands_no_errors(buffer@);
            assert(errors@.len() == 0);
        }
        self.control_state.sampler_release = false;
        self.prev_control_state = self.control_state;
        buffer
    }

    /// Absorbs a failed command send: the session keeps all its state and
    /// stays in whatever state the state machine was in, so the next
    /// frame can dispatch again.  The returned message is for the host to
    /// show the operator; only initialization failures end the process.
    pub fn handle_send_failure(&mut self, error: &LinkError) -> (r: (&'static str, Trans))
        ensures
            *final(self) == *old(self),
            r.1 == (if old(self).state is Terminating {
                Trans::Quit
            } else {
                Trans::Continue
            }),
            (*error is Disconnected) == (r.0@ == "link disconnected"@),
            (*error is Timeout) == (r.0@ == "link write timed out"@),
            (*error is EncodingError) == (r.0@ == "command could not be encoded"@),
    {
        (error.describe(), self.frame_trans())
    }

    /// One whole frame of the per-frame protocol: drains the frame's
    /// events in order, then — while the session is still active and the
    /// dispatch cadence is due — runs the dispatch cycle.  Returns the
    /// commands for the host loop to send in order, and the transition to
    /// signal; response draining and rendering stay with the host.
    pub fn update(&mut self, events: &Vec<InputEvent>, elapsed_ms: u64, config: &Config) -> (r: (
        Vec<RovCommand>,
        Trans,
    ))
        ensures
            ({
                let polled = spec_after_events(*old(self), events@);
                let dispatching = polled.state is Active && elapsed_ms
                    >= config.dispatch_interval_ms;
                &&& (dispatching ==> {
                    &&& r.0@ == spec_diff(polled.prev_control_state, polled.control_state)
                    &&& final(self).mock_rov == polled.mock_rov.spec_apply_all(r.0@)
                    &&& final(self).control_state == spec_clear_sampler(polled.control_state)
                    &&& final(self).prev_control_state == spec_clear_sampler(polled.control_state)
                    &&& final(self).state == polled.state
                })
                &&& (!dispatching ==> r.0@ == Seq::<RovCommand>::empty() && *final(self) == polled)
            }),
            r.1 == (if final(self).state is Terminating {
                Trans::Quit
            } else {
                Trans::Continue
            }),
    {
        let ghost entry: RovControl = *self;
        let mut i: usize = 0;
        while i < events.len()
            invariant
                i <= events.len(),
                *self == spec_after_events(entry, events@.take(i as int)),
            decreases events.len() - i,
        {
            proof {
                lemma_after_events_take_step(entry, events@, i as int);
            }
            self.handle_event(events[i]);
            i = i + 1;
        }
        proof {
            assert(events@.take(events@.len() as int) =~= events@);
        }
        let active = match self.state {
            SessionState::Active => true,
            SessionState::Terminating => false,
        };
        let commands: Vec<RovCommand> = if active && dispatch_due(elapsed_ms, config) {
            self.dispatch_cycle()
        } else {
            Vec::new()
        };
        let trans = self.frame_trans();
        (commands, trans)
    }

    /// The transition the session signals to the host loop this frame.
    pub fn frame_trans(&self) -> (t: Trans)
        ensures
            t == (if self.state is Terminating {
                Trans::Quit
            } else {
                Trans::Continue
            }),
    {
        match self.state {
            SessionState::Terminating => Trans::Quit,
            SessionState::Active => Trans::Continue,
        }
    }
}

} // verus!
