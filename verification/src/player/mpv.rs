//! The playback controller: what it does with each thing that happens while
//! the player runs.
//!
//! The controller itself performs no input or output. Its caller starts the
//! player process, opens the control channel, reads from it and asks the
//! navigator; it reports each outcome to [`Controller::handle`] and carries
//! out the reply: the command lines to write to the channel and what to do
//! next.

use vstd::prelude::*;
use crate::player::progress::{exceeds, WatchedFraction};
use crate::player::traits::{EpisodeAction, PlayOptions};
use crate::player::wire::{
    error_command, error_line, event_of_line, fetching_command, fetching_line,
    not_found_command, not_found_line, read_event, setup_commands, setup_lines, swap_commands,
    swap_lines, PlayerEvent,
};
use crate::text::texts;

verus! {

/// How often the controller tries to open the control channel before it
/// goes on without one.
pub const CONNECT_ATTEMPTS: u32 = 20;

/// The pause after a failed attempt to open the channel, in milliseconds.
pub const CONNECT_INTERVAL_MS: u64 = 100;

/// How long the caller waits for a message before it looks whether the
/// player process is still alive, in milliseconds.
pub const POLL_INTERVAL_MS: u64 = 100;

/// The mpv media player, driven over its JSON control channel.
#[derive(Debug, Clone, Copy)]
pub struct MpvPlayer;

/// Where a playback stands.
#[derive(Debug, Clone, Copy, PartialEq, Eq, Structural)]
pub enum Phase {
    /// The player was started and the channel is not open yet.
    Connecting,
    /// The channel is open and the controller listens.
    Attached,
    /// The navigator was asked for the episode in the given direction and
    /// has not answered yet.
    Resolving(EpisodeAction),
    /// The controller has nothing more to say to the player: the process
    /// exited, the channel was lost, or it never came up.
    Closed,
}

/// The navigator's answer.
#[derive(Debug)]
pub enum Resolution {
    /// The episode exists and can be played with these options.
    Loaded(PlayOptions),
    /// There is no such episode.
    NotFound,
    /// The lookup failed; the text says why.
    Failed(String),
}

/// Something that happened, as the caller reports it.
#[derive(Debug)]
pub enum Event {
    /// An attempt to open the channel failed.
    ConnectFailed,
    /// The channel is open.
    Connected,
    /// A line arrived on the channel.
    Line(String),
    /// The channel ended or failed.
    ChannelLost,
    /// The player process has exited.
    ProcessExited,
    /// The navigator answered.
    Resolved(Resolution),
}

/// What the caller does next.
#[derive(Debug, Clone, Copy, PartialEq, Eq, Structural)]
pub enum Directive {
    /// Try to open the channel. After a failed attempt wait
    /// [`CONNECT_INTERVAL_MS`], then report [`Event::ConnectFailed`].
    Connect,
    /// Wait for the next line, looking every [`POLL_INTERVAL_MS`] whether
    /// the process is still alive, and report what came first.
    Listen,
    /// Ask the navigator for the episode in this direction and report its
    /// answer. Nothing is read from the channel meanwhile.
    Resolve(EpisodeAction),
    /// Wait until the process has exited, remove the channel's address and
    /// return the watched fraction.
    AwaitExit,
}

/// The controller's answer to an event.
#[derive(Debug)]
pub struct Reply {
    /// Lines to write to the channel, in order, followed by a flush.
    pub commands: Vec<String>,
    pub directive: Directive,
}

/// All that the controller remembers.
pub struct ControllerState {
    pub phase: Phase,
    /// Failed attempts to open the channel.
    pub failures: nat,
    /// Whether a navigator was supplied.
    pub navigable: bool,
    /// The bits of the highest position seen in the loaded episode.
    pub watched: u64,
}

/// The state in which every playback starts.
pub open spec fn initial_state(navigable: bool) -> ControllerState {
    ControllerState { phase: Phase::Connecting, failures: 0, navigable, watched: 0 }
}

/// The state that follows `state` when `event` happens. An event that the
/// phase does not expect changes nothing.
pub open spec fn next_state(state: ControllerState, event: Event) -> ControllerState {
    match state.phase {
        Phase::Connecting => match event {
            Event::ConnectFailed => ControllerState {
                failures: state.failures + 1,
                phase: if state.failures + 1 >= CONNECT_ATTEMPTS {
                    Phase::Closed
                } else {
                    Phase::Connecting
                },
                ..state
            },
            Event::Connected => ControllerState { phase: Phase::Attached, ..state },
            Event::ProcessExited => ControllerState { phase: Phase::Closed, ..state },
            _ => state,
        },
        Phase::Attached => match event {
            Event::Line(line) => match event_of_line(line@) {
                PlayerEvent::Position(bits) => ControllerState {
                    watched: if exceeds(bits, state.watched) {
                        bits
                    } else {
                        state.watched
                    },
                    ..state
                },
                PlayerEvent::Signal(action) => if state.navigable {
                    ControllerState { phase: Phase::Resolving(action), ..state }
                } else {
                    state
                },
                PlayerEvent::Other => state,
            },
            Event::ChannelLost => ControllerState { phase: Phase::Closed, ..state },
            Event::ProcessExited => ControllerState { phase: Phase::Closed, ..state },
            _ => state,
        },
        Phase::Resolving(_) => match event {
            Event::Resolved(resolution) => ControllerState {
                phase: Phase::Attached,
                watched: if resolution is Loaded {
                    0
                } else {
                    state.watched
                },
                ..state
            },
            Event::ChannelLost => ControllerState { phase: Phase::Closed, ..state },
            Event::ProcessExited => ControllerState { phase: Phase::Closed, ..state },
            _ => state,
        },
        Phase::Closed => state,
    }
}

/// The lines that the controller sends when `event` happens in `state`.
pub open spec fn commands_for(state: ControllerState, event: Event) -> Seq<Seq<char>> {
    match (state.phase, event) {
        (Phase::Connecting, Event::Connected) => setup_lines(),
        (Phase::Attached, Event::Line(line)) => match event_of_line(line@) {
            PlayerEvent::Signal(action) => if state.navigable {
                seq![fetching_line(action)]
            } else {
                Seq::empty()
            },
            _ => Seq::empty(),
        },
        (Phase::Resolving(_), Event::Resolved(Resolution::Loaded(options))) => swap_lines(
            options,
        ),
        (Phase::Resolving(action), Event::Resolved(Resolution::NotFound)) => seq![
            not_found_line(action),
        ],
        (Phase::Resolving(_), Event::Resolved(Resolution::Failed(message))) => seq![
            error_line(message@),
        ],
        _ => Seq::empty(),
    }
}

/// What the caller does in each phase.
pub open spec fn directive_of(phase: Phase) -> Directive {
    match phase {
        Phase::Connecting => Directive::Connect,
        Phase::Attached => Directive::Listen,
        Phase::Resolving(action) => Directive::Resolve(action),
        Phase::Closed => Directive::AwaitExit,
    }
}

/// The state after all of `events` have happened, one after the other.
pub open spec fn run(state: ControllerState, events: Seq<Event>) -> ControllerState
    decreases events.len(),
{
    if events.len() == 0 {
        state
    } else {
        next_state(run(state, events.drop_last()), events.last())
    }
}

/// The controller of one playback.
pub struct Controller {
    phase: Phase,
    failures: u32,
    navigable: bool,
    watched: WatchedFraction,
}

impl View for Controller {
    type V = ControllerState;

    closed spec fn view(&self) -> ControllerState {
        ControllerState {
            phase: self.phase,
            failures: self.failures as nat,
            navigable: self.navigable,
            watched: self.watched.bits(),
        }
    }
}

impl Controller {
    /// Holds of every controller: the attempts stay within their cap, and
    /// nothing counts as watched before the channel is open.
    #[verifier::type_invariant]
    closed spec fn inv(&self) -> bool {
        &&& self.failures <= CONNECT_ATTEMPTS
        &&& self.phase is Connecting ==> self.failures < CONNECT_ATTEMPTS
        &&& self.phase is Connecting ==> self.watched.bits() == 0
    }

    /// A controller for a player that was just started. `navigable` says
    /// whether a navigator was supplied; without one the signals for the
    /// next and the previous episode are ignored.
    pub fn new(navigable: bool) -> (controller: Controller)
        ensures
            controller@ == initial_state(navigable),
    {
        Controller { phase: Phase::Connecting, failures: 0, navigable, watched: WatchedFraction::zero() }
    }

    /// The phase the playback is in.
    pub fn phase(&self) -> (phase: Phase)
        ensures
            phase == self@.phase,
    {
        self.phase
    }

    /// What the caller does now.
    pub fn directive(&self) -> (directive: Directive)
        ensures
            directive == directive_of(self@.phase),
    {
        match self.phase {
            Phase::Connecting => Directive::Connect,
            Phase::Attached => Directive::Listen,
            Phase::Resolving(action) => Directive::Resolve(action),
            Phase::Closed => Directive::AwaitExit,
        }
    }

    /// The highest position seen in the episode that is loaded.
    pub fn watched(&self) -> (fraction: WatchedFraction)
        ensures
            fraction.bits() == self@.watched,
    {
        self.watched
    }

    /// Takes note of `event` and says what to send and what to do next.
    pub fn handle(&mut self, event: Event) -> (reply: Reply)
        ensures
            final(self)@ == next_state(old(self)@, event),
            texts(reply.commands@) == commands_for(old(self)@, event),
            reply.directive == directive_of(final(self)@.phase),
    {
        proof {
            use_type_invariant(&*self);
        }
        let mut commands: Vec<String> = Vec::new();
        let mut phase = self.phase;
        let mut failures = self.failures;
        let mut watched = self.watched;
        match self.phase {
            Phase::Connecting => match event {
                Event::ConnectFailed => {
                    failures = failures + 1;
                    if failures >= CONNECT_ATTEMPTS {
                        phase = Phase::Closed;
                    }
                },
                Event::Connected => {
                    commands = setup_commands();
                    phase = Phase::Attached;
                },
                Event::ProcessExited => {
                    phase = Phase::Closed;
                },
                _ => {},
            },
            Phase::Attached => match event {
                Event::Line(line) => match read_event(line.as_str()) {
                    PlayerEvent::Position(bits) => {
                        watched.observe(bits);
                    },
                    PlayerEvent::Signal(action) => {
                        if self.navigable {
                            commands.push(fetching_command(action));
                            phase = Phase::Resolving(action);
                        }
                    },
                    PlayerEvent::Other => {},
                },
                Event::ChannelLost => {
                    phase = Phase::Closed;
                },
                Event::ProcessExited => {
                    phase = Phase::Closed;
                },
                _ => {},
            },
            Phase::Resolving(action) => match event {
                Event::Resolved(resolution) => {
                    match resolution {
                        Resolution::Loaded(options) => {
                            commands = swap_commands(&options);
                            watched.reset();
                        },
                        Resolution::NotFound => {
                            commands.push(not_found_command(action));
                        },
                        Resolution::Failed(message) => {
                            commands.push(error_command(message.as_str()));
                        },
                    }
                    phase = Phase::Attached;
                },
                Event::ChannelLost => {
                    phase = Phase::Closed;
                },
                Event::ProcessExited => {
                    phase = Phase::Closed;
                },
                _ => {},
            },
            Phase::Closed => {},
        }
        *self = Controller { phase, failures, navigable: self.navigable, watched };
        assert(texts(commands@) =~= commands_for(old(self)@, event));
        Reply { commands, directive: self.directive() }
    }
}

/// Whether `event` is the navigator's answer that an episode was found.
pub open spec fn is_swap(event: Event) -> bool {
    event matches Event::Resolved(Resolution::Loaded(_))
}

/// Running two runs of events one after the other is running them as one.
pub proof fn lemma_run_append(state: ControllerState, first: Seq<Event>, second: Seq<Event>)
    ensures
        run(state, first + second) == run(run(state, first), second),
    decreases second.len(),
{
    if second.len() == 0 {
        assert(first + second =~= first);
    } else {
        assert((first + second).drop_last() =~= first + second.drop_last());
        assert((first + second).last() == second.last());
        lemma_run_append(state, first, second.drop_last());
    }
}

/// As long as no new episode is loaded, the watched fraction never falls,
/// whatever happens and in whatever order.
pub proof fn lemma_watched_never_falls(state: ControllerState, events: Seq<Event>)
    requires
        forall|i: int| 0 <= i < events.len() ==> !is_swap(#[trigger] events[i]),
    ensures
        run(state, events).watched >= state.watched,
    decreases events.len(),
{
    if events.len() > 0 {
        assert(!is_swap(events.last()));
        assert forall|i: int| 0 <= i < events.drop_last().len() implies !is_swap(
            #[trigger] events.drop_last()[i],
        ) by {
            assert(events.drop_last()[i] == events[i]);
        }
        lemma_watched_never_falls(state, events.drop_last());
    }
}

/// A position report leaves the watched fraction at the greater of the old
/// fraction and the report.
pub proof fn lemma_position_raises(state: ControllerState, line: String, bits: u64)
    requires
        state.phase is Attached,
        event_of_line(line@) == PlayerEvent::Position(bits),
    ensures
        next_state(state, Event::Line(line)).watched == if exceeds(bits, state.watched) {
            bits
        } else {
            state.watched
        },
        next_state(state, Event::Line(line)).phase is Attached,
        commands_for(state, Event::Line(line)).len() == 0,
{
}

/// When the navigator finds the episode, the controller sends the load (and
/// the title, where there is one), goes back to listening, and the watched
/// fraction is zero at once.
pub proof fn lemma_swap_resets(state: ControllerState, options: PlayOptions)
    requires
        state.phase is Resolving,
    ensures
        next_state(state, Event::Resolved(Resolution::Loaded(options))).watched == 0,
        next_state(state, Event::Resolved(Resolution::Loaded(options))).phase is Attached,
        commands_for(state, Event::Resolved(Resolution::Loaded(options))) == swap_lines(options),
{
}

/// When the navigator finds no episode or fails, the controller sends one
/// notice and no load, goes back to listening, and the watched fraction
/// stays as it was.
pub proof fn lemma_failed_lookup_keeps_playing(
    state: ControllerState,
    action: EpisodeAction,
    resolution: Resolution,
)
    requires
        state.phase == Phase::Resolving(action),
        !(resolution is Loaded),
    ensures
        next_state(state, Event::Resolved(resolution)).watched == state.watched,
        next_state(state, Event::Resolved(resolution)).phase is Attached,
        commands_for(state, Event::Resolved(resolution)) == match resolution {
            Resolution::Failed(message) => seq![error_line(message@)],
            _ => seq![not_found_line(action)],
        },
{
}

/// With a navigator, a signal is never dropped: the controller announces the
/// lookup and asks the navigator, and whatever the navigator answers, the
/// controller sends at least one line and listens again.
pub proof fn lemma_signal_is_answered(
    state: ControllerState,
    line: String,
    action: EpisodeAction,
    resolution: Resolution,
)
    requires
        state.phase is Attached,
        state.navigable,
        event_of_line(line@) == PlayerEvent::Signal(action),
    ensures
        next_state(state, Event::Line(line)).phase == Phase::Resolving(action),
        commands_for(state, Event::Line(line)) == seq![fetching_line(action)],
        next_state(next_state(state, Event::Line(line)), Event::Resolved(resolution)).phase
            is Attached,
        commands_for(next_state(state, Event::Line(line)), Event::Resolved(resolution)).len()
            >= 1,
{
}

/// Without a navigator, a signal changes nothing and nothing is sent.
pub proof fn lemma_signal_without_navigator(
    state: ControllerState,
    line: String,
    action: EpisodeAction,
)
    requires
        state.phase is Attached,
        !state.navigable,
        event_of_line(line@) == PlayerEvent::Signal(action),
    ensures
        next_state(state, Event::Line(line)) == state,
        commands_for(state, Event::Line(line)).len() == 0,
{
}

/// Once closed, the controller stays as it is and sends nothing.
pub proof fn lemma_closed_is_final(state: ControllerState, events: Seq<Event>)
    requires
        state.phase is Closed,
    ensures
        run(state, events) == state,
        forall|event: Event| #[trigger] commands_for(state, event).len() == 0,
    decreases events.len(),
{
    if events.len() > 0 {
        lemma_closed_is_final(state, events.drop_last());
    }
}

/// After `n` failed attempts in a row the controller has counted them, and
/// nothing was watched.
pub proof fn lemma_failed_attempts(navigable: bool, attempts: Seq<Event>)
    requires
        attempts.len() <= CONNECT_ATTEMPTS,
        forall|i: int| 0 <= i < attempts.len() ==> #[trigger] attempts[i] is ConnectFailed,
    ensures
        run(initial_state(navigable), attempts) == (ControllerState {
            phase: if attempts.len() == CONNECT_ATTEMPTS {
                Phase::Closed
            } else {
                Phase::Connecting
            },
            failures: attempts.len(),
            navigable,
            watched: 0,
        }),
    decreases attempts.len(),
{
    if attempts.len() > 0 {
        assert(attempts.last() is ConnectFailed);
        assert forall|i: int| 0 <= i < attempts.drop_last().len() implies (
        #[trigger] attempts.drop_last()[i]) is ConnectFailed by {
            assert(attempts.drop_last()[i] == attempts[i]);
        }
        lemma_failed_attempts(navigable, attempts.drop_last());
    }
}

/// When every attempt to open the channel has failed, the controller gives
/// up without an error: all that is left is to wait for the process, and
/// whatever is reported afterwards, the watched fraction stays zero.
pub proof fn lemma_unreachable_channel(navigable: bool, attempts: Seq<Event>, later: Seq<Event>)
    requires
        attempts.len() == CONNECT_ATTEMPTS,
        forall|i: int| 0 <= i < attempts.len() ==> #[trigger] attempts[i] is ConnectFailed,
    ensures
        run(initial_state(navigable), attempts).phase is Closed,
        directive_of(run(initial_state(navigable), attempts + later).phase)
            == Directive::AwaitExit,
        run(initial_state(navigable), attempts + later).watched == 0,
{
    lemma_failed_attempts(navigable, attempts);
    lemma_run_append(initial_state(navigable), attempts, later);
    lemma_closed_is_final(run(initial_state(navigable), attempts), later);
}

} // verus!
