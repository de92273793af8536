//! Changing the chord while the listener runs: the commands, the queue that
//! carries them in order, and the loop that installs the tap, services it in
//! short slices and looks for a command between two slices.

use crate::config::{HotkeyConfig, HotkeyConfigView};
use crate::hotkey::{chord_matches, decision_for, tap_decision, TapDecision};
use crate::keys::{key_code_from_string, key_code_of};
use crate::modifiers::{flags_of_names, lowercase_all, modifiers_from_config};
use crate::text::lowercase;
use vstd::prelude::*;

verus! {

/// How long the loop waits before it tries again to install a tap, in
/// milliseconds.
pub const RETRY_DELAY_MS: u64 = 1000;

/// How long the loop services the tap, or waits, before it looks for a
/// command, in milliseconds.
pub const SERVICE_SLICE_MS: u64 = 100;

/// A command to the loop that owns the tap.
#[derive(Debug, PartialEq, Eq)]
pub enum HotkeyCommand {
    /// End the loop.
    Stop,
    /// Tear the tap down and install one for another chord.
    Restart(HotkeyConfig),
}

/// What a `HotkeyCommand` holds, as mathematical values.
pub enum HotkeyCommandView {
    Stop,
    Restart(HotkeyConfigView),
}

impl View for HotkeyCommand {
    type V = HotkeyCommandView;

    open spec fn view(&self) -> HotkeyCommandView {
        match self {
            HotkeyCommand::Stop => HotkeyCommandView::Stop,
            HotkeyCommand::Restart(config) => HotkeyCommandView::Restart(config@),
        }
    }
}

/// What the loop finds when it looks for a command without waiting.
#[derive(Debug, PartialEq, Eq)]
pub enum Poll {
    /// No command is pending.
    Empty,
    /// The oldest pending command.
    Command(HotkeyCommand),
    /// No command is pending and none can come: the controller is gone.
    Disconnected,
}

/// What a `Poll` holds, as mathematical values.
pub enum PollView {
    Empty,
    Command(HotkeyCommandView),
    Disconnected,
}

impl View for Poll {
    type V = PollView;

    open spec fn view(&self) -> PollView {
        match self {
            Poll::Empty => PollView::Empty,
            Poll::Command(command) => PollView::Command(command@),
            Poll::Disconnected => PollView::Disconnected,
        }
    }
}

/// The sending side of the commands: an unbounded queue that hands them out
/// in the order in which they were given.
#[derive(Debug)]
pub struct HotkeyController {
    pending: Vec<HotkeyCommand>,
}

impl View for HotkeyController {
    type V = Seq<HotkeyCommandView>;

    closed spec fn view(&self) -> Seq<HotkeyCommandView> {
        self.pending.deep_view()
    }
}

impl DeepView for HotkeyCommand {
    type V = HotkeyCommandView;

    open spec fn deep_view(&self) -> HotkeyCommandView {
        self@
    }
}

impl HotkeyController {
    /// A controller with no pending command.
    pub fn new() -> (controller: Self)
        ensures
            controller@ == Seq::<HotkeyCommandView>::empty(),
    {
        let controller = HotkeyController { pending: Vec::new() };
        assert(controller@ =~= Seq::<HotkeyCommandView>::empty());
        controller
    }

    /// Asks the loop to listen for another chord: a `Restart` joins the end of
    /// the queue.
    pub fn update_hotkey(&mut self, config: HotkeyConfig)
        ensures
            final(self)@ == old(self)@.push(HotkeyCommandView::Restart(config@)),
    {
        self.pending.push(HotkeyCommand::Restart(config));
        assert(self@ =~= old(self)@.push(HotkeyCommandView::Restart(config@)));
    }

    /// Asks the loop to end: a `Stop` joins the end of the queue.
    pub fn stop(&mut self)
        ensures
            final(self)@ == old(self)@.push(HotkeyCommandView::Stop),
    {
        self.pending.push(HotkeyCommand::Stop);
        assert(self@ =~= old(self)@.push(HotkeyCommandView::Stop));
    }

    /// Takes the oldest pending command, without waiting for one.
    pub fn try_recv(&mut self) -> (poll: Poll)
        ensures
            old(self)@.len() == 0 ==> poll@ == PollView::Empty && final(self)@ == old(self)@,
            old(self)@.len() > 0 ==> poll@ == PollView::Command(old(self)@[0]) && final(self)@
                == old(self)@.drop_first(),
    {
        if self.pending.len() == 0 {
            Poll::Empty
        } else {
            let command = self.pending.remove(0);
            assert(self@ =~= old(self)@.drop_first());
            Poll::Command(command)
        }
    }
}

/// Where the loop stands.
#[derive(Debug, Clone, Copy, PartialEq, Eq, Structural)]
pub enum LoopPhase {
    /// A tap for this chord is to be installed.
    Installing { key_code: u16, modifiers: u64 },
    /// No tap could be set up. The loop waits before it tries again, in
    /// slices, and looks for a command after each; `waited_ms` is the time
    /// it has waited so far, in milliseconds.
    Backoff { waited_ms: u64 },
    /// The tap for this chord is installed and serviced.
    Listening { key_code: u16, modifiers: u64 },
    /// The loop has ended.
    Stopped,
}

/// What the loop asks its driver to do next.
#[derive(Debug, Clone, Copy, PartialEq, Eq, Structural)]
pub enum LoopAction {
    /// Install a tap for this chord, dropping the tap before it, and report
    /// `TapInstalled` or `TapFailed`.
    InstallTap { key_code: u16, modifiers: u64 },
    /// Wait this long, in milliseconds, then look for a command and report
    /// `Polled`.
    Sleep { millis: u64 },
    /// Service the tap this long, in milliseconds, then look for a command
    /// and report `Polled`.
    Service { millis: u64 },
    /// Drop the tap and end.
    Exit,
}

/// What the driver reports back.
#[derive(Debug, PartialEq, Eq)]
pub enum LoopEvent {
    /// The tap is installed and enabled.
    TapInstalled,
    /// The tap could not be set up.
    TapFailed,
    /// The slice or the wait is over, and this is what the look for a command
    /// found.
    Polled(Poll),
}

/// What a `LoopEvent` holds, as mathematical values.
pub enum LoopEventView {
    TapInstalled,
    TapFailed,
    Polled(PollView),
}

impl View for LoopEvent {
    type V = LoopEventView;

    open spec fn view(&self) -> LoopEventView {
        match self {
            LoopEvent::TapInstalled => LoopEventView::TapInstalled,
            LoopEvent::TapFailed => LoopEventView::TapFailed,
            LoopEvent::Polled(poll) => LoopEventView::Polled(poll@),
        }
    }
}

/// The loop that owns the tap: the chord it was last told to listen for, and
/// where it stands.
#[derive(Debug)]
pub struct ListenerLoop {
    config: HotkeyConfig,
    phase: LoopPhase,
}

/// What a `ListenerLoop` holds, as mathematical values.
pub struct ListenerLoopView {
    pub config: HotkeyConfigView,
    pub phase: LoopPhase,
}

impl View for ListenerLoop {
    type V = ListenerLoopView;

    closed spec fn view(&self) -> ListenerLoopView {
        ListenerLoopView { config: self.config@, phase: self.phase }
    }
}

/// The phase in which the loop sets out to listen for a chord: it installs a
/// tap where the key table has the key name, and backs off where it has not.
pub open spec fn phase_for(config: HotkeyConfigView) -> LoopPhase {
    match key_code_of(lowercase(config.key)) {
        Some(key_code) => LoopPhase::Installing {
            key_code,
            modifiers: flags_of_names(lowercase_all(config.modifiers)),
        },
        None => LoopPhase::Backoff { waited_ms: 0 },
    }
}

/// How long the loop waits next while it backs off, in milliseconds, given
/// how long it has waited so far: a slice, or what is left of the delay
/// where that is less.
pub open spec fn backoff_wait(waited_ms: u64) -> u64 {
    if waited_ms >= RETRY_DELAY_MS {
        0
    } else if RETRY_DELAY_MS - waited_ms < SERVICE_SLICE_MS {
        (RETRY_DELAY_MS - waited_ms) as u64
    } else {
        SERVICE_SLICE_MS
    }
}

/// The phase of a loop that backs off, after one more wait in which no
/// command came: it sets out again for its chord once the whole delay has
/// passed, and goes on waiting until then.
pub open spec fn after_wait(config: HotkeyConfigView, waited_ms: u64) -> LoopPhase {
    if waited_ms + backoff_wait(waited_ms) >= RETRY_DELAY_MS {
        phase_for(config)
    } else {
        LoopPhase::Backoff { waited_ms: (waited_ms + backoff_wait(waited_ms)) as u64 }
    }
}

/// What the loop asks of its driver in a phase.
pub open spec fn action_in(phase: LoopPhase) -> LoopAction {
    match phase {
        LoopPhase::Installing { key_code, modifiers } => LoopAction::InstallTap {
            key_code,
            modifiers,
        },
        LoopPhase::Backoff { waited_ms } => LoopAction::Sleep { millis: backoff_wait(waited_ms) },
        LoopPhase::Listening { .. } => LoopAction::Service { millis: SERVICE_SLICE_MS },
        LoopPhase::Stopped => LoopAction::Exit,
    }
}

/// Whether the loop looks for a command in a phase: while it services a tap
/// and while it backs off.
pub open spec fn polls_in(phase: LoopPhase) -> bool {
    phase is Listening || phase is Backoff
}

/// The loop after a look for a command, in a phase in which it looks for
/// one. `Stop` and the loss of the controller end the loop; `Restart` makes
/// it set out for the new chord; with no command a listening loop goes on,
/// and a loop that backs off goes on waiting, or sets out again for its
/// chord once the delay has passed.
pub open spec fn after_poll(state: ListenerLoopView, poll: PollView) -> ListenerLoopView {
    match poll {
        PollView::Command(HotkeyCommandView::Stop) => ListenerLoopView {
            phase: LoopPhase::Stopped,
            ..state
        },
        PollView::Disconnected => ListenerLoopView { phase: LoopPhase::Stopped, ..state },
        PollView::Command(HotkeyCommandView::Restart(config)) => ListenerLoopView {
            config,
            phase: phase_for(config),
        },
        PollView::Empty => match state.phase {
            LoopPhase::Backoff { waited_ms } => ListenerLoopView {
                phase: after_wait(state.config, waited_ms),
                ..state
            },
            _ => state,
        },
    }
}

/// The loop after an event. An event that does not answer what the loop asked
/// for leaves the loop as it is.
pub open spec fn after_event(state: ListenerLoopView, event: LoopEventView) -> ListenerLoopView {
    match (state.phase, event) {
        (LoopPhase::Installing { key_code, modifiers }, LoopEventView::TapInstalled) => {
            ListenerLoopView { phase: LoopPhase::Listening { key_code, modifiers }, ..state }
        },
        (LoopPhase::Installing { .. }, LoopEventView::TapFailed) => {
            ListenerLoopView { phase: LoopPhase::Backoff { waited_ms: 0 }, ..state }
        },
        (phase, LoopEventView::Polled(poll)) => if polls_in(phase) {
            after_poll(state, poll)
        } else {
            state
        },
        _ => state,
    }
}

/// What the loop's tap does with an event: outside the listening phase no tap
/// is installed, and every event passes.
pub open spec fn loop_decision(
    phase: LoopPhase,
    is_key_down: bool,
    event_key_code: u16,
    event_flags: u64,
) -> TapDecision {
    match phase {
        LoopPhase::Listening { key_code, modifiers } => decision_for(
            is_key_down,
            event_key_code,
            event_flags,
            key_code,
            modifiers,
        ),
        _ => TapDecision::PassThrough,
    }
}

impl ListenerLoop {
    /// The loop as it sets out to listen for the chord of the settings.
    pub fn start(initial_config: HotkeyConfig) -> (listener: Self)
        ensures
            listener@.config == initial_config@,
            listener@.phase == phase_for(initial_config@),
    {
        let phase = Self::plan(&initial_config);
        ListenerLoop { config: initial_config, phase }
    }

    fn plan(config: &HotkeyConfig) -> (phase: LoopPhase)
        ensures
            phase == phase_for(config@),
    {
        match key_code_from_string(config.key.as_str()) {
            Some(key_code) => LoopPhase::Installing {
                key_code,
                modifiers: modifiers_from_config(config.modifiers.as_slice()),
            },
            None => LoopPhase::Backoff { waited_ms: 0 },
        }
    }

    /// How long the loop waits next while it backs off, given how long it
    /// has waited so far.
    fn next_wait(waited_ms: u64) -> (millis: u64)
        ensures
            millis == backoff_wait(waited_ms),
    {
        if waited_ms >= RETRY_DELAY_MS {
            0
        } else if RETRY_DELAY_MS - waited_ms < SERVICE_SLICE_MS {
            RETRY_DELAY_MS - waited_ms
        } else {
            SERVICE_SLICE_MS
        }
    }

    /// Where the loop stands.
    pub fn phase(&self) -> (phase: LoopPhase)
        ensures
            phase == self@.phase,
    {
        self.phase
    }

    /// The chord that the loop was last told to listen for.
    pub fn config(&self) -> (config: &HotkeyConfig)
        ensures
            config@ == self@.config,
    {
        &self.config
    }

    /// What the loop asks of its driver now.
    pub fn pending_action(&self) -> (action: LoopAction)
        ensures
            action == action_in(self@.phase),
    {
        match self.phase {
            LoopPhase::Installing { key_code, modifiers } => LoopAction::InstallTap {
                key_code,
                modifiers,
            },
            LoopPhase::Backoff { waited_ms } => LoopAction::Sleep {
                millis: Self::next_wait(waited_ms),
            },
            LoopPhase::Listening { .. } => LoopAction::Service { millis: SERVICE_SLICE_MS },
            LoopPhase::Stopped => LoopAction::Exit,
        }
    }

    /// Takes what a look for a command found.
    fn on_poll(&mut self, poll: Poll)
        ensures
            final(self)@ == after_poll(old(self)@, poll@),
    {
        match poll {
            Poll::Command(HotkeyCommand::Stop) => {
                self.phase = LoopPhase::Stopped;
            },
            Poll::Disconnected => {
                self.phase = LoopPhase::Stopped;
            },
            Poll::Command(HotkeyCommand::Restart(config)) => {
                self.phase = Self::plan(&config);
                self.config = config;
            },
            Poll::Empty => {
                match self.phase {
                    LoopPhase::Backoff { waited_ms } => {
                        let wait = Self::next_wait(waited_ms);
                        if waited_ms >= RETRY_DELAY_MS || waited_ms + wait >= RETRY_DELAY_MS {
                            self.phase = Self::plan(&self.config);
                        } else {
                            self.phase = LoopPhase::Backoff { waited_ms: waited_ms + wait };
                        }
                    },
                    _ => {},
                }
            },
        }
    }

    /// Takes the driver's report and says what to do next.
    pub fn step(&mut self, event: LoopEvent) -> (action: LoopAction)
        ensures
            final(self)@ == after_event(old(self)@, event@),
            action == action_in(final(self)@.phase),
    {
        match self.phase {
            LoopPhase::Installing { key_code, modifiers } => {
                match event {
                    LoopEvent::TapInstalled => {
                        self.phase = LoopPhase::Listening { key_code, modifiers };
                    },
                    LoopEvent::TapFailed => {
                        self.phase = LoopPhase::Backoff { waited_ms: 0 };
                    },
                    _ => {},
                }
            },
            LoopPhase::Backoff { .. } => {
                match event {
                    LoopEvent::Polled(poll) => {
                        self.on_poll(poll);
                    },
                    _ => {},
                }
            },
            LoopPhase::Listening { .. } => {
                match event {
                    LoopEvent::Polled(poll) => {
                        self.on_poll(poll);
                    },
                    _ => {},
                }
            },
            LoopPhase::Stopped => {},
        }
        self.pending_action()
    }

    /// What the loop's tap does with an event.
    pub fn on_event(&self, is_key_down: bool, event_key_code: u16, event_flags: u64) -> (decision:
        TapDecision)
        ensures
            decision == loop_decision(self@.phase, is_key_down, event_key_code, event_flags),
    {
        match self.phase {
            LoopPhase::Listening { key_code, modifiers } => tap_decision(
                is_key_down,
                event_key_code,
                event_flags,
                key_code,
                modifiers,
            ),
            _ => TapDecision::PassThrough,
        }
    }
}

/// A `Restart` that the loop finds replaces the chord, whether the loop
/// listens or backs off. While the new tap is being installed no event is
/// consumed; once it is installed, an event is consumed exactly when it is
/// the new chord, so the old chord no longer triggers unless it is the new
/// one. Where the key table does not have the new key name, the loop backs
/// off and consumes nothing.
pub proof fn lemma_restart_replaces_chord(
    state: ListenerLoopView,
    config: HotkeyConfigView,
    is_key_down: bool,
    event_key_code: u16,
    event_flags: u64,
)
    requires
        polls_in(state.phase),
    ensures
        ({
            let restarted = after_event(
                state,
                LoopEventView::Polled(PollView::Command(HotkeyCommandView::Restart(config))),
            );
            let installed = after_event(restarted, LoopEventView::TapInstalled);
            &&& restarted.config == config
            &&& loop_decision(restarted.phase, is_key_down, event_key_code, event_flags)
                == TapDecision::PassThrough
            &&& match key_code_of(lowercase(config.key)) {
                Some(key_code) => {
                    let modifiers = flags_of_names(lowercase_all(config.modifiers));
                    &&& action_in(restarted.phase) == LoopAction::InstallTap { key_code, modifiers }
                    &&& installed.phase == LoopPhase::Listening { key_code, modifiers }
                    &&& loop_decision(installed.phase, is_key_down, event_key_code, event_flags)
                        == TapDecision::Consume <==> is_key_down && chord_matches(
                        event_key_code,
                        event_flags,
                        key_code,
                        modifiers,
                    )
                },
                None => {
                    &&& restarted.phase == LoopPhase::Backoff { waited_ms: 0 }
                    &&& installed == restarted
                },
            }
        }),
{
}

/// A `Stop` that the loop finds ends it at once, and so does the loss of the
/// controller, whether the loop listens or backs off: the next action is
/// `Exit`. A loop that has ended stays so whatever is reported to it, and
/// consumes no event.
pub proof fn lemma_stop_ends_loop(
    state: ListenerLoopView,
    event: LoopEventView,
    is_key_down: bool,
    event_key_code: u16,
    event_flags: u64,
)
    requires
        polls_in(state.phase) || state.phase is Stopped,
    ensures
        ({
            let stopped = after_event(
                state,
                LoopEventView::Polled(PollView::Command(HotkeyCommandView::Stop)),
            );
            let lost = after_event(state, LoopEventView::Polled(PollView::Disconnected));
            &&& stopped.phase == LoopPhase::Stopped
            &&& lost.phase == LoopPhase::Stopped
            &&& action_in(stopped.phase) == LoopAction::Exit
            &&& after_event(stopped, event) == stopped
            &&& loop_decision(stopped.phase, is_key_down, event_key_code, event_flags)
                == TapDecision::PassThrough
        }),
{
}

/// The loop looks for a command after every slice and every wait, and no
/// slice and no wait is longer than `SERVICE_SLICE_MS`: in each phase but
/// the last it either asks for a look, or asks for a tap, and either answer
/// to that takes it to a phase in which it asks for a look.
pub proof fn lemma_loop_keeps_polling(state: ListenerLoopView)
    ensures
        polls_in(state.phase) <==> action_in(state.phase) is Service || action_in(state.phase)
            is Sleep,
        action_in(state.phase) matches LoopAction::Service { millis } ==> millis
            == SERVICE_SLICE_MS,
        action_in(state.phase) matches LoopAction::Sleep { millis } ==> millis <= SERVICE_SLICE_MS,
        state.phase is Installing ==> polls_in(
            after_event(state, LoopEventView::TapInstalled).phase,
        ) && polls_in(after_event(state, LoopEventView::TapFailed).phase),
        state.phase is Stopped || state.phase is Installing || polls_in(state.phase),
{
}

/// While the loop listens and finds no command, it goes on listening for the
/// same chord. While it backs off and finds none, it goes on waiting or
/// sets out again for its chord.
pub proof fn lemma_empty_poll_keeps_chord(state: ListenerLoopView)
    requires
        polls_in(state.phase),
    ensures
        state.phase is Listening ==> after_event(state, LoopEventView::Polled(PollView::Empty))
            == state,
        state.phase matches LoopPhase::Backoff { waited_ms } ==> after_event(
            state,
            LoopEventView::Polled(PollView::Empty),
        ) == (ListenerLoopView { phase: after_wait(state.config, waited_ms), ..state }),
        after_event(state, LoopEventView::Polled(PollView::Empty)).config == state.config,
{
}

/// The loop after a number of looks in a row that found no command.
pub open spec fn after_empty_polls(state: ListenerLoopView, looks: nat) -> ListenerLoopView
    decreases looks,
{
    if looks == 0 {
        state
    } else {
        after_event(
            after_empty_polls(state, (looks - 1) as nat),
            LoopEventView::Polled(PollView::Empty),
        )
    }
}

/// A loop that begins to back off and finds no command waits in slices of
/// `SERVICE_SLICE_MS` until `RETRY_DELAY_MS` have passed, and then sets out
/// again for its chord: after `looks` looks it has waited `looks` slices,
/// and the look that completes the delay ends the wait.
pub proof fn lemma_backoff_lasts_the_delay(state: ListenerLoopView, looks: nat)
    requires
        state.phase == (LoopPhase::Backoff { waited_ms: 0 }),
        looks * SERVICE_SLICE_MS <= RETRY_DELAY_MS,
    ensures
        looks * SERVICE_SLICE_MS < RETRY_DELAY_MS ==> after_empty_polls(state, looks) == (
        ListenerLoopView {
            phase: LoopPhase::Backoff { waited_ms: (looks * SERVICE_SLICE_MS) as u64 },
            ..state
        }),
        looks * SERVICE_SLICE_MS < RETRY_DELAY_MS ==> action_in(
            after_empty_polls(state, looks).phase,
        ) == (LoopAction::Sleep { millis: SERVICE_SLICE_MS }),
        looks * SERVICE_SLICE_MS == RETRY_DELAY_MS ==> after_empty_polls(state, looks) == (
        ListenerLoopView { phase: phase_for(state.config), ..state }),
    decreases looks,
{
    if looks > 0 {
        lemma_backoff_lasts_the_delay(state, (looks - 1) as nat);
        assert((looks - 1) * SERVICE_SLICE_MS + SERVICE_SLICE_MS == looks * SERVICE_SLICE_MS)
            by (nonlinear_arith);
    }
}

} // verus!
