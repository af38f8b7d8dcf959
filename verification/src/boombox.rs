//! The control loop: what the player does about each event while one file
//! plays, and when it moves on to the next file.
//!
//! `Boombox` owns the event multiplexer and the volume. It turns each event
//! into the commands that the caller carries out against the audio engine,
//! the kernel queue and the terminal, in the order given.

use crate::events::{
    build_event_queue, initial_state, lemma_disarmed_timer_is_silent, lemma_poll_keeps_timer, poll,
    registration_changes, timer_arm_change, timer_cancel_change, CallbackNotifier, Event, EventError,
    EventQueue, Kevent, Kqueue, Poll, QueueState, Timespec,
};
use crate::player::{
    level_after_decrement, level_after_increment, Gain, PlaybackVolume, MAX_VOLUME,
};
use std::ops::ControlFlow;
use vstd::prelude::*;

verus! {

/// Time between two refreshes of the level meter: a thirtieth of a second.
pub const UI_TICK_DURATION_MICROSECONDS: i64 = 33333;

/// The playback position is redrawn on every this many ticks: once a second.
pub const UPDATE_PROGRESS_TICK_FREQUENCY: usize = 30;

/// One thing for the caller to do. A command that fails ends the session
/// with that failure, unless it is one that `tolerates_failure`.
#[derive(Debug, Clone, Copy, PartialEq, Eq, Structural)]
pub enum Command {
    /// Set the engine's volume to this gain.
    SetVolume(Gain),
    /// Enable level metering and start the engine.
    StartPlayback,
    /// Pause the engine.
    PausePlayback,
    /// Start the paused engine again.
    ResumePlayback,
    /// Stop the engine and wait until it has stopped.
    StopPlayback,
    /// Refresh the level meters from the engine. Around a start or a stop the
    /// engine may be unable to report; the meters then stay as they are.
    ReadMeterLevel,
    /// Submit the change that arms the timer to the kernel queue.
    ArmTimer(Kevent),
    /// Submit the change that removes the timer to the kernel queue. The
    /// kernel may answer that there is no such timer, because it has just
    /// expired.
    CancelTimer(Kevent),
    /// Ask the terminal for its size.
    UpdateSize,
    /// Clear the screen.
    ClearScreen,
    /// Draw the name of the file.
    DisplayFilename,
    /// Draw the level meters.
    DisplayMeter,
    /// Draw the playing or paused indicator.
    DisplayPlaybackState { paused: bool },
    /// Ask the engine for the playback position and draw it, if the engine
    /// has one to give.
    DisplayPlaybackProgress,
    /// Draw the volume.
    DisplayVolume(Gain),
    /// Draw the file's metadata.
    DisplayMetadata,
    /// Write out what has been drawn.
    Flush,
}

/// Whether a failure of the command is to be passed over: the next tick
/// tries again.
pub open spec fn tolerates_failure(command: Command) -> bool {
    command is ReadMeterLevel || command is CancelTimer
}

impl Command {
    /// Whether the session goes on if this command fails.
    pub fn failure_is_tolerated(&self) -> (tolerated: bool)
        ensures
            tolerated == tolerates_failure(*self),
    {
        match self {
            Command::ReadMeterLevel => true,
            Command::CancelTimer(_) => true,
            _ => false,
        }
    }
}

/// The player, as plain values.
#[verifier::ext_equal]
pub struct BoomboxState {
    /// The event multiplexer.
    pub queue: QueueState,
    /// The volume step.
    pub level: nat,
    /// Whether a file is in play: set when a file is started, cleared when
    /// the end of its playback has been handled.
    pub active: bool,
    /// Whether playback is paused.
    pub paused: bool,
    /// Whether the user has asked to leave the player.
    pub exit_requested: bool,
    /// How many ticks have been handled since the playback position was last
    /// due, below `UPDATE_PROGRESS_TICK_FREQUENCY`.
    pub tick_phase: nat,
}

impl BoomboxState {
    /// What holds of every player: the volume is a step of the scale, the
    /// tick phase is below the frequency, and no timer is armed while
    /// playback is paused or no file is in play.
    pub open spec fn consistent(self) -> bool {
        &&& self.level <= MAX_VOLUME
        &&& self.tick_phase < UPDATE_PROGRESS_TICK_FREQUENCY
        &&& self.paused ==> !self.queue.timer_armed
        &&& !self.active ==> !self.queue.timer_armed
    }
}

/// The gain that goes with a volume step.
pub open spec fn gain_at(level: nat) -> Gain {
    Gain { numerator: level as usize, denominator: MAX_VOLUME }
}

/// The commands that draw the whole screen.
pub open spec fn redraw(state: BoomboxState) -> Seq<Command> {
    seq![
        Command::ClearScreen,
        Command::DisplayFilename,
        Command::DisplayMeter,
        Command::DisplayPlaybackState { paused: state.paused },
        Command::DisplayVolume(gain_at(state.level)),
        Command::DisplayMetadata,
        Command::Flush,
    ]
}

/// The commands that cancel the timer: one if it is armed, none if it is
/// not.
pub open spec fn cancel_timer(armed: bool) -> Seq<Command> {
    if armed {
        seq![Command::CancelTimer(timer_cancel_change())]
    } else {
        seq![]
    }
}

/// The command that arms the timer for one tick.
pub open spec fn arm_timer() -> Command {
    Command::ArmTimer(timer_arm_change(UI_TICK_DURATION_MICROSECONDS))
}

/// The multiplexer with its timer armed or disarmed.
pub open spec fn with_timer(queue: QueueState, armed: bool) -> QueueState {
    QueueState { timer_armed: armed, ..queue }
}

/// The player as a new file starts to play, and the commands that open the
/// session: draw the screen, set the volume, start the engine. The volume
/// carries over from the file before.
pub open spec fn open_session(state: BoomboxState) -> (BoomboxState, Seq<Command>) {
    let opened = BoomboxState {
        queue: with_timer(state.queue, false),
        active: true,
        paused: false,
        exit_requested: false,
        tick_phase: 0,
        ..state
    };
    (
        opened,
        cancel_timer(state.queue.timer_armed) + redraw(opened) + seq![
            Command::SetVolume(gain_at(state.level)),
            Command::StartPlayback,
        ],
    )
}

/// One transition of the control loop: the player after `event`, and the
/// commands to carry out.
///
/// - The pause key toggles between playing and paused; pausing cancels the
///   timer, resuming arms it.
/// - A volume key moves the volume one step, sets it on the engine and draws
///   it.
/// - The next-track key stops the engine. The exit key does the same and
///   records that the user wants to leave. Neither ends the session: that
///   waits for the engine to confirm that it has stopped.
/// - `PlaybackStarted` arms the timer, unless playback is paused.
/// - `PlaybackFinished` cancels the timer if it is armed and ends the
///   session.
/// - A tick refreshes and draws the meters, draws the playback position on
///   every `UPDATE_PROGRESS_TICK_FREQUENCY`th tick, and arms the timer again.
///   A tick that arrives while playback is paused is dropped.
/// - A resize asks the terminal for its size and draws the whole screen.
///
/// While no file is in play every event is dropped.
pub open spec fn react(state: BoomboxState, event: Event) -> (BoomboxState, Seq<Command>) {
    if !state.active {
        (state, seq![])
    } else {
        match event {
            Event::PauseKeyPressed => if state.paused {
                (
                    BoomboxState { paused: false, queue: with_timer(state.queue, true), ..state },
                    seq![
                        Command::ResumePlayback,
                        arm_timer(),
                        Command::DisplayPlaybackState { paused: false },
                        Command::Flush,
                    ],
                )
            } else {
                (
                    BoomboxState { paused: true, queue: with_timer(state.queue, false), ..state },
                    seq![Command::PausePlayback] + cancel_timer(state.queue.timer_armed) + seq![
                        Command::DisplayPlaybackState { paused: true },
                        Command::Flush,
                    ],
                )
            },
            Event::VolumeUpKeyPressed => {
                let level = level_after_increment(state.level);
                (
                    BoomboxState { level, ..state },
                    seq![
                        Command::SetVolume(gain_at(level)),
                        Command::DisplayVolume(gain_at(level)),
                        Command::Flush,
                    ],
                )
            },
            Event::VolumeDownKeyPressed => {
                let level = level_after_decrement(state.level);
                (
                    BoomboxState { level, ..state },
                    seq![
                        Command::SetVolume(gain_at(level)),
                        Command::DisplayVolume(gain_at(level)),
                        Command::Flush,
                    ],
                )
            },
            Event::NextTrackKeyPressed => (state, seq![Command::StopPlayback]),
            Event::ExitKeyPressed => (
                BoomboxState { exit_requested: true, ..state },
                seq![Command::StopPlayback],
            ),
            Event::PlaybackStarted => if state.paused {
                (state, seq![])
            } else {
                (BoomboxState { queue: with_timer(state.queue, true), ..state }, seq![arm_timer()])
            },
            Event::PlaybackFinished => (
                BoomboxState { active: false, queue: with_timer(state.queue, false), ..state },
                cancel_timer(state.queue.timer_armed),
            ),
            Event::UITick => if state.paused {
                (state, seq![])
            } else {
                (
                    BoomboxState {
                        tick_phase: if state.tick_phase + 1 < UPDATE_PROGRESS_TICK_FREQUENCY {
                            state.tick_phase + 1
                        } else {
                            0
                        },
                        queue: with_timer(state.queue, true),
                        ..state
                    },
                    seq![Command::ReadMeterLevel, Command::DisplayMeter] + (if state.tick_phase == 0 {
                        seq![Command::DisplayPlaybackProgress]
                    } else {
                        seq![]
                    }) + seq![Command::Flush, arm_timer()],
                )
            },
            Event::TerminalResized => (state, seq![Command::UpdateSize] + redraw(state)),
        }
    }
}

/// How a session ends: the player leaves if the user asked for that, and
/// goes on to the next file if not.
pub open spec fn outcome(state: BoomboxState) -> ControlFlow<()> {
    if state.exit_requested {
        ControlFlow::Break(())
    } else {
        ControlFlow::Continue(())
    }
}

/// What one turn of the control loop comes to, as plain values.
pub enum StepView {
    /// Standard input is readable. The caller reads up to `capacity` bytes
    /// from `descriptor` and hands them to `Boombox::fill_input`, or records
    /// the failure.
    ReadInput { descriptor: i32, capacity: usize },
    /// Nothing is buffered. The caller blocks on `queue` for up to `capacity`
    /// events and hands them to `Boombox::fill_events`, or records the
    /// failure. A `timeout` of `None` means that the wait has no time limit.
    Wait { queue: Kqueue, capacity: usize, timeout: Option<Timespec> },
    /// The event stream has failed: the session cannot go on.
    Failed(EventError),
    /// An event has been handled. The caller carries out the commands.
    Run(Seq<Command>),
    /// No file is in play: the session has ended this way.
    Finished(ControlFlow<()>),
}

/// What one turn of the control loop comes to.
#[derive(Debug, PartialEq, Eq)]
pub enum Step {
    /// Standard input is readable. The caller reads up to `capacity` bytes
    /// from `descriptor` and hands them to `Boombox::fill_input`, or records
    /// the failure.
    ReadInput { descriptor: i32, capacity: usize },
    /// Nothing is buffered. The caller blocks on `queue` for up to `capacity`
    /// events and hands them to `Boombox::fill_events`, or records the
    /// failure. A `timeout` of `None` means that the wait has no time limit.
    Wait { queue: Kqueue, capacity: usize, timeout: Option<Timespec> },
    /// The event stream has failed: the session cannot go on.
    Failed(EventError),
    /// An event has been handled. The caller carries out the commands.
    Run(Vec<Command>),
    /// No file is in play: the session has ended this way.
    Finished(ControlFlow<()>),
}

impl View for Step {
    type V = StepView;

    open spec fn view(&self) -> StepView {
        match self {
            Step::ReadInput { descriptor, capacity } => StepView::ReadInput {
                descriptor: *descriptor,
                capacity: *capacity,
            },
            Step::Wait { queue, capacity, timeout } => StepView::Wait {
                queue: *queue,
                capacity: *capacity,
                timeout: *timeout,
            },
            Step::Failed(error) => StepView::Failed(*error),
            Step::Run(commands) => StepView::Run(commands@),
            Step::Finished(flow) => StepView::Finished(*flow),
        }
    }
}

/// One turn of the control loop: the next event is taken from the
/// multiplexer and handled, or the multiplexer's request for a read or a wait
/// is passed on. While no file is in play nothing is taken.
pub open spec fn turn(state: BoomboxState) -> (BoomboxState, StepView) {
    if !state.active {
        (state, StepView::Finished(outcome(state)))
    } else {
        let (queue, next) = poll(state.queue);
        let polled = BoomboxState { queue, ..state };
        match next {
            Poll::Ready(event) => (react(polled, event).0, StepView::Run(react(polled, event).1)),
            Poll::ReadInput { descriptor, capacity } => (
                polled,
                StepView::ReadInput { descriptor, capacity },
            ),
            Poll::Wait { queue, capacity, timeout } => (polled, StepView::Wait { queue, capacity, timeout }),
            Poll::Failed(error) => (polled, StepView::Failed(error)),
        }
    }
}

/// The player: the event multiplexer, the volume, and the session of the
/// file that is in play.
pub struct Boombox {
    queue: EventQueue,
    volume: PlaybackVolume,
    active: bool,
    paused: bool,
    exit_requested: bool,
    tick_phase: usize,
}

impl View for Boombox {
    type V = BoomboxState;

    closed spec fn view(&self) -> BoomboxState {
        BoomboxState {
            queue: self.queue@,
            level: self.volume.level(),
            active: self.active,
            paused: self.paused,
            exit_requested: self.exit_requested,
            tick_phase: self.tick_phase as nat,
        }
    }
}

impl Boombox {
    /// Builds the player on a kernel queue that the caller has created, at
    /// full volume and with no file in play, and returns with it the changes
    /// that register the multiplexer's sources. A negative descriptor is what
    /// a failed creation returns: there is no player then.
    pub fn initialise(kqueue: Kqueue) -> (built: Option<(Boombox, Vec<Kevent>)>)
        ensures
            kqueue < 0 <==> built is None,
            built matches Some((boombox, changes)) ==> boombox@ == (BoomboxState {
                queue: initial_state(kqueue),
                level: MAX_VOLUME as nat,
                active: false,
                paused: false,
                exit_requested: false,
                tick_phase: 0,
            }) && changes@ == registration_changes() && boombox@.consistent(),
    {
        match build_event_queue(kqueue) {
            None => None,
            Some((queue, changes)) => {
                let boombox = Boombox {
                    queue,
                    volume: PlaybackVolume::new(),
                    active: false,
                    paused: false,
                    exit_requested: false,
                    tick_phase: 0,
                };
                Some((boombox, changes))
            },
        }
    }

    /// The gain of the current volume.
    pub fn gain(&self) -> (gain: Gain)
        ensures
            gain == gain_at(self@.level),
            self@.level <= MAX_VOLUME,
    {
        self.volume.gain()
    }

    /// The commands that draw the whole screen.
    fn redraw(&self, commands: &mut Vec<Command>)
        ensures
            final(commands)@ == old(commands)@ + redraw(self@),
    {
        let gain = self.volume.gain();
        commands.push(Command::ClearScreen);
        commands.push(Command::DisplayFilename);
        commands.push(Command::DisplayMeter);
        commands.push(Command::DisplayPlaybackState { paused: self.paused });
        commands.push(Command::DisplayVolume(gain));
        commands.push(Command::DisplayMetadata);
        commands.push(Command::Flush);
        assert(commands@ =~= old(commands)@ + redraw(self@));
    }

    /// Starts the session of a file whose engine has been set up and whose
    /// buffers have been filled, and returns the commands that open it.
    pub fn play_file(&mut self) -> (commands: Vec<Command>)
        ensures
            final(self)@ == open_session(old(self)@).0,
            commands@ == open_session(old(self)@).1,
    {
        let mut commands: Vec<Command> = Vec::new();
        if let Some(change) = self.queue.disable_ui_timer_event() {
            commands.push(Command::CancelTimer(change));
        }
        self.paused = false;
        self.active = true;
        self.exit_requested = false;
        self.tick_phase = 0;
        assert(self@ =~= open_session(old(self)@).0);
        assert(commands@ =~= cancel_timer(old(self)@.queue.timer_armed));
        self.redraw(&mut commands);
        commands.push(Command::SetVolume(self.volume.gain()));
        commands.push(Command::StartPlayback);
        assert(commands@ =~= open_session(old(self)@).1);
        commands
    }

    /// Handles one event and returns the commands to carry out.
    pub fn handle_event(&mut self, event: Event) -> (commands: Vec<Command>)
        ensures
            final(self)@ == react(old(self)@, event).0,
            commands@ == react(old(self)@, event).1,
    {
        let mut commands: Vec<Command> = Vec::new();
        if !self.active {
            return commands;
        }
        match event {
            Event::PauseKeyPressed => {
                if self.paused {
                    let change = self.queue.enable_ui_timer_event(UI_TICK_DURATION_MICROSECONDS);
                    self.paused = false;
                    commands.push(Command::ResumePlayback);
                    commands.push(Command::ArmTimer(change));
                    commands.push(Command::DisplayPlaybackState { paused: false });
                    commands.push(Command::Flush);
                } else {
                    commands.push(Command::PausePlayback);
                    if let Some(change) = self.queue.disable_ui_timer_event() {
                        commands.push(Command::CancelTimer(change));
                    }
                    self.paused = true;
                    commands.push(Command::DisplayPlaybackState { paused: true });
                    commands.push(Command::Flush);
                }
            },
            Event::VolumeUpKeyPressed => {
                self.volume.increment();
                let gain = self.volume.gain();
                commands.push(Command::SetVolume(gain));
                commands.push(Command::DisplayVolume(gain));
                commands.push(Command::Flush);
            },
            Event::VolumeDownKeyPressed => {
                self.volume.decrement();
                let gain = self.volume.gain();
                commands.push(Command::SetVolume(gain));
                commands.push(Command::DisplayVolume(gain));
                commands.push(Command::Flush);
            },
            Event::NextTrackKeyPressed => {
                commands.push(Command::StopPlayback);
            },
            Event::ExitKeyPressed => {
                self.exit_requested = true;
                commands.push(Command::StopPlayback);
            },
            Event::PlaybackStarted => {
                if !self.paused {
                    let change = self.queue.enable_ui_timer_event(UI_TICK_DURATION_MICROSECONDS);
                    commands.push(Command::ArmTimer(change));
                }
            },
            Event::PlaybackFinished => {
                if let Some(change) = self.queue.disable_ui_timer_event() {
                    commands.push(Command::CancelTimer(change));
                }
                self.active = false;
            },
            Event::UITick => {
                if !self.paused {
                    commands.push(Command::ReadMeterLevel);
                    commands.push(Command::DisplayMeter);
                    if self.tick_phase == 0 {
                        commands.push(Command::DisplayPlaybackProgress);
                    }
                    commands.push(Command::Flush);
                    let change = self.queue.enable_ui_timer_event(UI_TICK_DURATION_MICROSECONDS);
                    commands.push(Command::ArmTimer(change));
                    if self.tick_phase < UPDATE_PROGRESS_TICK_FREQUENCY - 1 {
                        self.tick_phase = self.tick_phase + 1;
                    } else {
                        self.tick_phase = 0;
                    }
                }
            },
            Event::TerminalResized => {
                commands.push(Command::UpdateSize);
                self.redraw(&mut commands);
            },
        }
        assert(self@ =~= react(old(self)@, event).0);
        assert(commands@ =~= react(old(self)@, event).1);
        commands
    }

    /// One turn of the control loop. While a file is in play this takes the
    /// next event from the multiplexer and handles it, or says what the
    /// multiplexer is waiting for. Once the end of playback has been handled
    /// it says how the session ended.
    pub fn play(&mut self) -> (step: Step)
        ensures
            final(self)@ == turn(old(self)@).0,
            step@ == turn(old(self)@).1,
    {
        if !self.active {
            return Step::Finished(self.outcome());
        }
        let next = self.queue.next_event();
        assert(self@ =~= (BoomboxState { queue: poll(old(self)@.queue).0, ..old(self)@ }));
        match next {
            Poll::Ready(event) => {
                let commands = self.handle_event(event);
                Step::Run(commands)
            },
            Poll::ReadInput { descriptor, capacity } => Step::ReadInput { descriptor, capacity },
            Poll::Wait { queue, capacity, timeout } => Step::Wait { queue, capacity, timeout },
            Poll::Failed(error) => Step::Failed(error),
        }
    }

    /// How the session ends, or has ended: whether the player goes on to the
    /// next file or leaves.
    pub fn outcome(&self) -> (flow: ControlFlow<()>)
        ensures
            flow == outcome(self@),
    {
        if self.exit_requested {
            ControlFlow::Break(())
        } else {
            ControlFlow::Continue(())
        }
    }

    /// Whether a file is in play.
    pub fn is_active(&self) -> (active: bool)
        ensures
            active == self@.active,
    {
        self.active
    }

    /// Takes in what a read of standard input returned, after a turn asked
    /// for it. An empty read changes nothing.
    pub fn fill_input(&mut self, bytes: &[u8])
        ensures
            final(self)@ == (BoomboxState {
                queue: QueueState { input: old(self)@.queue.input + bytes@, ..old(self)@.queue },
                ..old(self)@
            }),
    {
        self.queue.fill_input(bytes);
    }

    /// Takes in the events that a wait on the kernel queue returned, after a
    /// turn asked for it.
    pub fn fill_events(&mut self, events: &[Kevent])
        ensures
            final(self)@ == (BoomboxState {
                queue: QueueState { kernel: old(self)@.queue.kernel + events@, ..old(self)@.queue },
                ..old(self)@
            }),
    {
        self.queue.fill_events(events);
    }

    /// Records that the read or the wait that a turn asked for has failed.
    /// Every later turn of a session reports the first failure recorded.
    pub fn fail(&mut self, error: EventError)
        ensures
            final(self)@ == (BoomboxState {
                queue: QueueState {
                    failure: match old(self)@.queue.failure {
                        Some(first) => Some(first),
                        None => Some(error),
                    },
                    ..old(self)@.queue
                },
                ..old(self)@
            }),
    {
        self.queue.fail(error);
    }

    /// A handle through which the audio engine's callbacks signal the
    /// player's multiplexer.
    pub fn create_callback_notifier(&self) -> (notifier: CallbackNotifier)
        ensures
            notifier.queue() == self@.queue.queue,
    {
        self.queue.create_callback_notifier()
    }

    /// Gives up the player and returns the descriptor of the kernel queue,
    /// which the caller has to close.
    pub fn shutdown(self) -> (queue: Kqueue)
        ensures
            queue == self@.queue.queue,
    {
        self.queue.close()
    }
}

/// The player keeps itself consistent: opening a session and reacting to an
/// event lead from a consistent player to a consistent one. In particular no
/// timer is ever armed while playback is paused.
pub proof fn lemma_react_keeps_consistent(state: BoomboxState, event: Event)
    requires
        state.consistent(),
    ensures
        open_session(state).0.consistent(),
        react(state, event).0.consistent(),
{
}

/// A turn of the control loop leads from a consistent player to a consistent
/// one.
pub proof fn lemma_turn_keeps_consistent(state: BoomboxState)
    requires
        state.consistent(),
    ensures
        turn(state).0.consistent(),
{
    lemma_poll_keeps_timer(state.queue);
    let (queue, next) = poll(state.queue);
    let polled = BoomboxState { queue, ..state };
    if let Poll::Ready(event) = next {
        lemma_react_keeps_consistent(polled, event);
    }
}

/// What a read or a wait returned, and a failure that is recorded, leave a
/// consistent player consistent.
pub proof fn lemma_filling_keeps_consistent(
    state: BoomboxState,
    input: Seq<u8>,
    kernel: Seq<Kevent>,
    failure: Option<EventError>,
)
    requires
        state.consistent(),
    ensures
        (BoomboxState {
            queue: QueueState {
                input: state.queue.input + input,
                kernel: state.queue.kernel + kernel,
                failure,
                ..state.queue
            },
            ..state
        }).consistent(),
{
}

/// No tick while paused: while playback is paused, or no file is in play, a
/// turn of the control loop never takes a `UITick` from the multiplexer,
/// whatever the kernel has reported, and the timer is armed after the turn
/// only if the turn has resumed playback.
pub proof fn lemma_no_tick_while_paused(state: BoomboxState)
    requires
        state.consistent(),
        state.paused || !state.active,
    ensures
        poll(state.queue).1 != Poll::Ready(Event::UITick),
        turn(state).0.paused || !turn(state).0.active ==> !turn(state).0.queue.timer_armed,
{
    lemma_disarmed_timer_is_silent(state.queue);
    lemma_turn_keeps_consistent(state);
}

/// Only the engine ends a session: a file stays in play through every event
/// but `PlaybackFinished`, which ends it. A request to stop or to leave does
/// not end it by itself.
pub proof fn lemma_only_finish_ends_session(state: BoomboxState, event: Event)
    requires
        state.active,
    ensures
        react(state, event).0.active <==> event != Event::PlaybackFinished,
        event == Event::PlaybackFinished ==> !react(state, event).0.queue.timer_armed,
{
}

/// The player leaves exactly if the exit key was pressed during the
/// session: only that key sets the request, and nothing clears it before the
/// session has ended.
pub proof fn lemma_exit_is_remembered(state: BoomboxState, event: Event)
    requires
        state.active,
    ensures
        react(state, event).0.exit_requested <==> state.exit_requested || event == Event::ExitKeyPressed,
        outcome(react(state, event).0) == ControlFlow::<(), ()>::Break(()) <==> state.exit_requested
            || event == Event::ExitKeyPressed,
{
}

/// Pausing and resuming: from a consistent player that is playing, the pause
/// key cancels the timer exactly if it is armed and leaves it disarmed; a
/// second press arms it again and leaves the player as it was before the
/// first, but for the timer, which is now armed.
pub proof fn lemma_pause_then_resume(state: BoomboxState)
    requires
        state.consistent(),
        state.active,
        !state.paused,
    ensures
        react(state, Event::PauseKeyPressed).0.paused,
        !react(state, Event::PauseKeyPressed).0.queue.timer_armed,
        react(state, Event::PauseKeyPressed).1.contains(Command::PausePlayback),
        react(state, Event::PauseKeyPressed).1.contains(Command::CancelTimer(timer_cancel_change()))
            <==> state.queue.timer_armed,
        react(react(state, Event::PauseKeyPressed).0, Event::PauseKeyPressed).0 == (BoomboxState {
            queue: with_timer(state.queue, true),
            ..state
        }),
        react(react(state, Event::PauseKeyPressed).0, Event::PauseKeyPressed).1 == seq![
            Command::ResumePlayback,
            arm_timer(),
            Command::DisplayPlaybackState { paused: false },
            Command::Flush,
        ],
{
    let paused = react(state, Event::PauseKeyPressed);
    let commands = paused.1;
    if state.queue.timer_armed {
        assert(commands[0] == Command::PausePlayback);
        assert(commands[1] == Command::CancelTimer(timer_cancel_change()));
    } else {
        assert(commands[0] == Command::PausePlayback);
        assert(commands =~= seq![
            Command::PausePlayback,
            Command::DisplayPlaybackState { paused: true },
            Command::Flush,
        ]);
    }
    assert(react(paused.0, Event::PauseKeyPressed).0 =~= (BoomboxState {
        queue: with_timer(state.queue, true),
        ..state
    }));
}

/// Whether the gain is a fraction of full scale between zero and one.
pub open spec fn gain_in_range(gain: Gain) -> bool {
    gain.numerator <= gain.denominator && gain.denominator == MAX_VOLUME
}

/// Every gain that the control loop hands to the engine or to the screen
/// lies between zero and one.
pub proof fn lemma_gains_are_in_range(state: BoomboxState, event: Event, at: int)
    requires
        state.consistent(),
    ensures
        0 <= at < react(state, event).1.len() ==> match react(state, event).1[at] {
            Command::SetVolume(gain) => gain_in_range(gain),
            Command::DisplayVolume(gain) => gain_in_range(gain),
            _ => true,
        },
        0 <= at < open_session(state).1.len() ==> match open_session(state).1[at] {
            Command::SetVolume(gain) => gain_in_range(gain),
            Command::DisplayVolume(gain) => gain_in_range(gain),
            _ => true,
        },
{
}

} // verus!
