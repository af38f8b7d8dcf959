//! The event multiplexer.
//!
//! Keyboard bytes, the user-interface timer, terminal resizes and the audio
//! engine's run-state signals all reach the player through one kernel queue.
//! `EventQueue` holds what has been read from that queue and from standard
//! input but not yet consumed, and turns it into one ordered stream of
//! `Event`s. It performs no system call itself: `next_event` either yields
//! an event or says which read or wait the caller has to perform, and the
//! functions that change the kernel's registrations return the change record
//! to submit.

use vstd::prelude::*;

verus! {

/// A kernel queue descriptor.
pub type Kqueue = i32;

/// Identifier of the user event that announces that playback has started.
pub const AUDIO_QUEUE_PLAYBACK_STARTED: u64 = 39;

/// Identifier of the user event that announces that playback has finished.
pub const AUDIO_QUEUE_PLAYBACK_FINISHED: u64 = 40;

/// Identifier of the user-interface timer.
pub const UI_TIMER_TICK: u64 = 41;

/// How many kernel events one wait asks for.
pub const KEVENT_BUFFER_SIZE: usize = 10;

/// How many bytes one read of standard input asks for.
pub const INPUT_BUFFER_SIZE: usize = 10;

/// Descriptor of standard input, as a kernel event identifier.
pub const STDIN_FILE_NUM: u64 = 0;

/// Signal number of a terminal resize.
pub const SIGWINCH: u64 = 28;

/// Filter: a descriptor is readable.
pub const EVFILT_READ: i16 = -1;

/// Filter: a signal was delivered.
pub const EVFILT_SIGNAL: i16 = -6;

/// Filter: a timer expired.
pub const EVFILT_TIMER: i16 = -7;

/// Filter: an event triggered by the program itself.
pub const EVFILT_USER: i16 = -10;

/// Action: add the event to the queue.
pub const EV_ADD: u16 = 0x1;

/// Action: remove the event from the queue.
pub const EV_DELETE: u16 = 0x2;

/// Action: let the queue report the event.
pub const EV_ENABLE: u16 = 0x4;

/// Action: report the event once, then remove it.
pub const EV_ONESHOT: u16 = 0x10;

/// Action: reset the event's state once it has been reported.
pub const EV_CLEAR: u16 = 0x20;

/// Filter flag: trigger a user event.
pub const NOTE_TRIGGER: u32 = 0x01000000;

/// Filter flag: the timer's period is in microseconds.
pub const NOTE_USECONDS: u32 = 0x00000002;

/// Action flags of the change that arms the user-interface timer.
pub const TIMER_ARM_FLAGS: u16 = EV_ADD | EV_ENABLE | EV_ONESHOT;

/// Action flags of the changes that register a user event.
pub const USER_EVENT_FLAGS: u16 = EV_ADD | EV_CLEAR;

/// Action flags of the change that registers standard input.
pub const INPUT_FLAGS: u16 = EV_ADD | EV_ENABLE;

/// What the control loop reacts to.
#[derive(Debug, Clone, Copy, PartialEq, Eq, Structural)]
pub enum Event {
    NextTrackKeyPressed,
    PauseKeyPressed,
    ExitKeyPressed,
    VolumeUpKeyPressed,
    VolumeDownKeyPressed,
    PlaybackStarted,
    PlaybackFinished,
    UITick,
    TerminalResized,
}

/// An interval, as the kernel queue takes it for the longest time a wait may
/// block.
#[derive(Debug, Clone, Copy, PartialEq, Eq, Structural)]
pub struct Timespec {
    pub tv_sec: i64,
    pub tv_nsec: i64,
}

/// One record of the kernel queue: a change handed to the kernel, or an event
/// that the kernel reports.
#[derive(Debug, Clone, Copy, PartialEq, Eq, Structural)]
pub struct Kevent {
    /// Identifier for this event.
    pub ident: u64,
    /// Filter for the event.
    pub filter: i16,
    /// Action flags for the queue.
    pub flags: u16,
    /// Filter flag value.
    pub fflags: u32,
    /// Filter data value.
    pub data: i64,
    /// Opaque user data identifier.
    pub udata: u64,
}

/// Why the event stream ended.
#[derive(Debug, Clone, Copy, PartialEq, Eq, Structural)]
pub enum EventError {
    /// Waiting on the kernel queue failed with this error number.
    Wait(i32),
    /// Reading standard input failed with this error number.
    Read(i32),
}

/// The outcome of asking the multiplexer for the next event.
#[derive(Debug, Clone, Copy, PartialEq, Eq, Structural)]
pub enum Poll {
    /// The next event of the stream.
    Ready(Event),
    /// The kernel reported standard input as readable. The caller reads up to
    /// `capacity` bytes from `descriptor` and hands what it got, which may be
    /// nothing, to `EventQueue::fill_input`.
    ReadInput { descriptor: i32, capacity: usize },
    /// Nothing is buffered. The caller blocks on `queue` for up to `capacity`
    /// events and hands them to `EventQueue::fill_events`. A `timeout` of
    /// `None` means that the wait has no time limit.
    Wait { queue: Kqueue, capacity: usize, timeout: Option<Timespec> },
    /// The stream has failed and yields no further event.
    Failed(EventError),
}

/// What a kernel event means to the multiplexer.
#[derive(Debug, Clone, Copy, PartialEq, Eq, Structural)]
pub enum Signal {
    /// Standard input has bytes to read.
    InputReady,
    /// The timer expired.
    Tick,
    /// An event that goes to the control loop as it is.
    Deliver(Event),
}

/// The key that a byte of input stands for, if any.
pub open spec fn key_event(key: char) -> Option<Event> {
    if key == 'n' {
        Some(Event::NextTrackKeyPressed)
    } else if key == 'q' {
        Some(Event::ExitKeyPressed)
    } else if key == 'p' {
        Some(Event::PauseKeyPressed)
    } else if key == ']' {
        Some(Event::VolumeUpKeyPressed)
    } else if key == '[' {
        Some(Event::VolumeDownKeyPressed)
    } else {
        None
    }
}

/// The meaning of a kernel event, if it is one that the multiplexer
/// registered.
pub open spec fn signal_of(event: Kevent) -> Option<Signal> {
    if event.ident == STDIN_FILE_NUM && event.filter == EVFILT_READ {
        Some(Signal::InputReady)
    } else if event.ident == AUDIO_QUEUE_PLAYBACK_STARTED && event.filter == EVFILT_USER {
        Some(Signal::Deliver(Event::PlaybackStarted))
    } else if event.ident == AUDIO_QUEUE_PLAYBACK_FINISHED && event.filter == EVFILT_USER {
        Some(Signal::Deliver(Event::PlaybackFinished))
    } else if event.ident == UI_TIMER_TICK && event.filter == EVFILT_TIMER {
        Some(Signal::Tick)
    } else if event.ident == SIGWINCH && event.filter == EVFILT_SIGNAL {
        Some(Signal::Deliver(Event::TerminalResized))
    } else {
        None
    }
}

/// Whether the multiplexer acts on a kernel event: it passes over events it
/// did not register, and over a timer expiry that arrives while no timer is
/// armed.
pub open spec fn is_live(event: Kevent, timer_armed: bool) -> bool {
    match signal_of(event) {
        None => false,
        Some(Signal::Tick) => timer_armed,
        Some(_) => true,
    }
}

/// The first key among `input`, with the bytes that follow it. Bytes that
/// stand for no key are dropped.
pub open spec fn take_key(input: Seq<u8>) -> (Option<Event>, Seq<u8>)
    decreases input.len(),
{
    if input.len() == 0 {
        (None, input)
    } else {
        match key_event(input[0] as char) {
            Some(event) => (Some(event), input.skip(1)),
            None => take_key(input.skip(1)),
        }
    }
}

/// The first kernel event among `kernel` that the multiplexer acts on, with
/// the events that follow it.
pub open spec fn take_signal(kernel: Seq<Kevent>, timer_armed: bool) -> (Option<Signal>, Seq<Kevent>)
    decreases kernel.len(),
{
    if kernel.len() == 0 {
        (None, kernel)
    } else if is_live(kernel[0], timer_armed) {
        (signal_of(kernel[0]), kernel.skip(1))
    } else {
        take_signal(kernel.skip(1), timer_armed)
    }
}

/// The change that arms the user-interface timer to expire once after `usec`
/// microseconds.
pub open spec fn timer_arm_change(usec: i64) -> Kevent {
    Kevent {
        ident: UI_TIMER_TICK,
        filter: EVFILT_TIMER,
        flags: TIMER_ARM_FLAGS,
        fflags: NOTE_USECONDS,
        data: usec,
        udata: 0,
    }
}

/// The change that removes the user-interface timer.
pub open spec fn timer_cancel_change() -> Kevent {
    Kevent { ident: UI_TIMER_TICK, filter: EVFILT_TIMER, flags: EV_DELETE, fflags: 0, data: 0, udata: 0 }
}

/// The change that triggers the user event `ident`.
pub open spec fn trigger_change(ident: u64) -> Kevent {
    Kevent { ident, filter: EVFILT_USER, flags: 0, fflags: NOTE_TRIGGER, data: 0, udata: 0 }
}

/// The changes that register the multiplexer's sources with a new kernel
/// queue: standard input, terminal resizes, and the two playback events.
pub open spec fn registration_changes() -> Seq<Kevent> {
    seq![
        Kevent { ident: STDIN_FILE_NUM, filter: EVFILT_READ, flags: INPUT_FLAGS, fflags: 0, data: 0, udata: 0 },
        Kevent { ident: SIGWINCH, filter: EVFILT_SIGNAL, flags: EV_ADD, fflags: 0, data: 0, udata: 0 },
        Kevent {
            ident: AUDIO_QUEUE_PLAYBACK_STARTED,
            filter: EVFILT_USER,
            flags: USER_EVENT_FLAGS,
            fflags: 0,
            data: 0,
            udata: 0,
        },
        Kevent {
            ident: AUDIO_QUEUE_PLAYBACK_FINISHED,
            filter: EVFILT_USER,
            flags: USER_EVENT_FLAGS,
            fflags: 0,
            data: 0,
            udata: 0,
        },
    ]
}

/// The key that `key` stands for, if any.
pub fn key_to_event(key: char) -> (event: Option<Event>)
    ensures
        event == key_event(key),
{
    if key == 'n' {
        Some(Event::NextTrackKeyPressed)
    } else if key == 'q' {
        Some(Event::ExitKeyPressed)
    } else if key == 'p' {
        Some(Event::PauseKeyPressed)
    } else if key == ']' {
        Some(Event::VolumeUpKeyPressed)
    } else if key == '[' {
        Some(Event::VolumeDownKeyPressed)
    } else {
        None
    }
}

impl Kevent {
    /// What this kernel event means, if the multiplexer registered it.
    pub fn signal(&self) -> (signal: Option<Signal>)
        ensures
            signal == signal_of(*self),
    {
        if self.ident == STDIN_FILE_NUM && self.filter == EVFILT_READ {
            Some(Signal::InputReady)
        } else if self.ident == AUDIO_QUEUE_PLAYBACK_STARTED && self.filter == EVFILT_USER {
            Some(Signal::Deliver(Event::PlaybackStarted))
        } else if self.ident == AUDIO_QUEUE_PLAYBACK_FINISHED && self.filter == EVFILT_USER {
            Some(Signal::Deliver(Event::PlaybackFinished))
        } else if self.ident == UI_TIMER_TICK && self.filter == EVFILT_TIMER {
            Some(Signal::Tick)
        } else if self.ident == SIGWINCH && self.filter == EVFILT_SIGNAL {
            Some(Signal::Deliver(Event::TerminalResized))
        } else {
            None
        }
    }
}

/// Bytes read from standard input and not yet consumed.
pub struct InputReader {
    buffer: Vec<u8>,
    next: usize,
    file_descriptor: i32,
}

impl InputReader {
    #[verifier::type_invariant]
    spec fn cursor_in_buffer(self) -> bool {
        self.next <= self.buffer@.len()
    }

    /// The bytes that `read` has yet to return, oldest first.
    pub closed spec fn pending(&self) -> Seq<u8> {
        self.buffer@.skip(self.next as int)
    }

    /// The descriptor that the bytes come from.
    pub closed spec fn descriptor(&self) -> i32 {
        self.file_descriptor
    }

    /// A reader for `file_descriptor` with nothing buffered.
    pub fn new(file_descriptor: i32) -> (reader: Self)
        ensures
            reader.pending() == Seq::<u8>::empty(),
            reader.descriptor() == file_descriptor,
    {
        InputReader { buffer: Vec::new(), next: 0, file_descriptor }
    }

    /// Takes in what one read of the descriptor returned. An empty read is
    /// not an error and not the end of input: it leaves the reader as it was.
    pub fn fill_buffer(&mut self, bytes: &[u8])
        ensures
            final(self).pending() == old(self).pending() + bytes@,
            final(self).descriptor() == old(self).descriptor(),
    {
        proof {
            use_type_invariant(&*self);
        }
        let mut fresh: Vec<u8> = Vec::new();
        let mut i: usize = self.next;
        while i < self.buffer.len()
            invariant
                self.next <= i <= self.buffer@.len(),
                fresh@ == self.buffer@.subrange(self.next as int, i as int),
            decreases self.buffer@.len() - i,
        {
            fresh.push(self.buffer[i]);
            i = i + 1;
        }
        let mut j: usize = 0;
        while j < bytes.len()
            invariant
                j <= bytes@.len(),
                fresh@ == self.buffer@.skip(self.next as int) + bytes@.subrange(0, j as int),
            decreases bytes@.len() - j,
        {
            fresh.push(bytes[j]);
            j = j + 1;
        }
        assert(bytes@.subrange(0, j as int) == bytes@);
        self.next = 0;
        self.buffer = fresh;
    }

    /// The oldest pending byte as a character, or `None` when nothing is
    /// pending.
    pub fn read(&mut self) -> (key: Option<char>)
        ensures
            final(self).descriptor() == old(self).descriptor(),
            old(self).pending().len() == 0 ==> key is None && final(self).pending() == old(
                self,
            ).pending(),
            old(self).pending().len() > 0 ==> key == Some(old(self).pending()[0] as char)
                && final(self).pending() == old(self).pending().skip(1),
    {
        proof {
            use_type_invariant(&*self);
        }
        if self.next == self.buffer.len() {
            return None;
        }
        let next_char = self.buffer[self.next] as char;
        self.next = self.next + 1;
        assert(self.buffer@.skip(self.next as int) == old(self).buffer@.skip(
            old(self).next as int,
        ).skip(1));
        Some(next_char)
    }
}

/// Events reported by the kernel queue and not yet consumed.
pub struct KQueueReader {
    buffer: Vec<Kevent>,
    kqueue: Kqueue,
    next: usize,
}

impl KQueueReader {
    #[verifier::type_invariant]
    spec fn cursor_in_buffer(self) -> bool {
        self.next <= self.buffer@.len()
    }

    /// The events that `read` has yet to return, oldest first.
    pub closed spec fn pending(&self) -> Seq<Kevent> {
        self.buffer@.skip(self.next as int)
    }

    /// The kernel queue that the events come from.
    pub closed spec fn queue(&self) -> Kqueue {
        self.kqueue
    }

    /// A reader for `kqueue` with nothing buffered.
    pub fn new(kqueue: Kqueue) -> (reader: Self)
        ensures
            reader.pending() == Seq::<Kevent>::empty(),
            reader.queue() == kqueue,
    {
        KQueueReader { buffer: Vec::new(), kqueue, next: 0 }
    }

    /// Takes in the events that one wait on the kernel queue returned.
    pub fn fill_buffer(&mut self, events: &[Kevent])
        ensures
            final(self).pending() == old(self).pending() + events@,
            final(self).queue() == old(self).queue(),
    {
        proof {
            use_type_invariant(&*self);
        }
        let mut fresh: Vec<Kevent> = Vec::new();
        let mut i: usize = self.next;
        while i < self.buffer.len()
            invariant
                self.next <= i <= self.buffer@.len(),
                fresh@ == self.buffer@.subrange(self.next as int, i as int),
            decreases self.buffer@.len() - i,
        {
            fresh.push(self.buffer[i]);
            i = i + 1;
        }
        let mut j: usize = 0;
        while j < events.len()
            invariant
                j <= events@.len(),
                fresh@ == self.buffer@.skip(self.next as int) + events@.subrange(0, j as int),
            decreases events@.len() - j,
        {
            fresh.push(events[j]);
            j = j + 1;
        }
        assert(events@.subrange(0, j as int) == events@);
        self.next = 0;
        self.buffer = fresh;
    }

    /// The oldest pending event, or `None` when the caller has to wait on the
    /// kernel queue for more.
    pub fn read(&mut self) -> (event: Option<Kevent>)
        ensures
            final(self).queue() == old(self).queue(),
            old(self).pending().len() == 0 ==> event is None && final(self).pending() == old(
                self,
            ).pending(),
            old(self).pending().len() > 0 ==> event == Some(old(self).pending()[0])
                && final(self).pending() == old(self).pending().skip(1),
    {
        proof {
            use_type_invariant(&*self);
        }
        if self.next == self.buffer.len() {
            return None;
        }
        let item = self.buffer[self.next];
        self.next = self.next + 1;
        assert(self.buffer@.skip(self.next as int) == old(self).buffer@.skip(
            old(self).next as int,
        ).skip(1));
        Some(item)
    }
}

/// What the multiplexer holds, as plain values.
#[verifier::ext_equal]
pub struct QueueState {
    /// Bytes read from standard input and not yet consumed, oldest first.
    pub input: Seq<u8>,
    /// Kernel events reported and not yet consumed, oldest first.
    pub kernel: Seq<Kevent>,
    /// Whether the user-interface timer is armed and its tick undelivered.
    pub timer_armed: bool,
    /// The failure that ended the stream, if one did.
    pub failure: Option<EventError>,
    /// The kernel queue behind the multiplexer.
    pub queue: Kqueue,
    /// The descriptor that keyboard input is read from.
    pub input_descriptor: i32,
}

/// The state of a multiplexer that has just been built on `kqueue`.
pub open spec fn initial_state(kqueue: Kqueue) -> QueueState {
    QueueState {
        input: Seq::empty(),
        kernel: Seq::empty(),
        timer_armed: false,
        failure: None,
        queue: kqueue,
        input_descriptor: STDIN_FILE_NUM as i32,
    }
}

/// One call of `next_event` on `state`: the state it leaves and what it
/// returns.
///
/// A failed stream stays failed. Otherwise buffered keys come first; when
/// none is left, the buffered kernel events are taken in order. A timer
/// expiry is delivered only while the timer is armed, and disarms it. When
/// nothing that is buffered yields an event, the caller is asked to wait,
/// without a time limit.
pub open spec fn poll(state: QueueState) -> (QueueState, Poll) {
    match state.failure {
        Some(error) => (state, Poll::Failed(error)),
        None => {
            let (key, input) = take_key(state.input);
            match key {
                Some(event) => (QueueState { input, ..state }, Poll::Ready(event)),
                None => {
                    let (signal, kernel) = take_signal(state.kernel, state.timer_armed);
                    let drained = QueueState { input, kernel, ..state };
                    match signal {
                        None => (
                            drained,
                            Poll::Wait { queue: state.queue, capacity: KEVENT_BUFFER_SIZE, timeout: None },
                        ),
                        Some(Signal::InputReady) => (
                            drained,
                            Poll::ReadInput {
                                descriptor: state.input_descriptor,
                                capacity: INPUT_BUFFER_SIZE,
                            },
                        ),
                        Some(Signal::Tick) => (
                            QueueState { timer_armed: false, ..drained },
                            Poll::Ready(Event::UITick),
                        ),
                        Some(Signal::Deliver(event)) => (drained, Poll::Ready(event)),
                    }
                },
            }
        },
    }
}

/// The multiplexer: one ordered stream of events for one consumer.
pub struct EventQueue {
    queue: Kqueue,
    queue_reader: KQueueReader,
    input_reader: InputReader,
    timer_armed: bool,
    failure: Option<EventError>,
}

impl View for EventQueue {
    type V = QueueState;

    closed spec fn view(&self) -> QueueState {
        QueueState {
            input: self.input_reader.pending(),
            kernel: self.queue_reader.pending(),
            timer_armed: self.timer_armed,
            failure: self.failure,
            queue: self.queue,
            input_descriptor: self.input_reader.descriptor(),
        }
    }
}

impl EventQueue {
    /// The next event, or the read or wait that has to happen before there
    /// can be one.
    pub fn next_event(&mut self) -> (next: Poll)
        ensures
            final(self)@ == poll(old(self)@).0,
            next == poll(old(self)@).1,
    {
        if let Some(error) = self.failure {
            return Poll::Failed(error);
        }
        let ghost start = self@;
        loop
            invariant
                start == old(self)@,
                self.failure is None,
                poll(self@) == poll(start),
            decreases self@.input.len() + self@.kernel.len(),
        {
            let ghost before = self@;
            if let Some(key) = self.input_reader.read() {
                match key_to_event(key) {
                    Some(event) => {
                        assert(self@ =~= poll(before).0);
                        return Poll::Ready(event);
                    },
                    None => {
                        assert(self@ =~= QueueState { input: before.input.skip(1), ..before });
                        continue ;
                    },
                }
            }
            match self.queue_reader.read() {
                None => {
                    assert(self@ =~= poll(before).0);
                    return Poll::Wait {
                        queue: self.queue,
                        capacity: KEVENT_BUFFER_SIZE,
                        timeout: None,
                    };
                },
                Some(event) => {
                    assert(self@ =~= QueueState { kernel: before.kernel.skip(1), ..before });
                    match event.signal() {
                        None => {},
                        Some(Signal::InputReady) => {
                            assert(self@ =~= poll(before).0);
                            return Poll::ReadInput {
                                descriptor: self.input_reader.file_descriptor,
                                capacity: INPUT_BUFFER_SIZE,
                            };
                        },
                        Some(Signal::Tick) => {
                            if self.timer_armed {
                                self.timer_armed = false;
                                assert(self@ =~= poll(before).0);
                                return Poll::Ready(Event::UITick);
                            }
                        },
                        Some(Signal::Deliver(event)) => {
                            assert(self@ =~= poll(before).0);
                            return Poll::Ready(event);
                        },
                    }
                },
            }
        }
    }

    /// Takes in what a read of standard input returned, after `next_event`
    /// asked for it. An empty read changes nothing.
    pub fn fill_input(&mut self, bytes: &[u8])
        ensures
            final(self)@ == (QueueState { input: old(self)@.input + bytes@, ..old(self)@ }),
            bytes@.len() == 0 ==> final(self)@ == old(self)@,
    {
        self.input_reader.fill_buffer(bytes);
        assert(bytes@.len() == 0 ==> old(self)@.input + bytes@ =~= old(self)@.input);
    }

    /// Takes in the events that a wait on the kernel queue returned, after
    /// `next_event` asked for it.
    pub fn fill_events(&mut self, events: &[Kevent])
        ensures
            final(self)@ == (QueueState { kernel: old(self)@.kernel + events@, ..old(self)@ }),
    {
        self.queue_reader.fill_buffer(events);
    }

    /// Records that the read or wait that `next_event` asked for has failed.
    /// The stream ends: every later `next_event` reports the first failure
    /// recorded.
    pub fn fail(&mut self, error: EventError)
        ensures
            final(self)@ == (QueueState {
                failure: match old(self)@.failure {
                    Some(first) => Some(first),
                    None => Some(error),
                },
                ..old(self)@
            }),
    {
        if self.failure.is_none() {
            self.failure = Some(error);
        }
    }

    /// A handle through which the audio engine's callbacks signal this queue.
    pub fn create_callback_notifier(&self) -> (notifier: CallbackNotifier)
        ensures
            notifier.queue() == self@.queue,
    {
        CallbackNotifier { queue: self.queue }
    }

    /// Arms the user-interface timer to deliver one `UITick` after `usec`
    /// microseconds, and returns the change to submit to the kernel queue.
    /// Arming an armed timer restarts it.
    pub fn enable_ui_timer_event(&mut self, usec: i64) -> (change: Kevent)
        ensures
            change == timer_arm_change(usec),
            final(self)@ == (QueueState { timer_armed: true, ..old(self)@ }),
    {
        self.timer_armed = true;
        Kevent {
            ident: UI_TIMER_TICK,
            filter: EVFILT_TIMER,
            flags: TIMER_ARM_FLAGS,
            fflags: NOTE_USECONDS,
            data: usec,
            udata: 0,
        }
    }

    /// Cancels the user-interface timer. While the timer is armed this
    /// returns the change to submit to the kernel queue, which may find that
    /// the timer has already expired there. While no timer is armed there is
    /// nothing to submit and nothing changes.
    pub fn disable_ui_timer_event(&mut self) -> (change: Option<Kevent>)
        ensures
            final(self)@ == (QueueState { timer_armed: false, ..old(self)@ }),
            change == if old(self)@.timer_armed {
                Some(timer_cancel_change())
            } else {
                None
            },
    {
        if self.timer_armed {
            self.timer_armed = false;
            Some(
                Kevent {
                    ident: UI_TIMER_TICK,
                    filter: EVFILT_TIMER,
                    flags: EV_DELETE,
                    fflags: 0,
                    data: 0,
                    udata: 0,
                },
            )
        } else {
            None
        }
    }

    /// Gives up the queue and returns the descriptor that the caller has to
    /// close.
    pub fn close(self) -> (queue: Kqueue)
        ensures
            queue == self@.queue,
    {
        self.queue
    }
}

/// The sending side of the multiplexer, for the audio engine's callbacks.
#[derive(Clone, Copy, Debug)]
pub struct CallbackNotifier {
    queue: Kqueue,
}

impl CallbackNotifier {
    /// The kernel queue that the notifier signals.
    pub closed spec fn queue(&self) -> Kqueue {
        self.queue
    }

    /// The kernel queue to submit the trigger changes to.
    pub fn descriptor(&self) -> (queue: Kqueue)
        ensures
            queue == self.queue(),
    {
        self.queue
    }

    /// The change that makes the queue deliver `PlaybackStarted`.
    pub fn trigger_playback_started_event(&mut self) -> (change: Kevent)
        ensures
            change == trigger_change(AUDIO_QUEUE_PLAYBACK_STARTED),
            signal_of(change) == Some(Signal::Deliver(Event::PlaybackStarted)),
            *final(self) == *old(self),
    {
        Kevent {
            ident: AUDIO_QUEUE_PLAYBACK_STARTED,
            filter: EVFILT_USER,
            flags: 0,
            fflags: NOTE_TRIGGER,
            data: 0,
            udata: 0,
        }
    }

    /// The change that makes the queue deliver `PlaybackFinished`.
    pub fn trigger_playback_finished_event(&mut self) -> (change: Kevent)
        ensures
            change == trigger_change(AUDIO_QUEUE_PLAYBACK_FINISHED),
            signal_of(change) == Some(Signal::Deliver(Event::PlaybackFinished)),
            *final(self) == *old(self),
    {
        Kevent {
            ident: AUDIO_QUEUE_PLAYBACK_FINISHED,
            filter: EVFILT_USER,
            flags: 0,
            fflags: NOTE_TRIGGER,
            data: 0,
            udata: 0,
        }
    }
}

/// Builds the multiplexer on a kernel queue that the caller has created, and
/// returns with it the changes that register its sources; the caller submits
/// them before the first wait. A negative descriptor is what a failed
/// creation returns: there is no queue then.
pub fn build_event_queue(kqueue: Kqueue) -> (built: Option<(EventQueue, Vec<Kevent>)>)
    ensures
        kqueue < 0 <==> built is None,
        built matches Some((queue, changes)) ==> queue@ == initial_state(kqueue) && changes@
            == registration_changes(),
{
    if kqueue < 0 {
        return None;
    }
    let mut changes: Vec<Kevent> = Vec::new();
    changes.push(
        Kevent {
            ident: STDIN_FILE_NUM,
            filter: EVFILT_READ,
            flags: INPUT_FLAGS,
            fflags: 0,
            data: 0,
            udata: 0,
        },
    );
    changes.push(
        Kevent { ident: SIGWINCH, filter: EVFILT_SIGNAL, flags: EV_ADD, fflags: 0, data: 0, udata: 0 },
    );
    changes.push(
        Kevent {
            ident: AUDIO_QUEUE_PLAYBACK_STARTED,
            filter: EVFILT_USER,
            flags: USER_EVENT_FLAGS,
            fflags: 0,
            data: 0,
            udata: 0,
        },
    );
    changes.push(
        Kevent {
            ident: AUDIO_QUEUE_PLAYBACK_FINISHED,
            filter: EVFILT_USER,
            flags: USER_EVENT_FLAGS,
            fflags: 0,
            data: 0,
            udata: 0,
        },
    );
    let queue = EventQueue {
        queue: kqueue,
        queue_reader: KQueueReader::new(kqueue),
        input_reader: InputReader::new(STDIN_FILE_NUM as i32),
        timer_armed: false,
        failure: None,
    };
    Some((queue, changes))
}

/// Whether the event is one that a key stands for.
pub open spec fn is_key_press(event: Event) -> bool {
    ||| event == Event::NextTrackKeyPressed
    ||| event == Event::PauseKeyPressed
    ||| event == Event::ExitKeyPressed
    ||| event == Event::VolumeUpKeyPressed
    ||| event == Event::VolumeDownKeyPressed
}

/// Taking a key from the input yields the first byte that stands for a key
/// and leaves what follows it; without such a byte it yields nothing and
/// leaves nothing.
pub proof fn lemma_take_key(input: Seq<u8>)
    ensures
        take_key(input).0 matches Some(event) ==> is_key_press(event) && exists|at: int|
            0 <= at < input.len() && key_event(#[trigger] input[at] as char) == Some(event)
                && take_key(input).1 == input.skip(at + 1) && forall|before: int|
                0 <= before < at ==> key_event(#[trigger] input[before] as char) is None,
        take_key(input).0 is None ==> take_key(input).1.len() == 0 && forall|at: int|
            0 <= at < input.len() ==> key_event(#[trigger] input[at] as char) is None,
    decreases input.len(),
{
    if input.len() > 0 {
        let rest = input.skip(1);
        match key_event(input[0] as char) {
            Some(event) => {
                assert(take_key(input).1 == input.skip(0int + 1));
            },
            None => {
                lemma_take_key(rest);
                if let Some(event) = take_key(rest).0 {
                    let at = choose|at: int|
                        0 <= at < rest.len() && key_event(#[trigger] rest[at] as char) == Some(event)
                            && take_key(rest).1 == rest.skip(at + 1) && forall|before: int|
                            0 <= before < at ==> key_event(#[trigger] rest[before] as char) is None;
                    assert(rest[at] == input[at + 1]);
                    assert(rest.skip(at + 1) =~= input.skip(at + 1 + 1));
                    assert forall|before: int| 0 <= before < at + 1 implies key_event(
                        #[trigger] input[before] as char,
                    ) is None by {
                        if before > 0 {
                            assert(input[before] == rest[before - 1]);
                        }
                    }
                } else {
                    assert forall|at: int| 0 <= at < input.len() implies key_event(
                        #[trigger] input[at] as char,
                    ) is None by {
                        if at > 0 {
                            assert(input[at] == rest[at - 1]);
                        }
                    }
                }
            },
        }
    }
}

/// Taking a signal from the kernel events yields the meaning of the first
/// one that the multiplexer acts on and leaves what follows it; without such
/// an event it yields nothing and leaves nothing.
pub proof fn lemma_take_signal(kernel: Seq<Kevent>, timer_armed: bool)
    ensures
        take_signal(kernel, timer_armed).0 matches Some(signal) ==> exists|at: int|
            0 <= at < kernel.len() && is_live(#[trigger] kernel[at], timer_armed) && signal_of(
                kernel[at],
            ) == Some(signal) && take_signal(kernel, timer_armed).1 == kernel.skip(at + 1)
                && forall|before: int|
                0 <= before < at ==> !is_live(#[trigger] kernel[before], timer_armed),
        take_signal(kernel, timer_armed).0 is None ==> take_signal(kernel, timer_armed).1.len() == 0
            && forall|at: int| 0 <= at < kernel.len() ==> !is_live(#[trigger] kernel[at], timer_armed),
    decreases kernel.len(),
{
    if kernel.len() > 0 {
        let rest = kernel.skip(1);
        if is_live(kernel[0], timer_armed) {
            assert(take_signal(kernel, timer_armed).1 == kernel.skip(0int + 1));
        } else {
            lemma_take_signal(rest, timer_armed);
            if let Some(signal) = take_signal(rest, timer_armed).0 {
                let at = choose|at: int|
                    0 <= at < rest.len() && is_live(#[trigger] rest[at], timer_armed) && signal_of(
                        rest[at],
                    ) == Some(signal) && take_signal(rest, timer_armed).1 == rest.skip(at + 1)
                        && forall|before: int|
                        0 <= before < at ==> !is_live(#[trigger] rest[before], timer_armed);
                assert(rest[at] == kernel[at + 1]);
                assert(rest.skip(at + 1) =~= kernel.skip(at + 1 + 1));
                assert forall|before: int| 0 <= before < at + 1 implies !is_live(
                    #[trigger] kernel[before],
                    timer_armed,
                ) by {
                    if before > 0 {
                        assert(kernel[before] == rest[before - 1]);
                    }
                }
            } else {
                assert forall|at: int| 0 <= at < kernel.len() implies !is_live(
                    #[trigger] kernel[at],
                    timer_armed,
                ) by {
                    if at > 0 {
                        assert(kernel[at] == rest[at - 1]);
                    }
                }
            }
        }
    }
}

/// Cancelling is idempotent and a disarmed timer is silent: while no timer
/// is armed the stream yields no `UITick`, whatever the kernel has reported,
/// and the timer stays disarmed.
pub proof fn lemma_disarmed_timer_is_silent(state: QueueState)
    requires
        !state.timer_armed,
    ensures
        poll(state).1 != Poll::Ready(Event::UITick),
        !poll(state).0.timer_armed,
{
    lemma_take_key(state.input);
    lemma_take_signal(state.kernel, false);
}

/// The timer is one-shot: `UITick` is delivered only while the timer is
/// armed, and delivering it disarms the timer.
pub proof fn lemma_tick_disarms_timer(state: QueueState)
    requires
        poll(state).1 == Poll::Ready(Event::UITick),
    ensures
        state.timer_armed,
        !poll(state).0.timer_armed,
{
    lemma_take_key(state.input);
    lemma_take_signal(state.kernel, state.timer_armed);
}

/// Nothing but the delivery of a tick disarms the timer, and nothing in
/// `next_event` arms it.
pub proof fn lemma_poll_keeps_timer(state: QueueState)
    ensures
        poll(state).0.timer_armed ==> state.timer_armed,
        poll(state).1 != Poll::Ready(Event::UITick) ==> poll(state).0.timer_armed == state.timer_armed,
        poll(state).0.failure == state.failure,
        poll(state).0.queue == state.queue,
        poll(state).0.input_descriptor == state.input_descriptor,
{
    lemma_take_key(state.input);
    lemma_take_signal(state.kernel, state.timer_armed);
}

/// A failed stream stays failed: it yields the failure, and only that, and
/// nothing that is buffered is consumed.
pub proof fn lemma_failure_is_final(state: QueueState)
    requires
        state.failure is Some,
    ensures
        poll(state) == (state, Poll::Failed(state.failure->Some_0)),
{
}

/// The caller is asked to wait only when nothing that is buffered can yield
/// an event, and a wait never has a time limit.
pub proof fn lemma_wait_means_drained(state: QueueState)
    requires
        poll(state).1 is Wait,
    ensures
        poll(state).1 == (Poll::Wait { queue: state.queue, capacity: KEVENT_BUFFER_SIZE, timeout: None }),
        poll(state).0.input.len() == 0,
        poll(state).0.kernel.len() == 0,
        forall|at: int| 0 <= at < state.input.len() ==> key_event(#[trigger] state.input[at] as char) is None,
        forall|at: int|
            0 <= at < state.kernel.len() ==> !is_live(#[trigger] state.kernel[at], state.timer_armed),
{
    lemma_take_key(state.input);
    lemma_take_signal(state.kernel, state.timer_armed);
}

/// Keys come first: while a byte that stands for a key is buffered, the next
/// event is the first such key, and no kernel event is consumed.
pub proof fn lemma_keys_come_first(state: QueueState, at: int)
    requires
        state.failure is None,
        0 <= at < state.input.len(),
        key_event(state.input[at] as char) is Some,
        forall|before: int| 0 <= before < at ==> key_event(#[trigger] state.input[before] as char) is None,
    ensures
        poll(state).1 == Poll::Ready(key_event(state.input[at] as char)->Some_0),
        poll(state).0 == (QueueState { input: state.input.skip(at + 1), ..state }),
{
    lemma_take_key(state.input);
    let found = take_key(state.input).0;
    assert(found is Some);
    let event = found->Some_0;
    let first = choose|first: int|
        0 <= first < state.input.len() && key_event(#[trigger] state.input[first] as char) == Some(event)
            && take_key(state.input).1 == state.input.skip(first + 1) && forall|before: int|
            0 <= before < first ==> key_event(#[trigger] state.input[before] as char) is None;
    assert(first == at);
}

/// Input is read only when the kernel has reported it readable: a read is
/// asked for only on taking such a report from the buffered kernel events,
/// after every buffered byte has been looked at.
pub proof fn lemma_read_follows_readiness(state: QueueState)
    requires
        poll(state).1 is ReadInput,
    ensures
        poll(state).1 == (Poll::ReadInput {
            descriptor: state.input_descriptor,
            capacity: INPUT_BUFFER_SIZE,
        }),
        poll(state).0.input.len() == 0,
        exists|at: int|
            0 <= at < state.kernel.len() && signal_of(#[trigger] state.kernel[at]) == Some(
                Signal::InputReady,
            ) && poll(state).0.kernel == state.kernel.skip(at + 1),
{
    lemma_take_key(state.input);
    lemma_take_signal(state.kernel, state.timer_armed);
}

/// Kernel events keep their order: when no buffered byte stands for a key,
/// the first buffered kernel event that the multiplexer acts on decides the
/// outcome, the events before it are dropped, and the events after it stay
/// buffered in their order.
pub proof fn lemma_kernel_events_keep_order(state: QueueState, at: int)
    requires
        state.failure is None,
        forall|i: int| 0 <= i < state.input.len() ==> key_event(#[trigger] state.input[i] as char) is None,
        0 <= at < state.kernel.len(),
        is_live(state.kernel[at], state.timer_armed),
        forall|before: int| 0 <= before < at ==> !is_live(#[trigger] state.kernel[before], state.timer_armed),
    ensures
        poll(state).1 == match signal_of(state.kernel[at]) {
            Some(Signal::Deliver(event)) => Poll::Ready(event),
            Some(Signal::Tick) => Poll::Ready(Event::UITick),
            _ => Poll::ReadInput { descriptor: state.input_descriptor, capacity: INPUT_BUFFER_SIZE },
        },
        poll(state).0.kernel == state.kernel.skip(at + 1),
        poll(state).0.input.len() == 0,
        poll(state).0.timer_armed == (state.timer_armed && signal_of(state.kernel[at]) != Some(Signal::Tick)),
{
    lemma_take_key(state.input);
    lemma_take_signal(state.kernel, state.timer_armed);
    let found = take_signal(state.kernel, state.timer_armed).0;
    assert(found is Some);
    let signal = found->Some_0;
    let first = choose|first: int|
        0 <= first < state.kernel.len() && is_live(#[trigger] state.kernel[first], state.timer_armed)
            && signal_of(state.kernel[first]) == Some(signal) && take_signal(
            state.kernel,
            state.timer_armed,
        ).1 == state.kernel.skip(first + 1) && forall|before: int|
            0 <= before < first ==> !is_live(#[trigger] state.kernel[before], state.timer_armed);
    assert(first == at);
}

} // verus!
