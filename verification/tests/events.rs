use afqueue::events::{
    build_event_queue, key_to_event, Event, EventError, EventQueue, InputReader, KQueueReader,
    Kevent, Poll, Signal, AUDIO_QUEUE_PLAYBACK_FINISHED, AUDIO_QUEUE_PLAYBACK_STARTED,
    EVFILT_READ, EVFILT_SIGNAL, EVFILT_TIMER, EVFILT_USER, EV_ADD, EV_CLEAR, EV_DELETE,
    EV_ENABLE, EV_ONESHOT, INPUT_BUFFER_SIZE, KEVENT_BUFFER_SIZE, NOTE_TRIGGER, NOTE_USECONDS,
    SIGWINCH, STDIN_FILE_NUM, UI_TIMER_TICK,
};

fn reported(ident: u64, filter: i16) -> Kevent {
    Kevent { ident, filter, flags: 0, fflags: 0, data: 0, udata: 0 }
}

fn new_queue() -> EventQueue {
    let (queue, _) = build_event_queue(7).expect("a valid descriptor builds a queue");
    queue
}

fn wait_on(queue: i32) -> Poll {
    Poll::Wait { queue, capacity: KEVENT_BUFFER_SIZE, timeout: None }
}

#[test]
fn keys_map_to_events() {
    assert_eq!(key_to_event('n'), Some(Event::NextTrackKeyPressed));
    assert_eq!(key_to_event('q'), Some(Event::ExitKeyPressed));
    assert_eq!(key_to_event('p'), Some(Event::PauseKeyPressed));
    assert_eq!(key_to_event(']'), Some(Event::VolumeUpKeyPressed));
    assert_eq!(key_to_event('['), Some(Event::VolumeDownKeyPressed));
}

#[test]
fn other_keys_map_to_nothing() {
    assert_eq!(key_to_event('x'), None);
    assert_eq!(key_to_event('N'), None);
    assert_eq!(key_to_event(' '), None);
    assert_eq!(key_to_event('\0'), None);
}

#[test]
fn kernel_events_are_classified() {
    assert_eq!(reported(STDIN_FILE_NUM, EVFILT_READ).signal(), Some(Signal::InputReady));
    assert_eq!(
        reported(AUDIO_QUEUE_PLAYBACK_STARTED, EVFILT_USER).signal(),
        Some(Signal::Deliver(Event::PlaybackStarted))
    );
    assert_eq!(
        reported(AUDIO_QUEUE_PLAYBACK_FINISHED, EVFILT_USER).signal(),
        Some(Signal::Deliver(Event::PlaybackFinished))
    );
    assert_eq!(reported(UI_TIMER_TICK, EVFILT_TIMER).signal(), Some(Signal::Tick));
    assert_eq!(
        reported(SIGWINCH, EVFILT_SIGNAL).signal(),
        Some(Signal::Deliver(Event::TerminalResized))
    );
}

#[test]
fn identifier_under_the_wrong_filter_is_unknown() {
    assert_eq!(reported(UI_TIMER_TICK, EVFILT_USER).signal(), None);
    assert_eq!(reported(AUDIO_QUEUE_PLAYBACK_FINISHED, EVFILT_TIMER).signal(), None);
    assert_eq!(reported(SIGWINCH, EVFILT_READ).signal(), None);
    assert_eq!(reported(99, EVFILT_USER).signal(), None);
}

#[test]
fn input_reader_hands_out_bytes_in_order() {
    let mut reader = InputReader::new(0);
    assert_eq!(reader.read(), None);
    reader.fill_buffer(b"pq");
    assert_eq!(reader.read(), Some('p'));
    assert_eq!(reader.read(), Some('q'));
    assert_eq!(reader.read(), None);
}

#[test]
fn input_reader_keeps_unread_bytes_on_refill() {
    let mut reader = InputReader::new(0);
    reader.fill_buffer(b"ab");
    assert_eq!(reader.read(), Some('a'));
    reader.fill_buffer(b"c");
    assert_eq!(reader.read(), Some('b'));
    assert_eq!(reader.read(), Some('c'));
    assert_eq!(reader.read(), None);
}

#[test]
fn input_reader_takes_an_empty_read() {
    let mut reader = InputReader::new(0);
    reader.fill_buffer(b"a");
    reader.fill_buffer(b"");
    assert_eq!(reader.read(), Some('a'));
    assert_eq!(reader.read(), None);
}

#[test]
fn kqueue_reader_hands_out_events_in_order() {
    let mut reader = KQueueReader::new(3);
    assert_eq!(reader.read(), None);
    let first = reported(SIGWINCH, EVFILT_SIGNAL);
    let second = reported(UI_TIMER_TICK, EVFILT_TIMER);
    reader.fill_buffer(&[first, second]);
    assert_eq!(reader.read(), Some(first));
    reader.fill_buffer(&[first]);
    assert_eq!(reader.read(), Some(second));
    assert_eq!(reader.read(), Some(first));
    assert_eq!(reader.read(), None);
}

#[test]
fn negative_descriptor_builds_no_queue() {
    assert!(build_event_queue(-1).is_none());
    assert!(build_event_queue(i32::MIN).is_none());
    assert!(build_event_queue(0).is_some());
}

#[test]
fn registrations_cover_the_four_sources() {
    let (_, changes) = build_event_queue(5).expect("a valid descriptor builds a queue");
    assert_eq!(
        changes,
        vec![
            Kevent {
                ident: STDIN_FILE_NUM,
                filter: EVFILT_READ,
                flags: EV_ADD | EV_ENABLE,
                fflags: 0,
                data: 0,
                udata: 0
            },
            Kevent { ident: SIGWINCH, filter: EVFILT_SIGNAL, flags: EV_ADD, fflags: 0, data: 0, udata: 0 },
            Kevent {
                ident: AUDIO_QUEUE_PLAYBACK_STARTED,
                filter: EVFILT_USER,
                flags: EV_ADD | EV_CLEAR,
                fflags: 0,
                data: 0,
                udata: 0
            },
            Kevent {
                ident: AUDIO_QUEUE_PLAYBACK_FINISHED,
                filter: EVFILT_USER,
                flags: EV_ADD | EV_CLEAR,
                fflags: 0,
                data: 0,
                udata: 0
            },
        ]
    );
}

#[test]
fn empty_queue_asks_for_an_unlimited_wait() {
    let mut queue = new_queue();
    assert_eq!(queue.next_event(), Poll::Wait { queue: 7, capacity: 10, timeout: None });
    assert_eq!(queue.next_event(), wait_on(7));
}

#[test]
fn readable_input_asks_for_a_read() {
    let mut queue = new_queue();
    queue.fill_events(&[reported(STDIN_FILE_NUM, EVFILT_READ)]);
    assert_eq!(
        queue.next_event(),
        Poll::ReadInput { descriptor: 0, capacity: INPUT_BUFFER_SIZE }
    );
    queue.fill_input(b"p");
    assert_eq!(queue.next_event(), Poll::Ready(Event::PauseKeyPressed));
    assert_eq!(queue.next_event(), wait_on(7));
}

#[test]
fn spurious_readiness_is_no_error() {
    let mut queue = new_queue();
    queue.fill_events(&[reported(STDIN_FILE_NUM, EVFILT_READ)]);
    assert_eq!(
        queue.next_event(),
        Poll::ReadInput { descriptor: 0, capacity: INPUT_BUFFER_SIZE }
    );
    queue.fill_input(b"");
    assert_eq!(queue.next_event(), wait_on(7));
    queue.fill_events(&[reported(STDIN_FILE_NUM, EVFILT_READ)]);
    assert_eq!(
        queue.next_event(),
        Poll::ReadInput { descriptor: 0, capacity: INPUT_BUFFER_SIZE }
    );
    queue.fill_input(b"q");
    assert_eq!(queue.next_event(), Poll::Ready(Event::ExitKeyPressed));
}

#[test]
fn unknown_keys_are_dropped() {
    let mut queue = new_queue();
    queue.fill_input(b"xyz]ab[c");
    assert_eq!(queue.next_event(), Poll::Ready(Event::VolumeUpKeyPressed));
    assert_eq!(queue.next_event(), Poll::Ready(Event::VolumeDownKeyPressed));
    assert_eq!(queue.next_event(), wait_on(7));
}

#[test]
fn keys_come_before_kernel_events() {
    let mut queue = new_queue();
    queue.fill_events(&[reported(SIGWINCH, EVFILT_SIGNAL)]);
    queue.fill_input(b"n");
    assert_eq!(queue.next_event(), Poll::Ready(Event::NextTrackKeyPressed));
    assert_eq!(queue.next_event(), Poll::Ready(Event::TerminalResized));
    assert_eq!(queue.next_event(), wait_on(7));
}

#[test]
fn kernel_events_keep_their_order() {
    let mut queue = new_queue();
    queue.fill_events(&[
        reported(AUDIO_QUEUE_PLAYBACK_STARTED, EVFILT_USER),
        reported(1234, EVFILT_USER),
        reported(SIGWINCH, EVFILT_SIGNAL),
        reported(AUDIO_QUEUE_PLAYBACK_FINISHED, EVFILT_USER),
    ]);
    assert_eq!(queue.next_event(), Poll::Ready(Event::PlaybackStarted));
    assert_eq!(queue.next_event(), Poll::Ready(Event::TerminalResized));
    assert_eq!(queue.next_event(), Poll::Ready(Event::PlaybackFinished));
    assert_eq!(queue.next_event(), wait_on(7));
}

#[test]
fn arming_the_timer_returns_a_one_shot_change() {
    let mut queue = new_queue();
    let change = queue.enable_ui_timer_event(33333);
    assert_eq!(
        change,
        Kevent {
            ident: UI_TIMER_TICK,
            filter: EVFILT_TIMER,
            flags: EV_ADD | EV_ENABLE | EV_ONESHOT,
            fflags: NOTE_USECONDS,
            data: 33333,
            udata: 0
        }
    );
    assert_eq!(change.flags, 0x15);
}

#[test]
fn armed_timer_yields_exactly_one_tick() {
    let mut queue = new_queue();
    queue.enable_ui_timer_event(1000);
    queue.fill_events(&[
        reported(UI_TIMER_TICK, EVFILT_TIMER),
        reported(UI_TIMER_TICK, EVFILT_TIMER),
    ]);
    assert_eq!(queue.next_event(), Poll::Ready(Event::UITick));
    assert_eq!(queue.next_event(), wait_on(7));
    queue.enable_ui_timer_event(1000);
    queue.fill_events(&[reported(UI_TIMER_TICK, EVFILT_TIMER)]);
    assert_eq!(queue.next_event(), Poll::Ready(Event::UITick));
}

#[test]
fn cancel_without_timer_is_a_no_op() {
    let mut queue = new_queue();
    assert_eq!(queue.disable_ui_timer_event(), None);
    assert_eq!(queue.disable_ui_timer_event(), None);
    queue.fill_events(&[reported(UI_TIMER_TICK, EVFILT_TIMER)]);
    assert_eq!(queue.next_event(), wait_on(7));
}

#[test]
fn cancel_returns_the_delete_change_once() {
    let mut queue = new_queue();
    queue.enable_ui_timer_event(1000);
    assert_eq!(
        queue.disable_ui_timer_event(),
        Some(Kevent {
            ident: UI_TIMER_TICK,
            filter: EVFILT_TIMER,
            flags: EV_DELETE,
            fflags: 0,
            data: 0,
            udata: 0
        })
    );
    assert_eq!(queue.disable_ui_timer_event(), None);
}

#[test]
fn cancelled_timer_drops_a_tick_in_flight() {
    let mut queue = new_queue();
    queue.enable_ui_timer_event(1000);
    queue.fill_events(&[
        reported(UI_TIMER_TICK, EVFILT_TIMER),
        reported(SIGWINCH, EVFILT_SIGNAL),
    ]);
    assert!(queue.disable_ui_timer_event().is_some());
    assert_eq!(queue.next_event(), Poll::Ready(Event::TerminalResized));
    assert_eq!(queue.next_event(), wait_on(7));
}

#[test]
fn failed_wait_ends_the_stream() {
    let mut queue = new_queue();
    queue.fill_input(b"p");
    queue.fail(EventError::Wait(9));
    assert_eq!(queue.next_event(), Poll::Failed(EventError::Wait(9)));
    queue.fill_events(&[reported(SIGWINCH, EVFILT_SIGNAL)]);
    assert_eq!(queue.next_event(), Poll::Failed(EventError::Wait(9)));
}

#[test]
fn first_failure_is_the_one_reported() {
    let mut queue = new_queue();
    queue.fail(EventError::Read(5));
    queue.fail(EventError::Wait(9));
    assert_eq!(queue.next_event(), Poll::Failed(EventError::Read(5)));
}

#[test]
fn notifier_builds_trigger_changes() {
    let queue = new_queue();
    let mut notifier = queue.create_callback_notifier();
    assert_eq!(notifier.descriptor(), 7);
    assert_eq!(
        notifier.trigger_playback_started_event(),
        Kevent {
            ident: AUDIO_QUEUE_PLAYBACK_STARTED,
            filter: EVFILT_USER,
            flags: 0,
            fflags: NOTE_TRIGGER,
            data: 0,
            udata: 0
        }
    );
    assert_eq!(
        notifier.trigger_playback_finished_event(),
        Kevent {
            ident: AUDIO_QUEUE_PLAYBACK_FINISHED,
            filter: EVFILT_USER,
            flags: 0,
            fflags: NOTE_TRIGGER,
            data: 0,
            udata: 0
        }
    );
}

#[test]
fn triggered_changes_come_back_as_playback_events() {
    let mut queue = new_queue();
    let mut notifier = queue.create_callback_notifier();
    let started = notifier.trigger_playback_started_event();
    let finished = notifier.trigger_playback_finished_event();
    queue.fill_events(&[started, finished]);
    assert_eq!(queue.next_event(), Poll::Ready(Event::PlaybackStarted));
    assert_eq!(queue.next_event(), Poll::Ready(Event::PlaybackFinished));
}

#[test]
fn close_returns_the_descriptor() {
    let queue = new_queue();
    assert_eq!(queue.close(), 7);
}
