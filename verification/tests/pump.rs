use afqueue::events::{
    build_event_queue, Event, EventQueue, Kevent, Poll, AUDIO_QUEUE_PLAYBACK_FINISHED,
    AUDIO_QUEUE_PLAYBACK_STARTED, EVFILT_USER, NOTE_TRIGGER,
};
use afqueue::player::{
    AudioCallbackHandler, AudioFileID, AudioStreamBasicDescription, BridgeAction, PacketsRead,
    PlaybackContext, PumpAction, SystemErrorCode, AUDIO_QUEUE_ERROR_ENQUEUE_DURING_RESET,
};

const FILE: AudioFileID = AudioFileID { address: 0xbeef };

/// A constant bit rate format whose buffers take five packets of 3000 bytes.
fn cbr_context() -> PlaybackContext {
    let format = AudioStreamBasicDescription {
        sample_rate: 8,
        format_id: 0,
        format_flags: 0,
        bytes_per_packet: 3000,
        frames_per_packet: 1,
        bytes_per_frame: 3000,
        channels_per_frame: 1,
        bits_per_channel: 16,
    };
    PlaybackContext::new(FILE, format, 3000)
}

/// A variable bit rate format whose buffers take 160 packets.
fn vbr_context() -> PlaybackContext {
    let format = AudioStreamBasicDescription {
        sample_rate: 44100,
        format_id: 0,
        format_flags: 0,
        bytes_per_packet: 0,
        frames_per_packet: 0,
        bytes_per_frame: 0,
        channels_per_frame: 2,
        bits_per_channel: 0,
    };
    PlaybackContext::new(FILE, format, 2048)
}

fn handler_on(context: &PlaybackContext, queue: &EventQueue) -> AudioCallbackHandler {
    context.new_audio_callback_handler(queue.create_callback_notifier())
}

fn new_queue() -> EventQueue {
    build_event_queue(11).expect("a valid descriptor builds a queue").0
}

/// What stands in for the audio engine: a file of so many packets, and a
/// count of what the pump asked of the engine.
struct Engine {
    packets_in_file: i64,
    bytes_per_packet: u32,
    reads: Vec<(i64, u32, bool)>,
    enqueued: Vec<(u32, u32)>,
    async_stops: u32,
    reports: Vec<SystemErrorCode>,
    enqueue_status: Result<(), SystemErrorCode>,
}

impl Engine {
    fn with_packets(packets_in_file: i64) -> Engine {
        Engine {
            packets_in_file,
            bytes_per_packet: 3000,
            reads: Vec::new(),
            enqueued: Vec::new(),
            async_stops: 0,
            reports: Vec::new(),
            enqueue_status: Ok(()),
        }
    }

    /// One call of the fill callback, carried through to its end.
    fn fill(&mut self, handler: &mut AudioCallbackHandler) {
        let mut action = handler.handle_buffer();
        loop {
            action = match action {
                PumpAction::Idle => return,
                PumpAction::Read { file, from_packet, packets, with_descriptions } => {
                    assert_eq!(file, FILE);
                    self.reads.push((from_packet, packets, with_descriptions));
                    let left = (self.packets_in_file - from_packet).max(0);
                    let read = left.min(packets as i64) as u32;
                    handler.handle_packets_read(Ok(PacketsRead {
                        packets: read,
                        bytes: read * self.bytes_per_packet,
                    }))
                }
                PumpAction::Enqueue { byte_size, packet_description_count } => {
                    self.enqueued.push((byte_size, packet_description_count));
                    handler.handle_buffer_enqueued(self.enqueue_status)
                }
                PumpAction::StopAsync => {
                    self.async_stops += 1;
                    return;
                }
                PumpAction::Report(code) => {
                    self.reports.push(code);
                    return;
                }
            }
        }
    }
}

/// Submits a bridge action to the kernel queue, which reports a triggered
/// user event back to the multiplexer.
fn submit(queue: &mut EventQueue, action: BridgeAction) {
    if let BridgeAction::Trigger { queue: descriptor, change } = action {
        assert_eq!(descriptor, 11);
        queue.fill_events(&[change]);
    }
}

fn drain(queue: &mut EventQueue) -> Vec<Event> {
    let mut events = Vec::new();
    while let Poll::Ready(event) = queue.next_event() {
        events.push(event);
    }
    events
}

#[test]
fn fresh_pump_reads_from_the_first_packet() {
    let queue = new_queue();
    let mut handler = handler_on(&cbr_context(), &queue);
    assert_eq!(handler.current_packet(), 0);
    assert!(!handler.is_finished());
    assert_eq!(
        handler.handle_buffer(),
        PumpAction::Read { file: FILE, from_packet: 0, packets: 5, with_descriptions: false }
    );
}

#[test]
fn vbr_reads_are_given_packet_descriptions() {
    let queue = new_queue();
    let mut handler = handler_on(&vbr_context(), &queue);
    assert_eq!(
        handler.handle_buffer(),
        PumpAction::Read { file: FILE, from_packet: 0, packets: 160, with_descriptions: true }
    );
    assert_eq!(
        handler.handle_packets_read(Ok(PacketsRead { packets: 7, bytes: 9000 })),
        PumpAction::Enqueue { byte_size: 9000, packet_description_count: 7 }
    );
}

#[test]
fn cbr_buffers_carry_no_packet_descriptions() {
    let queue = new_queue();
    let mut handler = handler_on(&cbr_context(), &queue);
    handler.handle_buffer();
    assert_eq!(
        handler.handle_packets_read(Ok(PacketsRead { packets: 5, bytes: 15000 })),
        PumpAction::Enqueue { byte_size: 15000, packet_description_count: 0 }
    );
}

#[test]
fn cursor_waits_for_the_engine_to_take_the_buffer() {
    let queue = new_queue();
    let mut handler = handler_on(&cbr_context(), &queue);
    handler.handle_buffer();
    handler.handle_packets_read(Ok(PacketsRead { packets: 4, bytes: 12000 }));
    assert_eq!(handler.current_packet(), 0);
    assert_eq!(handler.handle_buffer_enqueued(Ok(())), PumpAction::Idle);
    assert_eq!(handler.current_packet(), 4);
    assert!(!handler.is_finished());
}

#[test]
fn cursor_advances_by_the_packets_read() {
    let queue = new_queue();
    let mut handler = handler_on(&cbr_context(), &queue);
    let mut engine = Engine::with_packets(13);
    let mut positions = vec![handler.current_packet()];
    for _ in 0..3 {
        engine.fill(&mut handler);
        positions.push(handler.current_packet());
    }
    assert_eq!(positions, vec![0, 5, 10, 13]);
    assert_eq!(engine.reads, vec![(0, 5, false), (5, 5, false), (10, 5, false)]);
    assert_eq!(engine.enqueued, vec![(15000, 0), (15000, 0), (9000, 0)]);
    assert!(!handler.is_finished());
}

#[test]
fn no_packet_is_read_twice() {
    let queue = new_queue();
    let mut handler = handler_on(&cbr_context(), &queue);
    let mut engine = Engine::with_packets(23);
    for _ in 0..10 {
        engine.fill(&mut handler);
    }
    let mut expected_start = 0;
    for (from_packet, _, _) in &engine.reads {
        assert_eq!(*from_packet, expected_start);
        expected_start = (expected_start + 5).min(23);
    }
    assert_eq!(handler.current_packet(), 23);
}

#[test]
fn empty_read_ends_the_file_and_asks_for_an_async_stop() {
    let queue = new_queue();
    let mut handler = handler_on(&cbr_context(), &queue);
    handler.handle_buffer();
    assert_eq!(
        handler.handle_packets_read(Ok(PacketsRead { packets: 0, bytes: 0 })),
        PumpAction::StopAsync
    );
    assert!(handler.is_finished());
    assert_eq!(handler.current_packet(), 0);
}

#[test]
fn failed_read_ends_the_file_and_is_reported() {
    let queue = new_queue();
    let mut handler = handler_on(&cbr_context(), &queue);
    handler.handle_buffer();
    assert_eq!(
        handler.handle_packets_read(Err(SystemErrorCode(-39))),
        PumpAction::Report(SystemErrorCode(-39))
    );
    assert!(handler.is_finished());
    assert_eq!(handler.handle_buffer(), PumpAction::Idle);
}

#[test]
fn enqueue_during_reset_ends_the_file_silently() {
    let queue = new_queue();
    let mut handler = handler_on(&cbr_context(), &queue);
    handler.handle_buffer();
    handler.handle_packets_read(Ok(PacketsRead { packets: 5, bytes: 15000 }));
    assert_eq!(
        handler.handle_buffer_enqueued(Err(SystemErrorCode(AUDIO_QUEUE_ERROR_ENQUEUE_DURING_RESET))),
        PumpAction::Idle
    );
    assert!(handler.is_finished());
    assert_eq!(handler.current_packet(), 0);
}

#[test]
fn other_enqueue_failure_ends_the_file_and_is_reported() {
    let queue = new_queue();
    let mut handler = handler_on(&cbr_context(), &queue);
    handler.handle_buffer();
    handler.handle_packets_read(Ok(PacketsRead { packets: 5, bytes: 15000 }));
    assert_eq!(
        handler.handle_buffer_enqueued(Err(SystemErrorCode(-66686))),
        PumpAction::Report(SystemErrorCode(-66686))
    );
    assert!(handler.is_finished());
    assert_eq!(handler.current_packet(), 0);
}

#[test]
fn finished_pump_ignores_every_further_call() {
    let queue = new_queue();
    let mut handler = handler_on(&cbr_context(), &queue);
    let mut engine = Engine::with_packets(2);
    engine.fill(&mut handler);
    engine.fill(&mut handler);
    assert!(handler.is_finished());
    assert_eq!(handler.current_packet(), 2);
    let reads = engine.reads.len();
    let enqueued = engine.enqueued.len();
    for _ in 0..50 {
        assert_eq!(handler.handle_buffer(), PumpAction::Idle);
        assert_eq!(
            handler.handle_packets_read(Ok(PacketsRead { packets: 5, bytes: 15000 })),
            PumpAction::Idle
        );
        assert_eq!(handler.handle_buffer_enqueued(Ok(())), PumpAction::Idle);
        assert_eq!(handler.handle_packets_read(Err(SystemErrorCode(-1))), PumpAction::Idle);
        assert_eq!(handler.handle_buffer_enqueued(Err(SystemErrorCode(-1))), PumpAction::Idle);
        engine.fill(&mut handler);
        assert!(handler.is_finished());
        assert_eq!(handler.current_packet(), 2);
    }
    assert_eq!(engine.reads.len(), reads);
    assert_eq!(engine.enqueued.len(), enqueued);
    assert_eq!(engine.async_stops, 1);
}

#[test]
fn stale_enqueue_status_moves_nothing() {
    let queue = new_queue();
    let mut handler = handler_on(&cbr_context(), &queue);
    assert_eq!(handler.handle_buffer_enqueued(Ok(())), PumpAction::Idle);
    assert_eq!(handler.current_packet(), 0);
    handler.handle_buffer();
    handler.handle_packets_read(Ok(PacketsRead { packets: 3, bytes: 9000 }));
    // A new fill starts before the status of the old one came in.
    handler.handle_buffer();
    assert_eq!(handler.handle_buffer_enqueued(Ok(())), PumpAction::Idle);
    assert_eq!(handler.current_packet(), 0);
}

#[test]
fn running_engine_is_signalled_as_started() {
    let queue = new_queue();
    let mut handler = handler_on(&cbr_context(), &queue);
    assert_eq!(
        handler.handle_running_state_change(Ok(1)),
        BridgeAction::Trigger {
            queue: 11,
            change: Kevent {
                ident: AUDIO_QUEUE_PLAYBACK_STARTED,
                filter: EVFILT_USER,
                flags: 0,
                fflags: NOTE_TRIGGER,
                data: 0,
                udata: 0
            }
        }
    );
}

#[test]
fn stopped_engine_is_signalled_as_finished_once() {
    let queue = new_queue();
    let mut handler = handler_on(&cbr_context(), &queue);
    handler.handle_running_state_change(Ok(1));
    assert_eq!(
        handler.handle_running_state_change(Ok(0)),
        BridgeAction::Trigger {
            queue: 11,
            change: Kevent {
                ident: AUDIO_QUEUE_PLAYBACK_FINISHED,
                filter: EVFILT_USER,
                flags: 0,
                fflags: NOTE_TRIGGER,
                data: 0,
                udata: 0
            }
        }
    );
    assert_eq!(handler.handle_running_state_change(Ok(0)), BridgeAction::Idle);
    assert_eq!(handler.handle_running_state_change(Ok(0)), BridgeAction::Idle);
}

#[test]
fn no_finish_signal_before_the_engine_ran() {
    let queue = new_queue();
    let mut handler = handler_on(&cbr_context(), &queue);
    assert_eq!(handler.handle_running_state_change(Ok(0)), BridgeAction::Idle);
    assert_eq!(handler.handle_running_state_change(Ok(0)), BridgeAction::Idle);
    handler.handle_running_state_change(Ok(1));
    assert!(matches!(
        handler.handle_running_state_change(Ok(0)),
        BridgeAction::Trigger { change: Kevent { ident: AUDIO_QUEUE_PLAYBACK_FINISHED, .. }, .. }
    ));
}

#[test]
fn unreadable_run_state_is_reported_and_changes_nothing() {
    let queue = new_queue();
    let mut handler = handler_on(&cbr_context(), &queue);
    assert_eq!(
        handler.handle_running_state_change(Err(SystemErrorCode(-50))),
        BridgeAction::Report(SystemErrorCode(-50))
    );
    // The failed reading did not count as a start.
    assert_eq!(handler.handle_running_state_change(Ok(0)), BridgeAction::Idle);
}

#[test]
fn bridge_leaves_the_pump_alone() {
    let queue = new_queue();
    let mut handler = handler_on(&cbr_context(), &queue);
    let mut engine = Engine::with_packets(7);
    engine.fill(&mut handler);
    handler.handle_running_state_change(Ok(1));
    handler.handle_running_state_change(Ok(0));
    assert_eq!(handler.current_packet(), 5);
    assert!(!handler.is_finished());
}

#[test]
fn short_file_is_played_to_its_end() {
    // A file of three packets, buffers of five: filling the buffers before
    // playback starts reads the three packets into the first buffer, finds
    // the file exhausted on the second and leaves the third alone.
    let mut queue = new_queue();
    let context = cbr_context();
    let layout = context.queue_layout();
    let mut handler = handler_on(&context, &queue);
    let mut engine = Engine::with_packets(3);
    for _ in 0..layout.buffer_count {
        engine.fill(&mut handler);
    }
    assert_eq!(engine.reads, vec![(0, 5, false), (3, 5, false)]);
    assert_eq!(engine.enqueued, vec![(9000, 0)]);
    assert_eq!(engine.async_stops, 1);
    assert!(engine.reports.is_empty());
    assert!(handler.is_finished());
    assert_eq!(handler.current_packet(), 3);

    // The engine starts, plays the one buffer and stops; it reports the
    // stop a second time for good measure.
    submit(&mut queue, handler.handle_running_state_change(Ok(1)));
    engine.fill(&mut handler);
    submit(&mut queue, handler.handle_running_state_change(Ok(0)));
    submit(&mut queue, handler.handle_running_state_change(Ok(0)));

    assert_eq!(drain(&mut queue), vec![Event::PlaybackStarted, Event::PlaybackFinished]);
    assert_eq!(engine.async_stops, 1);
    assert_eq!(handler.current_packet(), 3);
}
