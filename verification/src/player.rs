//! Playback state: buffer sizing, the buffer pump, the run-state bridge and
//! the volume control.
//!
//! The audio engine itself is out of reach of this module. Each function here
//! is one decision of the player: it takes what the engine reported and says
//! what the engine is to be asked next.

use crate::events::{
    trigger_change, CallbackNotifier, Kevent, Kqueue, AUDIO_QUEUE_PLAYBACK_FINISHED,
    AUDIO_QUEUE_PLAYBACK_STARTED,
};
use crate::text::{append_decimal, append_natural, decimal, digits};
use vstd::prelude::*;
use vstd::string::{StringExecFns, StringSliceAdditionalSpecFns};

verus! {

/// Smallest buffer, in bytes, for a format whose packet layout is known.
pub const LOWER_BUFFER_SIZE_HINT: u32 = 0x4000;

/// Largest buffer, in bytes, for a format whose packet layout is known.
pub const UPPER_BUFFER_SIZE_HINT: u32 = 0x50000;

/// A buffer aims to hold one second of audio divided by this: half a second.
pub const BUFFERS_PER_SECOND: u64 = 2;

/// How many buffers circulate between the player and the engine.
pub const BUFFER_COUNT: usize = 3;

/// Run state that the engine reports once it has stopped.
pub const AUDIO_QUEUE_RUN_STATE_STOPPED: u32 = 0;

/// Status of a resubmission that reached the engine while it was resetting.
pub const AUDIO_QUEUE_ERROR_ENQUEUE_DURING_RESET: i32 = -66632;

/// Status of a query that needs a running engine and found none.
pub const AUDIO_QUEUE_ERROR_INVALID_RUN_STATE: i32 = -66678;

/// Status of a query for a property that the file does not have.
pub const AUDIO_FILE_ERROR_UNSUPPORTED_PROPERTY: i32 = 0x7074793F;

/// A status other than success, as the audio engine reported it.
#[derive(Debug, Clone, Copy, PartialEq, Eq, Structural)]
pub struct SystemErrorCode(pub i32);

impl SystemErrorCode {
    /// The status as the engine reported it.
    pub fn code(&self) -> (code: i32)
        ensures
            code == self.0,
    {
        self.0
    }

    /// Reads a status: zero is success, anything else is an error that
    /// carries the status.
    pub fn check(status: i32) -> (checked: Result<(), SystemErrorCode>)
        ensures
            checked == status_result(status),
    {
        if status == 0 {
            Ok(())
        } else {
            Err(SystemErrorCode(status))
        }
    }
}

/// What a status means: zero is success, anything else an error.
pub open spec fn status_result(status: i32) -> Result<(), SystemErrorCode> {
    if status == 0 {
        Ok(())
    } else {
        Err(SystemErrorCode(status))
    }
}

/// Why a string cannot name a file.
#[derive(Debug, Clone, Copy, PartialEq, Eq, Structural)]
pub enum PathError {
    /// The string holds a zero byte, the first one at this position.
    InteriorNull(usize),
    /// The string is empty.
    PathIsEmpty,
}

/// Why a file cannot be played.
#[derive(Debug, PartialEq, Eq)]
pub enum PlaybackError {
    /// The path is no path.
    Path(PathError),
    /// The audio engine refused.
    System(SystemErrorCode),
    /// The operating system refused; the text is its description of why.
    IO(String),
}

impl From<PathError> for PlaybackError {
    fn from(err: PathError) -> (error: PlaybackError) {
        PlaybackError::Path(err)
    }
}

impl vstd::std_specs::convert::FromSpecImpl<PathError> for PlaybackError {
    open spec fn obeys_from_spec() -> bool {
        true
    }

    open spec fn from_spec(err: PathError) -> PlaybackError {
        PlaybackError::Path(err)
    }
}

impl From<SystemErrorCode> for PlaybackError {
    fn from(err: SystemErrorCode) -> (error: PlaybackError) {
        PlaybackError::System(err)
    }
}

impl vstd::std_specs::convert::FromSpecImpl<SystemErrorCode> for PlaybackError {
    open spec fn obeys_from_spec() -> bool {
        true
    }

    open spec fn from_spec(err: SystemErrorCode) -> PlaybackError {
        PlaybackError::System(err)
    }
}

/// What a path error says.
pub open spec fn path_error_text(error: PathError) -> Seq<char> {
    match error {
        PathError::InteriorNull(at) => "Path contained a null: nul byte found in provided data at position: "@
            + digits(at as nat),
        PathError::PathIsEmpty => "Attempted to interpret an empty string as a path"@,
    }
}

/// What a playback error says.
pub open spec fn playback_error_text(error: PlaybackError) -> Seq<char> {
    match error {
        PlaybackError::Path(error) => "supplied string is not a valid path: "@ + path_error_text(error),
        PlaybackError::System(SystemErrorCode(code)) => "encountered system error with code '"@
            + decimal(code as int) + "'"@,
        PlaybackError::IO(text) => "encountered IO error '"@ + text@ + "'"@,
    }
}

impl SystemErrorCode {
    /// The status in decimal.
    pub fn message(&self) -> (text: String)
        ensures
            text@ == decimal(self.0 as int),
    {
        let mut text = String::new();
        append_decimal(&mut text, self.0 as i64);
        assert(text@ =~= decimal(self.0 as int));
        text
    }
}

impl PathError {
    /// What the error says.
    pub fn message(&self) -> (text: String)
        ensures
            text@ == path_error_text(*self),
    {
        match self {
            PathError::InteriorNull(at) => {
                let mut text = String::from_str(
                    "Path contained a null: nul byte found in provided data at position: ",
                );
                append_natural(&mut text, *at as u64);
                text
            },
            PathError::PathIsEmpty => String::from_str(
                "Attempted to interpret an empty string as a path",
            ),
        }
    }
}

impl PlaybackError {
    /// What the error says.
    pub fn message(&self) -> (text: String)
        ensures
            text@ == playback_error_text(*self),
    {
        match self {
            PlaybackError::Path(error) => {
                let mut text = String::from_str("supplied string is not a valid path: ");
                let reason = error.message();
                text.append(reason.as_str());
                text
            },
            PlaybackError::System(error) => {
                let mut text = String::from_str("encountered system error with code '");
                append_decimal(&mut text, error.0 as i64);
                text.append("'");
                text
            },
            PlaybackError::IO(reason) => {
                let mut text = String::from_str("encountered IO error '");
                text.append(reason.as_str());
                text.append("'");
                text
            },
        }
    }
}

/// Checks that a string can name a file for the audio engine, and returns
/// its bytes. The engine takes the name as a string that a zero byte ends,
/// so the name can hold none, and it cannot be empty.
pub fn cstring_path(path: &str) -> (checked: Result<Vec<u8>, PathError>)
    ensures
        match checked {
            Ok(bytes) => path.spec_bytes().len() > 0 && !path.spec_bytes().contains(0u8) && bytes@
                == path.spec_bytes(),
            Err(PathError::PathIsEmpty) => path.spec_bytes().len() == 0,
            Err(PathError::InteriorNull(at)) => at < path.spec_bytes().len() && path.spec_bytes()[at as int]
                == 0u8 && forall|before: int| 0 <= before < at ==> path.spec_bytes()[before] != 0u8,
        },
{
    let bytes = path.as_bytes();
    if bytes.len() == 0 {
        return Err(PathError::PathIsEmpty);
    }
    let mut copy: Vec<u8> = Vec::new();
    let mut at: usize = 0;
    while at < bytes.len()
        invariant
            bytes@ == path.spec_bytes(),
            at <= bytes@.len(),
            copy@ == bytes@.subrange(0, at as int),
            forall|before: int| 0 <= before < at ==> bytes@[before] != 0u8,
        decreases bytes@.len() - at,
    {
        if bytes[at] == 0 {
            return Err(PathError::InteriorNull(at));
        }
        copy.push(bytes[at]);
        at = at + 1;
    }
    assert(bytes@.subrange(0, at as int) == bytes@);
    Ok(copy)
}

/// Reads the answer to the question how large a file's magic cookie is: the
/// size of the cookie to fetch, or `None` where the file has none, which is
/// the case when its format has no such property or the cookie is empty.
pub fn magic_cookie_size(status: i32, cookie_size: u32) -> (size: Result<Option<u32>, SystemErrorCode>)
    ensures
        size == if status == AUDIO_FILE_ERROR_UNSUPPORTED_PROPERTY || cookie_size == 0 {
            Ok(None)
        } else if status != 0 {
            Err(SystemErrorCode(status))
        } else {
            Ok(Some(cookie_size))
        },
{
    if status == AUDIO_FILE_ERROR_UNSUPPORTED_PROPERTY || cookie_size == 0 {
        Ok(None)
    } else if status != 0 {
        Err(SystemErrorCode(status))
    } else {
        Ok(Some(cookie_size))
    }
}

/// Reads the status of a query for the playback position: whether the engine
/// gave one. An engine that is starting up or shutting down has no position
/// to give, and that is no error.
pub fn playback_time_is_available(status: i32) -> (available: Result<bool, SystemErrorCode>)
    ensures
        available == if status == AUDIO_QUEUE_ERROR_INVALID_RUN_STATE {
            Ok(false)
        } else if status != 0 {
            Err(SystemErrorCode(status))
        } else {
            Ok(true)
        },
{
    if status == AUDIO_QUEUE_ERROR_INVALID_RUN_STATE {
        Ok(false)
    } else if status != 0 {
        Err(SystemErrorCode(status))
    } else {
        Ok(true)
    }
}

/// The two meters that are drawn, left and right, out of `meter_count`: a
/// single channel is drawn twice, and of more than two the first two are
/// drawn. With no channel there is nothing to draw.
pub fn stereo_meters(meter_count: usize) -> (meters: Option<(usize, usize)>)
    ensures
        meters == if meter_count == 0 {
            None
        } else if meter_count == 1 {
            Some((0usize, 0usize))
        } else {
            Some((0usize, 1usize))
        },
{
    if meter_count == 0 {
        None
    } else if meter_count == 1 {
        Some((0, 0))
    } else {
        Some((0, 1))
    }
}

/// An open audio file, named by the address of the engine's handle.
#[derive(Debug, Clone, Copy, PartialEq, Eq, Structural)]
pub struct AudioFileID {
    pub address: usize,
}

/// The format of an audio stream. A field that is zero is unknown or does
/// not apply to the format.
#[derive(Debug, Clone, Copy, PartialEq, Eq, Structural)]
pub struct AudioStreamBasicDescription {
    /// Frames per second of decoded audio, a fractional rate rounded up.
    pub sample_rate: u64,
    /// General kind of data in the stream.
    pub format_id: u32,
    /// Flags for the format indicated by `format_id`.
    pub format_flags: u32,
    /// Number of bytes in each packet.
    pub bytes_per_packet: u32,
    /// Number of sample frames in each packet.
    pub frames_per_packet: u32,
    /// Number of bytes in a sample frame.
    pub bytes_per_frame: u32,
    /// Number of channels in each frame of data.
    pub channels_per_frame: u32,
    /// Number of bits of sample data for each channel.
    pub bits_per_channel: u32,
}

/// `dividend / divisor`, rounded up.
pub open spec fn div_ceil(dividend: int, divisor: int) -> int
    recommends
        dividend >= 0,
        divisor > 0,
{
    if dividend % divisor == 0 {
        dividend / divisor
    } else {
        dividend / divisor + 1
    }
}

/// The number of packets that cover one buffer's share of a second, for a
/// format with a known number of frames per packet. No count is larger than
/// `u32::MAX`.
pub open spec fn packets_per_period(format: AudioStreamBasicDescription) -> int
    recommends
        format.frames_per_packet != 0,
{
    let packets = div_ceil(format.sample_rate as int, BUFFERS_PER_SECOND * format.frames_per_packet);
    if packets > u32::MAX {
        u32::MAX as int
    } else {
        packets
    }
}

/// The byte size of each buffer for a file of this format whose packets are
/// at most `max_packet_size` bytes long.
///
/// Where the frames per packet are known, the buffer is tailored to one
/// buffer's share of a second and kept between the two size hints. Where they
/// are not, it is the upper hint, or one packet if that is larger.
pub open spec fn buffer_size_for(format: AudioStreamBasicDescription, max_packet_size: u32) -> int {
    if format.frames_per_packet != 0 {
        let size = packets_per_period(format) * max_packet_size;
        if size < LOWER_BUFFER_SIZE_HINT {
            LOWER_BUFFER_SIZE_HINT as int
        } else if size > UPPER_BUFFER_SIZE_HINT {
            UPPER_BUFFER_SIZE_HINT as int
        } else {
            size
        }
    } else if max_packet_size > UPPER_BUFFER_SIZE_HINT {
        max_packet_size as int
    } else {
        UPPER_BUFFER_SIZE_HINT as int
    }
}

/// Whether packets of this format vary in size: they do when the bytes or the
/// frames per packet are unknown.
pub open spec fn format_is_vbr(format: AudioStreamBasicDescription) -> bool {
    format.bytes_per_packet == 0 || format.frames_per_packet == 0
}

/// What the engine is asked to allocate for one file.
#[derive(Debug, Clone, Copy, PartialEq, Eq, Structural)]
pub struct QueueLayout {
    /// How many buffers to allocate.
    pub buffer_count: usize,
    /// The byte size of each buffer.
    pub buffer_size: u32,
    /// How many packet descriptions each buffer has room for.
    pub packet_descriptions: u32,
    /// How many level meters to keep, one per channel.
    pub meter_count: u32,
}

/// An open file with the buffer sizes derived from its format.
#[derive(Debug, Clone, Copy, PartialEq, Eq, Structural)]
pub struct PlaybackContext {
    playback_file: AudioFileID,
    format: AudioStreamBasicDescription,
    buffer_size: u32,
    is_vbr: bool,
    packets_per_buffer: u32,
}

impl PlaybackContext {
    /// The open file.
    pub closed spec fn file(&self) -> AudioFileID {
        self.playback_file
    }

    /// The format of the file.
    pub closed spec fn format(&self) -> AudioStreamBasicDescription {
        self.format
    }

    /// The byte size of each buffer.
    pub closed spec fn buffer_size(&self) -> u32 {
        self.buffer_size
    }

    /// Whether the file's packets vary in size.
    pub closed spec fn is_vbr(&self) -> bool {
        self.is_vbr
    }

    /// How many packets one fill of a buffer reads.
    pub closed spec fn packets_per_buffer(&self) -> u32 {
        self.packets_per_buffer
    }

    /// Derives the buffer sizes for an open file from its format and from the
    /// largest size that a packet of it can have.
    pub fn new(
        playback_file: AudioFileID,
        format: AudioStreamBasicDescription,
        max_packet_size: u32,
    ) -> (context: Self)
        requires
            max_packet_size > 0,
        ensures
            context.file() == playback_file,
            context.format() == format,
            context.buffer_size() == buffer_size_for(format, max_packet_size),
            context.is_vbr() == format_is_vbr(format),
            context.packets_per_buffer() == context.buffer_size() / max_packet_size,
    {
        let buffer_size: u32 = if format.frames_per_packet != 0 {
            let span: u64 = BUFFERS_PER_SECOND * (format.frames_per_packet as u64);
            let whole: u64 = format.sample_rate / span;
            assert(whole < u64::MAX) by (nonlinear_arith)
                requires
                    span >= 2,
                    whole == format.sample_rate as int / span as int,
                    format.sample_rate <= u64::MAX,
            ;
            let packets: u64 = if format.sample_rate % span == 0 {
                whole
            } else {
                whole + 1
            };
            let packets: u64 = if packets > u32::MAX as u64 {
                u32::MAX as u64
            } else {
                packets
            };
            assert(packets * max_packet_size <= 0xFFFF_FFFF * 0xFFFF_FFFF) by (nonlinear_arith)
                requires
                    0 <= packets <= 0xFFFF_FFFF,
                    0 <= max_packet_size <= 0xFFFF_FFFF,
            ;
            let size: u64 = packets * (max_packet_size as u64);
            if size < LOWER_BUFFER_SIZE_HINT as u64 {
                LOWER_BUFFER_SIZE_HINT
            } else if size > UPPER_BUFFER_SIZE_HINT as u64 {
                UPPER_BUFFER_SIZE_HINT
            } else {
                size as u32
            }
        } else if max_packet_size > UPPER_BUFFER_SIZE_HINT {
            max_packet_size
        } else {
            UPPER_BUFFER_SIZE_HINT
        };
        let is_vbr = format.bytes_per_packet == 0 || format.frames_per_packet == 0;
        let packets_per_buffer = buffer_size / max_packet_size;
        PlaybackContext { playback_file, format, buffer_size, is_vbr, packets_per_buffer }
    }

    /// What to allocate on the engine's side: the buffers, with room for one
    /// description per packet where packets vary in size and for none where
    /// they do not, and one level meter per channel.
    pub fn queue_layout(&self) -> (layout: QueueLayout)
        ensures
            layout.buffer_count == BUFFER_COUNT,
            layout.buffer_size == self.buffer_size(),
            layout.packet_descriptions == if self.is_vbr() {
                self.packets_per_buffer()
            } else {
                0
            },
            layout.meter_count == self.format().channels_per_frame,
    {
        QueueLayout {
            buffer_count: BUFFER_COUNT,
            buffer_size: self.buffer_size,
            packet_descriptions: if self.is_vbr {
                self.packets_per_buffer
            } else {
                0
            },
            meter_count: self.format.channels_per_frame,
        }
    }

    /// The state that the engine's callbacks work on while this file plays:
    /// at the first packet, nothing read, nothing signalled.
    pub fn new_audio_callback_handler(&self, notifier: CallbackNotifier) -> (handler:
        AudioCallbackHandler)
        ensures
            handler@ == initial_handler(
                self.file(),
                self.is_vbr(),
                self.packets_per_buffer(),
                notifier.queue(),
            ),
    {
        AudioCallbackHandler {
            playback_file: self.playback_file,
            is_vbr: self.is_vbr,
            notifier,
            packets_per_buffer: self.packets_per_buffer,
            current_packet: 0,
            finished: false,
            in_flight: 0,
            running_seen: false,
            finish_signalled: false,
        }
    }
}

/// What one read of the file put into a buffer.
#[derive(Debug, Clone, Copy, PartialEq, Eq, Structural)]
pub struct PacketsRead {
    /// How many packets were read; none at the end of the file.
    pub packets: u32,
    /// How many bytes they take up in the buffer.
    pub bytes: u32,
}

/// What the buffer pump asks of the engine next.
#[derive(Debug, Clone, Copy, PartialEq, Eq, Structural)]
pub enum PumpAction {
    /// Nothing: leave the buffer and the engine alone.
    Idle,
    /// Read up to `packets` packets of `file`, from packet `from_packet` on,
    /// into the buffer. Where `with_descriptions` holds the read fills the
    /// buffer's packet descriptions, which have room for `packets` of them;
    /// where it does not the read is given none. The result goes to
    /// `AudioCallbackHandler::handle_packets_read`.
    Read { file: AudioFileID, from_packet: i64, packets: u32, with_descriptions: bool },
    /// Record in the buffer that it holds `byte_size` bytes and
    /// `packet_description_count` packet descriptions, and resubmit it. The
    /// status goes to `AudioCallbackHandler::handle_buffer_enqueued`.
    Enqueue { byte_size: u32, packet_description_count: u32 },
    /// The file is exhausted: ask the engine to stop once it has played what
    /// is queued, without waiting for it.
    StopAsync,
    /// Report this failure: the pump has given the file up because of it.
    Report(SystemErrorCode),
}

/// What the run-state bridge asks for.
#[derive(Debug, Clone, Copy, PartialEq, Eq, Structural)]
pub enum BridgeAction {
    /// Nothing.
    Idle,
    /// Submit `change` to the kernel queue `queue`, which wakes the event
    /// multiplexer.
    Trigger { queue: Kqueue, change: Kevent },
    /// Report that the run state could not be read.
    Report(SystemErrorCode),
}

/// The working set of the engine's callbacks, as plain values.
#[derive(Debug, Clone, Copy, PartialEq, Eq, Structural)]
pub struct HandlerState {
    /// The open file.
    pub file: AudioFileID,
    /// Whether the file's packets vary in size.
    pub is_vbr: bool,
    /// How many packets one fill asks for.
    pub packets_per_buffer: u32,
    /// The packet that the next read starts at.
    pub current_packet: i64,
    /// Latched once no further read will be made.
    pub finished: bool,
    /// Packets read into the buffer in hand and not yet accepted by the
    /// engine.
    pub in_flight: u32,
    /// Latched once the engine has been seen running.
    pub running_seen: bool,
    /// Latched once the end of playback has been signalled.
    pub finish_signalled: bool,
    /// The kernel queue that signals go to.
    pub queue: Kqueue,
}

impl HandlerState {
    /// What holds of every handler: the cursor is a packet position.
    pub open spec fn valid(self) -> bool {
        self.current_packet >= 0
    }
}

/// The handler for a file that nothing has been read from.
pub open spec fn initial_handler(
    file: AudioFileID,
    is_vbr: bool,
    packets_per_buffer: u32,
    queue: Kqueue,
) -> HandlerState {
    HandlerState {
        file,
        is_vbr,
        packets_per_buffer,
        current_packet: 0,
        finished: false,
        in_flight: 0,
        running_seen: false,
        finish_signalled: false,
        queue,
    }
}

/// The engine hands the pump a buffer to fill.
///
/// A finished pump leaves it alone. Otherwise a read of the next
/// `packets_per_buffer` packets is asked for, with packet descriptions
/// exactly where packets vary in size.
pub open spec fn pump_buffer(state: HandlerState) -> (HandlerState, PumpAction) {
    if state.finished {
        (state, PumpAction::Idle)
    } else {
        (
            HandlerState { in_flight: 0, ..state },
            PumpAction::Read {
                file: state.file,
                from_packet: state.current_packet,
                packets: state.packets_per_buffer,
                with_descriptions: state.is_vbr,
            },
        )
    }
}

/// The read that the pump asked for has returned.
///
/// A failed read ends the file and is reported. A read of no packets ends the
/// file and asks for an asynchronous stop. Any other read is resubmitted,
/// with as many packet descriptions as packets where packets vary in size and
/// with none where they do not; the cursor stays where it is until the engine
/// has accepted the buffer.
pub open spec fn pump_packets_read(state: HandlerState, read: Result<PacketsRead, SystemErrorCode>) -> (
    HandlerState,
    PumpAction,
) {
    if state.finished {
        (state, PumpAction::Idle)
    } else {
        match read {
            Err(code) => (HandlerState { finished: true, in_flight: 0, ..state }, PumpAction::Report(code)),
            Ok(read) => if read.packets == 0 {
                (HandlerState { finished: true, in_flight: 0, ..state }, PumpAction::StopAsync)
            } else {
                (
                    HandlerState { in_flight: read.packets, ..state },
                    PumpAction::Enqueue {
                        byte_size: read.bytes,
                        packet_description_count: if state.is_vbr {
                            read.packets
                        } else {
                            0
                        },
                    },
                )
            },
        }
    }
}

/// The resubmission that the pump asked for has returned.
///
/// Once the engine has accepted the buffer the cursor moves past the packets
/// in it. A buffer that the engine rejects because it is resetting ends the
/// file silently: the user stopped playback first. Any other rejection ends
/// the file and is reported. A cursor that would pass the last packet
/// position that there is ends the file too.
pub open spec fn pump_buffer_enqueued(state: HandlerState, status: Result<(), SystemErrorCode>) -> (
    HandlerState,
    PumpAction,
) {
    if state.finished {
        (state, PumpAction::Idle)
    } else {
        match status {
            Ok(()) => if state.current_packet + state.in_flight <= i64::MAX {
                (
                    HandlerState {
                        current_packet: (state.current_packet + state.in_flight) as i64,
                        in_flight: 0,
                        ..state
                    },
                    PumpAction::Idle,
                )
            } else {
                (HandlerState { finished: true, in_flight: 0, ..state }, PumpAction::Idle)
            },
            Err(code) => (
                HandlerState { finished: true, in_flight: 0, ..state },
                if code.0 == AUDIO_QUEUE_ERROR_ENQUEUE_DURING_RESET {
                    PumpAction::Idle
                } else {
                    PumpAction::Report(code)
                },
            ),
        }
    }
}

/// The engine's run state has changed and has been read.
///
/// A running engine is signalled as `PlaybackStarted`. A stopped engine is
/// signalled as `PlaybackFinished`, once, and only if it has been seen
/// running before. A run state that could not be read is reported.
pub open spec fn bridge_run_state(state: HandlerState, run_state: Result<u32, SystemErrorCode>) -> (
    HandlerState,
    BridgeAction,
) {
    match run_state {
        Err(code) => (state, BridgeAction::Report(code)),
        Ok(value) => if value == AUDIO_QUEUE_RUN_STATE_STOPPED {
            if state.running_seen && !state.finish_signalled {
                (
                    HandlerState { finish_signalled: true, ..state },
                    BridgeAction::Trigger {
                        queue: state.queue,
                        change: trigger_change(AUDIO_QUEUE_PLAYBACK_FINISHED),
                    },
                )
            } else {
                (state, BridgeAction::Idle)
            }
        } else {
            (
                HandlerState { running_seen: true, ..state },
                BridgeAction::Trigger {
                    queue: state.queue,
                    change: trigger_change(AUDIO_QUEUE_PLAYBACK_STARTED),
                },
            )
        },
    }
}

/// The state behind the audio engine's two callbacks: the buffer pump, which
/// refills each buffer that the engine has drained, and the run-state bridge,
/// which tells the event multiplexer when the engine starts and stops.
///
/// The engine calls back on a thread of its own. The pump is also run by the
/// foreground thread to fill the buffers before playback starts; that is over
/// before the engine is started, so the two never touch the handler at once.
pub struct AudioCallbackHandler {
    playback_file: AudioFileID,
    is_vbr: bool,
    notifier: CallbackNotifier,
    packets_per_buffer: u32,
    current_packet: i64,
    finished: bool,
    in_flight: u32,
    running_seen: bool,
    finish_signalled: bool,
}

impl View for AudioCallbackHandler {
    type V = HandlerState;

    closed spec fn view(&self) -> HandlerState {
        HandlerState {
            file: self.playback_file,
            is_vbr: self.is_vbr,
            packets_per_buffer: self.packets_per_buffer,
            current_packet: self.current_packet,
            finished: self.finished,
            in_flight: self.in_flight,
            running_seen: self.running_seen,
            finish_signalled: self.finish_signalled,
            queue: self.notifier.queue(),
        }
    }
}

impl AudioCallbackHandler {
    #[verifier::type_invariant]
    spec fn cursor_is_position(self) -> bool {
        self.current_packet >= 0
    }

    /// The packet that the next read starts at.
    pub fn current_packet(&self) -> (packet: i64)
        ensures
            packet == self@.current_packet,
            packet >= 0,
            self@.valid(),
    {
        proof {
            use_type_invariant(self);
        }
        self.current_packet
    }

    /// Whether the pump has made its last read.
    pub fn is_finished(&self) -> (finished: bool)
        ensures
            finished == self@.finished,
    {
        self.finished
    }

    /// The engine has a buffer to refill, or the player fills one before
    /// playback starts: says what to read into it, if anything.
    pub fn handle_buffer(&mut self) -> (action: PumpAction)
        ensures
            final(self)@ == pump_buffer(old(self)@).0,
            action == pump_buffer(old(self)@).1,
    {
        proof {
            use_type_invariant(&*self);
        }
        if self.finished {
            return PumpAction::Idle;
        }
        self.in_flight = 0;
        PumpAction::Read {
            file: self.playback_file,
            from_packet: self.current_packet,
            packets: self.packets_per_buffer,
            with_descriptions: self.is_vbr,
        }
    }

    /// Takes the result of the read that `handle_buffer` asked for.
    pub fn handle_packets_read(&mut self, read: Result<PacketsRead, SystemErrorCode>) -> (action:
        PumpAction)
        ensures
            final(self)@ == pump_packets_read(old(self)@, read).0,
            action == pump_packets_read(old(self)@, read).1,
    {
        proof {
            use_type_invariant(&*self);
        }
        if self.finished {
            return PumpAction::Idle;
        }
        match read {
            Err(code) => {
                self.finished = true;
                self.in_flight = 0;
                PumpAction::Report(code)
            },
            Ok(read) => {
                if read.packets == 0 {
                    self.finished = true;
                    self.in_flight = 0;
                    PumpAction::StopAsync
                } else {
                    self.in_flight = read.packets;
                    PumpAction::Enqueue {
                        byte_size: read.bytes,
                        packet_description_count: if self.is_vbr {
                            read.packets
                        } else {
                            0
                        },
                    }
                }
            },
        }
    }

    /// Takes the status of the resubmission that `handle_packets_read` asked
    /// for.
    pub fn handle_buffer_enqueued(&mut self, status: Result<(), SystemErrorCode>) -> (action:
        PumpAction)
        ensures
            final(self)@ == pump_buffer_enqueued(old(self)@, status).0,
            action == pump_buffer_enqueued(old(self)@, status).1,
    {
        proof {
            use_type_invariant(&*self);
        }
        if self.finished {
            return PumpAction::Idle;
        }
        match status {
            Ok(()) => {
                if self.current_packet <= i64::MAX - (self.in_flight as i64) {
                    self.current_packet = self.current_packet + (self.in_flight as i64);
                } else {
                    self.finished = true;
                }
                self.in_flight = 0;
                PumpAction::Idle
            },
            Err(code) => {
                self.finished = true;
                self.in_flight = 0;
                if code.0 == AUDIO_QUEUE_ERROR_ENQUEUE_DURING_RESET {
                    PumpAction::Idle
                } else {
                    PumpAction::Report(code)
                }
            },
        }
    }

    /// The engine's run state has changed: takes the state as it was read
    /// and says what to signal.
    pub fn handle_running_state_change(&mut self, run_state: Result<u32, SystemErrorCode>) -> (action:
        BridgeAction)
        ensures
            final(self)@ == bridge_run_state(old(self)@, run_state).0,
            action == bridge_run_state(old(self)@, run_state).1,
    {
        proof {
            use_type_invariant(&*self);
        }
        let mut notifier = self.notifier;
        match run_state {
            Err(code) => BridgeAction::Report(code),
            Ok(value) => {
                if value == AUDIO_QUEUE_RUN_STATE_STOPPED {
                    if self.running_seen && !self.finish_signalled {
                        self.finish_signalled = true;
                        let change = notifier.trigger_playback_finished_event();
                        BridgeAction::Trigger { queue: notifier.descriptor(), change }
                    } else {
                        BridgeAction::Idle
                    }
                } else {
                    self.running_seen = true;
                    let change = notifier.trigger_playback_started_event();
                    BridgeAction::Trigger { queue: notifier.descriptor(), change }
                }
            },
        }
    }
}

/// What the engine answers during one fill of a buffer: to the read, and to
/// the resubmission where the pump asks for one.
pub struct FillReplies {
    pub read: Result<PacketsRead, SystemErrorCode>,
    pub enqueue: Result<(), SystemErrorCode>,
}

/// The handler after one whole fill of a buffer: `handle_buffer`, then
/// `handle_packets_read` if a read was asked for, then
/// `handle_buffer_enqueued` if a resubmission was asked for.
pub open spec fn fill(state: HandlerState, replies: FillReplies) -> HandlerState {
    let (begun, first) = pump_buffer(state);
    if first is Read {
        let (read, second) = pump_packets_read(begun, replies.read);
        if second is Enqueue {
            pump_buffer_enqueued(read, replies.enqueue).0
        } else {
            read
        }
    } else {
        begun
    }
}

/// The handler after one fill for each of `replies`, in order.
pub open spec fn fills(state: HandlerState, replies: Seq<FillReplies>) -> HandlerState
    decreases replies.len(),
{
    if replies.len() == 0 {
        state
    } else {
        fill(fills(state, replies.drop_last()), replies.last())
    }
}

/// Whether a fill that gets these replies reads packets and has them
/// accepted.
pub open spec fn fill_succeeds(replies: FillReplies) -> bool {
    &&& replies.read matches Ok(read) && read.packets > 0
    &&& replies.enqueue is Ok
}

/// The packets read by the fills that get `replies`, where all of them
/// succeed.
pub open spec fn packets_read(replies: Seq<FillReplies>) -> int
    decreases replies.len(),
{
    if replies.len() == 0 {
        0
    } else {
        packets_read(replies.drop_last()) + match replies.last().read {
            Ok(read) => read.packets as int,
            Err(_) => 0,
        }
    }
}

/// A fill never moves the cursor back, never reopens a finished file, and
/// leaves everything but the cursor, the latch and the packets in hand as it
/// was.
pub proof fn lemma_fill_moves_forward(state: HandlerState, replies: FillReplies)
    requires
        state.valid(),
    ensures
        fill(state, replies).valid(),
        fill(state, replies).current_packet >= state.current_packet,
        state.finished ==> fill(state, replies).finished,
        fill(state, replies) == (HandlerState {
            current_packet: fill(state, replies).current_packet,
            finished: fill(state, replies).finished,
            in_flight: fill(state, replies).in_flight,
            ..state
        }),
{
}

/// A fill that succeeds moves the cursor forward by exactly the packets that
/// were read, unless the cursor would pass the last position there is.
pub proof fn lemma_successful_fill_advances(state: HandlerState, replies: FillReplies)
    requires
        state.valid(),
        !state.finished,
        fill_succeeds(replies),
        state.current_packet + replies.read->Ok_0.packets <= i64::MAX,
    ensures
        fill(state, replies).current_packet == state.current_packet + replies.read->Ok_0.packets,
        !fill(state, replies).finished,
        fill(state, replies).in_flight == 0,
{
}

/// A fill in which nothing is read, or in which the engine does not take
/// the buffer, leaves the cursor where it was and ends the file.
pub proof fn lemma_unsuccessful_fill_ends_file(state: HandlerState, replies: FillReplies)
    requires
        !fill_succeeds(replies),
    ensures
        fill(state, replies).current_packet == state.current_packet,
        fill(state, replies).finished,
{
}

/// Over any run of fills the cursor only moves forward: after more fills it
/// is at least where it was after fewer.
pub proof fn lemma_cursor_is_monotonic(state: HandlerState, replies: Seq<FillReplies>, fewer: int)
    requires
        state.valid(),
        0 <= fewer <= replies.len(),
    ensures
        fills(state, replies).valid(),
        fills(state, replies.take(fewer)).current_packet <= fills(state, replies).current_packet,
        state.current_packet <= fills(state, replies).current_packet,
    decreases replies.len(),
{
    if replies.len() == 0 {
        assert(replies.take(fewer) =~= replies);
    } else {
        let shorter = replies.drop_last();
        if fewer == replies.len() {
            assert(replies.take(fewer) =~= replies);
            lemma_cursor_is_monotonic(state, shorter, 0);
        } else {
            assert(replies.take(fewer) =~= shorter.take(fewer));
            lemma_cursor_is_monotonic(state, shorter, fewer);
        }
        lemma_fill_moves_forward(fills(state, shorter), replies.last());
    }
}

/// Over a run of fills that all succeed, the cursor advances by exactly the
/// number of packets read.
pub proof fn lemma_successful_fills_advance(state: HandlerState, replies: Seq<FillReplies>)
    requires
        state.valid(),
        !state.finished,
        forall|i: int| 0 <= i < replies.len() ==> fill_succeeds(#[trigger] replies[i]),
        state.current_packet + packets_read(replies) <= i64::MAX,
    ensures
        fills(state, replies).current_packet == state.current_packet + packets_read(replies),
        !fills(state, replies).finished,
    decreases replies.len(),
{
    if replies.len() > 0 {
        let shorter = replies.drop_last();
        assert forall|i: int| 0 <= i < shorter.len() implies fill_succeeds(#[trigger] shorter[i]) by {
            assert(shorter[i] == replies[i]);
        }
        assert(fill_succeeds(replies[replies.len() - 1]));
        lemma_successful_fills_advance(state, shorter);
        lemma_cursor_is_monotonic(state, shorter, 0);
        lemma_successful_fill_advances(fills(state, shorter), replies.last());
    }
}

/// Once the pump has finished, each of its three steps is a no-op: nothing is
/// read, nothing is resubmitted, and the handler stays as it is.
pub proof fn lemma_finished_pump_is_idle(
    state: HandlerState,
    read: Result<PacketsRead, SystemErrorCode>,
    status: Result<(), SystemErrorCode>,
)
    requires
        state.finished,
    ensures
        pump_buffer(state) == (state, PumpAction::Idle),
        pump_packets_read(state, read) == (state, PumpAction::Idle),
        pump_buffer_enqueued(state, status) == (state, PumpAction::Idle),
{
}

/// Once the pump has finished, any number of further fills, whatever the
/// engine would answer, leave the handler as it is.
pub proof fn lemma_finished_is_latched(state: HandlerState, replies: Seq<FillReplies>)
    requires
        state.finished,
    ensures
        fills(state, replies) == state,
    decreases replies.len(),
{
    if replies.len() > 0 {
        lemma_finished_is_latched(state, replies.drop_last());
    }
}

/// What an engine answers to a fill when it reads a file of `total` packets
/// faithfully and takes every buffer that it is handed: as many packets as
/// were asked for, or as are left in the file if that is fewer. How many
/// bytes the packets take plays no part in where the cursor goes, so the
/// replies give none.
pub open spec fn faithful_replies(state: HandlerState, total: int) -> FillReplies {
    let left = if state.current_packet < total {
        total - state.current_packet
    } else {
        0
    };
    let packets = if left < state.packets_per_buffer {
        left
    } else {
        state.packets_per_buffer as int
    };
    FillReplies { read: Ok(PacketsRead { packets: packets as u32, bytes: 0 }), enqueue: Ok(()) }
}

/// The handler after `count` fills against an engine that reads a file of
/// `total` packets faithfully.
pub open spec fn faithful_fills(state: HandlerState, total: int, count: nat) -> HandlerState
    decreases count,
{
    if count == 0 {
        state
    } else {
        let before = faithful_fills(state, total, (count - 1) as nat);
        fill(before, faithful_replies(before, total))
    }
}

/// Against a faithful engine a fresh pump whose buffers take at least one
/// packet reads a file from its first packet to its last, each packet once:
/// after `count` fills the cursor stands at `count` buffers' worth of
/// packets, or at the end of the file if that is less, and the pump has
/// finished exactly if one of the fills found nothing left to read.
pub proof fn lemma_file_is_read_once(state: HandlerState, total: int, count: nat)
    requires
        state.current_packet == 0,
        !state.finished,
        state.packets_per_buffer > 0,
        0 <= total <= i64::MAX,
    ensures
        faithful_fills(state, total, count).current_packet == if count * state.packets_per_buffer
            < total {
            count * state.packets_per_buffer
        } else {
            total
        },
        faithful_fills(state, total, count).finished <==> count >= 1 && (count - 1)
            * state.packets_per_buffer >= total,
        faithful_fills(state, total, count).packets_per_buffer == state.packets_per_buffer,
    decreases count,
{
    if count > 0 {
        let fewer = (count - 1) as nat;
        let before = faithful_fills(state, total, fewer);
        let each = state.packets_per_buffer as int;
        lemma_file_is_read_once(state, total, fewer);
        assert(count * each == fewer * each + each) by (nonlinear_arith)
            requires
                count == fewer + 1,
        ;
        if fewer > 0 {
            assert(fewer * each == (fewer - 1) * each + each) by (nonlinear_arith);
        }
        assert(fewer * each >= 0) by (nonlinear_arith)
            requires
                fewer >= 0,
                each >= 0,
        ;
    }
}

/// Whether a reading of the run state shows the engine running.
pub open spec fn reports_running(run_state: Result<u32, SystemErrorCode>) -> bool {
    run_state matches Ok(value) && value != AUDIO_QUEUE_RUN_STATE_STOPPED
}

/// The handler after the bridge has seen each of `run_states`, in order.
pub open spec fn bridge_after(state: HandlerState, run_states: Seq<Result<u32, SystemErrorCode>>) -> HandlerState
    decreases run_states.len(),
{
    if run_states.len() == 0 {
        state
    } else {
        bridge_run_state(bridge_after(state, run_states.drop_last()), run_states.last()).0
    }
}

/// What the bridge asks for on seeing `run_states[at]`, after all the run
/// states before it.
pub open spec fn bridge_action_at(
    state: HandlerState,
    run_states: Seq<Result<u32, SystemErrorCode>>,
    at: int,
) -> BridgeAction
    recommends
        0 <= at < run_states.len(),
{
    bridge_run_state(bridge_after(state, run_states.take(at)), run_states[at]).1
}

/// Whether the action signals `PlaybackFinished`.
pub open spec fn signals_finished(action: BridgeAction) -> bool {
    action matches BridgeAction::Trigger { change, .. } && change == trigger_change(
        AUDIO_QUEUE_PLAYBACK_FINISHED,
    )
}

/// Whether the action signals `PlaybackStarted`.
pub open spec fn signals_started(action: BridgeAction) -> bool {
    action matches BridgeAction::Trigger { change, .. } && change == trigger_change(
        AUDIO_QUEUE_PLAYBACK_STARTED,
    )
}

/// The bridge's latches only ever close: what has been seen and signalled
/// stays so, and the end is signalled only after a start was seen. The
/// bridge touches nothing of the pump.
pub proof fn lemma_bridge_latches(state: HandlerState, run_states: Seq<Result<u32, SystemErrorCode>>)
    requires
        state.finish_signalled ==> state.running_seen,
    ensures
        state.running_seen ==> bridge_after(state, run_states).running_seen,
        state.finish_signalled ==> bridge_after(state, run_states).finish_signalled,
        bridge_after(state, run_states).finish_signalled ==> bridge_after(state, run_states).running_seen,
        bridge_after(state, run_states) == (HandlerState {
            running_seen: bridge_after(state, run_states).running_seen,
            finish_signalled: bridge_after(state, run_states).finish_signalled,
            ..state
        }),
    decreases run_states.len(),
{
    if run_states.len() > 0 {
        lemma_bridge_latches(state, run_states.drop_last());
    }
}

/// The bridge has seen the engine running after `run_states` if and only if
/// it had before or one of them is a run state other than stopped.
pub proof fn lemma_running_seen(state: HandlerState, run_states: Seq<Result<u32, SystemErrorCode>>)
    ensures
        bridge_after(state, run_states).running_seen <==> state.running_seen || exists|i: int|
            0 <= i < run_states.len() && reports_running(#[trigger] run_states[i]),
    decreases run_states.len(),
{
    if run_states.len() > 0 {
        let shorter = run_states.drop_last();
        lemma_running_seen(state, shorter);
        let last = run_states.len() - 1;
        if bridge_after(state, run_states).running_seen && !state.running_seen {
            if bridge_after(state, shorter).running_seen {
                let i = choose|i: int|
                    0 <= i < shorter.len() && reports_running(#[trigger] shorter[i]);
                assert(run_states[i] == shorter[i]);
            } else {
                assert(reports_running(run_states[last]));
            }
        }
        if exists|i: int|
            0 <= i < run_states.len() && reports_running(#[trigger] run_states[i]) {
            let i = choose|i: int|
                0 <= i < run_states.len() && reports_running(#[trigger] run_states[i]);
            if i < last {
                assert(shorter[i] == run_states[i]);
            }
        }
    }
}

/// No premature finish signal: a handler that has not seen the engine
/// running signals `PlaybackFinished` only after it has signalled
/// `PlaybackStarted`.
pub proof fn lemma_finish_follows_start(
    state: HandlerState,
    run_states: Seq<Result<u32, SystemErrorCode>>,
    at: int,
)
    requires
        !state.running_seen,
        0 <= at < run_states.len(),
        signals_finished(bridge_action_at(state, run_states, at)),
    ensures
        exists|earlier: int|
            0 <= earlier < at && signals_started(#[trigger] bridge_action_at(state, run_states, earlier)),
{
    let before = run_states.take(at);
    lemma_running_seen(state, before);
    let earlier = choose|i: int|
        0 <= i < before.len() && reports_running(#[trigger] before[i]);
    assert(run_states[earlier] == before[earlier]);
    assert(signals_started(bridge_action_at(state, run_states, earlier)));
}

/// `PlaybackFinished` is signalled at most once for one handler, however
/// often the engine reports that it is not running.
pub proof fn lemma_finish_signalled_once(
    state: HandlerState,
    run_states: Seq<Result<u32, SystemErrorCode>>,
    first: int,
    second: int,
)
    requires
        state.finish_signalled ==> state.running_seen,
        0 <= first < second < run_states.len(),
        signals_finished(bridge_action_at(state, run_states, first)),
    ensures
        !signals_finished(bridge_action_at(state, run_states, second)),
{
    let upto = run_states.take(second);
    let through_first = upto.take(first + 1);
    assert(through_first =~= run_states.take(first + 1));
    assert(through_first.drop_last() =~= run_states.take(first));
    assert(through_first.last() == run_states[first]);
    assert(bridge_after(state, through_first).finish_signalled);
    lemma_bridge_latches(state, run_states.take(first));
    lemma_bridge_tail(state, upto, first + 1);
    lemma_bridge_latches(bridge_after(state, through_first), upto.skip(first + 1));
}

/// Seeing a run of states is seeing its first part and then the rest.
pub proof fn lemma_bridge_tail(
    state: HandlerState,
    run_states: Seq<Result<u32, SystemErrorCode>>,
    split: int,
)
    requires
        0 <= split <= run_states.len(),
    ensures
        bridge_after(state, run_states) == bridge_after(
            bridge_after(state, run_states.take(split)),
            run_states.skip(split),
        ),
    decreases run_states.len(),
{
    if split == run_states.len() {
        assert(run_states.take(split) =~= run_states);
        assert(run_states.skip(split) =~= Seq::empty());
    } else {
        let shorter = run_states.drop_last();
        lemma_bridge_tail(state, shorter, split);
        assert(shorter.take(split) =~= run_states.take(split));
        assert(run_states.skip(split).drop_last() =~= shorter.skip(split));
        assert(run_states.skip(split).last() == run_states.last());
    }
}

/// A buffer is never smaller than the lower size hint, is never larger than
/// the upper size hint unless one packet alone is, and always has room for
/// the packets that one fill asks for.
pub proof fn lemma_buffer_holds_its_packets(format: AudioStreamBasicDescription, max_packet_size: u32)
    requires
        max_packet_size > 0,
    ensures
        LOWER_BUFFER_SIZE_HINT <= buffer_size_for(format, max_packet_size) <= u32::MAX,
        buffer_size_for(format, max_packet_size) <= UPPER_BUFFER_SIZE_HINT || buffer_size_for(
            format,
            max_packet_size,
        ) == max_packet_size,
        (buffer_size_for(format, max_packet_size) / max_packet_size as int) * max_packet_size
            <= buffer_size_for(format, max_packet_size),
        max_packet_size <= buffer_size_for(format, max_packet_size) ==> buffer_size_for(
            format,
            max_packet_size,
        ) / max_packet_size as int >= 1,
{
    let size = buffer_size_for(format, max_packet_size);
    let divisor = max_packet_size as int;
    assert((size / divisor) * divisor <= size) by (nonlinear_arith)
        requires
            size >= 0,
            divisor > 0,
    ;
    assert(divisor <= size ==> size / divisor >= 1) by (nonlinear_arith)
        requires
            size >= 0,
            divisor > 0,
    ;
}

/// Highest volume step. Gain is `level / MAX_VOLUME`.
pub const MAX_VOLUME: usize = 16;

/// Distance covered by one press of a volume key.
pub const VOLUME_STEP: usize = 1;

/// A gain as an exact fraction `numerator / denominator` of full scale.
#[derive(Clone, Copy, Debug, PartialEq, Eq, Structural)]
pub struct Gain {
    pub numerator: usize,
    pub denominator: usize,
}

/// The level after one upward step from `level`, saturating at the maximum.
pub open spec fn level_after_increment(level: nat) -> nat {
    if level + VOLUME_STEP <= MAX_VOLUME {
        level + VOLUME_STEP as nat
    } else {
        MAX_VOLUME as nat
    }
}

/// The level after one downward step from `level`, saturating at zero.
pub open spec fn level_after_decrement(level: nat) -> nat {
    if level >= VOLUME_STEP {
        (level - VOLUME_STEP) as nat
    } else {
        0
    }
}

/// Playback volume in whole steps between silence and full scale.
pub struct PlaybackVolume {
    volume: usize,
}

impl PlaybackVolume {
    #[verifier::type_invariant]
    spec fn in_range(self) -> bool {
        self.volume <= MAX_VOLUME
    }

    /// The current step, between `0` and `MAX_VOLUME`.
    pub closed spec fn level(&self) -> nat {
        self.volume as nat
    }

    /// Full volume.
    pub fn new() -> (volume: Self)
        ensures
            volume.level() == MAX_VOLUME,
    {
        PlaybackVolume { volume: MAX_VOLUME }
    }

    /// One step louder, stopping at full volume.
    pub fn increment(&mut self)
        ensures
            final(self).level() == level_after_increment(old(self).level()),
            final(self).level() <= MAX_VOLUME,
    {
        proof {
            use_type_invariant(&*self);
        }
        if self.volume + VOLUME_STEP <= MAX_VOLUME {
            self.volume = self.volume + VOLUME_STEP;
        } else {
            self.volume = MAX_VOLUME;
        }
    }

    /// One step quieter, stopping at silence.
    pub fn decrement(&mut self)
        ensures
            final(self).level() == level_after_decrement(old(self).level()),
            final(self).level() <= MAX_VOLUME,
    {
        proof {
            use_type_invariant(&*self);
        }
        if self.volume >= VOLUME_STEP {
            self.volume = self.volume - VOLUME_STEP;
        } else {
            self.volume = 0;
        }
    }

    /// The linear gain for the current step: `level / MAX_VOLUME`, which lies
    /// between zero and one.
    pub fn gain(&self) -> (gain: Gain)
        ensures
            gain.numerator == self.level(),
            gain.denominator == MAX_VOLUME,
            gain.numerator <= gain.denominator,
    {
        proof {
            use_type_invariant(self);
        }
        Gain { numerator: self.volume, denominator: MAX_VOLUME }
    }
}

/// One press of a volume key.
#[derive(Debug, Clone, Copy, PartialEq, Eq, Structural)]
pub enum VolumeStep {
    Up,
    Down,
}

/// The level after the steps in `steps`, in order, starting at `level`.
pub open spec fn level_after(level: nat, steps: Seq<VolumeStep>) -> nat
    decreases steps.len(),
{
    if steps.len() == 0 {
        level
    } else {
        let before = level_after(level, steps.drop_last());
        match steps.last() {
            VolumeStep::Up => level_after_increment(before),
            VolumeStep::Down => level_after_decrement(before),
        }
    }
}

/// Volume bounds: whatever keys are pressed, the level stays between silence
/// and full scale, so the gain `level / MAX_VOLUME` stays between zero and
/// one.
pub proof fn lemma_volume_stays_in_range(level: nat, steps: Seq<VolumeStep>)
    requires
        level <= MAX_VOLUME,
    ensures
        level_after(level, steps) <= MAX_VOLUME,
    decreases steps.len(),
{
    if steps.len() > 0 {
        lemma_volume_stays_in_range(level, steps.drop_last());
    }
}

/// Stepping up `presses` times from silence reaches step `presses`, or full
/// scale if that is less: it saturates and never wraps.
pub proof fn lemma_increments_saturate(presses: nat)
    ensures
        level_after(0, Seq::new(presses, |i: int| VolumeStep::Up)) == if presses <= MAX_VOLUME {
            presses
        } else {
            MAX_VOLUME as nat
        },
    decreases presses,
{
    let steps = Seq::new(presses, |i: int| VolumeStep::Up);
    if presses > 0 {
        lemma_increments_saturate((presses - 1) as nat);
        assert(steps.drop_last() =~= Seq::new((presses - 1) as nat, |i: int| VolumeStep::Up));
    }
}

/// Stepping down `presses` times from full scale reaches silence after
/// `MAX_VOLUME` presses and stays there.
pub proof fn lemma_decrements_saturate(presses: nat)
    ensures
        level_after(MAX_VOLUME as nat, Seq::new(presses, |i: int| VolumeStep::Down)) == if presses
            <= MAX_VOLUME {
            (MAX_VOLUME - presses) as nat
        } else {
            0
        },
    decreases presses,
{
    let steps = Seq::new(presses, |i: int| VolumeStep::Down);
    if presses > 0 {
        lemma_decrements_saturate((presses - 1) as nat);
        assert(steps.drop_last() =~= Seq::new((presses - 1) as nat, |i: int| VolumeStep::Down));
    }
}

} // verus!
