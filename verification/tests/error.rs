use afqueue::error::{AfqueueError, ErrorContext, ErrorCtx, ErrorSource};
use afqueue::player::{PathError, PlaybackError, SystemErrorCode};
use afqueue::text::{append_decimal, append_natural};

fn decimal(number: i64) -> String {
    let mut text = String::new();
    append_decimal(&mut text, number);
    text
}

#[test]
fn numbers_are_written_in_decimal() {
    assert_eq!(decimal(0), "0");
    assert_eq!(decimal(7), "7");
    assert_eq!(decimal(10), "10");
    assert_eq!(decimal(-1), "-1");
    assert_eq!(decimal(-66632), "-66632");
    assert_eq!(decimal(1886681407), "1886681407");
    assert_eq!(decimal(i64::MAX), "9223372036854775807");
    assert_eq!(decimal(i64::MIN), "-9223372036854775808");
}

#[test]
fn decimal_agrees_with_the_standard_library() {
    for number in (-2000..2000).chain([i32::MIN as i64, i32::MAX as i64, 1 << 40, -(1 << 40)]) {
        assert_eq!(decimal(number), number.to_string());
    }
    let mut text = "n=".to_string();
    append_natural(&mut text, u64::MAX);
    assert_eq!(text, format!("n={}", u64::MAX));
}

#[test]
fn system_error_says_its_code() {
    assert_eq!(SystemErrorCode(-50).message(), "-50");
    assert_eq!(
        PlaybackError::System(SystemErrorCode(-43)).message(),
        "encountered system error with code '-43'"
    );
}

#[test]
fn path_errors_say_what_is_wrong() {
    assert_eq!(
        PathError::PathIsEmpty.message(),
        "Attempted to interpret an empty string as a path"
    );
    assert_eq!(
        PathError::InteriorNull(12).message(),
        "Path contained a null: nul byte found in provided data at position: 12"
    );
    assert_eq!(
        PlaybackError::Path(PathError::PathIsEmpty).message(),
        "supplied string is not a valid path: Attempted to interpret an empty string as a path"
    );
}

#[test]
fn io_error_quotes_the_system_text() {
    assert_eq!(
        PlaybackError::IO("Bad file descriptor (os error 9)".to_string()).message(),
        "encountered IO error 'Bad file descriptor (os error 9)'"
    );
}

#[test]
fn context_names_the_file() {
    assert_eq!(
        ErrorCtx::PlayingBack("a song.mp3".to_string()).message(),
        "playing back file 'a song.mp3'"
    );
}

#[test]
fn error_without_context_says_its_source() {
    let error = AfqueueError::new(ErrorSource::Io("Interrupted system call (os error 4)".to_string()));
    assert_eq!(error.message(), "Oh no, ran into error Interrupted system call (os error 4)");
}

#[test]
fn error_lists_its_context_before_its_source() {
    let mut error = AfqueueError::from(PlaybackError::System(SystemErrorCode(-43)));
    error.add_context(ErrorCtx::PlayingBack("one.wav".to_string()));
    assert_eq!(
        error.message(),
        "Oh no, ran into error while playing back file 'one.wav', encountered system error with code '-43'"
    );
    error.add_context(ErrorCtx::PlayingBack("list".to_string()));
    assert_eq!(
        error.message(),
        "Oh no, ran into error while playing back file 'one.wav', while playing back file 'list', encountered system error with code '-43'"
    );
}

#[test]
fn with_adds_context_to_an_error() {
    let failed: Result<u8, AfqueueError> =
        Err(AfqueueError::from(PlaybackError::Path(PathError::PathIsEmpty)));
    let error = failed.with(ErrorCtx::PlayingBack("".to_string())).unwrap_err();
    assert_eq!(
        error.message(),
        "Oh no, ran into error while playing back file '', supplied string is not a valid path: Attempted to interpret an empty string as a path"
    );
}

#[test]
fn with_leaves_a_success_alone() {
    let fine: Result<u8, AfqueueError> = Ok(3);
    assert_eq!(fine.with(ErrorCtx::PlayingBack("x".to_string())), Ok(3));
}
