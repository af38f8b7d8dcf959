use afqueue::playlist::{parse_args, Playlist, DEFAULT_PROGRAM_NAME};
use std::ops::ControlFlow;

fn strings(items: &[&str]) -> Vec<String> {
    items.iter().map(|item| item.to_string()).collect()
}

#[test]
fn arguments_after_the_program_name_are_the_files() {
    let mut playlist = parse_args(strings(&["afqueue", "a.mp3", "b.wav"])).ok().expect("there are files");
    assert_eq!(playlist.next_path(), Some("a.mp3".to_string()));
    assert_eq!(playlist.next_path(), Some("b.wav".to_string()));
    assert_eq!(playlist.next_path(), None);
}

#[test]
fn no_file_gives_the_usage_message() {
    assert_eq!(
        parse_args(strings(&["/usr/bin/player"])).err(),
        Some("Usage: /usr/bin/player [audio-file ...]".to_string())
    );
}

#[test]
fn no_arguments_at_all_use_the_default_name() {
    assert_eq!(DEFAULT_PROGRAM_NAME, "afqueue");
    assert_eq!(parse_args(Vec::new()).err(), Some("Usage: afqueue [audio-file ...]".to_string()));
}

#[test]
fn playlist_hands_out_paths_in_order() {
    let mut playlist = Playlist::new(strings(&["one", "two", "three"]));
    assert_eq!(playlist.next_path(), Some("one".to_string()));
    playlist.file_played(ControlFlow::Continue(()));
    assert_eq!(playlist.next_path(), Some("two".to_string()));
    playlist.file_played(ControlFlow::Continue(()));
    assert_eq!(playlist.next_path(), Some("three".to_string()));
    playlist.file_played(ControlFlow::Continue(()));
    assert_eq!(playlist.next_path(), None);
    assert_eq!(playlist.next_path(), None);
}

#[test]
fn empty_playlist_has_nothing_to_play() {
    let mut playlist = Playlist::new(Vec::new());
    assert_eq!(playlist.next_path(), None);
}

#[test]
fn leaving_skips_the_rest_of_the_list() {
    let mut playlist = Playlist::new(strings(&["one", "two", "three"]));
    assert_eq!(playlist.next_path(), Some("one".to_string()));
    playlist.file_played(ControlFlow::Break(()));
    assert_eq!(playlist.next_path(), None);
    playlist.file_played(ControlFlow::Continue(()));
    assert_eq!(playlist.next_path(), None);
}

#[test]
fn failure_skips_the_rest_of_the_list() {
    let mut playlist = Playlist::new(strings(&["one", "two"]));
    assert_eq!(playlist.next_path(), Some("one".to_string()));
    playlist.file_failed();
    assert_eq!(playlist.next_path(), None);
}
