//! The playlist: which file is played next, and when the player stops going
//! through its files.

use std::ops::ControlFlow;
use vstd::prelude::*;
use vstd::string::StringExecFns;

verus! {

/// The name the program goes by where it was not told its own.
pub const DEFAULT_PROGRAM_NAME: &'static str = "afqueue";

/// The playlist, as plain values.
#[verifier::ext_equal]
pub struct PlaylistState {
    /// The files that have yet to be played, in order.
    pub remaining: Seq<String>,
    /// Whether the player has stopped going through its files: the user
    /// asked to leave, or a file failed to play.
    pub halted: bool,
}

/// The files to play, in order.
pub struct Playlist {
    paths: Vec<String>,
    next: usize,
    halted: bool,
}

impl View for Playlist {
    type V = PlaylistState;

    closed spec fn view(&self) -> PlaylistState {
        PlaylistState { remaining: self.paths@.skip(self.next as int), halted: self.halted }
    }
}

/// The usage message for a program called `program`.
pub open spec fn usage(program: Seq<char>) -> Seq<char> {
    "Usage: "@ + program + " [audio-file ...]"@
}

/// The program's own name among its arguments: the first of them, or the
/// default where there is none.
pub open spec fn program_name(args: Seq<String>) -> Seq<char> {
    if args.len() > 0 {
        args[0]@
    } else {
        DEFAULT_PROGRAM_NAME@
    }
}

/// Reads the program's arguments: its own name, then the files to play. With
/// no file to play the result is the usage message to print.
pub fn parse_args(args: Vec<String>) -> (parsed: Result<Playlist, String>)
    ensures
        match parsed {
            Ok(playlist) => args@.len() > 1 && playlist@ == (PlaylistState {
                remaining: args@.skip(1),
                halted: false,
            }),
            Err(message) => args@.len() <= 1 && message@ == usage(program_name(args@)),
        },
{
    if args.len() > 1 {
        Ok(Playlist { paths: args, next: 1, halted: false })
    } else {
        let mut message = String::from_str("Usage: ");
        if args.len() > 0 {
            message.append(args[0].as_str());
        } else {
            message.append(DEFAULT_PROGRAM_NAME);
        }
        message.append(" [audio-file ...]");
        Err(message)
    }
}

impl Playlist {
    #[verifier::type_invariant]
    spec fn cursor_in_list(self) -> bool {
        self.next <= self.paths@.len()
    }

    /// A playlist of `paths`, in order.
    pub fn new(paths: Vec<String>) -> (playlist: Self)
        ensures
            playlist@ == (PlaylistState { remaining: paths@, halted: false }),
    {
        Playlist { paths, next: 0, halted: false }
    }

    /// The file to play next. There is none once the list is exhausted, and
    /// none once the player has stopped going through it.
    pub fn next_path(&mut self) -> (path: Option<String>)
        ensures
            old(self)@.halted || old(self)@.remaining.len() == 0 ==> path is None && final(self)@ == old(
                self,
            )@,
            !old(self)@.halted && old(self)@.remaining.len() > 0 ==> path == Some(old(self)@.remaining[0])
                && final(self)@ == (PlaylistState {
                remaining: old(self)@.remaining.skip(1),
                halted: false,
            }),
    {
        proof {
            use_type_invariant(&*self);
        }
        if self.halted || self.next == self.paths.len() {
            return None;
        }
        let path = self.paths[self.next].clone();
        self.next = self.next + 1;
        assert(self.paths@.skip(self.next as int) =~= old(self).paths@.skip(old(self).next as int).skip(
            1,
        ));
        Some(path)
    }

    /// Takes in how the session of a file ended: the player goes on to the
    /// next file, or leaves the rest of the list unplayed.
    pub fn file_played(&mut self, outcome: ControlFlow<()>)
        ensures
            final(self)@ == (PlaylistState {
                halted: old(self)@.halted || outcome is Break,
                ..old(self)@
            }),
    {
        proof {
            use_type_invariant(&*self);
        }
        match outcome {
            ControlFlow::Break(_) => {
                self.halted = true;
            },
            ControlFlow::Continue(_) => {},
        }
    }

    /// Takes in that a file failed to play: the rest of the list stays
    /// unplayed.
    pub fn file_failed(&mut self)
        ensures
            final(self)@ == (PlaylistState { halted: true, ..old(self)@ }),
    {
        proof {
            use_type_invariant(&*self);
        }
        self.halted = true;
    }
}

} // verus!
