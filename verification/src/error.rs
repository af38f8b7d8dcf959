//! The error that the player ends with, and the context it gathers on its
//! way up.

use crate::player::{playback_error_text, PlaybackError};
use vstd::prelude::*;
use vstd::string::StringExecFns;

verus! {

/// What the player was doing when an error came up.
#[derive(Debug, PartialEq, Eq)]
pub enum ErrorCtx {
    /// Playing back the file of this name.
    PlayingBack(String),
}

/// Where an error came from.
#[derive(Debug, PartialEq, Eq)]
pub enum ErrorSource {
    /// The operating system; the text is its description of the failure.
    Io(String),
    /// Playback.
    Playback(PlaybackError),
}

/// What a piece of context says.
pub open spec fn context_text(context: ErrorCtx) -> Seq<char> {
    match context {
        ErrorCtx::PlayingBack(filepath) => "playing back file '"@ + filepath@ + "'"@,
    }
}

/// What the source of an error says.
pub open spec fn source_text(source: ErrorSource) -> Seq<char> {
    match source {
        ErrorSource::Io(text) => text@,
        ErrorSource::Playback(error) => playback_error_text(error),
    }
}

/// The contexts as they are printed: each as `while ..., `, in the order in
/// which they were added.
pub open spec fn contexts_text(contexts: Seq<ErrorCtx>) -> Seq<char>
    decreases contexts.len(),
{
    if contexts.len() == 0 {
        Seq::empty()
    } else {
        contexts_text(contexts.drop_last()) + "while "@ + context_text(contexts.last()) + ", "@
    }
}

/// What an error with this source and these contexts says.
pub open spec fn error_text(source: ErrorSource, contexts: Seq<ErrorCtx>) -> Seq<char> {
    "Oh no, ran into error "@ + contexts_text(contexts) + source_text(source)
}

impl ErrorCtx {
    /// What the context says.
    pub fn message(&self) -> (text: String)
        ensures
            text@ == context_text(*self),
    {
        match self {
            ErrorCtx::PlayingBack(filepath) => {
                let mut text = String::from_str("playing back file '");
                text.append(filepath.as_str());
                text.append("'");
                text
            },
        }
    }
}

impl ErrorSource {
    /// What the source says.
    pub fn message(&self) -> (text: String)
        ensures
            text@ == source_text(*self),
    {
        match self {
            ErrorSource::Io(text) => text.clone(),
            ErrorSource::Playback(error) => error.message(),
        }
    }
}

/// An error with the context that it came up in.
#[derive(Debug, PartialEq, Eq)]
pub struct AfqueueError {
    source: ErrorSource,
    context: Vec<ErrorCtx>,
}

impl AfqueueError {
    /// Where the error came from.
    pub closed spec fn source(&self) -> ErrorSource {
        self.source
    }

    /// What the player was doing, the innermost activity first.
    pub closed spec fn context(&self) -> Seq<ErrorCtx> {
        self.context@
    }

    /// An error from `source`, without context.
    pub fn new(source: ErrorSource) -> (error: Self)
        ensures
            error.source() == source,
            error.context() == Seq::<ErrorCtx>::empty(),
    {
        AfqueueError { source, context: Vec::new() }
    }

    /// Adds what the player was doing when the error reached it.
    pub fn add_context(&mut self, ctx: ErrorCtx)
        ensures
            final(self).source() == old(self).source(),
            final(self).context() == old(self).context().push(ctx),
    {
        self.context.push(ctx);
    }

    /// What the error says: the contexts, then the source.
    pub fn message(&self) -> (text: String)
        ensures
            text@ == error_text(self.source(), self.context()),
    {
        let mut text = String::from_str("Oh no, ran into error ");
        let ghost start = text@;
        let mut at: usize = 0;
        while at < self.context.len()
            invariant
                at <= self.context@.len(),
                text@ == start + contexts_text(self.context@.take(at as int)),
            decreases self.context@.len() - at,
        {
            let piece = self.context[at].message();
            text.append("while ");
            text.append(piece.as_str());
            text.append(", ");
            proof {
                let taken = self.context@.take(at + 1);
                assert(taken.drop_last() =~= self.context@.take(at as int));
                assert(taken.last() == self.context@[at as int]);
                assert(text@ =~= start + contexts_text(taken));
            }
            at = at + 1;
        }
        assert(self.context@.take(at as int) =~= self.context@);
        let reason = self.source.message();
        text.append(reason.as_str());
        text
    }
}

impl From<PlaybackError> for AfqueueError {
    fn from(err: PlaybackError) -> (error: AfqueueError)
        ensures
            error.source() == ErrorSource::Playback(err),
            error.context() == Seq::<ErrorCtx>::empty(),
    {
        AfqueueError::new(ErrorSource::Playback(err))
    }
}

/// The conversion is stated by the `ensures` of `from`, over the error's
/// source and context: an error holds its context on the heap, so there is
/// no ghost value to name as the result.
impl vstd::std_specs::convert::FromSpecImpl<PlaybackError> for AfqueueError {
    open spec fn obeys_from_spec() -> bool {
        false
    }

    open spec fn from_spec(err: PlaybackError) -> AfqueueError {
        arbitrary()
    }
}

/// Results that can take on context.
pub trait ErrorContext<T> {
    /// Adds `context` to the error, if the result is one.
    fn with(self, context: ErrorCtx) -> Result<T, AfqueueError>;
}

impl<T> ErrorContext<T> for Result<T, AfqueueError> {
    fn with(self, context: ErrorCtx) -> (result: Result<T, AfqueueError>)
        ensures
            match (self, result) {
                (Ok(before), Ok(after)) => before == after,
                (Err(before), Err(after)) => after.source() == before.source() && after.context()
                    == before.context().push(context),
                _ => false,
            },
    {
        match self {
            Ok(value) => Ok(value),
            Err(err) => {
                let mut err = err;
                err.add_context(context);
                Err(err)
            },
        }
    }
}

} // verus!
