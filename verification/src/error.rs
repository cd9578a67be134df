//! The failures that the library reports.

use vstd::prelude::*;

verus! {

/// Why an operation of the client did not produce its result.
#[derive(Clone, Copy, Debug, PartialEq, Eq, Structural)]
pub enum VVError {
    /// The engine could not be reached, or the transport broke.
    RemoteUnavailable,
    /// The engine answered with something that does not fit the expected shape.
    MalformedResponse,
    /// Audio could not be decoded, or the output device refused it.
    PlaybackUnavailable,
    /// A buffer was queued, or a flush asked for, with no persistent sink.
    SinkNotInitialized,
    /// The dictionary's file location is not expressible as text.
    NotPath,
    /// The dictionary is too large for a matcher to be built from it.
    MatcherTooLarge,
}

} // verus!
