//! Client-side core of a text-to-speech pipeline: the speaker registry, the
//! dictionary-driven text rewriting, the requests sent to the synthesis
//! engine, and the decisions of the playback queue.

pub mod client;
pub mod error;
pub mod lexicon;
pub mod matcher;
pub mod pipeline;
pub mod playback;
pub mod registry;
pub mod text;
pub mod urlencode;
pub mod words;
