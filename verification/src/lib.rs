//! Incremental, stream-fed parser for tag-delimited baseball game
//! transcripts, together with a live game-state tracker and a synthesizer
//! that emits a regular expression describing every valid continuation of
//! the input seen so far.

pub mod ontology;
pub mod play_type;
pub mod content;
pub mod builders;
pub mod grammar;
pub mod tokens;
pub mod livestate;
pub mod parser;
pub mod synth;
pub mod derivs;
