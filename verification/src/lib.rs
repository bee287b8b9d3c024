//! Qu mixer MIDI protocol library: channel identifiers, parameters,
//! message encoders, a streaming parser of the mixer's MIDI data, and the
//! mixer state and connection logic built on them.

pub mod channels;
pub mod client;
pub mod discovery;
pub mod emulator;
pub mod manager;
pub mod messages;
pub mod meters;
pub mod parameters;
pub mod parser;
pub mod parser_laws;
pub mod protocol;
pub mod seq_laws;
pub mod proxy;
pub mod qu_from_state;
pub mod qu_to_state;
pub mod state;
pub mod state_laws;
pub mod text;
