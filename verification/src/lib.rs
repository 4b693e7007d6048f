//! A multi-track MIDI sequencer: the tick-addressed data model, the
//! Standard MIDI File codec, the transport and sequencer, the undo
//! history, and the editor with its keys, its mouse and its dialogs. Every
//! function states what it does in a contract. The contracts are proved,
//! but for the few that say what a function of the standard library or of
//! the MIDI parser does; the comment above each of those says so.
//!
//! The library holds no clock, no file and no sound device: time comes
//! in as a number, files as bytes and names, and what a synthesizer has
//! to do goes out as a list of commands.

pub mod app;
pub mod audio;
pub mod cli;
pub mod history;
pub mod midi;
pub mod text;
