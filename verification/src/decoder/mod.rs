//! From the bytes a client sends to the events a session acts on.
//!
//! [`framing`] cuts the byte stream into frames, each of which holds one
//! event, and knows when the end of the stream so far may still grow into a
//! frame. [`events`] turns one frame into events: keys by the terminal
//! input parser of the `termwiz` crate, the report of a terminal size by
//! itself. [`stream`] keeps what is left over between two reads, so that
//! the events never depend on where the stream was cut.
//!
//! The parser is asked about one frame at a time and starts afresh for
//! each, so what a frame means depends on that frame alone. It is shown
//! only frames that have the shape of a key; any other frame, a mouse
//! report for one, means nothing here and is dropped unseen. That is slow
//! where the same keys come again and again, so a decoder remembers what
//! each single byte meant.

pub mod events;
pub mod framing;
pub mod stream;
