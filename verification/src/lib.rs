//! A sans-I/O core for driving a platform audio hardware abstraction layer:
//! the devices of the machine and their properties, the default devices, and
//! a playback stream with its render callback.
//!
//! Nothing in this crate talks to the audio hardware itself. Every operation
//! is a pure function of its arguments and of the replies that the native
//! layer has given so far. It either names the next native request to carry
//! out, or it has come to an end: with a value, with an error, or with a
//! fault where a reply broke the rules of the exchange. A driver performs
//! each request, appends the reply and calls the operation again, with the
//! same arguments, until it has come to an end.
//!
//! The outcome of an operation depends on nothing but the replies it has
//! consumed, so replies that follow them change nothing, and a stream or a
//! buffer that an operation is handed changes only when the operation ends.

pub mod exchange;
pub mod stream;
pub mod utils;
