//! The verified core of a command-line chat client that streams replies
//! from a completion endpoint.
//!
//! The client keeps the conversation of one session in memory and sends the
//! whole of it with every turn. The reply comes back as a stream of chunks;
//! each chunk is read on its own, and the fragments that the chunks carry
//! add up to the reply.
//!
//! - [`stream`] says what a chunk means, and [`reply`] what a sequence of
//!   chunks adds up to.
//! - [`session`] is the loop as a state machine: a line of input or the end
//!   of a request goes in, the next state and the action to take come out.
//! - [`conversation`] and [`message`] hold the history, [`request`] builds
//!   what is sent, [`config`] reads the credentials.
//! - [`json`] and [`text`] read documents and text, [`skin`] styles what is
//!   shown, [`error`] names the failures.
//!
//! Reading lines, talking to the endpoint and printing are the caller's.

pub mod config;
pub mod conversation;
pub mod error;
pub mod json;
pub mod message;
pub mod reply;
pub mod request;
pub mod session;
pub mod skin;
pub mod stream;
pub mod text;
