//! The validation and error-classification protocol of a client that fetches
//! synthesized speech over HTTP, kept apart from the transport that carries it.
//!
//! A fetch is one blocking `GET`. Its response is audio when the status is a
//! success and the `Content-Type` is exactly `audio/wav`; the body is then
//! handed out byte for byte. Any other response is a server failure that
//! carries the body as text, and whatever the transport could not do is a
//! transport failure. [`protocol`] holds these decisions as a state machine,
//! [`response`] and [`media`] what it looks at in a response, [`headers`] the
//! reading of the header map, [`error`] the two failures, and [`laws`] what is
//! proved of every fetch.

pub mod error;
pub mod headers;
pub mod laws;
pub mod media;
pub mod protocol;
pub mod response;
