//! A bounded fetch of a remote calendar file: a request with a time limit, a
//! guard on the declared size of the response, and strict UTF-8 decoding of
//! its body, driven as a state machine whose decisions are proved here while
//! the network work is done by the caller.
pub mod body;
pub mod error;
pub mod fetch;
pub mod theorems;
