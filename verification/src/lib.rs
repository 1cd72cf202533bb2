//! Fetching resources over HTTP: the decisions of a client that hands requests
//! to a background worker, and of the response that its callers read.
//!
//! Nothing here waits or talks to the network. Where the client, the worker or
//! a response needs that done, it says what is to be done and takes in what
//! came of it.
pub mod abort;
pub mod body;
pub mod calls;
pub mod client;
pub mod error;
pub mod laws;
pub mod limit;
pub mod mime;
pub mod response;
pub mod series;
pub mod status;
pub mod stream;
pub mod uri;
pub mod worker;
