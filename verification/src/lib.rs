//! Logic of a Windows credential provider that unlocks the machine with
//! credentials handed to it over a named pipe, and of the service that
//! receives those credentials over HTTP and forwards them.
//!
//! The COM plumbing, the pipe and the HTTP server live in the application
//! around this library; here stand the decisions they make, with contracts.

pub mod com;
pub mod credential;
pub mod factory;
pub mod message;
pub mod provider;
pub mod sample;
pub mod service;
pub mod text;
pub mod wide;
