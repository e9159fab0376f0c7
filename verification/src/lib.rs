//! The decision core of a small contract-deployment backend.
//!
//! The backend offers two endpoints over HTTP: a liveness probe and a
//! deployment endpoint that, for now, answers every submission with the same
//! placeholder address. This crate holds everything the backend decides:
//! which endpoints exist and where, what each one answers, how long a
//! deployment is held back, and how the server is configured. Listening on a
//! socket, decoding and encoding JSON, waiting, and writing cross-origin
//! headers are left to the program that embeds this crate.
//!
//! Every exec function carries a contract over the mathematical view of its
//! arguments and result, and every contract is proved.

pub mod config;
pub mod deploy;
pub mod health;
pub mod model;
pub mod reply;
pub mod routes;
mod text;
