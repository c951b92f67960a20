//! A typed, transport-free client core for the M-Pesa payment API.
//!
//! The crate decides *what* is exchanged with the remote API and *how* a reply
//! is read; it performs no I/O itself. An embedding program carries each
//! [`HttpRequest`](http::HttpRequest) to the network and hands the
//! [`HttpReply`](http::HttpReply) back.
//!
//! One operation runs like this:
//!
//! 1. [`Mpesa::auth`] says whether a bearer token has to be fetched. If so,
//!    the program performs the fetch and gives the reply to
//!    [`Mpesa::complete_auth`], which fills the client's token cache.
//! 2. A request is put together with [`Mpesa::dynamic_qr`] and built, or
//!    written down directly and wrapped by
//!    [`DynamicQR::from_request`](services::DynamicQR::from_request).
//! 3. [`DynamicQR::send`](services::DynamicQR::send) gives the exchange, with
//!    the cached token attached.
//! 4. [`DynamicQRResponse::from_reply`](services::DynamicQRResponse::from_reply)
//!    reads the reply as a response or as an error.

pub mod auth;
pub mod client;
pub mod constants;
pub mod environment;
pub mod errors;
pub mod http;
pub mod services;
pub mod wire;

pub use client::Mpesa;
pub use constants::TransactionType;
pub use environment::Environment::{self, Production, Sandbox};
pub use errors::{ApiError, AuthFailure, BuilderError, MpesaError, MpesaResult};
