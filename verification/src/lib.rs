//! Manifest-driven delivery of secret files between two processes.
//!
//! The crate holds the decisions of the transfer protocol: which transport
//! tier is used, which upload requests are let in, in what order a received
//! file is prepared and published, when the receiver shuts down and when the
//! sender reports failure. Sockets, files and the HTTP framing live with the
//! caller, which performs the actions these functions return and reports
//! what came of them.
//!
//! - [`manifest`]: the secrets, their validation and lookup by tag.
//! - [`protocol`]: request paths and answer statuses.
//! - [`state`]: which secrets have been received.
//! - [`server`]: the receiver's decision on a request and on a finished upload.
//! - [`upload`]: the steps of one upload.
//! - [`storage`]: what those steps do to the files, and what follows.
//! - [`request`]: one request as a whole, over the record and the files.
//! - [`lifecycle`]: the receiver's shutdown and the removal of its socket.
//! - [`client`]: the sender's run over the manifest.
//! - [`transport`]: the choice of transport and the judgement of its failures.
//! - [`cli`]: the command line.
//! - [`settings`], [`error`], [`text`], [`number`]: settings, kinds of failure, string
//!   comparison, numbers written in digits.

pub mod text;
pub mod number;
pub mod error;
pub mod protocol;
pub mod manifest;
pub mod settings;
pub mod state;
pub mod upload;
pub mod storage;
pub mod server;
pub mod request;
pub mod lifecycle;
pub mod client;
pub mod transport;
pub mod cli;
