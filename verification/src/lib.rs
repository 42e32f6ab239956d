//! Indexing engine for consensus-chain attestation data.
//!
//! The engine reads validators, committees, block proposers and
//! attestations of a beacon chain epoch by epoch and says what is to be
//! stored of them, so that participation rates can be derived.
//!
//! It is written without I/O: every component is a state machine that is
//! handed the outcome of the request it made last and answers with the next
//! request.  A driver outside this crate talks to the beacon node and to the
//! store.
//!
//! - [`indexer`] holds the engines: the backfill of an epoch, the run over
//!   the epochs, the committee resolver, the processing of live
//!   attestations, and the decoding of aggregation bitfields.
//! - [`service`] holds the records and the rules of reading and writing
//!   them, among them the participation rates.
//! - [`store`] holds the rule that an attestation write follows, tables in
//!   memory that follow it, and the rows and statements of the SQL store.
//! - [`client`] holds the values and requests of the beacon node.
//! - [`common`] holds what client and engine share.

pub mod client;
pub mod common;
pub mod error;
pub mod indexer;
pub mod service;
pub mod store;
