//! Values returned by the beacon node.

pub mod attestation;
pub mod block;
pub mod checkpoint;
pub mod committee;
pub mod proposer;
pub mod state;
pub mod validator;
