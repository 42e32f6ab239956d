//! Types shared by the beacon client and the indexing engine.

pub mod committee;
pub mod state;
pub mod util;
pub mod validator;
