//! Verified core of the Lagrange prover worker: configuration checks, network
//! constants, the prover registry, task planning for the proving backends and
//! the parameter download protocol.

pub mod encoding;
pub mod preprocessing;
pub mod query;
pub mod manager;
pub mod network;
pub mod config;
pub mod worker;
pub mod params;
pub mod dummy;
pub mod avs;
pub mod v0;
pub mod metrics;
pub mod typed_preprocessing;
pub mod groth16;
