//! Transaction-execution adapter between a chain's consensus and storage layer
//! and a contract engine: gas admission, the prologue and epilogue hooks, the
//! conversion of engine effects into write-sets, and the in-band upgrade of the
//! standard library.

pub mod client;
pub mod config;
pub mod effects;
pub mod gas;
pub mod hooks;
pub mod names;
pub mod status;
pub mod trusted;
pub mod types;
pub mod upgrade;
pub mod write_set;
