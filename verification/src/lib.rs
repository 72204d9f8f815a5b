//! A minimal greeting service over the Soroban host runtime: one operation
//! echoes a caller-supplied symbol unchanged, the other returns the fixed
//! greeting symbol "Hello". Both are stateless, total functions.

pub mod service;
pub mod symbol;

pub use service::HelloWorld;
