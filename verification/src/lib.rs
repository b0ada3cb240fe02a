//! A minimal byte-addressable 16-bit virtual CPU with a per-instruction
//! trace and a deterministic commitment pipeline: each recorded step, the
//! program itself and the end state are hashed, reduced into the BN254
//! scalar field and passed through an algebraic hash, producing the
//! public and private inputs of an external proving system.

pub mod bus;
pub mod constants;
pub mod error;
pub mod field;
pub mod memory;
pub mod register;
pub mod utils;
pub mod vm;
pub mod zk;
