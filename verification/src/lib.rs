//! An EVM-engine extension for a two-layer rollup chain: cross-layer
//! (deposit-style) transaction handling, an L1 data-posting fee oracle, and
//! three fixed-address system contracts, together with the byte-exact ABI
//! layouts they enforce.

pub mod address;
pub mod byteops;
pub mod gas;
pub mod handler;
pub mod keccak;
pub mod l1block;
pub mod precompiles;
pub mod result;
pub mod spec_id;
pub mod state;
pub mod transaction;
pub mod u256;

pub use result::ZkHaltReason;
pub use spec_id::ZkSpecId;
pub use transaction::{ZKsyncTx, ZKsyncTxError};
