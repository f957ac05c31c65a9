//! The transaction envelope: a base transaction plus the cross-layer fields,
//! its builder, and its validation errors.

pub mod abstraction;
pub mod error;
pub mod priority_tx;

pub use abstraction::ZKsyncTx;
pub use error::ZKsyncTxError;
