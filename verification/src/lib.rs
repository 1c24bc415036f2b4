//! Host-side core of a GPU vanity-key search: parameter validation for the
//! accelerator context, the derivation-mode tag handed to the device program,
//! typed errors with exact message text, and the single-slot result mailbox
//! protocol that surfaces at most one match per dispatch without stale reads.

pub mod channel;
pub mod context;
pub mod decimal;
pub mod error;
pub mod mode;

pub use channel::ResultChannel;
pub use error::Error;
pub use mode::DerivationMode;
