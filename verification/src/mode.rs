//! Derivation mode: how a device lane turns its candidate seed into a private
//! scalar. Fixed at context construction and passed to the device program as a
//! one-byte tag.

use vstd::prelude::*;

verus! {

/// How the device program expands a 32-byte candidate seed into key material:
/// either as entropy for a mnemonic-style passphrase expansion, or directly as
/// the raw private scalar.
#[derive(Clone, Copy, Debug, PartialEq, Eq, Structural)]
pub enum DerivationMode {
    Passphrase,
    RawKey,
}

/// The one-byte tag that encodes a derivation mode for the device program.
pub open spec fn mode_tag(mode: DerivationMode) -> u8 {
    match mode {
        DerivationMode::Passphrase => 0u8,
        DerivationMode::RawKey => 1u8,
    }
}

impl DerivationMode {
    /// The tag handed to the device program as a kernel argument.
    pub fn code(&self) -> (tag: u8)
        ensures
            tag == mode_tag(*self),
    {
        match self {
            DerivationMode::Passphrase => 0u8,
            DerivationMode::RawKey => 1u8,
        }
    }
}

/// Two different derivation modes are always encoded by two different tags, so
/// the device program can never confuse one mode's dispatch with the other's.
pub proof fn lemma_mode_tags_distinct(a: DerivationMode, b: DerivationMode)
    requires
        a != b,
    ensures
        mode_tag(a) != mode_tag(b),
{
}

} // verus!
