//! The error taxonomy of the search core. Every failure is a typed value
//! returned to the caller; nothing is retried internally. `message` renders
//! each error as human-readable text with an exact, verified contract, so an
//! out-of-range index is guaranteed to be reported together with the valid
//! maximum, and build or device diagnostics are carried verbatim.

use vstd::prelude::*;
use vstd::string::StringExecFns;

use crate::decimal::dec_seq;
use crate::decimal::push_decimal;

verus! {

/// A failure of the accelerator context or of one dispatch cycle. All
/// variants are fatal for the context that produced them: the caller corrects
/// its input or rebuilds the context, the core never retries.
#[derive(Clone, Debug)]
pub enum Error {
    /// No compute platform could be enumerated at all.
    NoAcceleratorAvailable,
    /// The supplied platform index is beyond the enumerated platforms;
    /// carries the offending index and the largest valid one.
    IndexOutOfRange { index: usize, max: usize },
    /// The supplied device index does not resolve to a device on the chosen
    /// platform; carries the offending index.
    DeviceNotFound { index: usize },
    /// The derivation program failed to compile on the selected device;
    /// carries the compiler's diagnostic verbatim.
    ProgramBuildFailed { diagnostic: String },
    /// A buffer transfer, dispatch submission or wait failed at the device
    /// API level; carries the underlying diagnostic verbatim.
    DeviceOperationFailed { diagnostic: String },
}

/// The exact text that `message` renders for each error.
pub open spec fn message_of(e: Error) -> Seq<char> {
    match e {
        Error::NoAcceleratorAvailable => "No OpenCL platforms exist (check your drivers and OpenCL setup)"@,
        Error::IndexOutOfRange { index, max } => "Platform index "@ + dec_seq(index as nat)
            + " too large (max "@ + dec_seq(max as nat) + ")"@,
        Error::DeviceNotFound { index } => "Requested device not found (device index "@ + dec_seq(
            index as nat,
        ) + ")"@,
        Error::ProgramBuildFailed { diagnostic } => "Program build failed: "@ + diagnostic@,
        Error::DeviceOperationFailed { diagnostic } => "Device operation failed: "@ + diagnostic@,
    }
}

impl Error {
    /// Human-readable description of the failure. For an out-of-range index
    /// the text always names both the supplied index and the valid maximum;
    /// for build and device failures it carries the diagnostic verbatim.
    pub fn message(&self) -> (r: String)
        ensures
            r@ == message_of(*self),
    {
        match self {
            Error::NoAcceleratorAvailable => {
                let r = String::from_str(
                    "No OpenCL platforms exist (check your drivers and OpenCL setup)",
                );
                r
            },
            Error::IndexOutOfRange { index, max } => {
                let mut r = String::from_str("Platform index ");
                push_decimal(&mut r, *index);
                r.append(" too large (max ");
                push_decimal(&mut r, *max);
                r.append(")");
                r
            },
            Error::DeviceNotFound { index } => {
                let mut r = String::from_str("Requested device not found (device index ");
                push_decimal(&mut r, *index);
                r.append(")");
                r
            },
            Error::ProgramBuildFailed { diagnostic } => {
                let mut r = String::from_str("Program build failed: ");
                r.append(diagnostic.as_str());
                r
            },
            Error::DeviceOperationFailed { diagnostic } => {
                let mut r = String::from_str("Device operation failed: ");
                r.append(diagnostic.as_str());
                r
            },
        }
    }
}

} // verus!
