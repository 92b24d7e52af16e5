use vstd::prelude::*;

verus! {

/// Why an operation on the log subsystem could not be carried out.
#[derive(Debug, Clone, Copy, PartialEq, Eq, Structural)]
pub enum WinThingError {
    /// The native side reported success but handed out the null handle.
    NullHandle,
    /// The handle was already released, or never was valid.
    InvalidHandle,
    /// The native call failed with this system error code.
    Native { code: u32 },
    /// A property came back with a type tag that has no JSON form.
    UnsupportedVariant { tag: u32 },
}

} // verus!
