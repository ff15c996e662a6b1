//! The error taxonomy of this layer: a single kind, "native call failed",
//! carrying the native status code.

use vstd::prelude::*;

verus! {

/// The native status code that every native call reports; zero means success.
pub type VaStatus = i32;

/// The status code a successful native call reports.
pub const VA_STATUS_SUCCESS: VaStatus = 0;

/// A failed native call, carrying the native status code that the call
/// reported. No finer taxonomy exists at this layer: the native code is the
/// authoritative detail.
#[derive(Clone, Copy, Debug, PartialEq, Eq, Structural)]
pub struct VaError {
    /// The status code the native call reported; never `VA_STATUS_SUCCESS`.
    pub status: VaStatus,
}

impl VaError {
    /// The native status code carried by this error.
    pub fn status(&self) -> (r: VaStatus)
        ensures
            r == self.status,
    {
        self.status
    }
}

/// Translates a native status code into this layer's error taxonomy:
/// success becomes `Ok`, anything else an error carrying the code.
pub fn va_check(status: VaStatus) -> (r: Result<(), VaError>)
    ensures
        r is Ok <==> status == VA_STATUS_SUCCESS,
        r is Err ==> (r->Err_0).status == status,
{
    if status == VA_STATUS_SUCCESS {
        Ok(())
    } else {
        Err(VaError { status })
    }
}

} // verus!
