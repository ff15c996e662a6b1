//! The display/session handle through which every native call goes.
//!
//! The native API itself is an opaque external collaborator; this module
//! models it as a display that is set up with the outcome its map call will
//! report, and that records, in order, every native call issued through it.
//! The recorded log is what the lifecycle contracts of this crate — map once,
//! then unmap and destroy exactly once each, in that order — are stated over.

use vstd::prelude::*;

use crate::error::VaError;
use crate::error::VaStatus;
use crate::error::VA_STATUS_SUCCESS;

verus! {

/// One native call issued through a display, as recorded in its log.
#[derive(Clone, Copy, Debug, PartialEq, Eq, Structural)]
pub enum NativeCall {
    /// A request to map the buffer with this identifier into process memory.
    MapBuffer { buf: u32 },
    /// A request to unmap the previously mapped buffer with this identifier.
    UnmapBuffer { buf: u32 },
    /// A request to release the native image with this identifier.
    DestroyImage { image_id: u32 },
}

/// How many times `c` occurs in the recorded log `log`.
pub open spec fn count_calls(log: Seq<NativeCall>, c: NativeCall) -> nat
    decreases log.len(),
{
    if log.len() == 0 {
        0
    } else {
        count_calls(log.drop_last(), c) + if log.last() == c { 1nat } else { 0nat }
    }
}

/// Appending one call to a log raises the count of that call by one and
/// leaves the count of every other call unchanged.
pub proof fn lemma_count_calls_push(log: Seq<NativeCall>, x: NativeCall, c: NativeCall)
    ensures
        count_calls(log.push(x), c) == count_calls(log, c) + if x == c {
            1nat
        } else {
            0nat
        },
{
    assert(log.push(x).drop_last() =~= log);
    assert(log.push(x).last() == x);
}

/// The display/session object that created the native resources this crate
/// manages, and through which their native teardown calls must go.
///
/// The native library is outside this crate, so the display carries a model
/// of it: the outcome its map call will report, fixed when the display is
/// made, and a log of every native call issued through it, in order.
pub struct Display {
    /// The native display handle.
    handle: u64,
    /// The status code the native map call reports; success when zero.
    map_status: VaStatus,
    /// The address the native map call reports on success.
    map_addr: u64,
    /// Every native call issued through this display, oldest first.
    log: Vec<NativeCall>,
}

impl Display {
    /// The native display handle.
    pub closed spec fn spec_handle(&self) -> u64 {
        self.handle
    }

    /// The status code this display's native map call reports.
    pub closed spec fn spec_map_status(&self) -> VaStatus {
        self.map_status
    }

    /// The address this display's native map call reports on success.
    pub closed spec fn spec_map_addr(&self) -> u64 {
        self.map_addr
    }

    /// The native calls issued through this display so far, oldest first.
    pub closed spec fn spec_log(&self) -> Seq<NativeCall> {
        self.log@
    }

    /// Whether this display's native map call reports success.
    pub open spec fn map_succeeds(&self) -> bool {
        self.spec_map_status() == VA_STATUS_SUCCESS
    }

    /// Whether two displays are the same session with the same native
    /// behaviour, the log aside.
    pub open spec fn same_session(&self, other: &Display) -> bool {
        &&& self.spec_handle() == other.spec_handle()
        &&& self.spec_map_status() == other.spec_map_status()
        &&& self.spec_map_addr() == other.spec_map_addr()
    }

    /// Opens a display whose native map call will report `map_status`, and,
    /// on success, the address `map_addr`. No native call has been issued
    /// through it yet.
    pub fn new(handle: u64, map_status: VaStatus, map_addr: u64) -> (r: Display)
        ensures
            r.spec_handle() == handle,
            r.spec_map_status() == map_status,
            r.spec_map_addr() == map_addr,
            r.spec_log() == Seq::<NativeCall>::empty(),
    {
        Display { handle, map_status, map_addr, log: Vec::new() }
    }

    /// The native display handle.
    pub fn handle(&self) -> (r: u64)
        ensures
            r == self.spec_handle(),
    {
        self.handle
    }

    /// The native calls issued through this display so far, oldest first.
    pub fn log(&self) -> (r: &Vec<NativeCall>)
        ensures
            r@ == self.spec_log(),
    {
        &self.log
    }

    /// Issues the native map call for the buffer `buf`: records the call and
    /// reports the mapped address, or the error the native call reported.
    pub fn map_buffer(&mut self, buf: u32) -> (r: Result<u64, VaError>)
        ensures
            final(self).same_session(old(self)),
            final(self).spec_log() == old(self).spec_log().push(
                NativeCall::MapBuffer { buf },
            ),
            r is Ok <==> old(self).map_succeeds(),
            r is Ok ==> r->Ok_0 == old(self).spec_map_addr(),
            r is Err ==> (r->Err_0).status == old(self).spec_map_status(),
    {
        self.log.push(NativeCall::MapBuffer { buf });
        match crate::error::va_check(self.map_status) {
            Ok(()) => Ok(self.map_addr),
            Err(e) => Err(e),
        }
    }

    /// Issues the native unmap call for the buffer `buf`: records the call.
    /// The native status is not propagated: teardown is non-fallible at this
    /// layer.
    pub fn unmap_buffer(&mut self, buf: u32)
        ensures
            final(self).same_session(old(self)),
            final(self).spec_log() == old(self).spec_log().push(
                NativeCall::UnmapBuffer { buf },
            ),
    {
        self.log.push(NativeCall::UnmapBuffer { buf });
    }

    /// Issues the native destroy call for the image `image_id`: records the
    /// call. The native status is not propagated: teardown is non-fallible at
    /// this layer.
    pub fn destroy_image(&mut self, image_id: u32)
        ensures
            final(self).same_session(old(self)),
            final(self).spec_log() == old(self).spec_log().push(
                NativeCall::DestroyImage { image_id },
            ),
    {
        self.log.push(NativeCall::DestroyImage { image_id });
    }
}

} // verus!
