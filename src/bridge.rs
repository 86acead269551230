//! The bridge between graphics-API handles, which are opaque 64-bit integers,
//! and the pointer-typed arguments of the native ABI; and the ownership cell of
//! a native resource handle.
use vstd::prelude::*;

verus! {

/// A pointer-typed argument of the native ABI, kept as the address it points
/// at. It is never dereferenced: the native side turns it back into the handle.
#[derive(Debug, Clone, Copy, PartialEq, Eq, Structural)]
pub struct NativePointer {
    pub address: u64,
}

/// The pointer that encodes a graphics-API handle: the handle is the byte
/// offset of the pointer from null.
pub open spec fn spec_handle_to_pointer(raw: u64) -> NativePointer {
    NativePointer { address: raw }
}

/// The graphics-API handle that a pointer encodes: its offset from null.
pub open spec fn spec_pointer_to_handle(pointer: NativePointer) -> u64 {
    pointer.address
}

/// Encodes a graphics-API handle as a pointer argument of the native ABI.
pub fn handle_to_pointer(raw: u64) -> (r: NativePointer)
    ensures
        r == spec_handle_to_pointer(raw),
{
    NativePointer { address: raw }
}

/// Recovers the graphics-API handle from a pointer that the native side handed
/// back.
pub fn pointer_to_handle(pointer: NativePointer) -> (r: u64)
    ensures
        r == spec_pointer_to_handle(pointer),
{
    pointer.address
}

/// The encoding is lossless in both directions: a handle survives the trip
/// through a pointer and back, and so does a pointer through a handle.
pub proof fn lemma_handle_pointer_round_trip(raw: u64, pointer: NativePointer)
    ensures
        spec_pointer_to_handle(spec_handle_to_pointer(raw)) == raw,
        spec_handle_to_pointer(spec_pointer_to_handle(pointer)) == pointer,
{
}

/// What releasing a handle does: a non-null handle is handed out for its one
/// release call, and the cell is left null either way.
pub open spec fn spec_take(raw: u64) -> (Option<u64>, u64) {
    if raw == 0 {
        (None, 0)
    } else {
        (Some(raw), 0)
    }
}

/// The number of native release calls that `attempts` successive releases of
/// a cell holding `raw` make.
pub open spec fn release_count(raw: u64, attempts: nat) -> nat
    decreases attempts,
{
    if attempts == 0 {
        0
    } else {
        (if spec_take(raw).0 is Some {
            1nat
        } else {
            0nat
        }) + release_count(spec_take(raw).1, (attempts - 1) as nat)
    }
}

/// The owner of one native resource handle. A null (zero) handle means "not
/// created yet" or "already released"; a release is never made for it.
#[derive(Debug)]
pub struct NativeHandle {
    raw: u64,
}

impl NativeHandle {
    /// The raw handle held.
    pub closed spec fn spec_raw(&self) -> u64 {
        self.raw
    }

    /// A cell that holds no resource yet.
    pub fn null() -> (r: NativeHandle)
        ensures
            r.spec_raw() == 0,
    {
        NativeHandle { raw: 0 }
    }

    /// Takes ownership of a handle that the native SDK created.
    pub fn from_raw(raw: u64) -> (r: NativeHandle)
        ensures
            r.spec_raw() == raw,
    {
        NativeHandle { raw }
    }

    /// The raw handle, for passing it back to the native SDK.
    pub fn raw(&self) -> (r: u64)
        ensures
            r == self.spec_raw(),
    {
        self.raw
    }

    /// Whether the cell holds no resource.
    pub fn is_null(&self) -> (r: bool)
        ensures
            r == (self.spec_raw() == 0),
    {
        self.raw == 0
    }

    /// Hands out the handle for its release call and leaves the cell null, so
    /// that no second release can follow. A null cell hands out nothing.
    pub fn take(&mut self) -> (r: Option<u64>)
        ensures
            r == spec_take(old(self).spec_raw()).0,
            final(self).spec_raw() == spec_take(old(self).spec_raw()).1,
    {
        if self.raw == 0 {
            None
        } else {
            let raw = self.raw;
            self.raw = 0;
            Some(raw)
        }
    }
}

/// However often a cell is released, the native release call is made at most
/// once; and it is made exactly when the cell held a non-null handle and was
/// released at least once.
pub proof fn lemma_release_at_most_once(raw: u64, attempts: nat)
    ensures
        release_count(raw, attempts) <= 1,
        release_count(raw, attempts) == 1 <==> (raw != 0 && attempts > 0),
    decreases attempts,
{
    if attempts > 0 {
        lemma_release_at_most_once(0, (attempts - 1) as nat);
        lemma_null_never_released((attempts - 1) as nat);
    }
}

/// A null cell is never released, however often it is asked to be.
pub proof fn lemma_null_never_released(attempts: nat)
    ensures
        release_count(0, attempts) == 0,
    decreases attempts,
{
    if attempts > 0 {
        lemma_null_never_released((attempts - 1) as nat);
    }
}

} // verus!
