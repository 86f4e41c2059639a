//! The error channel every boundary call follows. A call is handed an
//! error slot by reference and returns a raw value; afterwards the slot
//! is inspected first. If the host populated it, the raw value is
//! discarded and the call is a host error; only on an empty slot is the
//! raw value considered, either wrapped directly as success or flattened
//! through a typed decode whose own failure becomes the call's error.

use vstd::prelude::*;
use crate::object::Object;
use crate::error::{CallError, ErrorCategory, HostError};
use crate::convert::FromObject;

verus! {

/// The mutable error slot handed by reference to every boundary call
/// that can fail; the host populates it to reject the call.
#[derive(Clone, Debug)]
pub struct ErrorSlot {
    pub err: Option<HostError>,
}

impl ErrorSlot {
    /// Whether the host reported an error through this slot.
    pub open spec fn is_populated(self) -> bool {
        self.err is Some
    }

    /// An empty slot, as handed to the host before every call.
    pub fn new() -> (r: ErrorSlot)
        ensures
            !r.is_populated(),
    {
        ErrorSlot { err: None }
    }

    /// Fills the slot, as the host does when it rejects a call.
    pub fn set(&mut self, category: ErrorCategory, message: Vec<u8>)
        ensures
            final(self).is_populated(),
            final(self).err matches Some(h) && h.category == category && h.message@ == message@,
    {
        self.err = Some(HostError { category, message });
    }

    /// Whether the host reported an error through this slot.
    pub fn populated(&self) -> (r: bool)
        ensures
            r == self.is_populated(),
    {
        self.err.is_some()
    }
}

/// The result the channel owes in the direct finishing mode: the host's
/// error if the slot is populated, whatever `raw` holds; otherwise the
/// raw value wrapped as success with no further conversion.
pub open spec fn direct_outcome(slot: ErrorSlot, raw: Object) -> Result<Object, CallError> {
    match slot.err {
        Some(h) => Err(CallError::Host(h)),
        None => Ok(raw),
    }
}

/// The result the channel owes in the flattening finishing mode: the
/// host's error if the slot is populated, whatever `raw` holds;
/// otherwise the typed decode of the raw value, a failing decode
/// surfacing as the call's conversion error.
pub open spec fn flatten_accepts<T: FromObject>(slot: ErrorSlot, raw: Object) -> bool {
    !slot.is_populated() && T::accepts(raw)
}

/// Finishes a boundary call in the direct mode. The slot is inspected
/// first; no call may skip this check.
pub fn finish_direct(slot: ErrorSlot, raw: Object) -> (r: Result<Object, CallError>)
    ensures
        r == direct_outcome(slot, raw),
{
    match slot.err {
        Some(h) => Err(CallError::Host(h)),
        None => Ok(raw),
    }
}

/// Finishes a boundary call in the flattening mode: on an empty slot the
/// raw value is decoded to `T`, and a failing decode is surfaced as the
/// call's error, a conversion error rather than a host one.
pub fn finish_flatten<T: FromObject>(slot: ErrorSlot, raw: Object) -> (r: Result<T, CallError>)
    ensures
        slot.is_populated() ==> (slot.err matches Some(h) && r == Err::<T, CallError>(
            CallError::Host(h),
        )),
        r is Ok <==> flatten_accepts::<T>(slot, raw),
        r matches Ok(v) ==> T::decoded(raw, v),
        !slot.is_populated() && !T::accepts(raw) ==> r == Err::<T, CallError>(
            CallError::Conversion(T::decode_err(raw)),
        ),
{
    match slot.err {
        Some(h) => Err(CallError::Host(h)),
        None => match T::from_obj(&raw) {
            Ok(v) => Ok(v),
            Err(e) => Err(CallError::Conversion(e)),
        },
    }
}

/// Host-error precedence: whenever the error slot is populated, both
/// finishing modes yield the host's reported error, and the raw return
/// value, whatever it holds, is discarded.
pub proof fn lemma_host_error_precedence<T: FromObject>(slot: ErrorSlot, raw: Object)
    requires
        slot.is_populated(),
    ensures
        slot.err matches Some(h) && direct_outcome(slot, raw) == Err::<Object, CallError>(
            CallError::Host(h),
        ),
        !flatten_accepts::<T>(slot, raw),
{
}

} // verus!
