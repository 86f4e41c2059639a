//! Typed wrappers around handles: opaque integers referring to live
//! host-side resources. A buffer handle names a host buffer; a callback
//! reference names a native closure whose ownership has been handed to
//! the host's registry.

use vstd::prelude::*;
use crate::object::{Object, ObjectKind, ObjectTag, Ownership};
use crate::error::ConversionError;
use crate::convert::{FromObject, ToObject};

verus! {

/// A handle to a host-side buffer.
#[derive(Clone, Copy, PartialEq, Eq, Structural, Debug, Hash)]
pub struct Buffer(pub i32);

impl ToObject for Buffer {
    open spec fn represents(&self, o: Object) -> bool {
        o == (Object { mode: Ownership::Owned, id: 0, kind: ObjectKind::Handle(self.0 as i64) })
    }

    fn to_obj(&self) -> (r: Object) {
        Object::handle(self.0 as i64)
    }
}

impl FromObject for Buffer {
    open spec fn accepts(o: Object) -> bool {
        o.kind matches ObjectKind::Handle(h) && i32::MIN as i64 <= h <= i32::MAX as i64
    }

    open spec fn decoded(o: Object, v: Self) -> bool {
        o.kind == ObjectKind::Handle(v.0 as i64)
    }

    open spec fn decode_err(o: Object) -> ConversionError {
        if o.kind is Handle {
            ConversionError::OutOfRange { value: o.kind->Handle_0 }
        } else {
            ConversionError::WrongTag { expected: ObjectTag::Handle, actual: o.tag() }
        }
    }

    fn from_obj(o: &Object) -> (r: Result<Self, ConversionError>) {
        match &o.kind {
            ObjectKind::Handle(h) => {
                if i32::MIN as i64 <= *h && *h <= i32::MAX as i64 {
                    Ok(Buffer(*h as i32))
                } else {
                    Err(ConversionError::OutOfRange { value: *h })
                }
            },
            _ => Err(ConversionError::WrongTag {
                expected: ObjectTag::Handle,
                actual: o.tag_of(),
            }),
        }
    }
}

/// A reference to a registered native callback. The closure itself lives
/// in the host's registry; this value only names it, and its identity is
/// what a lowered option record threads through as a handle.
#[derive(Clone, Copy, PartialEq, Eq, Structural, Debug, Hash)]
pub struct LuaRef(pub i32);

impl ToObject for LuaRef {
    open spec fn represents(&self, o: Object) -> bool {
        o == (Object { mode: Ownership::Owned, id: 0, kind: ObjectKind::Handle(self.0 as i64) })
    }

    fn to_obj(&self) -> (r: Object) {
        Object::handle(self.0 as i64)
    }
}

impl FromObject for LuaRef {
    open spec fn accepts(o: Object) -> bool {
        o.kind matches ObjectKind::Handle(h) && i32::MIN as i64 <= h <= i32::MAX as i64
    }

    open spec fn decoded(o: Object, v: Self) -> bool {
        o.kind == ObjectKind::Handle(v.0 as i64)
    }

    open spec fn decode_err(o: Object) -> ConversionError {
        if o.kind is Handle {
            ConversionError::OutOfRange { value: o.kind->Handle_0 }
        } else {
            ConversionError::WrongTag { expected: ObjectTag::Handle, actual: o.tag() }
        }
    }

    fn from_obj(o: &Object) -> (r: Result<Self, ConversionError>) {
        match &o.kind {
            ObjectKind::Handle(h) => {
                if i32::MIN as i64 <= *h && *h <= i32::MAX as i64 {
                    Ok(LuaRef(*h as i32))
                } else {
                    Err(ConversionError::OutOfRange { value: *h })
                }
            },
            _ => Err(ConversionError::WrongTag {
                expected: ObjectTag::Handle,
                actual: o.tag_of(),
            }),
        }
    }
}

/// Round trip for buffer handles: every buffer handle fits the wide
/// handle shape it encodes to, so decoding its encoding is accepted and
/// yields it back.
pub proof fn lemma_round_trip_buffer(x: Buffer, o: Object, y: Buffer)
    requires
        x.represents(o),
    ensures
        <Buffer as FromObject>::accepts(o),
        <Buffer as FromObject>::decoded(o, y) ==> y == x,
{
}

/// Round trip for callback references, as for buffer handles.
pub proof fn lemma_round_trip_luaref(x: LuaRef, o: Object, y: LuaRef)
    requires
        x.represents(o),
    ensures
        <LuaRef as FromObject>::accepts(o),
        <LuaRef as FromObject>::decoded(o, y) ==> y == x,
{
}

} // verus!
