//! A model of the host-side registry that accepts ownership of callback
//! closures. Registering boxes a closure and yields the handle that
//! names it; the host then invokes the handle zero or more times and
//! owes exactly one release. Invocation never releases, so invoking the
//! expected number of times cannot double-release the closure.

use vstd::prelude::*;
use crate::handles::LuaRef;

verus! {

/// The registry's record of one transferred closure.
#[derive(Clone, Copy, PartialEq, Eq, Structural, Debug)]
pub struct CallbackSlot {
    /// How often the host has invoked the closure (saturating).
    pub invokes: u64,
    /// Whether the host has released the closure.
    pub released: bool,
}

/// The host-side callback registry: one slot per transferred closure,
/// named by the handle its registration returned.
#[derive(Clone, Debug)]
pub struct CallbackRegistry {
    pub slots: Vec<CallbackSlot>,
}

/// The release flag of every slot, in slot order.
pub open spec fn released_flags(reg: CallbackRegistry) -> Seq<bool> {
    reg.slots@.map(|i: int, s: CallbackSlot| s.released)
}

impl CallbackRegistry {
    /// Whether `f` names a slot of this registry.
    pub open spec fn holds(self, f: LuaRef) -> bool {
        0 <= f.0 < self.slots@.len()
    }

    /// An empty registry.
    pub fn new() -> (r: CallbackRegistry)
        ensures
            r.slots@.len() == 0,
    {
        CallbackRegistry { slots: Vec::new() }
    }

    /// Accepts ownership of one boxed closure, returning the fresh
    /// handle that names it from now on.
    pub fn register(&mut self) -> (f: LuaRef)
        requires
            old(self).slots@.len() < i32::MAX,
        ensures
            final(self).slots@ == old(self).slots@.push(
                CallbackSlot { invokes: 0, released: false },
            ),
            f.0 as int == old(self).slots@.len(),
            final(self).holds(f),
    {
        let f = LuaRef(self.slots.len() as i32);
        self.slots.push(CallbackSlot { invokes: 0, released: false });
        f
    }

    /// Invokes the closure `f` names, as the host does when the mapping
    /// fires. Invocation succeeds exactly on a held, unreleased handle,
    /// and never releases anything: the release flags of every slot are
    /// unchanged whatever happens.
    pub fn invoke(&mut self, f: LuaRef) -> (ok: bool)
        ensures
            ok <==> old(self).holds(f) && !old(self).slots@[f.0 as int].released,
            released_flags(*final(self)) == released_flags(*old(self)),
            !ok ==> *final(self) == *old(self),
            ok ==> final(self).slots@ == old(self).slots@.update(
                f.0 as int,
                CallbackSlot {
                    invokes: if old(self).slots@[f.0 as int].invokes < u64::MAX {
                        (old(self).slots@[f.0 as int].invokes + 1) as u64
                    } else {
                        u64::MAX
                    },
                    released: false,
                },
            ),
    {
        if f.0 < 0 {
            proof {
                assert(released_flags(*self) =~= released_flags(*old(self)));
            }
            return false;
        }
        let i = f.0 as usize;
        if i >= self.slots.len() {
            proof {
                assert(released_flags(*self) =~= released_flags(*old(self)));
            }
            return false;
        }
        let slot = self.slots[i];
        if slot.released {
            proof {
                assert(released_flags(*self) =~= released_flags(*old(self)));
            }
            return false;
        }
        let invokes = if slot.invokes < u64::MAX {
            slot.invokes + 1
        } else {
            u64::MAX
        };
        self.slots.set(i, CallbackSlot { invokes, released: false });
        proof {
            assert(released_flags(*self) =~= released_flags(*old(self)));
        }
        true
    }

    /// Releases the closure `f` names, owed to the registry exactly once
    /// when the owning context is torn down. A second release of the
    /// same handle fails and changes nothing, so a release is never
    /// doubled.
    pub fn release(&mut self, f: LuaRef) -> (ok: bool)
        ensures
            ok <==> old(self).holds(f) && !old(self).slots@[f.0 as int].released,
            !ok ==> *final(self) == *old(self),
            ok ==> final(self).slots@ == old(self).slots@.update(
                f.0 as int,
                CallbackSlot { invokes: old(self).slots@[f.0 as int].invokes, released: true },
            ),
    {
        if f.0 < 0 {
            return false;
        }
        let i = f.0 as usize;
        if i >= self.slots.len() {
            return false;
        }
        let slot = self.slots[i];
        if slot.released {
            return false;
        }
        self.slots.set(i, CallbackSlot { invokes: slot.invokes, released: true });
        true
    }
}

} // verus!
