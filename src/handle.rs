//! Host handles: references to objects of a runtime instance.
use vstd::prelude::*;

use crate::isolate::Isolate;
use crate::isolate::OwnedIsolate;
use crate::stack::holds_block;

verus! {

/// A reference to one object of a runtime instance, owned by the handle
/// block `block` of that instance. It can be read while that block is on
/// the instance's stack.
#[derive(Clone, Copy, Debug, PartialEq, Eq, Structural)]
pub struct Local {
    /// The runtime instance the object lives in.
    pub isolate: u64,
    /// Serial number of the handle block that owns this handle.
    pub block: u64,
    /// The object's raw representation, opaque to this library.
    pub value: u64,
}

/// A reference to an object that no handle block owns; it stays valid until
/// the instance is gone.
#[derive(Clone, Copy, Debug, PartialEq, Eq, Structural)]
pub struct Global {
    /// The runtime instance the object lives in.
    pub isolate: u64,
    /// The object's raw representation.
    pub value: u64,
}

/// Which runtime instance a handle belongs to.
#[derive(Clone, Copy, Debug, PartialEq, Eq, Structural)]
pub enum HostIsolate {
    /// Whatever instance the current scope belongs to.
    Scope,
    /// The instance with this identity.
    Ptr(u64),
    /// An instance that has been disposed.
    Disposed,
}

/// Whether handles of `a` and `b` may be used together.
pub open spec fn isolates_match(a: HostIsolate, b: HostIsolate) -> bool {
    match (a, b) {
        (HostIsolate::Scope, HostIsolate::Scope) => true,
        (HostIsolate::Ptr(p1), HostIsolate::Ptr(p2)) => p1 == p2,
        (HostIsolate::Disposed, _) => false,
        (_, HostIsolate::Disposed) => false,
        _ => true,
    }
}

/// `h` with "the current scope's instance" resolved to `id`.
pub open spec fn resolve(h: HostIsolate, id: u64) -> HostIsolate {
    match h {
        HostIsolate::Scope => HostIsolate::Ptr(id),
        _ => h,
    }
}

impl HostIsolate {
    /// The instance `isolate`.
    pub fn new(isolate: &Isolate) -> (r: Self)
        ensures
            r == HostIsolate::Ptr(isolate.id),
    {
        HostIsolate::Ptr(isolate.id)
    }

    /// Resolves "the current scope's instance" to `isolate`.
    pub fn apply_scope(self, isolate: &Isolate) -> (r: Self)
        ensures
            r == resolve(self, isolate.id),
    {
        match self {
            HostIsolate::Scope => HostIsolate::Ptr(isolate.id),
            _ => self,
        }
    }

    /// Whether handles of `self` and `other` may be used together: two known
    /// instances must be the same, and a disposed one matches nothing.
    pub fn match_isolate(self, other: Self) -> (r: bool)
        ensures
            r == isolates_match(self, other),
    {
        match (self, other) {
            (HostIsolate::Scope, HostIsolate::Scope) => true,
            (HostIsolate::Ptr(p1), HostIsolate::Ptr(p2)) => p1 == p2,
            (HostIsolate::Disposed, _) => false,
            (_, HostIsolate::Disposed) => false,
            _ => true,
        }
    }

    /// The identity of a known instance.
    pub fn get_isolate_ptr(self) -> (r: u64)
        requires
            self is Ptr,
        ensures
            r == self->Ptr_0,
    {
        match self {
            HostIsolate::Ptr(p) => p,
            _ => 0,
        }
    }
}

/// A value from which a new local handle can be made.
pub trait Handle {
    /// The object's raw representation and the instance it belongs to.
    spec fn raw_info(&self) -> (u64, HostIsolate);

    /// Whether the handle can be read while `isolate` is in the given state.
    spec fn readable(&self, isolate: &OwnedIsolate) -> bool;

    fn get_raw_info(&self) -> (r: (u64, HostIsolate))
        ensures
            r == self.raw_info(),
    ;
}

/// Values that know the runtime instance they belong to.
pub trait GetRawIsolate {
    spec fn raw_isolate(&self) -> u64;

    fn get_raw_isolate(&self) -> (r: u64)
        ensures
            r == self.raw_isolate(),
    ;
}

impl Handle for Local {
    open spec fn raw_info(&self) -> (u64, HostIsolate) {
        (self.value, HostIsolate::Ptr(self.isolate))
    }

    open spec fn readable(&self, isolate: &OwnedIsolate) -> bool {
        self.isolate == isolate.id() && holds_block(isolate.frames(), self.block)
    }

    fn get_raw_info(&self) -> (r: (u64, HostIsolate)) {
        (self.value, HostIsolate::Ptr(self.isolate))
    }
}

impl Handle for Global {
    open spec fn raw_info(&self) -> (u64, HostIsolate) {
        (self.value, HostIsolate::Ptr(self.isolate))
    }

    open spec fn readable(&self, isolate: &OwnedIsolate) -> bool {
        self.isolate == isolate.id()
    }

    fn get_raw_info(&self) -> (r: (u64, HostIsolate)) {
        (self.value, HostIsolate::Ptr(self.isolate))
    }
}

impl GetRawIsolate for Local {
    open spec fn raw_isolate(&self) -> u64 {
        self.isolate
    }

    fn get_raw_isolate(&self) -> (r: u64) {
        self.isolate
    }
}

impl GetRawIsolate for Global {
    open spec fn raw_isolate(&self) -> u64 {
        self.isolate
    }

    fn get_raw_isolate(&self) -> (r: u64) {
        self.isolate
    }
}

impl Local {
    /// Reads the handle's object. The owning block must still be on the
    /// stack.
    pub fn get(&self, isolate: &OwnedIsolate) -> (r: u64)
        requires
            self.readable(isolate),
        ensures
            r == self.value,
    {
        self.value
    }

    /// Whether the handle can be read in the current state of `isolate`.
    pub fn is_readable(&self, isolate: &OwnedIsolate) -> (r: bool)
        ensures
            r == self.readable(isolate),
    {
        isolate.holds(self.isolate, self.block)
    }

    /// The object's raw representation.
    pub fn as_non_null(self) -> (r: u64)
        ensures
            r == self.value,
    {
        self.value
    }
}

impl Global {
    /// A global reference to the object of `handle`, in the instance the
    /// handle belongs to.
    pub fn new<H: Handle>(isolate: &OwnedIsolate, handle: &H) -> (r: Self)
        requires
            handle.readable(isolate),
            handle.raw_info().1 is Ptr,
        ensures
            r.value == handle.raw_info().0,
            r.isolate == handle.raw_info().1->Ptr_0,
    {
        let (data, host) = handle.get_raw_info();
        Global { isolate: host.get_isolate_ptr(), value: data }
    }

    /// Reads the object. It must belong to `isolate`.
    pub fn get(&self, isolate: &Isolate) -> (r: u64)
        requires
            isolates_match(HostIsolate::Ptr(self.isolate), HostIsolate::Ptr(isolate.id)),
        ensures
            r == self.value,
    {
        self.value
    }
}

} // verus!
