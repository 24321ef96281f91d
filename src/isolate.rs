//! A runtime instance and the scope stack it owns.
use vstd::prelude::*;

use crate::handle::isolates_match;
use crate::handle::resolve;
use crate::handle::GetRawIsolate;
use crate::handle::Handle;
use crate::handle::HostIsolate;
use crate::handle::Local;
use crate::stack::context_at;
use crate::stack::escape_armed;
use crate::stack::holds_block;
use crate::stack::kinds;
use crate::stack::top_of;
use crate::stack::CONTEXT;
use crate::stack::ESCAPE;
use crate::stack::touchable;
use crate::stack::Frame;
use crate::stack::ScopeData;

verus! {

/// The identity of a runtime instance. It is also the root parent of the
/// scopes of that instance: the position below every frame.
#[derive(Clone, Copy, Debug, PartialEq, Eq, Structural)]
pub struct Isolate {
    pub id: u64,
}

/// A position on the scope stack of one runtime instance: the depth at which
/// a scope's topmost frame lies, and that frame's serial number (0 at the
/// root, depth 0).
#[derive(Clone, Copy, Debug, PartialEq, Eq, Structural)]
pub struct ScopePos {
    pub isolate: u64,
    pub depth: usize,
    pub frame: u64,
}

/// A runtime instance that exclusively owns its scope stack.
pub struct OwnedIsolate {
    isolate: Isolate,
    scope_data: ScopeData,
}

impl OwnedIsolate {
    /// The instance's identity.
    pub closed spec fn id(&self) -> u64 {
        self.isolate.id
    }

    /// The instance's scope stack.
    pub closed spec fn data(&self) -> ScopeData {
        self.scope_data
    }

    /// The frames of the instance's scope stack.
    pub open spec fn frames(&self) -> Seq<Frame> {
        self.data().frames()
    }

    pub open spec fn wf(&self) -> bool {
        self.data().wf()
    }

    /// Whether `pos` is a position of this instance that can be touched.
    pub open spec fn can_touch(&self, pos: ScopePos) -> bool {
        pos.isolate == self.id() && touchable(self.frames(), pos.depth as int, pos.frame)
    }

    /// A new instance with identity `id` and an empty scope stack.
    pub fn new(id: u64) -> (r: Self)
        ensures
            r.wf(),
            r.id() == id,
            r.frames() == Seq::<Frame>::empty(),
            r.data().next_id() == 1,
    {
        OwnedIsolate { isolate: Isolate { id }, scope_data: ScopeData::new() }
    }

    /// The instance's identity, which is also the root position's parent.
    pub fn isolate(&self) -> (r: Isolate)
        ensures
            r.id == self.id(),
    {
        self.isolate
    }

    /// Read access to the scope stack.
    pub fn scope_data(&self) -> (r: &ScopeData)
        ensures
            *r == self.data(),
    {
        &self.scope_data
    }

    /// Write access to the scope stack, for the scope constructors.
    pub(crate) fn scope_data_mut(&mut self) -> (r: &mut ScopeData)
        ensures
            *r == old(self).data(),
            final(self).data() == *final(r),
            final(self).id() == old(self).id(),
    {
        &mut self.scope_data
    }

    /// Whether `pos` is a position of this instance that can be touched.
    pub fn is_active(&self, pos: ScopePos) -> (r: bool)
        ensures
            r == self.can_touch(pos),
    {
        pos.isolate == self.isolate.id && self.scope_data.is_touchable(pos.depth, pos.frame)
    }

    /// Whether a handle of this instance whose owning block is `block` can be
    /// read: that block is still on the stack.
    pub fn holds(&self, isolate: u64, block: u64) -> (r: bool)
        ensures
            r == (isolate == self.id() && holds_block(self.frames(), block)),
    {
        isolate == self.isolate.id && self.scope_data.contains_block(block)
    }

    /// Whether the escape slot that a scope at depth `depth` uses is armed.
    pub fn escape_slot_armed(&self, depth: usize) -> (r: bool)
        requires
            depth <= self.frames().len(),
        ensures
            r == escape_armed(
                self.frames().take(depth as int),
                top_of(kinds(self.frames().take(depth as int)), ESCAPE as int),
            ),
    {
        self.scope_data.escape_armed_below(depth)
    }

    /// Touches the scope at `pos`: collapses the stale frames above it.
    pub fn touch(&mut self, pos: ScopePos)
        requires
            old(self).wf(),
            old(self).can_touch(pos),
        ensures
            final(self).wf(),
            final(self).id() == old(self).id(),
            final(self).frames() == old(self).frames().take(pos.depth as int),
            final(self).data().next_id() == old(self).data().next_id(),
    {
        self.scope_data.touch(pos.depth, pos.frame);
    }

    /// Whether a handle to the object of `handle` may be made in this
    /// instance: the handle must belong to it.
    pub fn accepts_handle<H: Handle>(&self, handle: &H) -> (r: bool)
        ensures
            r == isolates_match(HostIsolate::Ptr(self.id()), resolve(handle.raw_info().1, self.id())),
    {
        let (_data, host) = handle.get_raw_info();
        HostIsolate::new(&self.isolate).match_isolate(host.apply_scope(&self.isolate))
    }

    /// Whether the scope at `pos` may enter `context`: the scope can be
    /// touched, and the context belongs to this instance and is readable.
    pub fn accepts_context(&self, pos: ScopePos, context: &Local) -> (r: bool)
        ensures
            r == (self.can_touch(pos) && context.isolate == self.id() && context.readable(self)),
    {
        let same = HostIsolate::new(&self.isolate).match_isolate(
            HostIsolate::Ptr(context.get_raw_isolate()),
        );
        same && self.is_active(pos) && context.is_readable(self)
    }

    /// The context that the scope at `pos` runs in: the one entered by the
    /// topmost context frame at or below it, or none when no context frame
    /// is there (the runtime itself then knows the current context).
    pub fn get_current_context(&self, pos: ScopePos) -> (r: Option<u64>)
        requires
            pos.depth <= self.frames().len(),
        ensures
            r == context_at(
                self.frames().take(pos.depth as int),
                top_of(kinds(self.frames().take(pos.depth as int)), CONTEXT as int),
            ),
    {
        self.scope_data.context_below(pos.depth)
    }

    /// Ends the instance's use of its stack: every frame is popped, in
    /// last-in-first-out order, whatever scope still refers to it.
    pub fn dispose(&mut self)
        requires
            old(self).wf(),
        ensures
            final(self).wf(),
            final(self).id() == old(self).id(),
            final(self).frames() == Seq::<Frame>::empty(),
    {
        self.scope_data.unwind_to(0);
    }
}

} // verus!
