//! Scope handles: typed views of a position on the scope stack. A scope's
//! type fixes its capabilities; the constructor traits say which scope a
//! parent makes for each requested kind.
use vstd::prelude::*;

use crate::handle::isolates_match;
use crate::handle::resolve;
use crate::handle::GetRawIsolate;
use crate::handle::Handle;
use crate::handle::HostIsolate;
use crate::handle::Local;
use crate::isolate::Isolate;
use crate::isolate::OwnedIsolate;
use crate::isolate::ScopePos;
use crate::stack::escape_armed;
use crate::stack::escape_target;
use crate::stack::consume_escape;
use crate::stack::kind_of;
use crate::stack::kinds;
use crate::stack::lemma_top_of_push;
use crate::stack::lemma_top_of_range;
use crate::stack::push_frame;
use crate::stack::released;
use crate::stack::top_of;
use crate::stack::ScopeTypeSpecificData;
use crate::stack::BLOCK;
use crate::stack::ESCAPE;

verus! {

/// What a scope lets its holder do.
#[derive(Clone, Copy, Debug, PartialEq, Eq, Structural)]
pub struct Caps {
    /// Create handles.
    pub handles: bool,
    /// Promote one handle to the enclosing handle block.
    pub escape: bool,
    /// Inspect a caught exception.
    pub try_catch: bool,
    /// Use the entered execution context.
    pub context: bool,
}

impl Caps {
    /// No capability at all.
    pub open spec fn none() -> Caps {
        Caps { handles: false, escape: false, try_catch: false, context: false }
    }

    /// Every capability of `other` is one of `self`.
    pub open spec fn includes(self, other: Caps) -> bool {
        &&& other.handles ==> self.handles
        &&& other.escape ==> self.escape
        &&& other.try_catch ==> self.try_catch
        &&& other.context ==> self.context
    }

    /// The capabilities of both.
    pub open spec fn union(self, other: Caps) -> Caps {
        Caps {
            handles: self.handles || other.handles,
            escape: self.escape || other.escape,
            try_catch: self.try_catch || other.try_catch,
            context: self.context || other.context,
        }
    }
}

/// The capability a handle block adds.
pub open spec fn handle_caps() -> Caps {
    Caps { handles: true, ..Caps::none() }
}

/// The capabilities an escapable handle block adds.
pub open spec fn escape_caps() -> Caps {
    Caps { handles: true, escape: true, ..Caps::none() }
}

/// The capability an exception trap adds.
pub open spec fn try_catch_caps() -> Caps {
    Caps { try_catch: true, ..Caps::none() }
}

/// The capability an entered context adds.
pub open spec fn context_caps() -> Caps {
    Caps { context: true, ..Caps::none() }
}

/// The block that the scope at depth `depth` of `isolate` would give new
/// handles, as an index into its frames, or -1.
pub open spec fn block_below(isolate: OwnedIsolate, depth: int) -> int {
    top_of(kinds(isolate.frames().take(depth)), BLOCK as int)
}

/// Whether a constructor may run on behalf of the scope at `at`.
pub open spec fn may_open(isolate: OwnedIsolate, at: ScopePos, n: int) -> bool {
    &&& isolate.wf()
    &&& isolate.can_touch(at)
    &&& isolate.data().has_room(n)
}

/// Whether the scope at `at` may enter `context`: besides what every
/// constructor needs, the context must belong to the same runtime instance
/// as the stack, and its handle must still be readable.
pub open spec fn may_enter(isolate: OwnedIsolate, at: ScopePos, context: Local) -> bool {
    &&& may_open(isolate, at, 1)
    &&& context.isolate == isolate.id()
    &&& context.readable(&isolate)
}

/// `post` is `pre` after the scope at `at` was touched and one frame for
/// `data` was pushed, which the scope at `r` now owns.
pub open spec fn opened(
    pre: OwnedIsolate,
    post: OwnedIsolate,
    at: ScopePos,
    data: ScopeTypeSpecificData,
    r: ScopePos,
) -> bool {
    let n = pre.data().next_id();
    &&& post.wf()
    &&& post.id() == pre.id()
    &&& post.frames() == push_frame(pre.frames().take(at.depth as int), n, data)
    &&& post.data().next_id() == n + 1
    &&& r == ScopePos { isolate: pre.id(), depth: (at.depth + 1) as usize, frame: n }
}

/// The escape slot that an escapable scope opened at `at` pre-allocates: it
/// lives in the handle block of the parent scope.
pub open spec fn parent_slot(pre: OwnedIsolate, at: ScopePos) -> ScopeTypeSpecificData {
    ScopeTypeSpecificData::EscapeSlot {
        target: pre.frames()[block_below(pre, at.depth as int)].id,
        armed: true,
    }
}

/// `post` is `pre` after the scope at `at` was touched, an escape slot was
/// allocated in its handle block and a new handle block was pushed above it;
/// the scope at `r` owns both frames.
pub open spec fn opened_escapable(pre: OwnedIsolate, post: OwnedIsolate, at: ScopePos, r: ScopePos) -> bool {
    let n = pre.data().next_id();
    let t = pre.frames().take(at.depth as int);
    &&& post.wf()
    &&& post.id() == pre.id()
    &&& post.frames() == push_frame(
        push_frame(t, n, parent_slot(pre, at)),
        (n + 1) as u64,
        ScopeTypeSpecificData::HandleScope,
    )
    &&& post.data().next_id() == n + 2
    &&& r == ScopePos { isolate: pre.id(), depth: (at.depth + 2) as usize, frame: (n + 1) as u64 }
}

/// `post` is `pre` after the scope at `at` was released.
pub open spec fn closed_at(pre: OwnedIsolate, post: OwnedIsolate, at: ScopePos) -> bool {
    &&& post.wf()
    &&& post.id() == pre.id()
    &&& post.frames() == released(pre.frames().take(at.depth as int))
    &&& post.data().next_id() == pre.data().next_id()
}

/// What a scope opened by `opened` can rely on: it is the live top, and a
/// new handle block gives its handles a home.
pub proof fn lemma_opened(
    pre: OwnedIsolate,
    post: OwnedIsolate,
    at: ScopePos,
    data: ScopeTypeSpecificData,
    r: ScopePos,
)
    requires
        may_open(pre, at, 1),
        opened(pre, post, at, data, r),
    ensures
        post.can_touch(r),
        r.depth == post.frames().len(),
        post.frames().take(at.depth as int) == pre.frames().take(at.depth as int),
        data == ScopeTypeSpecificData::HandleScope ==> block_below(post, r.depth as int) == at.depth,
        data == ScopeTypeSpecificData::HandleScope ==> post.frames()[at.depth as int].id == r.frame,
{
    let t = pre.frames().take(at.depth as int);
    let f = post.frames();
    assert(f.take(r.depth as int) =~= f);
    assert(f.take(at.depth as int) =~= t);
    assert(kinds(f) =~= kinds(t).push(kind_of(data)));
    lemma_top_of_push(kinds(t), kind_of(data), BLOCK as int);
}

/// What an escapable scope opened by `opened_escapable` can rely on: it is
/// the live top, it has a block for its own handles, and its escape slot is
/// armed and aims at the parent's handle block.
pub proof fn lemma_opened_escapable(pre: OwnedIsolate, post: OwnedIsolate, at: ScopePos, r: ScopePos)
    requires
        may_open(pre, at, 2),
        block_below(pre, at.depth as int) >= 0,
        opened_escapable(pre, post, at, r),
    ensures
        post.can_touch(r),
        r.depth == post.frames().len(),
        post.frames().take(at.depth as int) == pre.frames().take(at.depth as int),
        block_below(post, r.depth as int) == at.depth + 1,
        post.frames()[at.depth + 1].id == r.frame,
        can_escape_at(post, r),
        escape_block_at(post, r) == pre.frames()[block_below(pre, at.depth as int)].id,
{
    let d = at.depth as int;
    let t = pre.frames().take(d);
    let f = post.frames();
    let u = push_frame(t, pre.data().next_id(), parent_slot(pre, at));
    assert(f.take(r.depth as int) =~= f);
    assert(f.take(d) =~= t);
    assert(kinds(f) =~= kinds(u).push(BLOCK as int));
    assert(kinds(u) =~= kinds(t).push(ESCAPE as int));
    lemma_top_of_push(kinds(u), BLOCK as int, ESCAPE as int);
    lemma_top_of_push(kinds(t), ESCAPE as int, ESCAPE as int);
    lemma_top_of_push(kinds(u), BLOCK as int, BLOCK as int);
    assert(f[d] == u[d]);
}

/// What a handle made by `created` can rely on: it is readable, and the
/// scope it was made for is still the live top.
pub proof fn lemma_created(pre: OwnedIsolate, post: OwnedIsolate, at: ScopePos, value: u64, r: Local)
    requires
        may_create(pre, at),
        created(pre, post, at, value, r),
    ensures
        r.readable(&post),
        post.can_touch(at),
        block_below(post, at.depth as int) == block_below(pre, at.depth as int),
        can_escape_at(post, at) == can_escape_at(pre, at),
        escape_block_at(post, at) == escape_block_at(pre, at),
{
    let t = pre.frames().take(at.depth as int);
    lemma_top_of_range(kinds(t), BLOCK as int);
    let b = block_below(pre, at.depth as int);
    assert(post.frames().take(at.depth as int) =~= t);
    assert(post.frames()[b] == t[b]);
    assert(crate::stack::holds_block(post.frames(), r.block));
}

/// A typed view of a position on the scope stack.
pub trait Scope: Sized {
    /// The capabilities every value of this type grants.
    spec fn caps() -> Caps;

    /// The position this scope denotes.
    spec fn spec_pos(&self) -> ScopePos;

    fn pos(&self) -> (r: ScopePos)
        ensures
            r == self.spec_pos(),
    ;

    /// The capabilities of this type, at run time.
    fn capabilities() -> (r: Caps)
        ensures
            r == Self::caps(),
    ;
}

/// Parents that can open a handle block: the child has the parent's
/// capabilities and can create handles.
pub trait NewHandleScope: Scope {
    type NewScope: Scope;

    /// The composition rule: the child has the parent's capabilities and
    /// those of the new kind.
    proof fn lemma_new_scope_caps()
        ensures
            Self::NewScope::caps() == Self::caps().union(handle_caps()),
    ;

    fn new_handle_scope(&self, isolate: &mut OwnedIsolate) -> (r: Self::NewScope)
        requires
            may_open(*old(isolate), self.spec_pos(), 1),
        ensures
            opened(
                *old(isolate),
                *final(isolate),
                self.spec_pos(),
                ScopeTypeSpecificData::HandleScope,
                r.spec_pos(),
            ),
            Self::NewScope::caps() == Self::caps().union(handle_caps()),
    ;
}

/// Opens a handle block above the touched position `at`.
fn open_block(isolate: &mut OwnedIsolate, at: ScopePos) -> (r: ScopePos)
    requires
        may_open(*old(isolate), at, 1),
    ensures
        opened(*old(isolate), *final(isolate), at, ScopeTypeSpecificData::HandleScope, r),
{
    open_frame(isolate, at, ScopeTypeSpecificData::HandleScope)
}

/// Touches `at` and pushes one frame for `data`.
fn open_frame(isolate: &mut OwnedIsolate, at: ScopePos, data: ScopeTypeSpecificData) -> (r: ScopePos)
    requires
        may_open(*old(isolate), at, 1),
    ensures
        opened(*old(isolate), *final(isolate), at, data, r),
{
    let id = isolate.isolate().id;
    let data_mut = isolate.scope_data_mut();
    data_mut.touch(at.depth, at.frame);
    let frame = data_mut.push(data);
    ScopePos { isolate: id, depth: at.depth + 1, frame }
}

/// Releases the scope at `at`.
fn close(isolate: &mut OwnedIsolate, at: ScopePos)
    requires
        old(isolate).wf(),
        old(isolate).can_touch(at),
        at.depth > 0,
    ensures
        closed_at(*old(isolate), *final(isolate), at),
{
    isolate.scope_data_mut().notify_scope_dropped(at.depth, at.frame);
}

/// A handle block.
#[derive(Debug)]
pub struct HandleScope {
    pos: ScopePos,
}

impl Scope for Isolate {
    open spec fn caps() -> Caps {
        Caps::none()
    }

    open spec fn spec_pos(&self) -> ScopePos {
        ScopePos { isolate: self.id, depth: 0, frame: 0 }
    }

    fn pos(&self) -> (r: ScopePos) {
        ScopePos { isolate: self.id, depth: 0, frame: 0 }
    }

    fn capabilities() -> (r: Caps) {
        Caps { handles: false, escape: false, try_catch: false, context: false }
    }
}

impl Scope for HandleScope {
    open spec fn caps() -> Caps {
        handle_caps()
    }

    closed spec fn spec_pos(&self) -> ScopePos {
        self.pos
    }

    fn pos(&self) -> (r: ScopePos) {
        self.pos
    }

    fn capabilities() -> (r: Caps) {
        Caps { handles: true, escape: false, try_catch: false, context: false }
    }
}

impl NewHandleScope for Isolate {
    type NewScope = HandleScope;

    proof fn lemma_new_scope_caps() {
    }

    fn new_handle_scope(&self, isolate: &mut OwnedIsolate) -> (r: HandleScope) {
        HandleScope { pos: open_block(isolate, self.pos()) }
    }
}

impl NewHandleScope for HandleScope {
    type NewScope = HandleScope;

    proof fn lemma_new_scope_caps() {
    }

    fn new_handle_scope(&self, isolate: &mut OwnedIsolate) -> (r: HandleScope) {
        HandleScope { pos: open_block(isolate, self.pos) }
    }
}

impl HandleScope {
    /// Opens a handle block as a child of `param`.
    pub fn new<P: NewHandleScope>(isolate: &mut OwnedIsolate, param: &P) -> (r: P::NewScope)
        requires
            may_open(*old(isolate), param.spec_pos(), 1),
        ensures
            opened(
                *old(isolate),
                *final(isolate),
                param.spec_pos(),
                ScopeTypeSpecificData::HandleScope,
                r.spec_pos(),
            ),
            P::NewScope::caps() == P::caps().union(handle_caps()),
    {
        param.new_handle_scope(isolate)
    }
}


/// Parents that can open an escapable handle block: the child has the
/// parent's capabilities, can create handles and can escape one of them into
/// the parent's handle block.
pub trait NewEscapableHandleScope: Scope {
    type NewScope: Scope;

    /// The composition rule: the child has the parent's capabilities and
    /// those of the new kind.
    proof fn lemma_new_scope_caps()
        ensures
            Self::NewScope::caps() == Self::caps().union(escape_caps()),
    ;

    fn new_escapable_handle_scope(&self, isolate: &mut OwnedIsolate) -> (r: Self::NewScope)
        requires
            may_open(*old(isolate), self.spec_pos(), 2),
            block_below(*old(isolate), self.spec_pos().depth as int) >= 0,
        ensures
            opened_escapable(*old(isolate), *final(isolate), self.spec_pos(), r.spec_pos()),
            Self::NewScope::caps() == Self::caps().union(escape_caps()),
    ;
}

/// Parents that can enter an execution context: the child has the parent's
/// capabilities and the context.
pub trait NewContextScope: Scope {
    type NewScope: Scope;

    /// The composition rule: the child has the parent's capabilities and
    /// those of the new kind.
    proof fn lemma_new_scope_caps()
        ensures
            Self::NewScope::caps() == Self::caps().union(context_caps()),
    ;

    fn new_context_scope(&self, isolate: &mut OwnedIsolate, context: Local) -> (r: Self::NewScope)
        requires
            may_enter(*old(isolate), self.spec_pos(), context),
        ensures
            opened(
                *old(isolate),
                *final(isolate),
                self.spec_pos(),
                ScopeTypeSpecificData::ContextScope { context: context.value },
                r.spec_pos(),
            ),
            Self::NewScope::caps() == Self::caps().union(context_caps()),
    ;
}

/// Parents that can open an exception trap: the child has the parent's
/// capabilities and can inspect what the trap caught.
pub trait NewTryCatch: Scope {
    type NewScope: Scope;

    /// The composition rule: the child has the parent's capabilities and
    /// those of the new kind.
    proof fn lemma_new_scope_caps()
        ensures
            Self::NewScope::caps() == Self::caps().union(try_catch_caps()),
    ;

    fn new_try_catch(&self, isolate: &mut OwnedIsolate) -> (r: Self::NewScope)
        requires
            may_open(*old(isolate), self.spec_pos(), 1),
        ensures
            opened(
                *old(isolate),
                *final(isolate),
                self.spec_pos(),
                ScopeTypeSpecificData::TryCatch,
                r.spec_pos(),
            ),
            Self::NewScope::caps() == Self::caps().union(try_catch_caps()),
    ;
}

/// Touches `at`, allocates an escape slot in its handle block, then pushes a
/// new handle block. The slot comes first so that it is not inside the new
/// block.
fn open_escapable(isolate: &mut OwnedIsolate, at: ScopePos) -> (r: ScopePos)
    requires
        may_open(*old(isolate), at, 2),
        block_below(*old(isolate), at.depth as int) >= 0,
    ensures
        opened_escapable(*old(isolate), *final(isolate), at, r),
{
    let id = isolate.isolate().id;
    let data_mut = isolate.scope_data_mut();
    data_mut.touch(at.depth, at.frame);
    proof {
        lemma_top_of_range(kinds(old(isolate).frames().take(at.depth as int)), BLOCK as int);
    }
    let target = data_mut.active_block_id().unwrap();
    assert(target == old(isolate).frames()[block_below(*old(isolate), at.depth as int)].id);
    data_mut.push(ScopeTypeSpecificData::EscapeSlot { target, armed: true });
    let frame = data_mut.push(ScopeTypeSpecificData::HandleScope);
    ScopePos { isolate: id, depth: at.depth + 2, frame }
}

impl NewTryCatch for HandleScope {
    type NewScope = TryCatch<HandleScope>;

    proof fn lemma_new_scope_caps() {
    }

    fn new_try_catch(&self, isolate: &mut OwnedIsolate) -> (r: TryCatch<HandleScope>) {
        let pos = open_frame(isolate, self.pos, ScopeTypeSpecificData::TryCatch);
        TryCatch { scope: HandleScope { pos } }
    }
}

impl NewContextScope for HandleScope {
    type NewScope = ContextScope<HandleScope>;

    proof fn lemma_new_scope_caps() {
    }

    fn new_context_scope(&self, isolate: &mut OwnedIsolate, context: Local) -> (r: ContextScope<
        HandleScope,
    >) {
        let data = ScopeTypeSpecificData::ContextScope { context: context.value };
        let pos = open_frame(isolate, self.pos, data);
        ContextScope { scope: HandleScope { pos } }
    }
}

impl NewEscapableHandleScope for HandleScope {
    type NewScope = EscapableHandleScope;

    proof fn lemma_new_scope_caps() {
    }

    fn new_escapable_handle_scope(&self, isolate: &mut OwnedIsolate) -> (r: EscapableHandleScope) {
        EscapableHandleScope { pos: open_escapable(isolate, self.pos) }
    }
}

impl HandleScope {
    /// The runtime instance this scope belongs to.
    pub fn get_isolate(&self) -> (r: Isolate)
        ensures
            r.id == self.spec_pos().isolate,
    {
        Isolate { id: self.pos.isolate }
    }

    /// Kept for callers of an earlier interface; the scope is active as soon
    /// as it is made.
    pub fn enter(&mut self) -> (r: &mut Self)
        ensures
            *r == *old(self),
            *final(self) == *final(r),
    {
        self
    }

    /// Releases the scope. Its block is only marked stale: it is popped when
    /// an enclosing scope is next touched.
    pub fn exit(self, isolate: &mut OwnedIsolate)
        requires
            old(isolate).wf(),
            old(isolate).can_touch(self.spec_pos()),
            self.spec_pos().depth > 0,
        ensures
            closed_at(*old(isolate), *final(isolate), self.spec_pos()),
    {
        close(isolate, self.pos)
    }
}

/// A handle block that can promote one of its handles into the handle block
/// of its parent.
#[derive(Debug)]
pub struct EscapableHandleScope {
    pos: ScopePos,
}

impl Scope for EscapableHandleScope {
    open spec fn caps() -> Caps {
        escape_caps()
    }

    closed spec fn spec_pos(&self) -> ScopePos {
        self.pos
    }

    fn pos(&self) -> (r: ScopePos) {
        self.pos
    }

    fn capabilities() -> (r: Caps) {
        Caps { handles: true, escape: true, try_catch: false, context: false }
    }
}

impl NewHandleScope for EscapableHandleScope {
    type NewScope = EscapableHandleScope;

    proof fn lemma_new_scope_caps() {
    }

    fn new_handle_scope(&self, isolate: &mut OwnedIsolate) -> (r: EscapableHandleScope) {
        EscapableHandleScope { pos: open_block(isolate, self.pos) }
    }
}

impl NewEscapableHandleScope for EscapableHandleScope {
    type NewScope = EscapableHandleScope;

    proof fn lemma_new_scope_caps() {
    }

    fn new_escapable_handle_scope(&self, isolate: &mut OwnedIsolate) -> (r: EscapableHandleScope) {
        EscapableHandleScope { pos: open_escapable(isolate, self.pos) }
    }
}

impl NewContextScope for EscapableHandleScope {
    type NewScope = ContextScope<EscapableHandleScope>;

    proof fn lemma_new_scope_caps() {
    }

    fn new_context_scope(&self, isolate: &mut OwnedIsolate, context: Local) -> (r: ContextScope<
        EscapableHandleScope,
    >) {
        let data = ScopeTypeSpecificData::ContextScope { context: context.value };
        let pos = open_frame(isolate, self.pos, data);
        ContextScope { scope: EscapableHandleScope { pos } }
    }
}

impl NewTryCatch for EscapableHandleScope {
    type NewScope = TryCatch<EscapableHandleScope>;

    proof fn lemma_new_scope_caps() {
    }

    fn new_try_catch(&self, isolate: &mut OwnedIsolate) -> (r: TryCatch<EscapableHandleScope>) {
        let pos = open_frame(isolate, self.pos, ScopeTypeSpecificData::TryCatch);
        TryCatch { scope: EscapableHandleScope { pos } }
    }
}

/// Whether the escape slot that a scope at `at` would use is still armed.
pub open spec fn can_escape_at(isolate: OwnedIsolate, at: ScopePos) -> bool {
    let t = isolate.frames().take(at.depth as int);
    escape_armed(t, top_of(kinds(t), ESCAPE as int))
}

/// The handle block that a scope at `at` escapes into.
pub open spec fn escape_block_at(isolate: OwnedIsolate, at: ScopePos) -> u64 {
    let t = isolate.frames().take(at.depth as int);
    escape_target(t, top_of(kinds(t), ESCAPE as int))
}

/// `post` is `pre` after the scope at `at` was touched and its escape slot
/// used on `value`, and `r` is the escaped handle, owned by the block the
/// slot escapes into.
pub open spec fn escaped(pre: OwnedIsolate, post: OwnedIsolate, at: ScopePos, value: Local, r: Local) -> bool {
    let t = pre.frames().take(at.depth as int);
    &&& post.wf()
    &&& post.id() == pre.id()
    &&& post.frames() == consume_escape(t, top_of(kinds(t), ESCAPE as int))
    &&& post.data().next_id() == pre.data().next_id()
    &&& r == Local { isolate: pre.id(), block: escape_block_at(pre, at), value: value.value }
}

impl EscapableHandleScope {
    /// Opens an escapable handle block as a child of `param`.
    pub fn new<P: NewEscapableHandleScope>(isolate: &mut OwnedIsolate, param: &P) -> (r: P::NewScope)
        requires
            may_open(*old(isolate), param.spec_pos(), 2),
            block_below(*old(isolate), param.spec_pos().depth as int) >= 0,
        ensures
            opened_escapable(*old(isolate), *final(isolate), param.spec_pos(), r.spec_pos()),
            P::NewScope::caps() == P::caps().union(escape_caps()),
    {
        param.new_escapable_handle_scope(isolate)
    }

    /// Kept for callers of an earlier interface; the scope is active as soon
    /// as it is made.
    pub fn enter(&mut self) -> (r: &mut Self)
        ensures
            *r == *old(self),
            *final(self) == *final(r),
    {
        self
    }

    /// Promotes `value` into the handle block of the parent scope and returns
    /// the new handle. The slot is used up: a second call is not allowed.
    pub fn escape(&self, isolate: &mut OwnedIsolate, value: Local) -> (r: Local)
        requires
            old(isolate).wf(),
            old(isolate).can_touch(self.spec_pos()),
            can_escape_at(*old(isolate), self.spec_pos()),
            value.readable(&*old(isolate)),
        ensures
            escaped(*old(isolate), *final(isolate), self.spec_pos(), value, r),
    {
        let raw = value.value;
        let id = isolate.isolate().id;
        let data_mut = isolate.scope_data_mut();
        data_mut.touch(self.pos.depth, self.pos.frame);
        let block = data_mut.take_escape_slot();
        Local { isolate: id, block, value: raw }
    }

    /// Whether the escape slot this scope uses is still armed.
    pub fn can_escape(&self, isolate: &OwnedIsolate) -> (r: bool)
        requires
            isolate.wf(),
            self.spec_pos().depth <= isolate.frames().len(),
        ensures
            r == can_escape_at(*isolate, self.spec_pos()),
    {
        isolate.escape_slot_armed(self.pos.depth)
    }

    /// Releases the scope. Its frames are only marked stale: they are popped
    /// when an enclosing scope is next touched.
    pub fn exit(self, isolate: &mut OwnedIsolate)
        requires
            old(isolate).wf(),
            old(isolate).can_touch(self.spec_pos()),
            self.spec_pos().depth > 0,
        ensures
            closed_at(*old(isolate), *final(isolate), self.spec_pos()),
    {
        close(isolate, self.pos)
    }
}

/// An entered execution context, above a scope of type `P` whose
/// capabilities it keeps.
#[derive(Debug)]
pub struct ContextScope<P> {
    scope: P,
}

impl<P: Scope> Scope for ContextScope<P> {
    open spec fn caps() -> Caps {
        P::caps().union(context_caps())
    }

    closed spec fn spec_pos(&self) -> ScopePos {
        self.scope.spec_pos()
    }

    fn pos(&self) -> (r: ScopePos) {
        self.scope.pos()
    }

    fn capabilities() -> (r: Caps) {
        Caps { context: true, ..P::capabilities() }
    }
}

impl<P: NewHandleScope> NewHandleScope for ContextScope<P> {
    type NewScope = ContextScope<P::NewScope>;

    proof fn lemma_new_scope_caps() {
        P::lemma_new_scope_caps();
    }

    fn new_handle_scope(&self, isolate: &mut OwnedIsolate) -> (r: ContextScope<P::NewScope>) {
        ContextScope { scope: self.scope.new_handle_scope(isolate) }
    }
}

impl<P: NewEscapableHandleScope> NewEscapableHandleScope for ContextScope<P> {
    type NewScope = ContextScope<P::NewScope>;

    proof fn lemma_new_scope_caps() {
        P::lemma_new_scope_caps();
    }

    fn new_escapable_handle_scope(&self, isolate: &mut OwnedIsolate) -> (r: ContextScope<
        P::NewScope,
    >) {
        ContextScope { scope: self.scope.new_escapable_handle_scope(isolate) }
    }
}

impl<P: NewContextScope> NewContextScope for ContextScope<P> {
    type NewScope = P::NewScope;

    proof fn lemma_new_scope_caps() {
        P::lemma_new_scope_caps();
    }

    fn new_context_scope(&self, isolate: &mut OwnedIsolate, context: Local) -> (r: P::NewScope) {
        self.scope.new_context_scope(isolate, context)
    }
}

impl<P: NewTryCatch> NewTryCatch for ContextScope<P> {
    type NewScope = ContextScope<P::NewScope>;

    proof fn lemma_new_scope_caps() {
        P::lemma_new_scope_caps();
    }

    fn new_try_catch(&self, isolate: &mut OwnedIsolate) -> (r: ContextScope<P::NewScope>) {
        ContextScope { scope: self.scope.new_try_catch(isolate) }
    }
}

impl<P: NewContextScope> ContextScope<P> {
    /// Enters `context` as a child of `param`. The context must belong to
    /// the same runtime instance as the stack.
    pub fn new(isolate: &mut OwnedIsolate, param: &P, context: Local) -> (r: P::NewScope)
        requires
            may_enter(*old(isolate), param.spec_pos(), context),
        ensures
            opened(
                *old(isolate),
                *final(isolate),
                param.spec_pos(),
                ScopeTypeSpecificData::ContextScope { context: context.value },
                r.spec_pos(),
            ),
            P::NewScope::caps() == P::caps().union(context_caps()),
    {
        param.new_context_scope(isolate, context)
    }
}

impl<P: Scope> ContextScope<P> {
    /// Kept for callers of an earlier interface; the scope is active as soon
    /// as it is made.
    pub fn enter(&mut self) -> (r: &mut Self)
        ensures
            *r == *old(self),
            *final(self) == *final(r),
    {
        self
    }

    /// Releases the scope: the context is exited at once, or, for a scope
    /// made by a handle-block constructor, its block is marked stale.
    pub fn exit(self, isolate: &mut OwnedIsolate)
        requires
            old(isolate).wf(),
            old(isolate).can_touch(self.spec_pos()),
            self.spec_pos().depth > 0,
        ensures
            closed_at(*old(isolate), *final(isolate), self.spec_pos()),
    {
        let pos = self.scope.pos();
        close(isolate, pos)
    }
}

/// An exception trap, above a scope of type `P` whose capabilities it keeps.
#[derive(Debug)]
pub struct TryCatch<P> {
    scope: P,
}

impl<P: Scope> Scope for TryCatch<P> {
    open spec fn caps() -> Caps {
        P::caps().union(try_catch_caps())
    }

    closed spec fn spec_pos(&self) -> ScopePos {
        self.scope.spec_pos()
    }

    fn pos(&self) -> (r: ScopePos) {
        self.scope.pos()
    }

    fn capabilities() -> (r: Caps) {
        Caps { try_catch: true, ..P::capabilities() }
    }
}

impl<P: NewHandleScope> NewHandleScope for TryCatch<P> {
    type NewScope = TryCatch<P::NewScope>;

    proof fn lemma_new_scope_caps() {
        P::lemma_new_scope_caps();
    }

    fn new_handle_scope(&self, isolate: &mut OwnedIsolate) -> (r: TryCatch<P::NewScope>) {
        TryCatch { scope: self.scope.new_handle_scope(isolate) }
    }
}

impl<P: NewEscapableHandleScope> NewEscapableHandleScope for TryCatch<P> {
    type NewScope = TryCatch<P::NewScope>;

    proof fn lemma_new_scope_caps() {
        P::lemma_new_scope_caps();
    }

    fn new_escapable_handle_scope(&self, isolate: &mut OwnedIsolate) -> (r: TryCatch<P::NewScope>) {
        TryCatch { scope: self.scope.new_escapable_handle_scope(isolate) }
    }
}

impl<P: NewContextScope> NewContextScope for TryCatch<P> {
    type NewScope = TryCatch<P::NewScope>;

    proof fn lemma_new_scope_caps() {
        P::lemma_new_scope_caps();
    }

    fn new_context_scope(&self, isolate: &mut OwnedIsolate, context: Local) -> (r: TryCatch<
        P::NewScope,
    >) {
        TryCatch { scope: self.scope.new_context_scope(isolate, context) }
    }
}

impl<P: NewTryCatch> NewTryCatch for TryCatch<P> {
    type NewScope = P::NewScope;

    proof fn lemma_new_scope_caps() {
        P::lemma_new_scope_caps();
    }

    fn new_try_catch(&self, isolate: &mut OwnedIsolate) -> (r: P::NewScope) {
        self.scope.new_try_catch(isolate)
    }
}

impl<P: NewTryCatch> TryCatch<P> {
    /// Opens an exception trap as a child of `param`.
    pub fn new(isolate: &mut OwnedIsolate, param: &P) -> (r: P::NewScope)
        requires
            may_open(*old(isolate), param.spec_pos(), 1),
        ensures
            opened(
                *old(isolate),
                *final(isolate),
                param.spec_pos(),
                ScopeTypeSpecificData::TryCatch,
                r.spec_pos(),
            ),
            P::NewScope::caps() == P::caps().union(try_catch_caps()),
    {
        param.new_try_catch(isolate)
    }
}

impl<P: Scope> TryCatch<P> {
    /// Releases the scope: the trap ends at once, or, for a scope made by a
    /// handle-block constructor, its block is marked stale.
    pub fn exit(self, isolate: &mut OwnedIsolate)
        requires
            old(isolate).wf(),
            old(isolate).can_touch(self.spec_pos()),
            self.spec_pos().depth > 0,
        ensures
            closed_at(*old(isolate), *final(isolate), self.spec_pos()),
    {
        let pos = self.scope.pos();
        close(isolate, pos)
    }
}

/// A handle block opened on behalf of a callback that the runtime makes into
/// embedder code. It is pushed on top of whatever the stack holds.
#[derive(Debug)]
pub struct CallbackScope {
    pos: ScopePos,
}

impl Scope for CallbackScope {
    open spec fn caps() -> Caps {
        handle_caps()
    }

    closed spec fn spec_pos(&self) -> ScopePos {
        self.pos
    }

    fn pos(&self) -> (r: ScopePos) {
        self.pos
    }

    fn capabilities() -> (r: Caps) {
        Caps { handles: true, escape: false, try_catch: false, context: false }
    }
}

impl CallbackScope {
    /// Opens a handle block for a callback whose argument `param` belongs to
    /// the runtime instance `isolate`. Nothing below is touched.
    pub fn new<P: GetRawIsolate>(isolate: &mut OwnedIsolate, param: &P) -> (r: CallbackScope)
        requires
            old(isolate).wf(),
            old(isolate).data().has_room(1),
            param.raw_isolate() == old(isolate).id(),
        ensures
            final(isolate).wf(),
            final(isolate).id() == old(isolate).id(),
            final(isolate).frames() == push_frame(
                old(isolate).frames(),
                old(isolate).data().next_id(),
                ScopeTypeSpecificData::HandleScope,
            ),
            final(isolate).data().next_id() == old(isolate).data().next_id() + 1,
            r.spec_pos() == (ScopePos {
                isolate: old(isolate).id(),
                depth: (old(isolate).frames().len() + 1) as usize,
                frame: old(isolate).data().next_id(),
            }),
    {
        let id = isolate.isolate().id;
        let data_mut = isolate.scope_data_mut();
        let depth = data_mut.current_mark();
        let frame = data_mut.push(ScopeTypeSpecificData::HandleScope);
        CallbackScope { pos: ScopePos { isolate: id, depth: depth + 1, frame } }
    }

    /// Kept for callers of an earlier interface; the scope is active as soon
    /// as it is made.
    pub fn enter(&mut self) -> (r: &mut Self)
        ensures
            *r == *old(self),
            *final(self) == *final(r),
    {
        self
    }

    /// Releases the scope. Its block is only marked stale: it is popped when
    /// an enclosing scope is next touched.
    pub fn exit(self, isolate: &mut OwnedIsolate)
        requires
            old(isolate).wf(),
            old(isolate).can_touch(self.spec_pos()),
            self.spec_pos().depth > 0,
        ensures
            closed_at(*old(isolate), *final(isolate), self.spec_pos()),
    {
        close(isolate, self.pos)
    }
}

impl NewHandleScope for CallbackScope {
    type NewScope = HandleScope;

    proof fn lemma_new_scope_caps() {
    }

    fn new_handle_scope(&self, isolate: &mut OwnedIsolate) -> (r: HandleScope) {
        HandleScope { pos: open_block(isolate, self.pos) }
    }
}

impl NewEscapableHandleScope for CallbackScope {
    type NewScope = EscapableHandleScope;

    proof fn lemma_new_scope_caps() {
    }

    fn new_escapable_handle_scope(&self, isolate: &mut OwnedIsolate) -> (r: EscapableHandleScope) {
        EscapableHandleScope { pos: open_escapable(isolate, self.pos) }
    }
}

impl NewContextScope for CallbackScope {
    type NewScope = ContextScope<HandleScope>;

    proof fn lemma_new_scope_caps() {
    }

    fn new_context_scope(&self, isolate: &mut OwnedIsolate, context: Local) -> (r: ContextScope<
        HandleScope,
    >) {
        let data = ScopeTypeSpecificData::ContextScope { context: context.value };
        let pos = open_frame(isolate, self.pos, data);
        ContextScope { scope: HandleScope { pos } }
    }
}

impl NewTryCatch for CallbackScope {
    type NewScope = TryCatch<HandleScope>;

    proof fn lemma_new_scope_caps() {
    }

    fn new_try_catch(&self, isolate: &mut OwnedIsolate) -> (r: TryCatch<HandleScope>) {
        let pos = open_frame(isolate, self.pos, ScopeTypeSpecificData::TryCatch);
        TryCatch { scope: HandleScope { pos } }
    }
}

/// Whether a handle can be made on behalf of the scope at `at`: the scope
/// can be touched and a handle block lies below it.
pub open spec fn may_create(isolate: OwnedIsolate, at: ScopePos) -> bool {
    &&& isolate.wf()
    &&& isolate.can_touch(at)
    &&& block_below(isolate, at.depth as int) >= 0
}

/// `post` is `pre` after the scope at `at` was touched, and `r` is a handle
/// to `value` owned by the block that was then active.
pub open spec fn created(pre: OwnedIsolate, post: OwnedIsolate, at: ScopePos, value: u64, r: Local) -> bool {
    &&& post.wf()
    &&& post.id() == pre.id()
    &&& post.frames() == pre.frames().take(at.depth as int)
    &&& post.data().next_id() == pre.data().next_id()
    &&& r == Local {
        isolate: pre.id(),
        block: pre.frames()[block_below(pre, at.depth as int)].id,
        value,
    }
}

/// Touches `at` and makes a handle to `value` in the active block.
fn make_local(isolate: &mut OwnedIsolate, at: ScopePos, value: u64) -> (r: Local)
    requires
        may_create(*old(isolate), at),
    ensures
        created(*old(isolate), *final(isolate), at, value, r),
{
    let id = isolate.isolate().id;
    let data_mut = isolate.scope_data_mut();
    data_mut.touch(at.depth, at.frame);
    proof {
        lemma_top_of_range(kinds(old(isolate).frames().take(at.depth as int)), BLOCK as int);
    }
    let block = data_mut.active_block_id().unwrap();
    Local { isolate: id, block, value }
}

impl Local {
    /// A new handle, in the handle block of `scope`, to the object of
    /// `handle`. The handle must belong to the same runtime instance.
    pub fn new<S: Scope, H: Handle>(isolate: &mut OwnedIsolate, scope: &S, handle: &H) -> (r: Local)
        requires
            may_create(*old(isolate), scope.spec_pos()),
            handle.readable(&*old(isolate)),
            isolates_match(
                HostIsolate::Ptr(old(isolate).id()),
                resolve(handle.raw_info().1, old(isolate).id()),
            ),
        ensures
            created(*old(isolate), *final(isolate), scope.spec_pos(), handle.raw_info().0, r),
    {
        let (data, _host) = handle.get_raw_info();
        make_local(isolate, scope.pos(), data)
    }

    /// A new handle, in the handle block of `scope`, to an object that the
    /// runtime hands over as its raw representation `raw`.
    pub fn from_raw<S: Scope>(isolate: &mut OwnedIsolate, scope: &S, raw: u64) -> (r: Local)
        requires
            may_create(*old(isolate), scope.spec_pos()),
        ensures
            created(*old(isolate), *final(isolate), scope.spec_pos(), raw, r),
    {
        make_local(isolate, scope.pos(), raw)
    }
}

} // verus!
