//! Properties that hold of every use of the scope stack.
use vstd::prelude::*;

use crate::handle::Handle;
use crate::handle::Local;
use crate::isolate::OwnedIsolate;
use crate::isolate::ScopePos;
use crate::scope::block_below;
use crate::scope::can_escape_at;
use crate::scope::closed_at;
use crate::scope::created;
use crate::scope::escaped;
use crate::scope::may_enter;
use crate::scope::may_open;
use crate::scope::opened;
use crate::scope::opened_escapable;
use crate::scope::Caps;
use crate::scope::NewContextScope;
use crate::scope::NewEscapableHandleScope;
use crate::scope::NewHandleScope;
use crate::scope::NewTryCatch;
use crate::scope::Scope;
use crate::stack::kind_of;
use crate::stack::kinds;
use crate::stack::lemma_top_of_push;
use crate::stack::lemma_top_of_topmost;
use crate::stack::index_of;
use crate::stack::top_of;
use crate::stack::ScopeData;
use crate::stack::ScopeTypeSpecificData;
use crate::stack::ESCAPE;

verus! {

/// Each active slot names the topmost frame of its kind that is still on the
/// stack, and is empty exactly when no frame of that kind is left. Every
/// operation keeps the invariant, so this holds after any sequence of pushes,
/// pops and unwinds.
pub proof fn lemma_active_is_topmost(data: ScopeData, k: int)
    requires
        data.wf(),
        0 <= k < 4,
    ensures
        data.active(k) is None <==> forall|i: int|
            0 <= i < data.frames().len() ==> kind_of(#[trigger] data.frames()[i].data) != k,
        data.active(k) matches Some(i) ==> {
            &&& i < data.frames().len()
            &&& kind_of(data.frames()[i as int].data) == k
            &&& forall|j: int| i < j < data.frames().len() ==> kind_of(#[trigger] data.frames()[j].data) != k
        },
{
    data.lemma_wf();
    let ks = kinds(data.frames());
    let n = data.frames().len();
    lemma_top_of_topmost(ks, k);
    crate::stack::lemma_top_of_range(ks, k);
    assert(ks.len() == n);
    let t = top_of(ks, k);
    assert(index_of(data.active(k)) == t);
    if t == -1 {
        assert forall|i: int| 0 <= i < n implies kind_of(#[trigger] data.frames()[i].data) != k by {
            assert(ks[i] == kind_of(data.frames()[i].data));
        }
    } else {
        assert(data.active(k) == Some(t as usize));
        assert(ks[t] == kind_of(data.frames()[t].data));
        assert forall|j: int| t < j < n implies kind_of(#[trigger] data.frames()[j].data) != k by {
            assert(ks[j] == kind_of(data.frames()[j].data));
        }
    }
}

/// `a` has every capability of `b`, and `b` every one of `c`: so along any
/// chain of constructors a scope keeps what each of its ancestors had.
pub proof fn lemma_includes_transitive(a: Caps, b: Caps, c: Caps)
    requires
        a.includes(b),
        b.includes(c),
    ensures
        a.includes(c),
{
}

/// A handle block opened by a parent of type `P` has every capability of
/// `P`, and can create handles.
pub proof fn lemma_handle_scope_keeps_caps<P: NewHandleScope>()
    ensures
        P::NewScope::caps().includes(P::caps()),
        P::NewScope::caps().handles,
{
    P::lemma_new_scope_caps();
}

/// An escapable handle block opened by a parent of type `P` has every
/// capability of `P`, and can create and escape handles.
pub proof fn lemma_escapable_scope_keeps_caps<P: NewEscapableHandleScope>()
    ensures
        P::NewScope::caps().includes(P::caps()),
        P::NewScope::caps().handles,
        P::NewScope::caps().escape,
{
    P::lemma_new_scope_caps();
}

/// A context scope opened by a parent of type `P` has every capability of
/// `P`, and the context.
pub proof fn lemma_context_scope_keeps_caps<P: NewContextScope>()
    ensures
        P::NewScope::caps().includes(P::caps()),
        P::NewScope::caps().context,
{
    P::lemma_new_scope_caps();
}

/// An exception trap opened by a parent of type `P` has every capability of
/// `P`, and can inspect exceptions.
pub proof fn lemma_try_catch_keeps_caps<P: NewTryCatch>()
    ensures
        P::NewScope::caps().includes(P::caps()),
        P::NewScope::caps().try_catch,
{
    P::lemma_new_scope_caps();
}

/// An escapable scope `e`, opened by the scope at `parent`, can escape once;
/// the escaped handle belongs to the parent's handle block, not to the
/// block of `e`; afterwards the slot is used up, so a second escape through
/// `e` is not allowed.
pub proof fn lemma_single_escape(
    s0: OwnedIsolate,
    s1: OwnedIsolate,
    s2: OwnedIsolate,
    parent: ScopePos,
    e: ScopePos,
    value: Local,
    r: Local,
)
    requires
        may_open(s0, parent, 2),
        block_below(s0, parent.depth as int) >= 0,
        opened_escapable(s0, s1, parent, e),
        escaped(s1, s2, e, value, r),
    ensures
        can_escape_at(s1, e),
        r.block == s0.frames()[block_below(s0, parent.depth as int)].id,
        r.block != e.frame,
        !can_escape_at(s2, e),
{
    s0.data().lemma_wf();
    let t = s0.frames().take(parent.depth as int);
    let d = parent.depth as int;
    crate::stack::lemma_top_of_range(kinds(t), crate::stack::BLOCK as int);
    let f1 = s1.frames();
    assert(f1.take(e.depth as int) =~= f1);
    let u = crate::stack::push_frame(t, s0.data().next_id(), crate::scope::parent_slot(s0, parent));
    assert(kinds(f1) =~= kinds(u).push(crate::stack::BLOCK as int));
    assert(kinds(u) =~= kinds(t).push(ESCAPE as int));
    lemma_top_of_push(kinds(u), crate::stack::BLOCK as int, ESCAPE as int);
    lemma_top_of_push(kinds(t), ESCAPE as int, ESCAPE as int);
    assert(f1[d] == u[d]);
    let f2 = s2.frames();
    assert(f2.take(e.depth as int) =~= f2);
    assert(kinds(f2) =~= kinds(f1));
}

/// Releasing a handle block `child` of the scope at `parent` keeps its frame,
/// marked stale, so a handle `h` made in it stays readable; touching
/// `parent` afterwards pops exactly that frame, and then `h` can no longer be
/// read.
pub proof fn lemma_deferred_drop(
    s0: OwnedIsolate,
    s1: OwnedIsolate,
    s2: OwnedIsolate,
    s3: OwnedIsolate,
    s4: OwnedIsolate,
    parent: ScopePos,
    child: ScopePos,
    value: u64,
    h: Local,
)
    requires
        may_open(s0, parent, 1),
        parent.depth > 0 ==> kind_of(s0.frames()[parent.depth - 1].data) != ESCAPE as int,
        opened(s0, s1, parent, ScopeTypeSpecificData::HandleScope, child),
        created(s1, s2, child, value, h),
        closed_at(s2, s3, child),
        s4.wf(),
        s4.id() == s3.id(),
        s4.frames() == s3.frames().take(parent.depth as int),
    ensures
        h.readable(&s3),
        s3.frames().len() == parent.depth + 1,
        s3.frames()[parent.depth as int].stale,
        s3.frames().take(parent.depth as int) == s0.frames().take(parent.depth as int),
        s3.can_touch(parent),
        s4.frames() == s0.frames().take(parent.depth as int),
        !h.readable(&s4),
{
    s0.data().lemma_wf();
    let d = parent.depth as int;
    let t = s0.frames().take(d);
    let f1 = s1.frames();
    assert(f1.take(child.depth as int) =~= f1);
    assert(kinds(f1) =~= kinds(t).push(crate::stack::BLOCK as int));
    lemma_top_of_push(kinds(t), crate::stack::BLOCK as int, crate::stack::BLOCK as int);
    assert(f1.take(d) =~= t);
    let f3 = s3.frames();
    assert(f3.take(d) =~= t);
    assert(f3[d].id == s0.data().next_id());
    assert(crate::stack::holds_block(f3, h.block));
    assert forall|i: int| 0 <= i < t.len() implies #[trigger] t[i].id != h.block by {
        assert(t[i] == s0.frames()[i]);
    }
}

/// A context of another runtime instance is never entered: no scope of
/// `isolate` may enter it.
pub proof fn lemma_cross_instance_rejected(isolate: OwnedIsolate, at: ScopePos, context: Local)
    requires
        context.isolate != isolate.id(),
    ensures
        !may_enter(isolate, at, context),
{
}

} // verus!
