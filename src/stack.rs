//! The scope stack: an append-only list of frames with one "active" slot per
//! raw primitive kind.
use vstd::prelude::*;

verus! {

/// Index of the local-handle block kind among the active slots.
pub const BLOCK: usize = 0;

/// Index of the escape slot kind among the active slots.
pub const ESCAPE: usize = 1;

/// Index of the exception trap kind among the active slots.
pub const TRAP: usize = 2;

/// Index of the entered context kind among the active slots.
pub const CONTEXT: usize = 3;

/// The raw primitive state that a frame holds, one variant per kind.
#[derive(Clone, Copy, Debug, PartialEq, Eq, Structural)]
pub enum ScopeTypeSpecificData {
    /// A local-handle block: handles created while it is active belong to it.
    HandleScope,
    /// A slot pre-allocated in the handle block `target`; `armed` until a
    /// handle has been escaped through it.
    EscapeSlot { target: u64, armed: bool },
    /// An exception trap.
    TryCatch,
    /// An entered execution context.
    ContextScope { context: u64 },
}

/// One record on the stack.
#[derive(Clone, Copy, Debug, PartialEq, Eq, Structural)]
pub struct Frame {
    /// Serial number, unique over the life of the stack and increasing.
    pub id: u64,
    /// The raw primitive state.
    pub data: ScopeTypeSpecificData,
    /// The active slot of the same kind before this frame was pushed.
    pub saved: Option<usize>,
    /// Set when the scope that owns this handle-bearing frame was released
    /// and the frame waits to be collapsed.
    pub stale: bool,
}

/// The slot index of a frame's kind.
pub open spec fn kind_of(d: ScopeTypeSpecificData) -> int {
    match d {
        ScopeTypeSpecificData::HandleScope => BLOCK as int,
        ScopeTypeSpecificData::EscapeSlot { .. } => ESCAPE as int,
        ScopeTypeSpecificData::TryCatch => TRAP as int,
        ScopeTypeSpecificData::ContextScope { .. } => CONTEXT as int,
    }
}

/// Kinds whose frames are kept as stale after release instead of popped.
pub open spec fn defers_drop(d: ScopeTypeSpecificData) -> bool {
    kind_of(d) == BLOCK as int || kind_of(d) == ESCAPE as int
}

/// The kinds of a list of frames.
pub open spec fn kinds(s: Seq<Frame>) -> Seq<int> {
    s.map_values(|f: Frame| kind_of(f.data))
}

/// Index of the topmost entry equal to `k`, or -1 when there is none.
pub open spec fn top_of(ks: Seq<int>, k: int) -> int
    decreases ks.len(),
{
    if ks.len() == 0 {
        -1
    } else if ks.last() == k {
        ks.len() - 1
    } else {
        top_of(ks.drop_last(), k)
    }
}

/// An optional index as an integer, -1 standing for none.
pub open spec fn index_of(o: Option<usize>) -> int {
    match o {
        Some(i) => i as int,
        None => -1,
    }
}

/// The frame appended to `s` for `data` with serial number `id`: it saves the
/// index of the topmost frame of its kind.
pub open spec fn frame_for(s: Seq<Frame>, id: u64, data: ScopeTypeSpecificData) -> Frame {
    Frame {
        id,
        data,
        saved: if top_of(kinds(s), kind_of(data)) < 0 {
            None
        } else {
            Some(top_of(kinds(s), kind_of(data)) as usize)
        },
        stale: false,
    }
}

/// `s` with the frame for `data` appended.
pub open spec fn push_frame(s: Seq<Frame>, id: u64, data: ScopeTypeSpecificData) -> Seq<Frame> {
    s.push(frame_for(s, id, data))
}

/// Whether `id` names a handle-bearing block among `s`.
pub open spec fn holds_block(s: Seq<Frame>, id: u64) -> bool {
    exists|i: int| 0 <= i < s.len() && #[trigger] s[i].id == id && kind_of(s[i].data) == BLOCK as int
}

/// Whether every frame from `depth` up is stale.
pub open spec fn stale_above(s: Seq<Frame>, depth: int) -> bool {
    forall|j: int| depth <= j < s.len() ==> #[trigger] s[j].stale
}

/// Whether the position (`depth`, `frame`) is the live top of `s` once the
/// stale frames above it are collapsed. Depth 0 is the root, named by 0.
pub open spec fn touchable(s: Seq<Frame>, depth: int, frame: u64) -> bool {
    &&& 0 <= depth <= s.len()
    &&& depth == 0 ==> frame == 0
    &&& depth > 0 ==> s[depth - 1].id == frame && !s[depth - 1].stale
    &&& stale_above(s, depth)
}

/// The frames after releasing the scope whose frame is the top of `t`.
pub open spec fn released(t: Seq<Frame>) -> Seq<Frame> {
    let n = t.len() - 1;
    if kind_of(t[n].data) == BLOCK as int {
        let u = t.update(n, Frame { stale: true, ..t[n] });
        if n >= 1 && kind_of(t[n - 1].data) == ESCAPE as int {
            u.update(n - 1, Frame { stale: true, ..t[n - 1] })
        } else {
            u
        }
    } else {
        t.drop_last()
    }
}

/// The context entered by the frame at `i`, if `i` names a context frame.
pub open spec fn context_at(s: Seq<Frame>, i: int) -> Option<u64> {
    if 0 <= i < s.len() {
        match s[i].data {
            ScopeTypeSpecificData::ContextScope { context } => Some(context),
            _ => None,
        }
    } else {
        None
    }
}

/// Whether index `i` holds an escape slot that has not been used yet.
pub open spec fn escape_armed(s: Seq<Frame>, i: int) -> bool {
    &&& 0 <= i < s.len()
    &&& s[i].data matches ScopeTypeSpecificData::EscapeSlot { armed, .. } && armed
}

/// The handle block that the escape slot at `i` escapes into.
pub open spec fn escape_target(s: Seq<Frame>, i: int) -> u64 {
    match s[i].data {
        ScopeTypeSpecificData::EscapeSlot { target, .. } => target,
        _ => 0,
    }
}

/// The frames after the escape slot at `i` has been used.
pub open spec fn consume_escape(s: Seq<Frame>, i: int) -> Seq<Frame> {
    s.update(
        i,
        Frame {
            data: ScopeTypeSpecificData::EscapeSlot { target: escape_target(s, i), armed: false },
            ..s[i]
        },
    )
}

pub proof fn lemma_top_of_push(ks: Seq<int>, k: int, j: int)
    ensures
        top_of(ks.push(k), j) == if j == k { ks.len() as int } else { top_of(ks, j) },
{
    assert(ks.push(k).drop_last() =~= ks);
}

/// `top_of` finds the topmost entry equal to `k`: nothing above it equals
/// `k`, and it is -1 exactly when no entry does.
pub proof fn lemma_top_of_topmost(ks: Seq<int>, k: int)
    ensures
        top_of(ks, k) >= 0 ==> ks[top_of(ks, k)] == k,
        forall|j: int| top_of(ks, k) < j < ks.len() ==> #[trigger] ks[j] != k,
        top_of(ks, k) == -1 ==> forall|j: int| 0 <= j < ks.len() ==> #[trigger] ks[j] != k,
    decreases ks.len(),
{
    lemma_top_of_range(ks, k);
    if ks.len() > 0 && ks.last() != k {
        lemma_top_of_topmost(ks.drop_last(), k);
        assert forall|j: int| top_of(ks, k) < j < ks.len() implies ks[j] != k by {
            if j < ks.len() - 1 {
                assert(ks[j] == ks.drop_last()[j]);
            }
        }
    }
}

pub proof fn lemma_top_of_range(ks: Seq<int>, k: int)
    ensures
        -1 <= top_of(ks, k) < ks.len(),
        top_of(ks, k) >= 0 ==> ks[top_of(ks, k)] == k,
    decreases ks.len(),
{
    if ks.len() > 0 && ks.last() != k {
        lemma_top_of_range(ks.drop_last(), k);
    }
}

proof fn lemma_kinds_push(s: Seq<Frame>, f: Frame)
    ensures
        kinds(s.push(f)) =~= kinds(s).push(kind_of(f.data)),
{
}

/// The stack of one runtime instance.
pub struct ScopeData {
    frames: Vec<Frame>,
    active_block: Option<usize>,
    active_escape: Option<usize>,
    active_trap: Option<usize>,
    active_context: Option<usize>,
    next_id: u64,
}

impl ScopeData {
    /// The frames, bottom first.
    pub closed spec fn frames(&self) -> Seq<Frame> {
        self.frames@
    }

    /// The serial number the next pushed frame gets.
    pub closed spec fn next_id(&self) -> u64 {
        self.next_id
    }

    /// The active slot of kind `k`.
    pub closed spec fn active(&self, k: int) -> Option<usize> {
        if k == BLOCK as int {
            self.active_block
        } else if k == ESCAPE as int {
            self.active_escape
        } else if k == TRAP as int {
            self.active_trap
        } else {
            self.active_context
        }
    }

    /// The stack's invariant.
    pub closed spec fn wf(&self) -> bool {
        let s = self.frames@;
        &&& forall|k: int| 0 <= k < 4 ==> index_of(#[trigger] self.active(k)) == top_of(kinds(s), k)
        &&& forall|i: int|
            0 <= i < s.len() ==> index_of(#[trigger] s[i].saved) == top_of(
                kinds(s).take(i),
                kind_of(s[i].data),
            )
        &&& forall|i: int, j: int| 0 <= i < j < s.len() ==> #[trigger] s[i].id < #[trigger] s[j].id
        &&& forall|i: int| 0 <= i < s.len() ==> 0 < #[trigger] s[i].id < self.next_id
        &&& forall|i: int| 0 <= i < s.len() && #[trigger] s[i].stale ==> defers_drop(s[i].data)
        &&& self.next_id > 0
    }

    /// Index of the topmost frame of kind `k`, -1 when there is none.
    pub open spec fn top(&self, k: int) -> int {
        top_of(kinds(self.frames()), k)
    }

    /// Whether another `n` frames can be pushed.
    pub open spec fn has_room(&self, n: int) -> bool {
        &&& self.next_id() + n <= u64::MAX
        &&& self.frames().len() + n <= usize::MAX
    }

    /// What the invariant gives callers: serial numbers increase from the
    /// bottom and stay below the next one, and each active slot names the
    /// topmost frame of its kind.
    pub proof fn lemma_wf(&self)
        requires
            self.wf(),
        ensures
            forall|i: int, j: int|
                0 <= i < j < self.frames().len() ==> #[trigger] self.frames()[i].id
                    < #[trigger] self.frames()[j].id,
            forall|i: int| 0 <= i < self.frames().len() ==> 0 < #[trigger] self.frames()[i].id < self.next_id(),
            forall|k: int| 0 <= k < 4 ==> index_of(#[trigger] self.active(k)) == self.top(k),
            forall|i: int|
                0 <= i < self.frames().len() && #[trigger] self.frames()[i].stale ==> defers_drop(
                    self.frames()[i].data,
                ),
    {
    }

    proof fn lemma_active(&self)
        requires
            self.wf(),
        ensures
            forall|k: int| 0 <= k < 4 ==> index_of(#[trigger] self.active(k)) == self.top(k),
            forall|k: int| -1 <= #[trigger] self.top(k) < self.frames().len(),
    {
        assert forall|k: int| -1 <= #[trigger] self.top(k) < self.frames().len() by {
            lemma_top_of_range(kinds(self.frames()), k);
        }
    }

    /// An empty stack.
    pub fn new() -> (r: Self)
        ensures
            r.wf(),
            r.frames() == Seq::<Frame>::empty(),
            r.next_id() == 1,
    {
        ScopeData {
            frames: Vec::new(),
            active_block: None,
            active_escape: None,
            active_trap: None,
            active_context: None,
            next_id: 1,
        }
    }

    /// The current depth, which a scope remembers as its position.
    pub fn current_mark(&self) -> (r: usize)
        ensures
            r == self.frames().len(),
    {
        self.frames.len()
    }

    /// The serial number the next pushed frame gets.
    pub fn peek_next_id(&self) -> (r: u64)
        ensures
            r == self.next_id(),
    {
        self.next_id
    }

    /// The frame at index `i`.
    pub fn frame(&self, i: usize) -> (r: Frame)
        requires
            i < self.frames().len(),
        ensures
            r == self.frames()[i as int],
    {
        self.frames[i]
    }

    /// The active slot of kind `k`: the index of the topmost frame of that
    /// kind.
    pub fn active_slot(&self, k: usize) -> (r: Option<usize>)
        requires
            self.wf(),
            k < 4,
        ensures
            index_of(r) == self.top(k as int),
    {
        proof {
            assert(index_of(self.active(k as int)) == top_of(kinds(self.frames@), k as int));
        }
        if k == BLOCK {
            self.active_block
        } else if k == ESCAPE {
            self.active_escape
        } else if k == TRAP {
            self.active_trap
        } else {
            self.active_context
        }
    }

    fn set_active(&mut self, k: usize, v: Option<usize>)
        requires
            k < 4,
        ensures
            final(self).frames@ == old(self).frames@,
            final(self).next_id == old(self).next_id,
            forall|j: int| 0 <= j < 4 ==> #[trigger] final(self).active(j) == if j == k as int { v } else { old(self).active(j) },
    {
        if k == BLOCK {
            self.active_block = v;
        } else if k == ESCAPE {
            self.active_escape = v;
        } else if k == TRAP {
            self.active_trap = v;
        } else {
            self.active_context = v;
        }
    }

    /// Constructs a frame for `data`, saves the active slot of its kind in it,
    /// makes it the active one and appends it. Returns its serial number.
    pub fn push(&mut self, data: ScopeTypeSpecificData) -> (r: u64)
        requires
            old(self).wf(),
            old(self).has_room(1),
        ensures
            final(self).wf(),
            r == old(self).next_id(),
            final(self).frames() == push_frame(old(self).frames(), old(self).next_id(), data),
            final(self).next_id() == old(self).next_id() + 1,
    {
        let ghost s = self.frames@;
        let k = slot_index(&data);
        proof {
            self.lemma_active();
        }
        let saved = self.active_slot(k);
        let len = self.frames.len();
        let f = Frame { id: self.next_id, data, saved, stale: false };
        self.frames.push(f);
        self.next_id = self.next_id + 1;
        self.set_active(k, Some(len));
        proof {
            let t = self.frames@;
            lemma_kinds_push(s, f);
            assert(t == s.push(f));
            assert forall|j: int| 0 <= j < 4 implies index_of(#[trigger] self.active(j)) == top_of(
                kinds(t),
                j,
            ) by {
                lemma_top_of_push(kinds(s), kind_of(data), j);
                assert(kinds(t) == kinds(s).push(kind_of(data)));
                if j == k as int {
                    assert(self.active(j) == Some(len));
                    assert(top_of(kinds(t), j) == s.len());
                } else {
                    assert(self.active(j) == old(self).active(j));
                    assert(index_of(old(self).active(j)) == top_of(kinds(s), j));
                }
            }
            assert forall|i: int| 0 <= i < t.len() implies index_of(#[trigger] t[i].saved) == top_of(
                kinds(t).take(i),
                kind_of(t[i].data),
            ) by {
                if i < s.len() {
                    assert(kinds(t).take(i) =~= kinds(s).take(i));
                } else {
                    assert(kinds(t).take(i) =~= kinds(s));
                }
            }
        }
        f.id
    }

    /// Removes the topmost frame and restores the active slot of its kind to
    /// the value that frame displaced. Returns the frame, whose raw state the
    /// host then destroys.
    pub fn pop(&mut self) -> (r: Frame)
        requires
            old(self).wf(),
            old(self).frames().len() > 0,
        ensures
            final(self).wf(),
            r == old(self).frames().last(),
            final(self).frames() == old(self).frames().drop_last(),
            final(self).next_id() == old(self).next_id(),
    {
        let ghost s = self.frames@;
        let f = self.frames.pop().unwrap();
        let k = slot_index(&f.data);
        self.set_active(k, f.saved);
        proof {
            let t = self.frames@;
            assert(s =~= t.push(f));
            lemma_kinds_push(t, f);
            assert(kinds(s).take(t.len() as int) =~= kinds(t));
            assert forall|j: int| 0 <= j < 4 implies index_of(#[trigger] self.active(j)) == top_of(
                kinds(t),
                j,
            ) by {
                lemma_top_of_push(kinds(t), kind_of(f.data), j);
                assert(index_of(old(self).active(j)) == top_of(kinds(s), j));
                let n = t.len() as int;
                assert(index_of(s[n].saved) == top_of(kinds(s).take(n), kind_of(s[n].data)));
            }
            assert forall|i: int| 0 <= i < t.len() implies index_of(#[trigger] t[i].saved) == top_of(
                kinds(t).take(i),
                kind_of(t[i].data),
            ) by {
                assert(s[i] == t[i]);
                assert(kinds(t).take(i) =~= kinds(s).take(i));
            }
            assert forall|a: int, b: int| 0 <= a < b < t.len() implies #[trigger] t[a].id < #[trigger] t[b].id by {
                assert(s[a] == t[a] && s[b] == t[b]);
            }
            assert forall|a: int| 0 <= a < t.len() implies 0 < #[trigger] t[a].id < self.next_id by {
                assert(s[a] == t[a]);
            }
            assert forall|a: int| 0 <= a < t.len() && #[trigger] t[a].stale implies defers_drop(
                t[a].data,
            ) by {
                assert(s[a] == t[a]);
            }
        }
        f
    }

    /// Pops until the depth equals `mark`.
    pub fn unwind_to(&mut self, mark: usize)
        requires
            old(self).wf(),
            mark <= old(self).frames().len(),
        ensures
            final(self).wf(),
            final(self).frames() == old(self).frames().take(mark as int),
            final(self).frames().len() == mark,
            final(self).next_id() == old(self).next_id(),
    {
        let ghost s = self.frames();
        while self.frames.len() > mark
            invariant
                self.wf(),
                mark <= self.frames().len() <= s.len(),
                self.frames() == s.take(self.frames().len() as int),
                self.next_id() == old(self).next_id(),
            decreases self.frames().len(),
        {
            let ghost before = self.frames();
            self.pop();
            assert(self.frames() =~= s.take(self.frames().len() as int));
        }
        assert(self.frames() =~= s.take(mark as int));
    }

    /// Replaces frame `i` by `f`, which keeps its serial number, kind and
    /// saved slot.
    fn replace_frame(&mut self, i: usize, f: Frame)
        requires
            old(self).wf(),
            i < old(self).frames().len(),
            f.id == old(self).frames()[i as int].id,
            f.saved == old(self).frames()[i as int].saved,
            kind_of(f.data) == kind_of(old(self).frames()[i as int].data),
            f.stale ==> defers_drop(f.data),
        ensures
            final(self).wf(),
            final(self).frames() == old(self).frames().update(i as int, f),
            final(self).next_id() == old(self).next_id(),
    {
        let ghost s = self.frames@;
        self.frames.set(i, f);
        proof {
            let t = self.frames@;
            assert(kinds(t) =~= kinds(s));
            assert forall|j: int| 0 <= j < 4 implies index_of(#[trigger] self.active(j)) == top_of(
                kinds(t),
                j,
            ) by {
                assert(index_of(old(self).active(j)) == top_of(kinds(s), j));
            }
            assert forall|a: int| 0 <= a < t.len() implies index_of(#[trigger] t[a].saved) == top_of(
                kinds(t).take(a),
                kind_of(t[a].data),
            ) by {
                assert(index_of(s[a].saved) == top_of(kinds(s).take(a), kind_of(s[a].data)));
            }
            assert forall|a: int, b: int| 0 <= a < b < t.len() implies #[trigger] t[a].id
                < #[trigger] t[b].id by {
                assert(s[a].id < s[b].id);
            }
            assert forall|a: int| 0 <= a < t.len() implies 0 < #[trigger] t[a].id < self.next_id by {
                assert(0 < s[a].id < self.next_id);
            }
            assert forall|a: int| 0 <= a < t.len() && #[trigger] t[a].stale implies defers_drop(
                t[a].data,
            ) by {
                if a != i {
                    assert(s[a].stale);
                }
            }
        }
    }

    /// Whether the position (`depth`, `frame`) can be touched: it is the live
    /// top once the stale frames above it are collapsed.
    pub fn is_touchable(&self, depth: usize, frame: u64) -> (r: bool)
        ensures
            r == touchable(self.frames(), depth as int, frame),
    {
        let len = self.frames.len();
        if depth > len {
            return false;
        }
        if depth == 0 {
            if frame != 0 {
                return false;
            }
        } else {
            let f = self.frames[depth - 1];
            if f.id != frame || f.stale {
                return false;
            }
        }
        let mut j = depth;
        while j < len
            invariant
                depth <= j <= len,
                len == self.frames().len(),
                stale_above(self.frames().take(j as int), depth as int),
            decreases len - j,
        {
            if !self.frames[j].stale {
                assert(!stale_above(self.frames(), depth as int));
                return false;
            }
            j = j + 1;
            assert forall|a: int| depth <= a < j implies #[trigger] self.frames().take(j as int)[a].stale by {
                if a < j - 1 {
                    assert(self.frames().take(j as int)[a] == self.frames().take(j - 1)[a]);
                }
            }
        }
        assert(self.frames().take(len as int) =~= self.frames());
        true
    }

    /// Collapses the stale frames above a touchable position, which makes it
    /// the top of the stack.
    pub fn touch(&mut self, depth: usize, frame: u64)
        requires
            old(self).wf(),
            touchable(old(self).frames(), depth as int, frame),
        ensures
            final(self).wf(),
            final(self).frames() == old(self).frames().take(depth as int),
            final(self).next_id() == old(self).next_id(),
    {
        self.unwind_to(depth);
    }

    /// Whether `id` names a handle block on the stack, so that the handles it
    /// owns can be read.
    pub fn contains_block(&self, id: u64) -> (r: bool)
        ensures
            r == holds_block(self.frames(), id),
    {
        let len = self.frames.len();
        let mut i: usize = 0;
        while i < len
            invariant
                i <= len,
                len == self.frames().len(),
                forall|a: int|
                    0 <= a < i ==> !(#[trigger] self.frames()[a].id == id && kind_of(
                        self.frames()[a].data,
                    ) == BLOCK as int),
            decreases len - i,
        {
            let f = self.frames[i];
            if f.id == id && slot_index(&f.data) == BLOCK {
                return true;
            }
            i = i + 1;
        }
        false
    }

    /// The serial number of the active handle block, if there is one.
    pub fn active_block_id(&self) -> (r: Option<u64>)
        requires
            self.wf(),
        ensures
            self.top(BLOCK as int) < 0 ==> r is None,
            self.top(BLOCK as int) >= 0 ==> r == Some(self.frames()[self.top(BLOCK as int)].id),
    {
        proof {
            self.lemma_active();
        }
        match self.active_slot(BLOCK) {
            Some(i) => Some(self.frames[i].id),
            None => None,
        }
    }

    /// Releases the scope at a touchable position `depth > 0`: collapses the
    /// stale frames above it, then marks its frames stale if they hold
    /// handles, or pops its frame otherwise.
    pub fn notify_scope_dropped(&mut self, depth: usize, frame: u64)
        requires
            old(self).wf(),
            depth > 0,
            touchable(old(self).frames(), depth as int, frame),
        ensures
            final(self).wf(),
            final(self).frames() == released(old(self).frames().take(depth as int)),
            final(self).next_id() == old(self).next_id(),
    {
        self.unwind_to(depth);
        let top = self.frames[depth - 1];
        if slot_index(&top.data) == BLOCK {
            self.replace_frame(depth - 1, Frame { stale: true, ..top });
            if depth >= 2 {
                let below = self.frames[depth - 2];
                if slot_index(&below.data) == ESCAPE {
                    self.replace_frame(depth - 2, Frame { stale: true, ..below });
                }
            }
        } else {
            self.pop();
        }
    }

    /// Index of the topmost frame of kind `k` below depth `depth`.
    pub fn top_below(&self, depth: usize, k: usize) -> (r: Option<usize>)
        requires
            depth <= self.frames().len(),
        ensures
            index_of(r) == top_of(kinds(self.frames().take(depth as int)), k as int),
    {
        let mut i = depth;
        while i > 0
            invariant
                i <= depth <= self.frames().len(),
                top_of(kinds(self.frames().take(depth as int)), k as int) == top_of(
                    kinds(self.frames().take(i as int)),
                    k as int,
                ),
            decreases i,
        {
            let ghost ks = kinds(self.frames().take(i as int));
            assert(ks.last() == kind_of(self.frames()[i - 1].data));
            if slot_index(&self.frames[i - 1].data) == k {
                return Some(i - 1);
            }
            assert(ks.drop_last() =~= kinds(self.frames().take(i - 1)));
            i = i - 1;
        }
        None
    }

    /// Whether the topmost escape slot below depth `depth` is still armed.
    pub fn escape_armed_below(&self, depth: usize) -> (r: bool)
        requires
            depth <= self.frames().len(),
        ensures
            r == escape_armed(
                self.frames().take(depth as int),
                top_of(kinds(self.frames().take(depth as int)), ESCAPE as int),
            ),
    {
        proof {
            lemma_top_of_range(kinds(self.frames().take(depth as int)), ESCAPE as int);
        }
        match self.top_below(depth, ESCAPE) {
            Some(i) => match self.frames[i].data {
                ScopeTypeSpecificData::EscapeSlot { armed, .. } => armed,
                _ => false,
            },
            None => false,
        }
    }

    /// The context entered by the topmost context frame below depth `depth`.
    pub fn context_below(&self, depth: usize) -> (r: Option<u64>)
        requires
            depth <= self.frames().len(),
        ensures
            r == context_at(
                self.frames().take(depth as int),
                top_of(kinds(self.frames().take(depth as int)), CONTEXT as int),
            ),
    {
        proof {
            lemma_top_of_range(kinds(self.frames().take(depth as int)), CONTEXT as int);
        }
        match self.top_below(depth, CONTEXT) {
            Some(i) => match self.frames[i].data {
                ScopeTypeSpecificData::ContextScope { context } => Some(context),
                _ => None,
            },
            None => None,
        }
    }

    /// Marks the active escape slot as used and returns the serial number of
    /// the handle block it escapes into.
    pub fn take_escape_slot(&mut self) -> (r: u64)
        requires
            old(self).wf(),
            escape_armed(old(self).frames(), old(self).top(ESCAPE as int)),
        ensures
            final(self).wf(),
            final(self).frames() == consume_escape(old(self).frames(), old(self).top(ESCAPE as int)),
            final(self).next_id() == old(self).next_id(),
            r == escape_target(old(self).frames(), old(self).top(ESCAPE as int)),
    {
        proof {
            self.lemma_active();
        }
        let i = self.active_slot(ESCAPE).unwrap();
        let f = self.frames[i];
        match f.data {
            ScopeTypeSpecificData::EscapeSlot { target, armed } => {
                self.replace_frame(
                    i,
                    Frame { data: ScopeTypeSpecificData::EscapeSlot { target, armed: false }, ..f },
                );
                target
            },
            _ => 0,
        }
    }
}

/// The active-slot index of a frame's kind.
pub fn slot_index(d: &ScopeTypeSpecificData) -> (r: usize)
    ensures
        r == kind_of(*d),
        r < 4,
{
    match d {
        ScopeTypeSpecificData::HandleScope => BLOCK,
        ScopeTypeSpecificData::EscapeSlot { .. } => ESCAPE,
        ScopeTypeSpecificData::TryCatch => TRAP,
        ScopeTypeSpecificData::ContextScope { .. } => CONTEXT,
    }
}

} // verus!
