use v8_scope::CallbackScope;
use v8_scope::Caps;
use v8_scope::ContextScope;
use v8_scope::EscapableHandleScope;
use v8_scope::Global;
use v8_scope::HandleScope;
use v8_scope::HostIsolate;
use v8_scope::Local;
use v8_scope::OwnedIsolate;
use v8_scope::Scope;
use v8_scope::ScopeData;
use v8_scope::ScopeTypeSpecificData;
use v8_scope::TryCatch;

fn caps(handles: bool, escape: bool, try_catch: bool, context: bool) -> Caps {
    Caps { handles, escape, try_catch, context }
}

fn includes(a: Caps, b: Caps) -> bool {
    (!b.handles || a.handles)
        && (!b.escape || a.escape)
        && (!b.try_catch || a.try_catch)
        && (!b.context || a.context)
}

/// Compiles only when the argument has exactly the type `T`.
fn assert_type<T>(_: &T) {}

fn eat_it<S: Scope>(s: &S) -> Caps {
    let _ = s.pos();
    S::capabilities()
}

#[test]
fn deref_types() {
    let mut isolate = OwnedIsolate::new(1);
    let root = isolate.isolate();
    let hs = HandleScope::new(&mut isolate, &root);
    assert_type::<HandleScope>(&hs);
    let context = Local::from_raw(&mut isolate, &hs, 77);
    {
        let ehs = EscapableHandleScope::new(&mut isolate, &hs);
        assert_type::<EscapableHandleScope>(&ehs);
        assert!(includes(EscapableHandleScope::capabilities(), HandleScope::capabilities()));
        ehs.exit(&mut isolate);
    }
    {
        assert!(isolate.accepts_context(hs.pos(), &context));
        let cs1 = ContextScope::new(&mut isolate, &hs, context);
        assert_type::<ContextScope<HandleScope>>(&cs1);
        assert!(includes(ContextScope::<HandleScope>::capabilities(), HandleScope::capabilities()));
        let ehs = EscapableHandleScope::new(&mut isolate, &cs1);
        assert_type::<ContextScope<EscapableHandleScope>>(&ehs);
        assert!(isolate.accepts_context(ehs.pos(), &context));
        let cs2 = ContextScope::new(&mut isolate, &ehs, context);
        assert_type::<ContextScope<EscapableHandleScope>>(&cs2);
        assert_eq!(
            ContextScope::<EscapableHandleScope>::capabilities(),
            caps(true, true, false, true)
        );
        cs2.exit(&mut isolate);
        ehs.exit(&mut isolate);
        cs1.exit(&mut isolate);
    }
    {
        let cbs = CallbackScope::new(&mut isolate, &context);
        assert_type::<CallbackScope>(&cbs);
        assert!(includes(CallbackScope::capabilities(), HandleScope::capabilities()));
        cbs.exit(&mut isolate);
    }
    assert!(isolate.is_active(hs.pos()));
}

#[test]
fn tt() {
    let mut isolate = OwnedIsolate::new(1);
    let root = isolate.isolate();
    let s = HandleScope::new(&mut isolate, &root);
    let c = Local::from_raw(&mut isolate, &s, 5);
    let s = ContextScope::new(&mut isolate, &s, c);
    let got = eat_it(&s);
    assert!(got.handles);
    assert!(got.context);
}

#[test]
fn scope_data_push_pop_keeps_active_slots() {
    let mut data = ScopeData::new();
    assert_eq!(data.current_mark(), 0);
    assert_eq!(data.push(ScopeTypeSpecificData::HandleScope), 1);
    assert_eq!(data.push(ScopeTypeSpecificData::ContextScope { context: 9 }), 2);
    assert_eq!(data.push(ScopeTypeSpecificData::HandleScope), 3);
    assert_eq!(data.push(ScopeTypeSpecificData::TryCatch), 4);
    assert_eq!(data.current_mark(), 4);
    assert_eq!(data.active_slot(0), Some(2));
    assert_eq!(data.active_slot(1), None);
    assert_eq!(data.active_slot(2), Some(3));
    assert_eq!(data.active_slot(3), Some(1));
    let top = data.pop();
    assert_eq!(top.id, 4);
    assert_eq!(top.saved, None);
    assert_eq!(data.active_slot(2), None);
    data.unwind_to(1);
    assert_eq!(data.current_mark(), 1);
    assert_eq!(data.active_slot(0), Some(0));
    assert_eq!(data.active_slot(3), None);
    assert_eq!(data.frame(0).id, 1);
    data.unwind_to(1);
    assert_eq!(data.current_mark(), 1);
    data.unwind_to(0);
    assert_eq!(data.current_mark(), 0);
    assert_eq!(data.active_slot(0), None);
}

#[test]
fn popped_frame_restores_saved_slot() {
    let mut data = ScopeData::new();
    data.push(ScopeTypeSpecificData::HandleScope);
    data.push(ScopeTypeSpecificData::HandleScope);
    assert_eq!(data.active_slot(0), Some(1));
    let f = data.pop();
    assert_eq!(f.saved, Some(0));
    assert_eq!(data.active_slot(0), Some(0));
    assert_eq!(data.peek_next_id(), 3);
}

#[test]
fn child_capabilities_include_parent() {
    let h = HandleScope::capabilities();
    assert_eq!(h, caps(true, false, false, false));
    let t = TryCatch::<HandleScope>::capabilities();
    assert_eq!(t, caps(true, false, true, false));
    assert!(includes(t, h));
    let ct = ContextScope::<TryCatch<HandleScope>>::capabilities();
    assert_eq!(ct, caps(true, false, true, true));
    assert!(includes(ct, t));
    let tce = TryCatch::<ContextScope<EscapableHandleScope>>::capabilities();
    assert_eq!(tce, caps(true, true, true, true));
    assert!(includes(tce, EscapableHandleScope::capabilities()));
    assert_eq!(v8_scope::Isolate::capabilities(), caps(false, false, false, false));
}

#[test]
fn nested_constructors_keep_capabilities() {
    let mut isolate = OwnedIsolate::new(3);
    let root = isolate.isolate();
    let hs = HandleScope::new(&mut isolate, &root);
    let ctx = Local::from_raw(&mut isolate, &hs, 40);
    let cs = ContextScope::new(&mut isolate, &hs, ctx);
    let tc = TryCatch::new(&mut isolate, &cs);
    assert_type::<ContextScope<TryCatch<HandleScope>>>(&tc);
    let inner = HandleScope::new(&mut isolate, &tc);
    assert_type::<ContextScope<TryCatch<HandleScope>>>(&inner);
    let e = EscapableHandleScope::new(&mut isolate, &inner);
    assert_type::<ContextScope<TryCatch<EscapableHandleScope>>>(&e);
    assert!(includes(eat_it(&e), eat_it(&inner)));
    assert!(includes(eat_it(&inner), eat_it(&tc)));
    assert!(includes(eat_it(&tc), eat_it(&cs)));
    assert!(includes(eat_it(&cs), eat_it(&hs)));
    e.exit(&mut isolate);
    inner.exit(&mut isolate);
    tc.exit(&mut isolate);
    cs.exit(&mut isolate);
    assert!(isolate.is_active(hs.pos()));
}

#[test]
fn handle_block_nested_pop_scenario() {
    let mut isolate = OwnedIsolate::new(1);
    let root = isolate.isolate();
    let s1 = HandleScope::new(&mut isolate, &root);
    let h1 = Local::from_raw(&mut isolate, &s1, 100);
    let s2 = HandleScope::new(&mut isolate, &s1);
    let h2 = Local::from_raw(&mut isolate, &s2, 200);
    assert_eq!(h1.block, s1.pos().frame);
    assert_eq!(h2.block, s2.pos().frame);
    s2.exit(&mut isolate);
    isolate.touch(s1.pos());
    assert!(h1.is_readable(&isolate));
    assert_eq!(h1.get(&isolate), 100);
    assert!(!h2.is_readable(&isolate));
}

#[test]
fn escape_scenario() {
    let mut isolate = OwnedIsolate::new(1);
    let root = isolate.isolate();
    let s1 = HandleScope::new(&mut isolate, &root);
    let e = EscapableHandleScope::new(&mut isolate, &s1);
    let h = Local::from_raw(&mut isolate, &e, 123);
    assert_eq!(h.block, e.pos().frame);
    assert!(e.can_escape(&isolate));
    let escaped = e.escape(&mut isolate, h);
    assert_eq!(escaped.block, s1.pos().frame);
    assert_ne!(escaped.block, e.pos().frame);
    assert_eq!(escaped.value, 123);
    assert!(!e.can_escape(&isolate));
    e.exit(&mut isolate);
    isolate.touch(s1.pos());
    assert!(escaped.is_readable(&isolate));
    assert!(!h.is_readable(&isolate));
}

#[test]
fn escape_from_inner_block_reaches_escapable_parent() {
    let mut isolate = OwnedIsolate::new(1);
    let root = isolate.isolate();
    let s1 = HandleScope::new(&mut isolate, &root);
    let e = EscapableHandleScope::new(&mut isolate, &s1);
    let inner = HandleScope::new(&mut isolate, &e);
    assert_type::<EscapableHandleScope>(&inner);
    let h = Local::from_raw(&mut isolate, &inner, 8);
    assert!(inner.can_escape(&isolate));
    let escaped = inner.escape(&mut isolate, h);
    assert_eq!(escaped.block, s1.pos().frame);
    assert!(!e.can_escape(&isolate));
}

#[test]
fn deferred_drop_scenario() {
    let mut isolate = OwnedIsolate::new(1);
    let root = isolate.isolate();
    let s1 = HandleScope::new(&mut isolate, &root);
    let s2 = HandleScope::new(&mut isolate, &s1);
    let h = Local::from_raw(&mut isolate, &s2, 55);
    assert_eq!(isolate.scope_data().current_mark(), 2);
    s2.exit(&mut isolate);
    assert_eq!(isolate.scope_data().current_mark(), 2);
    assert!(isolate.scope_data().frame(1).stale);
    assert!(h.is_readable(&isolate));
    assert!(isolate.is_active(s1.pos()));
    isolate.touch(s1.pos());
    assert_eq!(isolate.scope_data().current_mark(), 1);
    assert!(!isolate.scope_data().frame(0).stale);
    assert!(!h.is_readable(&isolate));
}

#[test]
fn escapable_release_is_deferred_with_its_slot() {
    let mut isolate = OwnedIsolate::new(1);
    let root = isolate.isolate();
    let s1 = HandleScope::new(&mut isolate, &root);
    let e = EscapableHandleScope::new(&mut isolate, &s1);
    assert_eq!(isolate.scope_data().current_mark(), 3);
    e.exit(&mut isolate);
    assert_eq!(isolate.scope_data().current_mark(), 3);
    assert!(isolate.scope_data().frame(1).stale);
    assert!(isolate.scope_data().frame(2).stale);
    let h = Local::from_raw(&mut isolate, &s1, 1);
    assert_eq!(isolate.scope_data().current_mark(), 1);
    assert_eq!(h.block, s1.pos().frame);
}

#[test]
fn context_and_trap_release_immediately() {
    let mut isolate = OwnedIsolate::new(1);
    let root = isolate.isolate();
    let s1 = HandleScope::new(&mut isolate, &root);
    let ctx = Local::from_raw(&mut isolate, &s1, 3);
    let cs = ContextScope::new(&mut isolate, &s1, ctx);
    assert_eq!(
        isolate.scope_data().frame(1).data,
        ScopeTypeSpecificData::ContextScope { context: 3 }
    );
    let tc = TryCatch::new(&mut isolate, &cs);
    assert_eq!(isolate.scope_data().current_mark(), 3);
    tc.exit(&mut isolate);
    assert_eq!(isolate.scope_data().current_mark(), 2);
    cs.exit(&mut isolate);
    assert_eq!(isolate.scope_data().current_mark(), 1);
    assert_eq!(isolate.scope_data().active_slot(3), None);
}

#[test]
fn shadowed_scope_is_not_active() {
    let mut isolate = OwnedIsolate::new(1);
    let root = isolate.isolate();
    let s1 = HandleScope::new(&mut isolate, &root);
    let ctx = Local::from_raw(&mut isolate, &s1, 3);
    let cs = ContextScope::new(&mut isolate, &s1, ctx);
    assert!(!isolate.is_active(s1.pos()));
    assert!(!isolate.is_active(root.pos()));
    assert!(isolate.is_active(cs.pos()));
    cs.exit(&mut isolate);
    assert!(isolate.is_active(s1.pos()));
    s1.exit(&mut isolate);
    assert!(isolate.is_active(root.pos()));
    let s3 = HandleScope::new(&mut isolate, &root);
    assert_eq!(s3.pos().depth, 1);
    assert_ne!(s3.pos().frame, 1);
}

#[test]
fn cross_instance_context_is_rejected() {
    let mut a = OwnedIsolate::new(1);
    let mut b = OwnedIsolate::new(2);
    let ra = a.isolate();
    let rb = b.isolate();
    let sa = HandleScope::new(&mut a, &ra);
    let sb = HandleScope::new(&mut b, &rb);
    let ctx_b = Local::from_raw(&mut b, &sb, 9);
    assert_eq!(ctx_b.isolate, 2);
    assert!(!a.accepts_context(sa.pos(), &ctx_b));
    assert!(b.accepts_context(sb.pos(), &ctx_b));
    assert!(!a.accepts_handle(&ctx_b));
    assert!(b.accepts_handle(&ctx_b));
}

#[test]
fn callback_scope_pushes_on_top() {
    let mut isolate = OwnedIsolate::new(4);
    let root = isolate.isolate();
    let s1 = HandleScope::new(&mut isolate, &root);
    let arg = Local::from_raw(&mut isolate, &s1, 11);
    let cb = CallbackScope::new(&mut isolate, &arg);
    assert_eq!(cb.pos().depth, 2);
    let h = Local::from_raw(&mut isolate, &cb, 12);
    assert_eq!(h.block, cb.pos().frame);
    let inner = HandleScope::new(&mut isolate, &cb);
    assert_eq!(inner.pos().depth, 3);
    inner.exit(&mut isolate);
    cb.exit(&mut isolate);
    isolate.touch(s1.pos());
    assert!(!h.is_readable(&isolate));
    assert!(arg.is_readable(&isolate));
}

#[test]
fn local_from_handles() {
    let mut isolate = OwnedIsolate::new(6);
    let root = isolate.isolate();
    let s1 = HandleScope::new(&mut isolate, &root);
    let h1 = Local::from_raw(&mut isolate, &s1, 31);
    let g = Global::new(&isolate, &h1);
    assert_eq!(g.isolate, 6);
    assert_eq!(g.get(&root), 31);
    let s2 = HandleScope::new(&mut isolate, &s1);
    let copy = Local::new(&mut isolate, &s2, &h1);
    assert_eq!(copy.block, s2.pos().frame);
    assert_eq!(copy.as_non_null(), 31);
    let from_global = Local::new(&mut isolate, &s2, &g);
    assert_eq!(from_global.value, 31);
    assert_eq!(from_global.block, s2.pos().frame);
}

#[test]
fn host_isolate_matching() {
    let a = HostIsolate::Ptr(1);
    let b = HostIsolate::Ptr(2);
    assert!(a.match_isolate(a));
    assert!(!a.match_isolate(b));
    assert!(HostIsolate::Scope.match_isolate(HostIsolate::Scope));
    assert!(HostIsolate::Scope.match_isolate(a));
    assert!(!HostIsolate::Disposed.match_isolate(a));
    assert!(!a.match_isolate(HostIsolate::Disposed));
    let root = OwnedIsolate::new(7).isolate();
    assert_eq!(HostIsolate::new(&root), HostIsolate::Ptr(7));
    assert_eq!(HostIsolate::Scope.apply_scope(&root), HostIsolate::Ptr(7));
    assert_eq!(b.apply_scope(&root), b);
    assert_eq!(HostIsolate::Disposed.apply_scope(&root), HostIsolate::Disposed);
    assert_eq!(b.get_isolate_ptr(), 2);
}

#[test]
fn enter_and_get_isolate() {
    let mut isolate = OwnedIsolate::new(12);
    let root = isolate.isolate();
    let mut hs = HandleScope::new(&mut isolate, &root);
    let pos = hs.pos();
    assert_eq!(hs.enter().pos(), pos);
    assert_eq!(hs.get_isolate().id, 12);
    let mut e = EscapableHandleScope::new(&mut isolate, &hs);
    let epos = e.pos();
    assert_eq!(e.enter().pos(), epos);
    let ctx = Local::from_raw(&mut isolate, &e, 2);
    let mut cs = ContextScope::new(&mut isolate, &e, ctx);
    let cpos = cs.pos();
    assert_eq!(cs.enter().pos(), cpos);
    let arg = Local::from_raw(&mut isolate, &cs, 3);
    let mut cb = CallbackScope::new(&mut isolate, &arg);
    let bpos = cb.pos();
    assert_eq!(cb.enter().pos(), bpos);
}

#[test]
fn dispose_unwinds_every_frame() {
    let mut isolate = OwnedIsolate::new(5);
    let root = isolate.isolate();
    let s1 = HandleScope::new(&mut isolate, &root);
    let ctx = Local::from_raw(&mut isolate, &s1, 1);
    let cs = ContextScope::new(&mut isolate, &s1, ctx);
    assert_eq!(isolate.get_current_context(cs.pos()), Some(1));
    assert_eq!(isolate.get_current_context(s1.pos()), None);
    assert_eq!(isolate.scope_data().current_mark(), 2);
    isolate.dispose();
    assert_eq!(isolate.scope_data().current_mark(), 0);
    assert!(!ctx.is_readable(&isolate));
    assert!(isolate.is_active(root.pos()));
}
