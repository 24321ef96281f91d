//! A verified scope-stack manager for a garbage-collected host runtime.
//!
//! Every runtime instance owns one stack of frames. Scopes push frames,
//! handles are tagged with the handle block that created them, and the
//! stack keeps strict last-in-first-out order.
use vstd::prelude::*;

pub mod handle;
pub mod isolate;
pub mod laws;
pub mod scope;
pub mod stack;

pub use handle::GetRawIsolate;
pub use handle::Global;
pub use handle::Handle;
pub use handle::HostIsolate;
pub use handle::Local;
pub use isolate::Isolate;
pub use isolate::OwnedIsolate;
pub use isolate::ScopePos;
pub use scope::CallbackScope;
pub use scope::Caps;
pub use scope::ContextScope;
pub use scope::EscapableHandleScope;
pub use scope::HandleScope;
pub use scope::NewContextScope;
pub use scope::NewEscapableHandleScope;
pub use scope::NewHandleScope;
pub use scope::NewTryCatch;
pub use scope::Scope;
pub use scope::TryCatch;
pub use stack::Frame;
pub use stack::ScopeData;
pub use stack::ScopeTypeSpecificData;

verus! {

} // verus!
