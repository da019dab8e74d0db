//! Decision core of a per-process interception module: it decides whether the
//! running process is the protected target, keeps the original entry points of
//! every hooked function, sequences hook installation through the process's
//! lifecycle, and rules on each intercepted call (hide, spoof, block or pass).
//! The native glue that performs the calls lives outside this library.

mod bytes;
pub mod rules;
pub mod registry;
pub mod context;
pub mod tables;
pub mod laws;

pub use bytes::{contains_bytes, has_prefix};
pub use context::{
    ApplicationCreateAction, InterceptionContext, NavigationAction, NavigationPlan, PathAction,
    Phase, PropertyAction,
};
pub use registry::{HookRegistry, HookSlot};
