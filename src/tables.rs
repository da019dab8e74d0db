//! The fixed lists of functions that the installers redirect.

use vstd::prelude::*;
use crate::registry::HookSlot;

verus! {
/// The shared library whose symbols are redirected.
pub open spec fn libc_library() -> Seq<u8> {
    seq![108u8, 105u8, 98u8, 99u8, 46u8, 115u8, 111u8]
}
/// The path-status symbol.
pub open spec fn stat_symbol() -> Seq<u8> {
    seq![115u8, 116u8, 97u8, 116u8]
}
/// The path-access symbol.
pub open spec fn access_symbol() -> Seq<u8> {
    seq![97u8, 99u8, 99u8, 101u8, 115u8, 115u8]
}
/// The system-property getter symbol.
pub open spec fn property_get_symbol() -> Seq<u8> {
    seq![95u8, 95u8, 115u8, 121u8, 115u8, 116u8, 101u8, 109u8, 95u8, 112u8, 114u8, 111u8, 112u8, 101u8, 114u8, 116u8, 121u8, 95u8, 103u8, 101u8, 116u8]
}
/// The managed class whose navigation method is replaced.
pub open spec fn activity_class() -> Seq<u8> {
    seq![97u8, 110u8, 100u8, 114u8, 111u8, 105u8, 100u8, 47u8, 97u8, 112u8, 112u8, 47u8, 65u8, 99u8, 116u8, 105u8, 118u8, 105u8, 116u8, 121u8]
}
/// The navigation method.
pub open spec fn start_activity_method() -> Seq<u8> {
    seq![115u8, 116u8, 97u8, 114u8, 116u8, 65u8, 99u8, 116u8, 105u8, 118u8, 105u8, 116u8, 121u8]
}
/// The navigation method's signature.
pub open spec fn start_activity_signature() -> Seq<u8> {
    seq![40u8, 76u8, 97u8, 110u8, 100u8, 114u8, 111u8, 105u8, 100u8, 47u8, 99u8, 111u8, 110u8, 116u8, 101u8, 110u8, 116u8, 47u8, 73u8, 110u8, 116u8, 101u8, 110u8, 116u8, 59u8, 41u8, 86u8]
}
/// The managed class whose creation callback is replaced.
pub open spec fn application_class() -> Seq<u8> {
    seq![97u8, 110u8, 100u8, 114u8, 111u8, 105u8, 100u8, 47u8, 97u8, 112u8, 112u8, 47u8, 65u8, 112u8, 112u8, 108u8, 105u8, 99u8, 97u8, 116u8, 105u8, 111u8, 110u8]
}
/// The creation callback.
pub open spec fn on_create_method() -> Seq<u8> {
    seq![111u8, 110u8, 67u8, 114u8, 101u8, 97u8, 116u8, 101u8]
}
/// The creation callback's signature.
pub open spec fn on_create_signature() -> Seq<u8> {
    seq![40u8, 41u8, 86u8]
}
/// The managed exception raised for a blocked navigation request.
pub open spec fn not_found_exception() -> Seq<u8> {
    seq![97u8, 110u8, 100u8, 114u8, 111u8, 105u8, 100u8, 47u8, 99u8, 111u8, 110u8, 116u8, 101u8, 110u8, 116u8, 47u8, 65u8, 99u8, 116u8, 105u8, 118u8, 105u8, 116u8, 121u8, 78u8, 111u8, 116u8, 70u8, 111u8, 117u8, 110u8, 100u8, 69u8, 120u8, 99u8, 101u8, 112u8, 116u8, 105u8, 111u8, 110u8]
}
/// A native symbol to redirect, and the slot that keeps its original.
pub struct NativeSymbolHook {
    /// The library that exports the symbol.
    pub library: Vec<u8>,
    /// The symbol's name.
    pub symbol: Vec<u8>,
    /// Where the original is recorded.
    pub slot: HookSlot,
}

/// A managed method whose native binding is replaced, and the slot that keeps
/// its original.
pub struct ManagedMethodHook {
    /// The class, in internal form (`a/b/C`).
    pub class: Vec<u8>,
    /// The method's name.
    pub method: Vec<u8>,
    /// The method's type signature.
    pub signature: Vec<u8>,
    /// Where the original is recorded.
    pub slot: HookSlot,
}

/// `h` redirects `symbol` of libc into `slot`.
pub open spec fn is_native_hook(h: NativeSymbolHook, symbol: Seq<u8>, slot: HookSlot) -> bool {
    h.library@ == libc_library() && h.symbol@ == symbol && h.slot == slot
}

/// `h` replaces `class.method(signature)` into `slot`.
pub open spec fn is_managed_hook(h: ManagedMethodHook, class: Seq<u8>, method: Seq<u8>, signature: Seq<u8>, slot: HookSlot) -> bool {
    h.class@ == class && h.method@ == method && h.signature@ == signature && h.slot == slot
}

/// The native symbols redirected once the target is running: `stat`,
/// `access` and the property getter, all in libc.
pub fn native_symbol_hooks() -> (r: Vec<NativeSymbolHook>)
    ensures
        r@.len() == 3,
        is_native_hook(r@[0], stat_symbol(), HookSlot::Stat),
        is_native_hook(r@[1], access_symbol(), HookSlot::Access),
        is_native_hook(r@[2], property_get_symbol(), HookSlot::PropertyGet),
{
    let mut r: Vec<NativeSymbolHook> = Vec::new();
    r.push(NativeSymbolHook {
        library: vec![108u8, 105u8, 98u8, 99u8, 46u8, 115u8, 111u8],
        symbol: vec![115u8, 116u8, 97u8, 116u8],
        slot: HookSlot::Stat,
    });
    r.push(NativeSymbolHook {
        library: vec![108u8, 105u8, 98u8, 99u8, 46u8, 115u8, 111u8],
        symbol: vec![97u8, 99u8, 99u8, 101u8, 115u8, 115u8],
        slot: HookSlot::Access,
    });
    r.push(NativeSymbolHook {
        library: vec![108u8, 105u8, 98u8, 99u8, 46u8, 115u8, 111u8],
        symbol: vec![95u8, 95u8, 115u8, 121u8, 115u8, 116u8, 101u8, 109u8, 95u8, 112u8, 114u8, 111u8, 112u8, 101u8, 114u8, 116u8, 121u8, 95u8, 103u8, 101u8, 116u8],
        slot: HookSlot::PropertyGet,
    });
    r
}

/// The managed methods replaced at module load: `Activity.startActivity(Intent)`
/// and `Application.onCreate()`.
pub fn managed_method_hooks() -> (r: Vec<ManagedMethodHook>)
    ensures
        r@.len() == 2,
        is_managed_hook(r@[0], activity_class(), start_activity_method(), start_activity_signature(), HookSlot::StartActivity),
        is_managed_hook(r@[1], application_class(), on_create_method(), on_create_signature(), HookSlot::ApplicationCreate),
{
    let mut r: Vec<ManagedMethodHook> = Vec::new();
    r.push(ManagedMethodHook {
        class: vec![97u8, 110u8, 100u8, 114u8, 111u8, 105u8, 100u8, 47u8, 97u8, 112u8, 112u8, 47u8, 65u8, 99u8, 116u8, 105u8, 118u8, 105u8, 116u8, 121u8],
        method: vec![115u8, 116u8, 97u8, 114u8, 116u8, 65u8, 99u8, 116u8, 105u8, 118u8, 105u8, 116u8, 121u8],
        signature: vec![40u8, 76u8, 97u8, 110u8, 100u8, 114u8, 111u8, 105u8, 100u8, 47u8, 99u8, 111u8, 110u8, 116u8, 101u8, 110u8, 116u8, 47u8, 73u8, 110u8, 116u8, 101u8, 110u8, 116u8, 59u8, 41u8, 86u8],
        slot: HookSlot::StartActivity,
    });
    r.push(ManagedMethodHook {
        class: vec![97u8, 110u8, 100u8, 114u8, 111u8, 105u8, 100u8, 47u8, 97u8, 112u8, 112u8, 47u8, 65u8, 112u8, 112u8, 108u8, 105u8, 99u8, 97u8, 116u8, 105u8, 111u8, 110u8],
        method: vec![111u8, 110u8, 67u8, 114u8, 101u8, 97u8, 116u8, 101u8],
        signature: vec![40u8, 41u8, 86u8],
        slot: HookSlot::ApplicationCreate,
    });
    r
}

/// The class of the exception raised for a blocked navigation request.
pub fn not_found_exception_class() -> (r: Vec<u8>)
    ensures
        r@ == not_found_exception(),
{
    vec![97u8, 110u8, 100u8, 114u8, 111u8, 105u8, 100u8, 47u8, 99u8, 111u8, 110u8, 116u8, 101u8, 110u8, 116u8, 47u8, 65u8, 99u8, 116u8, 105u8, 118u8, 105u8, 116u8, 121u8, 78u8, 111u8, 116u8, 70u8, 111u8, 117u8, 110u8, 100u8, 69u8, 120u8, 99u8, 101u8, 112u8, 116u8, 105u8, 111u8, 110u8]
}

} // verus!
