//! Properties of the interception state that hold for every input, proved
//! over the abstract transitions that the context's operations follow.

use vstd::prelude::*;
use crate::bytes::{contains_seq, is_prefix, occurs_at};
use crate::context::{
    after_application_create, after_module_load, after_record_original, after_specialize,
    application_create_action_of, grants_install, navigation_action_of, navigation_plan_of,
    path_action_of, property_action_of, valid, ApplicationCreateAction, ContextView,
    NavigationAction, NavigationPlan, PathAction, PropertyAction,
};
use crate::registry::{after_record, empty_view, lookup, HookSlot, SLOT_COUNT};
use crate::rules::{
    addon_dir_prefix, boot_state_property, first_denied_package, is_hidden_path, is_target_name,
    os_marker, property_rule_of, recovery_dir_prefix, second_denied_package, PropertyRule,
};

verus! {

/// A process that is not the target stays so through every lifecycle event
/// whose process name does not start with the target identifier, and an
/// application-create callback leaves its state untouched.
pub proof fn non_target_stays_untouched(
    v: ContextView,
    name: Option<Seq<u8>>,
    start_activity: usize,
    application_create: usize,
    slot: HookSlot,
    ptr: usize,
)
    requires
        valid(v),
        !v.target,
        !is_target_name(name),
    ensures
        !after_specialize(v, name).target,
        !after_module_load(v, start_activity, application_create).target,
        !after_record_original(v, slot, ptr).target,
        after_application_create(v) == v,
        !application_create_action_of(v).install_symbol_hooks,
{
}

/// In a process that is not the target, every handler passes the call to the
/// recorded original, whatever the input, and never alters or blocks it.
pub proof fn non_target_transparency(v: ContextView, path: Option<Seq<u8>>, name: Option<Seq<u8>>)
    requires
        valid(v),
        !v.target,
    ensures
        lookup(v.registry, HookSlot::Stat) matches Some(p) ==> path_action_of(
            lookup(v.registry, HookSlot::Stat),
            v.target,
            path,
        ) == PathAction::Delegate(p),
        lookup(v.registry, HookSlot::Access) matches Some(p) ==> path_action_of(
            lookup(v.registry, HookSlot::Access),
            v.target,
            path,
        ) == PathAction::Delegate(p),
        lookup(v.registry, HookSlot::PropertyGet) matches Some(p) ==> property_action_of(
            lookup(v.registry, HookSlot::PropertyGet),
            v.target,
            name,
        ) == PropertyAction::Delegate(p),
        lookup(v.registry, HookSlot::StartActivity) matches Some(p) ==> navigation_plan_of(
            lookup(v.registry, HookSlot::StartActivity),
            v.target,
        ) == NavigationPlan::Forward(p),
        application_create_action_of(v) == (ApplicationCreateAction {
            install_symbol_hooks: false,
            forward_to: lookup(v.registry, HookSlot::ApplicationCreate),
        }),
{
}

/// How many of `n` successive application-create callbacks, starting from
/// `v`, are granted the native-symbol installation.
pub open spec fn installs_granted(v: ContextView, n: nat) -> nat
    decreases n,
{
    if n == 0 {
        0
    } else {
        (if grants_install(v) { 1nat } else { 0nat }) + installs_granted(after_application_create(v), (n - 1) as nat)
    }
}

/// Once closed, the installation latch stays closed through every event.
pub proof fn latch_stays_closed(
    v: ContextView,
    name: Option<Seq<u8>>,
    start_activity: usize,
    application_create: usize,
    slot: HookSlot,
    ptr: usize,
)
    requires
        v.symbol_hooks_installed,
    ensures
        after_application_create(v).symbol_hooks_installed,
        !grants_install(v),
        after_specialize(v, name).symbol_hooks_installed,
        after_module_load(v, start_activity, application_create).symbol_hooks_installed,
        after_record_original(v, slot, ptr).symbol_hooks_installed,
{
}

/// However many application-create callbacks arrive, the native-symbol
/// installation is granted at most once, and never again once granted.
pub proof fn install_granted_at_most_once(v: ContextView, n: nat)
    ensures
        installs_granted(v, n) <= 1,
        v.symbol_hooks_installed ==> installs_granted(v, n) == 0,
    decreases n,
{
    if n > 0 {
        let w = after_application_create(v);
        install_granted_at_most_once(w, (n - 1) as nat);
        if grants_install(v) {
            assert(w.symbol_hooks_installed);
        }
    }
}

/// For the target, an existence query for any path under `/system/addon.d` or
/// `/sdcard/Fox` reports "not found" once the original is recorded, and a path
/// outside both prefixes goes to the original.
pub proof fn target_hides_paths(p: usize, suffix: Seq<u8>, other: Seq<u8>)
    requires
        !is_prefix(addon_dir_prefix(), other),
        !is_prefix(recovery_dir_prefix(), other),
    ensures
        path_action_of(Some(p), true, Some(addon_dir_prefix() + suffix)) == PathAction::NotFound,
        path_action_of(Some(p), true, Some(recovery_dir_prefix() + suffix)) == PathAction::NotFound,
        path_action_of(Some(p), true, Some(other)) == PathAction::Delegate(p),
{
    let a = addon_dir_prefix() + suffix;
    let f = recovery_dir_prefix() + suffix;
    assert(a.subrange(0, addon_dir_prefix().len() as int) =~= addon_dir_prefix());
    assert(f.subrange(0, recovery_dir_prefix().len() as int) =~= recovery_dir_prefix());
}

/// `/system/other` lies outside both hidden prefixes.
pub proof fn system_other_is_not_hidden()
    ensures
        !is_hidden_path(Some(seq![47u8, 115u8, 121u8, 115u8, 116u8, 101u8, 109u8, 47u8, 111u8, 116u8, 104u8, 101u8, 114u8])),
{
    let s = seq![47u8, 115u8, 121u8, 115u8, 116u8, 101u8, 109u8, 47u8, 111u8, 116u8, 104u8, 101u8, 114u8];
    assert(s.subrange(0, 11)[2] != recovery_dir_prefix()[2]);
}

/// For the target, the boot-state property always reads as the benign value,
/// any property under `ro.lineage` reads as unset, and a name that neither
/// equals the boot-state property nor contains the marker goes to the original.
pub proof fn target_property_rules(p: usize, suffix: Seq<u8>, other: Seq<u8>)
    requires
        other != boot_state_property(),
        !contains_seq(other, os_marker()),
    ensures
        property_action_of(Some(p), true, Some(boot_state_property())) == PropertyAction::Spoof,
        property_action_of(Some(p), true, Some(os_marker() + suffix)) == PropertyAction::Absent,
        property_action_of(Some(p), true, Some(other)) == PropertyAction::Delegate(p),
{
    let n = os_marker() + suffix;
    assert(n.subrange(0, os_marker().len() as int) =~= os_marker());
    assert(occurs_at(n, os_marker(), 0));
    assert(n.len() != boot_state_property().len() || n[3] != boot_state_property()[3]);
}

/// `ro.debuggable` is neither the boot-state property nor under the OS marker.
pub proof fn debuggable_is_passed_through()
    ensures
        property_rule_of(Some(seq![114u8, 111u8, 46u8, 100u8, 101u8, 98u8, 117u8, 103u8, 103u8, 97u8, 98u8, 108u8, 101u8]))
            == PropertyRule::PassThrough,
{
    let s = seq![114u8, 111u8, 46u8, 100u8, 101u8, 98u8, 117u8, 103u8, 103u8, 97u8, 98u8, 108u8, 101u8];
    let m = os_marker();
    assert forall|i: int| !occurs_at(s, m, i) by {
        if 0 <= i && i + m.len() <= s.len() {
            if i == 0 {
                assert(s.subrange(i, i + m.len())[3] != m[3]);
            } else {
                assert(s.subrange(i, i + m.len())[0] != m[0]);
            }
        }
    }
    assert(s.len() != boot_state_property().len());
}

/// For the target, a navigation request is always inspected; one to a denied
/// package is blocked, without the original, and any other goes to the original.
pub proof fn target_navigation_rules(p: usize, package: Seq<u8>)
    requires
        package != first_denied_package(),
        package != second_denied_package(),
    ensures
        navigation_plan_of(Some(p), true) == NavigationPlan::Inspect(p),
        navigation_action_of(p, Some(first_denied_package())) == NavigationAction::Block,
        navigation_action_of(p, Some(second_denied_package())) == NavigationAction::Block,
        navigation_action_of(p, Some(package)) == NavigationAction::Forward(p),
{
}

/// Before anything is recorded every slot resolves to nothing; the first
/// non-null original recorded for a slot is what it resolves to from then on,
/// through every later record of any slot.
pub proof fn registry_consistency(v: Seq<usize>, slot: HookSlot, ptr: usize, later: HookSlot, later_ptr: usize)
    requires
        v.len() == SLOT_COUNT,
    ensures
        lookup(empty_view(), slot) is None,
        ptr != 0 && lookup(v, slot) is None ==> lookup(after_record(v, slot, ptr), slot) == Some(ptr),
        lookup(v, slot) matches Some(q) ==> lookup(after_record(v, later, later_ptr), slot) == Some(q),
{
}

} // verus!
