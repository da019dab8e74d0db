use geoink_core::context::navigation_verdict;
use geoink_core::rules::{
    boot_state_value_bytes, denies_package, hides_path, is_target_process, property_rule,
    target_identifier_bytes, PropertyRule,
};
use geoink_core::tables::{managed_method_hooks, native_symbol_hooks, not_found_exception_class};
use geoink_core::{
    contains_bytes, has_prefix, ApplicationCreateAction, HookRegistry, HookSlot,
    InterceptionContext, NavigationAction, NavigationPlan, PathAction, Phase, PropertyAction,
};

const STAT_ORIG: usize = 0x1000;
const ACCESS_ORIG: usize = 0x2000;
const PROP_ORIG: usize = 0x3000;
const NAV_ORIG: usize = 0x4000;
const CREATE_ORIG: usize = 0x5000;

fn loaded_context(name: &[u8]) -> InterceptionContext {
    let mut ctx = InterceptionContext::new();
    ctx.on_module_load(NAV_ORIG, CREATE_ORIG);
    ctx.on_pre_specialize(Some(name));
    ctx.record_original(HookSlot::Stat, STAT_ORIG);
    ctx.record_original(HookSlot::Access, ACCESS_ORIG);
    ctx.record_original(HookSlot::PropertyGet, PROP_ORIG);
    ctx
}

#[test]
fn prefix_and_substring_matching() {
    assert!(has_prefix(b"/system/addon.d/x", b"/system/addon.d"));
    assert!(has_prefix(b"abc", b""));
    assert!(!has_prefix(b"ab", b"abc"));
    assert!(!has_prefix(b"xbc", b"abc"));
    assert!(contains_bytes(b"persist.ro.lineage.x", b"ro.lineage"));
    assert!(contains_bytes(b"abc", b""));
    assert!(!contains_bytes(b"ro.lineag", b"ro.lineage"));
    assert!(!contains_bytes(b"", b"a"));
}

#[test]
fn target_identity_is_a_prefix_match() {
    assert_eq!(target_identifier_bytes().to_vec(), b"com.rem01gaming.disclosure".to_vec());
    assert!(is_target_process(Some(b"com.rem01gaming.disclosure")));
    assert!(is_target_process(Some(b"com.rem01gaming.disclosure:remote")));
    assert!(!is_target_process(Some(b"com.rem01gaming")));
    assert!(!is_target_process(Some(b"org.example.app")));
    assert!(!is_target_process(Some(b"")));
    assert!(!is_target_process(None));
}

#[test]
fn hidden_paths() {
    assert!(hides_path(Some(b"/system/addon.d")));
    assert!(hides_path(Some(b"/system/addon.d/anything")));
    assert!(hides_path(Some(b"/sdcard/Fox/anything")));
    assert!(!hides_path(Some(b"/system/other")));
    assert!(!hides_path(Some(b"/sdcard/fox")));
    assert!(!hides_path(None));
}

#[test]
fn property_rules() {
    assert_eq!(property_rule(Some(b"ro.boot.realmebootstate")), PropertyRule::SpoofBootState);
    assert_eq!(property_rule(Some(b"ro.boot.realmebootstate2")), PropertyRule::PassThrough);
    assert_eq!(property_rule(Some(b"ro.lineage.version")), PropertyRule::Conceal);
    assert_eq!(property_rule(Some(b"persist.ro.lineage")), PropertyRule::Conceal);
    assert_eq!(property_rule(Some(b"ro.debuggable")), PropertyRule::PassThrough);
    assert_eq!(property_rule(None), PropertyRule::PassThrough);
    assert_eq!(boot_state_value_bytes().to_vec(), b"green".to_vec());
}

#[test]
fn denied_packages() {
    assert!(denies_package(Some(b"com.sukisu.ultra")));
    assert!(denies_package(Some(b"com.rifsxd.ksunext")));
    assert!(!denies_package(Some(b"com.sukisu.ultra.extra")));
    assert!(!denies_package(Some(b"com.android.settings")));
    assert!(!denies_package(None));
}

#[test]
fn registry_resolves_first_recorded_original() {
    let mut reg = HookRegistry::new();
    assert_eq!(reg.resolve(HookSlot::Stat), None);
    assert!(!reg.record(HookSlot::Stat, 0));
    assert_eq!(reg.resolve(HookSlot::Stat), None);
    assert!(reg.record(HookSlot::Stat, 42));
    assert_eq!(reg.resolve(HookSlot::Stat), Some(42));
    assert!(!reg.record(HookSlot::Stat, 77));
    assert!(reg.record(HookSlot::Access, 9));
    assert_eq!(reg.resolve(HookSlot::Stat), Some(42));
    assert_eq!(reg.resolve(HookSlot::Access), Some(9));
    assert_eq!(reg.resolve(HookSlot::PropertyGet), None);
}

#[test]
fn lifecycle_phases() {
    let mut ctx = InterceptionContext::new();
    assert_eq!(ctx.phase(), Phase::Unloaded);
    ctx.on_module_load(NAV_ORIG, 0);
    assert_eq!(ctx.phase(), Phase::MethodHooksRegistered);
    assert_eq!(ctx.original(HookSlot::StartActivity), Some(NAV_ORIG));
    assert_eq!(ctx.original(HookSlot::ApplicationCreate), None);
    assert!(ctx.on_pre_specialize(Some(b"com.rem01gaming.disclosure:svc")));
    assert_eq!(ctx.phase(), Phase::IdentityResolved);
    assert!(ctx.is_target());
    let action = ctx.on_application_create();
    assert_eq!(action, ApplicationCreateAction { install_symbol_hooks: true, forward_to: None });
    assert_eq!(ctx.phase(), Phase::SymbolHooksInstalled);
}

#[test]
fn non_target_process_is_transparent() {
    let mut ctx = loaded_context(b"com.android.chrome");
    assert!(!ctx.is_target());
    assert_eq!(ctx.stat_action(Some(b"/system/addon.d/x")), PathAction::Delegate(STAT_ORIG));
    assert_eq!(ctx.access_action(Some(b"/sdcard/Fox/x")), PathAction::Delegate(ACCESS_ORIG));
    assert_eq!(ctx.property_action(Some(b"ro.boot.realmebootstate")), PropertyAction::Delegate(PROP_ORIG));
    assert_eq!(ctx.property_action(Some(b"ro.lineage.version")), PropertyAction::Delegate(PROP_ORIG));
    assert_eq!(ctx.navigation_plan(), NavigationPlan::Forward(NAV_ORIG));
    let action = ctx.on_application_create();
    assert_eq!(action, ApplicationCreateAction { install_symbol_hooks: false, forward_to: Some(CREATE_ORIG) });
    assert!(!ctx.symbol_hooks_installed());
    assert_eq!(ctx.phase(), Phase::IdentityResolved);
}

#[test]
fn undecodable_name_is_not_target() {
    let mut ctx = InterceptionContext::new();
    assert!(!ctx.on_pre_specialize(None));
    assert!(!ctx.is_target());
}

#[test]
fn installation_is_granted_once() {
    let mut ctx = loaded_context(b"com.rem01gaming.disclosure");
    let first = ctx.on_application_create();
    assert!(first.install_symbol_hooks);
    assert_eq!(first.forward_to, Some(CREATE_ORIG));
    for _ in 0..5 {
        let again = ctx.on_application_create();
        assert!(!again.install_symbol_hooks);
        assert_eq!(again.forward_to, Some(CREATE_ORIG));
    }
    ctx.on_pre_specialize(Some(b"other"));
    assert!(ctx.is_target());
    assert!(!ctx.on_application_create().install_symbol_hooks);
}

#[test]
fn target_hides_paths() {
    let ctx = loaded_context(b"com.rem01gaming.disclosure");
    assert_eq!(ctx.stat_action(Some(b"/system/addon.d/anything")), PathAction::NotFound);
    assert_eq!(ctx.stat_action(Some(b"/sdcard/Fox/anything")), PathAction::NotFound);
    assert_eq!(ctx.access_action(Some(b"/system/addon.d/anything")), PathAction::NotFound);
    assert_eq!(ctx.access_action(Some(b"/sdcard/Fox/anything")), PathAction::NotFound);
    assert_eq!(ctx.stat_action(Some(b"/system/other")), PathAction::Delegate(STAT_ORIG));
    assert_eq!(ctx.access_action(Some(b"/system/other")), PathAction::Delegate(ACCESS_ORIG));
    assert_eq!(ctx.stat_action(None), PathAction::Delegate(STAT_ORIG));
}

#[test]
fn target_property_answers() {
    let ctx = loaded_context(b"com.rem01gaming.disclosure");
    assert_eq!(ctx.property_action(Some(b"ro.boot.realmebootstate")), PropertyAction::Spoof);
    assert_eq!(ctx.property_action(Some(b"ro.lineage.version")), PropertyAction::Absent);
    assert_eq!(ctx.property_action(Some(b"ro.debuggable")), PropertyAction::Delegate(PROP_ORIG));
    assert_eq!(ctx.property_action(None), PropertyAction::Delegate(PROP_ORIG));
}

#[test]
fn target_navigation_rules() {
    let ctx = loaded_context(b"com.rem01gaming.disclosure");
    assert_eq!(ctx.navigation_plan(), NavigationPlan::Inspect(NAV_ORIG));
    assert_eq!(navigation_verdict(NAV_ORIG, Some(b"com.sukisu.ultra")), NavigationAction::Block);
    assert_eq!(navigation_verdict(NAV_ORIG, Some(b"com.rifsxd.ksunext")), NavigationAction::Block);
    assert_eq!(navigation_verdict(NAV_ORIG, Some(b"com.android.settings")), NavigationAction::Forward(NAV_ORIG));
    assert_eq!(navigation_verdict(NAV_ORIG, None), NavigationAction::Forward(NAV_ORIG));
}

#[test]
fn missing_originals_give_defaults() {
    let mut ctx = InterceptionContext::new();
    ctx.on_pre_specialize(Some(b"com.rem01gaming.disclosure"));
    assert_eq!(ctx.stat_action(Some(b"/system/addon.d/x")), PathAction::Default);
    assert_eq!(ctx.access_action(Some(b"/etc")), PathAction::Default);
    assert_eq!(ctx.property_action(Some(b"ro.boot.realmebootstate")), PropertyAction::Default);
    assert_eq!(ctx.navigation_plan(), NavigationPlan::Skip);
}

#[test]
fn hook_tables() {
    let native = native_symbol_hooks();
    assert_eq!(native.len(), 3);
    assert_eq!(native[0].library, b"libc.so".to_vec());
    assert_eq!(native[0].symbol, b"stat".to_vec());
    assert_eq!(native[0].slot, HookSlot::Stat);
    assert_eq!(native[1].symbol, b"access".to_vec());
    assert_eq!(native[2].symbol, b"__system_property_get".to_vec());
    assert_eq!(native[2].slot, HookSlot::PropertyGet);
    let managed = managed_method_hooks();
    assert_eq!(managed.len(), 2);
    assert_eq!(managed[0].class, b"android/app/Activity".to_vec());
    assert_eq!(managed[0].method, b"startActivity".to_vec());
    assert_eq!(managed[0].signature, b"(Landroid/content/Intent;)V".to_vec());
    assert_eq!(managed[1].class, b"android/app/Application".to_vec());
    assert_eq!(managed[1].method, b"onCreate".to_vec());
    assert_eq!(managed[1].signature, b"()V".to_vec());
    assert_eq!(not_found_exception_class(), b"android/content/ActivityNotFoundException".to_vec());
}
