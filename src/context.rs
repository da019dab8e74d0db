//! The per-process interception state and the decisions taken on it: the
//! lifecycle callbacks that move it forward, and the policy applied to each
//! intercepted call.

use vstd::prelude::*;
use crate::registry::{after_record, empty_view, lookup, HookRegistry, HookSlot};
use crate::rules::{
    denies_package, hides_path, is_denied_package, is_hidden_path, is_target_name,
    is_target_process, property_rule, property_rule_of, view_opt, PropertyRule,
};

verus! {

/// Where a process stands in the interception lifecycle.
#[derive(Clone, Copy, Debug, PartialEq, Eq, Structural)]
pub enum Phase {
    /// Nothing has happened yet.
    Unloaded,
    /// The managed-method replacements are in place.
    MethodHooksRegistered,
    /// The process name has been examined.
    IdentityResolved,
    /// The native-symbol hooks have been installed (target process only).
    SymbolHooksInstalled,
}

/// The abstract state of an [`InterceptionContext`].
pub struct ContextView {
    /// Recorded originals, by [`HookSlot::index`]; 0 when absent.
    pub registry: Seq<usize>,
    /// This process is the target (written once, never reset).
    pub target: bool,
    /// The pre-specialization callback has run.
    pub identity_resolved: bool,
    /// The module-load callback has run.
    pub method_hooks_registered: bool,
    /// The one-shot native-symbol installation latch.
    pub symbol_hooks_installed: bool,
}

/// Every reachable state: one entry per slot, and installation only ever
/// granted to the target.
pub open spec fn valid(v: ContextView) -> bool {
    &&& v.registry.len() == crate::registry::SLOT_COUNT
    &&& v.symbol_hooks_installed ==> v.target
}

/// The state of a process before any callback.
pub open spec fn initial() -> ContextView {
    ContextView {
        registry: empty_view(),
        target: false,
        identity_resolved: false,
        method_hooks_registered: false,
        symbol_hooks_installed: false,
    }
}

/// The lifecycle phase that a state is in.
pub open spec fn phase_of(v: ContextView) -> Phase {
    if v.symbol_hooks_installed {
        Phase::SymbolHooksInstalled
    } else if v.identity_resolved {
        Phase::IdentityResolved
    } else if v.method_hooks_registered {
        Phase::MethodHooksRegistered
    } else {
        Phase::Unloaded
    }
}

/// After the module-load callback, given the originals that patching the
/// two managed methods handed back.
pub open spec fn after_module_load(v: ContextView, start_activity: usize, application_create: usize) -> ContextView {
    ContextView {
        registry: after_record(
            after_record(v.registry, HookSlot::StartActivity, start_activity),
            HookSlot::ApplicationCreate,
            application_create,
        ),
        method_hooks_registered: true,
        ..v
    }
}

/// After the pre-specialization callback for a process name (`None` when it
/// could not be decoded): the target flag only ever goes from false to true.
pub open spec fn after_specialize(v: ContextView, name: Option<Seq<u8>>) -> ContextView {
    ContextView { target: v.target || is_target_name(name), identity_resolved: true, ..v }
}

/// Installation is granted on an application-create callback exactly when the
/// process is the target and the latch is still open.
pub open spec fn grants_install(v: ContextView) -> bool {
    v.target && !v.symbol_hooks_installed
}

/// After an application-create callback: the latch closes if it was granted.
pub open spec fn after_application_create(v: ContextView) -> ContextView {
    ContextView { symbol_hooks_installed: v.symbol_hooks_installed || grants_install(v), ..v }
}

/// After recording an original handed back by an installer.
pub open spec fn after_record_original(v: ContextView, slot: HookSlot, ptr: usize) -> ContextView {
    ContextView { registry: after_record(v.registry, slot, ptr), ..v }
}

/// What an intercepted existence query (`stat`, `access`) does.
#[derive(Clone, Copy, Debug, PartialEq, Eq, Structural)]
pub enum PathAction {
    /// No original is recorded: report success without a call.
    Default,
    /// Report "not found" without calling the original.
    NotFound,
    /// Call the original at this address.
    Delegate(usize),
}

/// What an intercepted system-property lookup does.
#[derive(Clone, Copy, Debug, PartialEq, Eq, Structural)]
pub enum PropertyAction {
    /// No original is recorded: report an empty value without a call.
    Default,
    /// Write the benign boot-state value to the caller's buffer and return its length.
    Spoof,
    /// Report the property as unset without calling the original.
    Absent,
    /// Call the original at this address.
    Delegate(usize),
}

/// The first step of an intercepted navigation request.
#[derive(Clone, Copy, Debug, PartialEq, Eq, Structural)]
pub enum NavigationPlan {
    /// No original is recorded: do nothing.
    Skip,
    /// Call the original at this address without looking at the request.
    Forward(usize),
    /// Read the package of the request's component and ask
    /// [`navigation_verdict`] with this original.
    Inspect(usize),
}

/// The ruling on a navigation request whose package has been read.
#[derive(Clone, Copy, Debug, PartialEq, Eq, Structural)]
pub enum NavigationAction {
    /// Raise "activity not found" and do not call the original.
    Block,
    /// Call the original at this address.
    Forward(usize),
}

/// What an intercepted application-create callback does.
#[derive(Clone, Copy, Debug, PartialEq, Eq, Structural)]
pub struct ApplicationCreateAction {
    /// Install the native-symbol hooks now (granted at most once).
    pub install_symbol_hooks: bool,
    /// The original to call afterwards, if recorded.
    pub forward_to: Option<usize>,
}

/// The ruling on an existence query.
pub open spec fn path_action_of(original: Option<usize>, target: bool, path: Option<Seq<u8>>) -> PathAction {
    match original {
        None => PathAction::Default,
        Some(p) => if target && is_hidden_path(path) {
            PathAction::NotFound
        } else {
            PathAction::Delegate(p)
        },
    }
}

/// The ruling on a property lookup.
pub open spec fn property_action_of(original: Option<usize>, target: bool, name: Option<Seq<u8>>) -> PropertyAction {
    match original {
        None => PropertyAction::Default,
        Some(p) => if !target {
            PropertyAction::Delegate(p)
        } else {
            match property_rule_of(name) {
                PropertyRule::SpoofBootState => PropertyAction::Spoof,
                PropertyRule::Conceal => PropertyAction::Absent,
                PropertyRule::PassThrough => PropertyAction::Delegate(p),
            }
        },
    }
}

/// The first step of a navigation request.
pub open spec fn navigation_plan_of(original: Option<usize>, target: bool) -> NavigationPlan {
    match original {
        None => NavigationPlan::Skip,
        Some(p) => if target {
            NavigationPlan::Inspect(p)
        } else {
            NavigationPlan::Forward(p)
        },
    }
}

/// The ruling on a navigation request once its package (`None` when it could
/// not be read) is known.
pub open spec fn navigation_action_of(original: usize, package: Option<Seq<u8>>) -> NavigationAction {
    if is_denied_package(package) {
        NavigationAction::Block
    } else {
        NavigationAction::Forward(original)
    }
}

/// The ruling on an application-create callback.
pub open spec fn application_create_action_of(v: ContextView) -> ApplicationCreateAction {
    ApplicationCreateAction {
        install_symbol_hooks: grants_install(v),
        forward_to: lookup(v.registry, HookSlot::ApplicationCreate),
    }
}

/// Decides a navigation request from the recorded original and the package
/// that the request's component names.
pub fn navigation_verdict(original: usize, package: Option<&[u8]>) -> (r: NavigationAction)
    ensures
        r == navigation_action_of(original, view_opt(package)),
{
    if denies_package(package) {
        NavigationAction::Block
    } else {
        NavigationAction::Forward(original)
    }
}

/// Process identity, hook registry and installation latch of one process.
pub struct InterceptionContext {
    registry: HookRegistry,
    target: bool,
    identity_resolved: bool,
    method_hooks_registered: bool,
    symbol_hooks_installed: bool,
}

impl View for InterceptionContext {
    type V = ContextView;

    closed spec fn view(&self) -> ContextView {
        ContextView {
            registry: self.registry@,
            target: self.target,
            identity_resolved: self.identity_resolved,
            method_hooks_registered: self.method_hooks_registered,
            symbol_hooks_installed: self.symbol_hooks_installed,
        }
    }
}

impl InterceptionContext {
    /// The context holds a reachable state.
    pub open spec fn wf(&self) -> bool {
        valid(self@)
    }

    /// The state of a process before any callback.
    pub fn new() -> (r: Self)
        ensures
            r.wf(),
            r@ == initial(),
    {
        InterceptionContext {
            registry: HookRegistry::new(),
            target: false,
            identity_resolved: false,
            method_hooks_registered: false,
            symbol_hooks_installed: false,
        }
    }

    /// Module load: keeps the originals that patching `Activity.startActivity`
    /// and `Application.onCreate` handed back (0 where patching failed).
    pub fn on_module_load(&mut self, start_activity: usize, application_create: usize)
        requires
            old(self).wf(),
        ensures
            final(self).wf(),
            final(self)@ == after_module_load(old(self)@, start_activity, application_create),
    {
        self.registry.record(HookSlot::StartActivity, start_activity);
        self.registry.record(HookSlot::ApplicationCreate, application_create);
        self.method_hooks_registered = true;
    }

    /// Pre-specialization: examines the process name (`None` when it could not
    /// be decoded) and returns whether it names the target.
    pub fn on_pre_specialize(&mut self, process_name: Option<&[u8]>) -> (r: bool)
        requires
            old(self).wf(),
        ensures
            final(self).wf(),
            final(self)@ == after_specialize(old(self)@, view_opt(process_name)),
            r == is_target_name(view_opt(process_name)),
    {
        let matched = is_target_process(process_name);
        if matched {
            self.target = true;
        }
        self.identity_resolved = true;
        matched
    }

    /// Application create: closes the one-shot latch, granting installation of
    /// the native-symbol hooks if this is the target and the latch was open, and
    /// names the original to forward to.
    pub fn on_application_create(&mut self) -> (r: ApplicationCreateAction)
        requires
            old(self).wf(),
        ensures
            final(self).wf(),
            final(self)@ == after_application_create(old(self)@),
            r == application_create_action_of(old(self)@),
    {
        let install = self.target && !self.symbol_hooks_installed;
        if install {
            self.symbol_hooks_installed = true;
        }
        ApplicationCreateAction {
            install_symbol_hooks: install,
            forward_to: self.registry.resolve(HookSlot::ApplicationCreate),
        }
    }

    /// Records an original that an installer handed back (0 when it failed);
    /// returns whether it was stored.
    pub fn record_original(&mut self, slot: HookSlot, ptr: usize) -> (r: bool)
        requires
            old(self).wf(),
        ensures
            final(self).wf(),
            final(self)@ == after_record_original(old(self)@, slot, ptr),
            r == (ptr != 0 && lookup(old(self)@.registry, slot) is None),
    {
        self.registry.record(slot, ptr)
    }

    /// The original recorded for `slot`, if any.
    pub fn original(&self, slot: HookSlot) -> (r: Option<usize>)
        requires
            self.wf(),
        ensures
            r == lookup(self@.registry, slot),
    {
        self.registry.resolve(slot)
    }

    /// Whether this process has been identified as the target.
    pub fn is_target(&self) -> (r: bool)
        ensures
            r == self@.target,
    {
        self.target
    }

    /// Whether the native-symbol hooks have been installed.
    pub fn symbol_hooks_installed(&self) -> (r: bool)
        ensures
            r == self@.symbol_hooks_installed,
    {
        self.symbol_hooks_installed
    }

    /// The current lifecycle phase.
    pub fn phase(&self) -> (r: Phase)
        ensures
            r == phase_of(self@),
    {
        if self.symbol_hooks_installed {
            Phase::SymbolHooksInstalled
        } else if self.identity_resolved {
            Phase::IdentityResolved
        } else if self.method_hooks_registered {
            Phase::MethodHooksRegistered
        } else {
            Phase::Unloaded
        }
    }

    fn path_action(&self, slot: HookSlot, path: Option<&[u8]>) -> (r: PathAction)
        requires
            self.wf(),
        ensures
            r == path_action_of(lookup(self@.registry, slot), self@.target, view_opt(path)),
    {
        match self.registry.resolve(slot) {
            None => PathAction::Default,
            Some(p) => if self.target && hides_path(path) {
                PathAction::NotFound
            } else {
                PathAction::Delegate(p)
            },
        }
    }

    /// The ruling on an intercepted `stat` of `path` (`None` when unreadable).
    pub fn stat_action(&self, path: Option<&[u8]>) -> (r: PathAction)
        requires
            self.wf(),
        ensures
            r == path_action_of(lookup(self@.registry, HookSlot::Stat), self@.target, view_opt(path)),
    {
        self.path_action(HookSlot::Stat, path)
    }

    /// The ruling on an intercepted `access` of `path` (`None` when unreadable).
    pub fn access_action(&self, path: Option<&[u8]>) -> (r: PathAction)
        requires
            self.wf(),
        ensures
            r == path_action_of(lookup(self@.registry, HookSlot::Access), self@.target, view_opt(path)),
    {
        self.path_action(HookSlot::Access, path)
    }

    /// The ruling on an intercepted property lookup of `name` (`None` when unreadable).
    pub fn property_action(&self, name: Option<&[u8]>) -> (r: PropertyAction)
        requires
            self.wf(),
        ensures
            r == property_action_of(lookup(self@.registry, HookSlot::PropertyGet), self@.target, view_opt(name)),
    {
        match self.registry.resolve(HookSlot::PropertyGet) {
            None => PropertyAction::Default,
            Some(p) => if !self.target {
                PropertyAction::Delegate(p)
            } else {
                match property_rule(name) {
                    PropertyRule::SpoofBootState => PropertyAction::Spoof,
                    PropertyRule::Conceal => PropertyAction::Absent,
                    PropertyRule::PassThrough => PropertyAction::Delegate(p),
                }
            },
        }
    }

    /// The first step of an intercepted navigation request.
    pub fn navigation_plan(&self) -> (r: NavigationPlan)
        requires
            self.wf(),
        ensures
            r == navigation_plan_of(lookup(self@.registry, HookSlot::StartActivity), self@.target),
    {
        match self.registry.resolve(HookSlot::StartActivity) {
            None => NavigationPlan::Skip,
            Some(p) => if self.target {
                NavigationPlan::Inspect(p)
            } else {
                NavigationPlan::Forward(p)
            },
        }
    }
}

} // verus!
