//! The compiled-in policy: who is protected and from what.

use vstd::prelude::*;
use crate::bytes::{contains_bytes, contains_seq, has_prefix, is_prefix};

verus! {

/// An optional byte string seen as an optional sequence.
pub open spec fn view_opt(x: Option<&[u8]>) -> Option<Seq<u8>> {
    match x {
        Some(s) => Some(s@),
        None => None,
    }
}

/// The package name of the protected application; its sub-processes carry it as a prefix.
pub open spec fn target_identifier() -> Seq<u8> {
    seq![99u8, 111u8, 109u8, 46u8, 114u8, 101u8, 109u8, 48u8, 49u8, 103u8, 97u8, 109u8, 105u8, 110u8, 103u8, 46u8, 100u8, 105u8, 115u8, 99u8, 108u8, 111u8, 115u8, 117u8, 114u8, 101u8]
}

/// The bytes of [`target_identifier`].
pub fn target_identifier_bytes() -> (r: [u8; 26])
    ensures
        r@ == target_identifier(),
{
    [99u8, 111u8, 109u8, 46u8, 114u8, 101u8, 109u8, 48u8, 49u8, 103u8, 97u8, 109u8, 105u8, 110u8, 103u8, 46u8, 100u8, 105u8, 115u8, 99u8, 108u8, 111u8, 115u8, 117u8, 114u8, 101u8]
}

/// A path prefix that existence queries report as missing.
pub open spec fn addon_dir_prefix() -> Seq<u8> {
    seq![47u8, 115u8, 121u8, 115u8, 116u8, 101u8, 109u8, 47u8, 97u8, 100u8, 100u8, 111u8, 110u8, 46u8, 100u8]
}

/// The bytes of [`addon_dir_prefix`].
pub fn addon_dir_prefix_bytes() -> (r: [u8; 15])
    ensures
        r@ == addon_dir_prefix(),
{
    [47u8, 115u8, 121u8, 115u8, 116u8, 101u8, 109u8, 47u8, 97u8, 100u8, 100u8, 111u8, 110u8, 46u8, 100u8]
}

/// A second path prefix that existence queries report as missing.
pub open spec fn recovery_dir_prefix() -> Seq<u8> {
    seq![47u8, 115u8, 100u8, 99u8, 97u8, 114u8, 100u8, 47u8, 70u8, 111u8, 120u8]
}

/// The bytes of [`recovery_dir_prefix`].
pub fn recovery_dir_prefix_bytes() -> (r: [u8; 11])
    ensures
        r@ == recovery_dir_prefix(),
{
    [47u8, 115u8, 100u8, 99u8, 97u8, 114u8, 100u8, 47u8, 70u8, 111u8, 120u8]
}

/// The boot-state property whose value is spoofed.
pub open spec fn boot_state_property() -> Seq<u8> {
    seq![114u8, 111u8, 46u8, 98u8, 111u8, 111u8, 116u8, 46u8, 114u8, 101u8, 97u8, 108u8, 109u8, 101u8, 98u8, 111u8, 111u8, 116u8, 115u8, 116u8, 97u8, 116u8, 101u8]
}

/// The bytes of [`boot_state_property`].
pub fn boot_state_property_bytes() -> (r: [u8; 23])
    ensures
        r@ == boot_state_property(),
{
    [114u8, 111u8, 46u8, 98u8, 111u8, 111u8, 116u8, 46u8, 114u8, 101u8, 97u8, 108u8, 109u8, 101u8, 98u8, 111u8, 111u8, 116u8, 115u8, 116u8, 97u8, 116u8, 101u8]
}

/// The benign value reported for the boot-state property.
pub open spec fn boot_state_value() -> Seq<u8> {
    seq![103u8, 114u8, 101u8, 101u8, 110u8]
}

/// The bytes of [`boot_state_value`].
pub fn boot_state_value_bytes() -> (r: [u8; 5])
    ensures
        r@ == boot_state_value(),
{
    [103u8, 114u8, 101u8, 101u8, 110u8]
}

/// Properties whose names contain this text are reported as unset.
pub open spec fn os_marker() -> Seq<u8> {
    seq![114u8, 111u8, 46u8, 108u8, 105u8, 110u8, 101u8, 97u8, 103u8, 101u8]
}

/// The bytes of [`os_marker`].
pub fn os_marker_bytes() -> (r: [u8; 10])
    ensures
        r@ == os_marker(),
{
    [114u8, 111u8, 46u8, 108u8, 105u8, 110u8, 101u8, 97u8, 103u8, 101u8]
}

/// A package that the target may not navigate to.
pub open spec fn first_denied_package() -> Seq<u8> {
    seq![99u8, 111u8, 109u8, 46u8, 115u8, 117u8, 107u8, 105u8, 115u8, 117u8, 46u8, 117u8, 108u8, 116u8, 114u8, 97u8]
}

/// The bytes of [`first_denied_package`].
pub fn first_denied_package_bytes() -> (r: [u8; 16])
    ensures
        r@ == first_denied_package(),
{
    [99u8, 111u8, 109u8, 46u8, 115u8, 117u8, 107u8, 105u8, 115u8, 117u8, 46u8, 117u8, 108u8, 116u8, 114u8, 97u8]
}

/// A second package that the target may not navigate to.
pub open spec fn second_denied_package() -> Seq<u8> {
    seq![99u8, 111u8, 109u8, 46u8, 114u8, 105u8, 102u8, 115u8, 120u8, 100u8, 46u8, 107u8, 115u8, 117u8, 110u8, 101u8, 120u8, 116u8]
}

/// The bytes of [`second_denied_package`].
pub fn second_denied_package_bytes() -> (r: [u8; 18])
    ensures
        r@ == second_denied_package(),
{
    [99u8, 111u8, 109u8, 46u8, 114u8, 105u8, 102u8, 115u8, 120u8, 100u8, 46u8, 107u8, 115u8, 117u8, 110u8, 101u8, 120u8, 116u8]
}

/// A decoded process name denotes the target or one of its sub-processes.
pub open spec fn is_target_name(name: Option<Seq<u8>>) -> bool {
    match name {
        Some(n) => is_prefix(target_identifier(), n),
        None => false,
    }
}

/// A decoded path lies under one of the hidden prefixes.
pub open spec fn is_hidden_path(path: Option<Seq<u8>>) -> bool {
    match path {
        Some(p) => is_prefix(addon_dir_prefix(), p) || is_prefix(recovery_dir_prefix(), p),
        None => false,
    }
}

/// A decoded package name is on the navigation denylist.
pub open spec fn is_denied_package(package: Option<Seq<u8>>) -> bool {
    match package {
        Some(p) => p == first_denied_package() || p == second_denied_package(),
        None => false,
    }
}

/// What the policy does with a system-property lookup.
#[derive(Clone, Copy, Debug, PartialEq, Eq, Structural)]
pub enum PropertyRule {
    /// Answer with the benign boot-state value.
    SpoofBootState,
    /// Answer that the property is not set.
    Conceal,
    /// Let the lookup through.
    PassThrough,
}

/// The rule for a decoded property name: the exact boot-state name is spoofed,
/// any name containing the OS marker is concealed, everything else passes.
pub open spec fn property_rule_of(name: Option<Seq<u8>>) -> PropertyRule {
    match name {
        Some(n) => if n == boot_state_property() {
            PropertyRule::SpoofBootState
        } else if contains_seq(n, os_marker()) {
            PropertyRule::Conceal
        } else {
            PropertyRule::PassThrough
        },
        None => PropertyRule::PassThrough,
    }
}

fn bytes_equal(a: &[u8], b: &[u8]) -> (r: bool)
    ensures
        r == (a@ == b@),
{
    let r = a.len() == b.len() && has_prefix(a, b);
    proof {
        if a@.len() == b@.len() {
            assert(a@.subrange(0, b@.len() as int) =~= a@);
        }
    }
    r
}

/// Whether a process name (`None` when it could not be decoded) is the target.
pub fn is_target_process(name: Option<&[u8]>) -> (r: bool)
    ensures
        r == is_target_name(view_opt(name)),
{
    match name {
        Some(n) => has_prefix(n, &target_identifier_bytes()),
        None => false,
    }
}

/// Whether an existence query for this path (`None` when unreadable) is to
/// report the file as missing.
pub fn hides_path(path: Option<&[u8]>) -> (r: bool)
    ensures
        r == is_hidden_path(view_opt(path)),
{
    match path {
        Some(p) => has_prefix(p, &addon_dir_prefix_bytes()) || has_prefix(p, &recovery_dir_prefix_bytes()),
        None => false,
    }
}

/// The rule that applies to a property name (`None` when unreadable).
pub fn property_rule(name: Option<&[u8]>) -> (r: PropertyRule)
    ensures
        r == property_rule_of(view_opt(name)),
{
    match name {
        Some(n) => if bytes_equal(n, &boot_state_property_bytes()) {
            PropertyRule::SpoofBootState
        } else if contains_bytes(n, &os_marker_bytes()) {
            PropertyRule::Conceal
        } else {
            PropertyRule::PassThrough
        },
        None => PropertyRule::PassThrough,
    }
}

/// Whether navigation to this package (`None` when unreadable) is refused.
pub fn denies_package(package: Option<&[u8]>) -> (r: bool)
    ensures
        r == is_denied_package(view_opt(package)),
{
    match package {
        Some(p) => bytes_equal(p, &first_denied_package_bytes()) || bytes_equal(p, &second_denied_package_bytes()),
        None => false,
    }
}

} // verus!
