//! The install mode of a canister as the management canister takes it.

use crate::request_operation::CanisterInstallMode;
use ic_cdk::api::management_canister::main::{CanisterInstallMode as HostInstallMode, SkipPreUpgrade};
use vstd::prelude::*;
use vstd::std_specs::convert::FromSpecImpl;

verus! {

/// `ic_cdk`'s flag that an upgrade skips the pre-upgrade step.
#[verifier::external_type_specification]
pub struct ExSkipPreUpgrade(SkipPreUpgrade);

/// `ic_cdk`'s install mode: install, reinstall, or upgrade with an optional
/// flag.
#[verifier::external_type_specification]
pub struct ExHostInstallMode(HostInstallMode);

impl From<CanisterInstallMode> for HostInstallMode {
    fn from(mode: CanisterInstallMode) -> (host: HostInstallMode) {
        match mode {
            CanisterInstallMode::Install(_) => HostInstallMode::Install,
            CanisterInstallMode::Reinstall(_) => HostInstallMode::Reinstall,
            CanisterInstallMode::Upgrade(_) => HostInstallMode::Upgrade(None),
        }
    }
}

impl FromSpecImpl<CanisterInstallMode> for HostInstallMode {
    open spec fn obeys_from_spec() -> bool {
        true
    }

    /// Install and reinstall map to themselves; an upgrade asks for no flag.
    open spec fn from_spec(mode: CanisterInstallMode) -> HostInstallMode {
        match mode {
            CanisterInstallMode::Install(_) => HostInstallMode::Install,
            CanisterInstallMode::Reinstall(_) => HostInstallMode::Reinstall,
            CanisterInstallMode::Upgrade(_) => HostInstallMode::Upgrade(None),
        }
    }
}

} // verus!
