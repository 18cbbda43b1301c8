//! Emergency mode: who may switch it, and what it does to the quorum.

use vstd::prelude::*;
use crate::errors::GovernanceConfigError;
use crate::identity::Pubkey;
use crate::parameter_store::{EmergencyModeToggled, EmergencySettings, GovernanceConfig};

verus! {

impl GovernanceConfig {
    /// Whether the emergency override is on.
    pub open spec fn emergency_active(&self) -> bool {
        self.emergency_settings.emergency_override_enabled
    }

    /// The quorum that counts: `base_quorum`, and under the emergency
    /// override `base_quorum` less the emergency reduction, but never less
    /// than zero.
    pub open spec fn effective_quorum(&self, base_quorum: u16) -> int {
        if !self.emergency_active() {
            base_quorum as int
        } else if base_quorum >= self.emergency_settings.emergency_quorum_reduction {
            base_quorum - self.emergency_settings.emergency_quorum_reduction
        } else {
            0
        }
    }

    /// Tells whether the emergency override is on.
    pub fn is_emergency_active(&self) -> (r: bool)
        ensures
            r == self.emergency_active(),
    {
        self.emergency_settings.emergency_override_enabled
    }

    /// Gives the quorum that counts for a vote whose quorum would be
    /// `base_quorum` in calm times.
    pub fn get_effective_quorum(&self, base_quorum: u16) -> (r: u16)
        ensures
            r == self.effective_quorum(base_quorum),
    {
        if self.is_emergency_active() {
            base_quorum.saturating_sub(self.emergency_settings.emergency_quorum_reduction)
        } else {
            base_quorum
        }
    }
}

/// Whether `caller` may switch emergency mode: the administrator may, and so
/// may the emergency actor.
pub open spec fn may_toggle_emergency(config: GovernanceConfig, caller: Pubkey) -> bool {
    config.authority == caller || config.emergency_settings.emergency_multisig == caller
}

/// Switches emergency mode on or off. No bound applies.
pub fn toggle_emergency_mode(
    config: &mut GovernanceConfig,
    caller: &Pubkey,
    enabled: bool,
    now: i64,
) -> (r: Result<EmergencyModeToggled, GovernanceConfigError>)
    ensures
        old(config).well_formed() ==> final(config).well_formed(),
        match r {
            Ok(event) => {
                &&& may_toggle_emergency(*old(config), *caller)
                &&& *final(config) == (GovernanceConfig {
                    emergency_settings: EmergencySettings {
                        emergency_override_enabled: enabled,
                        ..old(config).emergency_settings
                    },
                    last_updated: now,
                    ..*old(config)
                })
                &&& event == (EmergencyModeToggled { enabled, triggered_by: *caller, timestamp: now })
            },
            Err(e) => {
                &&& e == GovernanceConfigError::EmergencyNotAuthorized
                &&& !may_toggle_emergency(*old(config), *caller)
                &&& *final(config) == *old(config)
            },
        },
{
    if !(config.authority == *caller || config.emergency_settings.emergency_multisig == *caller) {
        return Err(GovernanceConfigError::EmergencyNotAuthorized);
    }
    config.emergency_settings.emergency_override_enabled = enabled;
    config.last_updated = now;
    Ok(EmergencyModeToggled { enabled, triggered_by: *caller, timestamp: now })
}

/// Emergency mode never raises the quorum and never takes it below zero.
pub proof fn lemma_effective_quorum_bounds(config: GovernanceConfig, base_quorum: u16)
    ensures
        0 <= config.effective_quorum(base_quorum) <= base_quorum,
        !config.emergency_active() ==> config.effective_quorum(base_quorum) == base_quorum,
{
}

} // verus!
