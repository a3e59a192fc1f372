//! Program-wide control state: the admin, the emergency pause flag, and the
//! authority registries consulted by resets and freezes.
//!
//! The pause flag is consulted before any other check of an authorization
//! attempt; while it is set, every transaction is rejected regardless of
//! card-level state. Authority checks are pure functions over the actor and
//! the registered sets.

use vstd::prelude::*;

use crate::errors::HookError;
use crate::lists::contains_merchant;
use crate::velocity::VelocityLimits;

verus! {

/// The singleton program configuration.
#[derive(Clone, Debug)]
pub struct GlobalConfig {
    /// Program admin.
    pub admin: [u8; 32],
    /// Whether the entire program is paused.
    pub is_paused: bool,
    /// Authorities allowed to reset velocity counters (cron services).
    pub reset_authorities: Vec<[u8; 32]>,
    /// Authorities allowed to freeze and unfreeze cards (fraud services).
    pub fraud_authorities: Vec<[u8; 32]>,
    /// Default velocity limits for new cards.
    pub default_velocity_limits: VelocityLimits,
    /// Aggregate statistics, maintained best-effort for observability only;
    /// never authorization-relevant.
    pub total_cards: u64,
    pub total_transactions: u64,
    pub total_volume: u64,
    /// Advisory timestamps.
    pub created_at: i64,
    pub updated_at: i64,
}

/// Mathematical model of a `GlobalConfig`.
pub ghost struct GlobalConfigView {
    pub admin: [u8; 32],
    pub is_paused: bool,
    pub reset_authorities: Seq<[u8; 32]>,
    pub fraud_authorities: Seq<[u8; 32]>,
    pub default_velocity_limits: VelocityLimits,
    pub total_cards: u64,
    pub total_transactions: u64,
    pub total_volume: u64,
    pub created_at: i64,
    pub updated_at: i64,
}

impl View for GlobalConfig {
    type V = GlobalConfigView;

    open spec fn view(&self) -> GlobalConfigView {
        GlobalConfigView {
            admin: self.admin,
            is_paused: self.is_paused,
            reset_authorities: self.reset_authorities@,
            fraud_authorities: self.fraud_authorities@,
            default_velocity_limits: self.default_velocity_limits,
            total_cards: self.total_cards,
            total_transactions: self.total_transactions,
            total_volume: self.total_volume,
            created_at: self.created_at,
            updated_at: self.updated_at,
        }
    }
}

/// Whether `authority` may reset velocity counters: the admin or a
/// registered reset authority.
pub open spec fn spec_is_reset_authority(g: GlobalConfigView, authority: [u8; 32]) -> bool {
    g.admin == authority || g.reset_authorities.contains(authority)
}

/// Whether `authority` may freeze and unfreeze cards: the admin or a
/// registered fraud authority.
pub open spec fn spec_is_fraud_authority(g: GlobalConfigView, authority: [u8; 32]) -> bool {
    g.admin == authority || g.fraud_authorities.contains(authority)
}

impl GlobalConfig {
    /// Whether `authority` may reset velocity counters.
    pub fn is_authorized_reset_authority(&self, authority: [u8; 32]) -> (r: bool)
        ensures
            r == spec_is_reset_authority(self@, authority),
    {
        crate::lists::bytes32_eq(&self.admin, &authority) || contains_merchant(
            &self.reset_authorities,
            &authority,
        )
    }

    /// Whether `authority` may freeze and unfreeze cards.
    pub fn is_authorized_fraud_authority(&self, authority: [u8; 32]) -> (r: bool)
        ensures
            r == spec_is_fraud_authority(self@, authority),
    {
        crate::lists::bytes32_eq(&self.admin, &authority) || contains_merchant(
            &self.fraud_authorities,
            &authority,
        )
    }
}

/// Pause the whole program: admin only. While paused, every authorization
/// attempt is rejected before any other check.
pub fn global_pause(config: &mut GlobalConfig, actor: [u8; 32], now_ts: i64) -> (r: Result<
    (),
    HookError,
>)
    ensures
        match r {
            Ok(()) => old(config)@.admin == actor && final(config)@ == (GlobalConfigView {
                is_paused: true,
                updated_at: now_ts,
                ..old(config)@
            }),
            Err(e) => old(config)@.admin != actor && e == HookError::Unauthorized && *final(config)
                == *old(config),
        },
{
    if !crate::lists::bytes32_eq(&config.admin, &actor) {
        return Err(HookError::Unauthorized);
    }
    config.is_paused = true;
    config.updated_at = now_ts;
    Ok(())
}

/// Resume from a global pause: admin only.
pub fn global_resume(config: &mut GlobalConfig, actor: [u8; 32], now_ts: i64) -> (r: Result<
    (),
    HookError,
>)
    ensures
        match r {
            Ok(()) => old(config)@.admin == actor && final(config)@ == (GlobalConfigView {
                is_paused: false,
                updated_at: now_ts,
                ..old(config)@
            }),
            Err(e) => old(config)@.admin != actor && e == HookError::Unauthorized && *final(config)
                == *old(config),
        },
{
    if !crate::lists::bytes32_eq(&config.admin, &actor) {
        return Err(HookError::Unauthorized);
    }
    config.is_paused = false;
    config.updated_at = now_ts;
    Ok(())
}

} // verus!
