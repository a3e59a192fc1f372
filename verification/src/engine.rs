//! The authorization engine: entry points that compose global control,
//! card lifecycle, lists and velocity counters into a single allow/deny
//! decision, plus the emergency controls.
//!
//! Check order for every authorization attempt: global pause first, then
//! card status, explicit freeze, merchant lists, MCC lists, and last the
//! velocity limits — the first failing check names the error. The lazy
//! window reset runs before the limit check; beyond it, a denial mutates
//! nothing. On approval, recording the transaction is committed together
//! with the decision by the host as one atomic unit.

use vstd::prelude::*;

use crate::card::{
    spec_mcc_checks, spec_merchant_checks, spec_transaction_allowed, CardConfig, CardConfigView,
    CardStatus, FreezeInfo, FreezeReason,
};
use crate::errors::HookError;
use crate::global::{spec_is_fraud_authority, spec_is_reset_authority, GlobalConfig,
    GlobalConfigView};
use crate::lists::bytes32_eq;
use crate::velocity::{
    spec_auto_reset, spec_record, spec_reset_daily, spec_reset_monthly, spec_reset_weekly,
};

verus! {

/// The card as the engine sees it at decision time: the lazy window reset
/// has run; nothing else has changed.
pub open spec fn spec_after_reset(v: CardConfigView, now_slot: u64) -> CardConfigView {
    CardConfigView { velocity_counters: spec_auto_reset(v.velocity_counters, now_slot), ..v }
}

/// The engine's decision for one transaction: the global pause rejects
/// everything before any card-level check; otherwise the card decides after
/// its lazy window reset.
pub open spec fn spec_authorize(
    g: GlobalConfigView,
    v: CardConfigView,
    amount: u64,
    merchant_id: Option<[u8; 32]>,
    mcc_code: Option<u16>,
    now_slot: u64,
) -> Result<(), HookError> {
    if g.is_paused {
        Err(HookError::GloballyPaused)
    } else {
        spec_transaction_allowed(spec_after_reset(v, now_slot), amount, merchant_id, mcc_code)
    }
}

/// Validate one transfer. The only mutation is the lazy window reset; in
/// particular a denial never touches the totals. Recording an approved
/// transfer is the caller's follow-up (see [`authorize_and_record`]), which
/// the host commits atomically with the decision.
pub fn transfer_hook(
    global: &GlobalConfig,
    card: &mut CardConfig,
    amount: u64,
    merchant_id: Option<[u8; 32]>,
    mcc_code: Option<u16>,
    now_slot: u64,
) -> (r: Result<(), HookError>)
    ensures
        r == spec_authorize(global@, old(card)@, amount, merchant_id, mcc_code, now_slot),
        final(card)@ == if global@.is_paused {
            old(card)@
        } else {
            spec_after_reset(old(card)@, now_slot)
        },
{
    if global.is_paused {
        return Err(HookError::GloballyPaused);
    }
    card.velocity_counters.auto_reset_if_needed(now_slot);
    card.is_transaction_allowed(amount, merchant_id, mcc_code)
}

/// Validate a transaction without any side effect at all: no pause
/// consultation, no lazy reset — the bare card-level decision.
pub fn validate_transaction(
    card_config: &CardConfig,
    amount: u64,
    merchant_id: Option<[u8; 32]>,
    mcc_code: Option<u16>,
) -> (r: Result<(), HookError>)
    ensures
        r == spec_transaction_allowed(card_config@, amount, merchant_id, mcc_code),
{
    card_config.is_transaction_allowed(amount, merchant_id, mcc_code)
}

/// Authorize one transfer and, on approval, record it: totals and counts
/// accumulate and the transaction timestamp is set. On denial the card is
/// left exactly as the decision found it — only the lazy reset has run.
pub fn authorize_and_record(
    global: &GlobalConfig,
    card: &mut CardConfig,
    amount: u64,
    merchant_id: Option<[u8; 32]>,
    mcc_code: Option<u16>,
    now_slot: u64,
    now_ts: i64,
) -> (r: Result<(), HookError>)
    ensures
        r == spec_authorize(global@, old(card)@, amount, merchant_id, mcc_code, now_slot),
        match r {
            Ok(()) => final(card)@ == (CardConfigView {
                velocity_counters: spec_record(
                    spec_auto_reset(old(card)@.velocity_counters, now_slot),
                    amount,
                ),
                last_transaction_at: Some(now_ts),
                updated_at: now_ts,
                ..old(card)@
            }),
            Err(_) => final(card)@ == if global@.is_paused {
                old(card)@
            } else {
                spec_after_reset(old(card)@, now_slot)
            },
        },
{
    match transfer_hook(global, card, amount, merchant_id, mcc_code, now_slot) {
        Err(e) => Err(e),
        Ok(()) => {
            card.velocity_counters.record_transaction(amount);
            card.last_transaction_at = Some(now_ts);
            card.updated_at = now_ts;
            Ok(())
        },
    }
}

/// Record a transaction on a card without re-checking limits, for a caller
/// that has already authorized it: run the lazy reset, then accumulate the
/// amount into every window and stamp the timestamps.
pub fn record_transaction(
    card: &mut CardConfig,
    amount: u64,
    _merchant_id: Option<[u8; 32]>,
    _mcc_code: Option<u16>,
    now_slot: u64,
    now_ts: i64,
)
    ensures
        final(card)@ == (CardConfigView {
            velocity_counters: spec_record(
                spec_auto_reset(old(card)@.velocity_counters, now_slot),
                amount,
            ),
            last_transaction_at: Some(now_ts),
            updated_at: now_ts,
            ..old(card)@
        }),
{
    card.velocity_counters.auto_reset_if_needed(now_slot);
    card.velocity_counters.record_transaction(amount);
    card.last_transaction_at = Some(now_ts);
    card.updated_at = now_ts;
}

/// Reset the card's daily window: admin or a registered reset authority.
pub fn reset_daily_velocity(
    global: &GlobalConfig,
    card: &mut CardConfig,
    actor: [u8; 32],
    now_slot: u64,
    now_ts: i64,
) -> (r: Result<(), HookError>)
    ensures
        match r {
            Ok(()) => spec_is_reset_authority(global@, actor) && final(card)@ == (CardConfigView {
                velocity_counters: spec_reset_daily(old(card)@.velocity_counters, now_slot),
                updated_at: now_ts,
                ..old(card)@
            }),
            Err(e) => !spec_is_reset_authority(global@, actor) && e == HookError::Unauthorized
                && *final(card) == *old(card),
        },
{
    if !global.is_authorized_reset_authority(actor) {
        return Err(HookError::Unauthorized);
    }
    card.velocity_counters.reset_daily(now_slot);
    card.updated_at = now_ts;
    Ok(())
}

/// Reset the card's weekly window: admin or a registered reset authority.
pub fn reset_weekly_velocity(
    global: &GlobalConfig,
    card: &mut CardConfig,
    actor: [u8; 32],
    now_slot: u64,
    now_ts: i64,
) -> (r: Result<(), HookError>)
    ensures
        match r {
            Ok(()) => spec_is_reset_authority(global@, actor) && final(card)@ == (CardConfigView {
                velocity_counters: spec_reset_weekly(old(card)@.velocity_counters, now_slot),
                updated_at: now_ts,
                ..old(card)@
            }),
            Err(e) => !spec_is_reset_authority(global@, actor) && e == HookError::Unauthorized
                && *final(card) == *old(card),
        },
{
    if !global.is_authorized_reset_authority(actor) {
        return Err(HookError::Unauthorized);
    }
    card.velocity_counters.reset_weekly(now_slot);
    card.updated_at = now_ts;
    Ok(())
}

/// Reset the card's monthly window: admin or a registered reset authority.
pub fn reset_monthly_velocity(
    global: &GlobalConfig,
    card: &mut CardConfig,
    actor: [u8; 32],
    now_slot: u64,
    now_ts: i64,
) -> (r: Result<(), HookError>)
    ensures
        match r {
            Ok(()) => spec_is_reset_authority(global@, actor) && final(card)@ == (CardConfigView {
                velocity_counters: spec_reset_monthly(old(card)@.velocity_counters, now_slot),
                updated_at: now_ts,
                ..old(card)@
            }),
            Err(e) => !spec_is_reset_authority(global@, actor) && e == HookError::Unauthorized
                && *final(card) == *old(card),
        },
{
    if !global.is_authorized_reset_authority(actor) {
        return Err(HookError::Unauthorized);
    }
    card.velocity_counters.reset_monthly(now_slot);
    card.updated_at = now_ts;
    Ok(())
}

// ============================================================================
// Emergency controls
// ============================================================================

/// Whether `actor` may freeze or unfreeze this card: its owner or a
/// registered fraud authority.
pub open spec fn spec_can_emergency_control(
    g: GlobalConfigView,
    v: CardConfigView,
    actor: [u8; 32],
) -> bool {
    v.owner_did_hash == actor || spec_is_fraud_authority(g, actor)
}

/// The card after a freeze by `actor` for `reason` at `now_ts`: status
/// `Frozen` and a freeze record with no automatic expiry.
pub open spec fn spec_frozen_card(
    v: CardConfigView,
    actor: [u8; 32],
    reason: FreezeReason,
    now_ts: i64,
) -> CardConfigView {
    CardConfigView {
        status: CardStatus::Frozen,
        freeze_info: Some(
            FreezeInfo { reason, frozen_by: actor, frozen_at: now_ts, expires_at: None },
        ),
        updated_at: now_ts,
        ..v
    }
}

/// The card after an unfreeze at `now_ts`: a frozen card becomes active
/// with the freeze record cleared; an unfrozen card is left exactly as it
/// was — the no-op touches nothing, not even `updated_at`.
pub open spec fn spec_unfrozen_card(v: CardConfigView, now_ts: i64) -> CardConfigView {
    if v.freeze_info is Some {
        CardConfigView { status: CardStatus::Active, freeze_info: None, updated_at: now_ts, ..v }
    } else {
        v
    }
}

/// Freeze a card: permitted to the card's owner or a registered fraud
/// authority. Sets the status and the freeze record together.
pub fn emergency_freeze(
    global: &GlobalConfig,
    card: &mut CardConfig,
    actor: [u8; 32],
    reason: FreezeReason,
    now_ts: i64,
) -> (r: Result<(), HookError>)
    ensures
        match r {
            Ok(()) => spec_can_emergency_control(global@, old(card)@, actor) && final(card)@
                == spec_frozen_card(old(card)@, actor, reason, now_ts),
            Err(e) => !spec_can_emergency_control(global@, old(card)@, actor) && e
                == HookError::Unauthorized && *final(card) == *old(card),
        },
{
    let is_owner = bytes32_eq(&card.owner_did_hash, &actor);
    let is_fraud_authority = global.is_authorized_fraud_authority(actor);
    if !is_owner && !is_fraud_authority {
        return Err(HookError::Unauthorized);
    }
    card.freeze_info = Some(
        FreezeInfo { reason, frozen_by: actor, frozen_at: now_ts, expires_at: None },
    );
    card.status = CardStatus::Frozen;
    card.updated_at = now_ts;
    Ok(())
}

/// Unfreeze a card: permitted to the card's owner or a registered fraud
/// authority. Unfreezing a card that is not frozen succeeds as a no-op and
/// alters nothing. The freeze reason's review annotations are advisory and
/// deliberately not enforced as a second gate here; any caller passing the
/// authority test may unfreeze.
pub fn unfreeze(
    global: &GlobalConfig,
    card: &mut CardConfig,
    actor: [u8; 32],
    now_ts: i64,
) -> (r: Result<(), HookError>)
    ensures
        match r {
            Ok(()) => spec_can_emergency_control(global@, old(card)@, actor) && final(card)@
                == spec_unfrozen_card(old(card)@, now_ts),
            Err(e) => !spec_can_emergency_control(global@, old(card)@, actor) && e
                == HookError::Unauthorized && *final(card) == *old(card),
        },
{
    let is_owner = bytes32_eq(&card.owner_did_hash, &actor);
    let is_fraud_authority = global.is_authorized_fraud_authority(actor);
    if !is_owner && !is_fraud_authority {
        return Err(HookError::Unauthorized);
    }
    if card.freeze_info.is_none() {
        return Ok(());
    }
    card.freeze_info = None;
    card.status = CardStatus::Active;
    card.updated_at = now_ts;
    Ok(())
}

// ============================================================================
// Laws
// ============================================================================

/// Law: an amount above the per-transaction ceiling is always denied,
/// whatever the rest of the state holds; and whenever the attempt survives
/// the earlier gates (not paused, card active and unfrozen, lists content),
/// the reason is precisely `TransactionLimitExceeded`. On inputs stopped by
/// an earlier gate the denial carries that gate's reason instead.
pub proof fn lemma_per_transaction_exceeded_denied(
    g: GlobalConfigView,
    v: CardConfigView,
    amount: u64,
    merchant_id: Option<[u8; 32]>,
    mcc_code: Option<u16>,
    now_slot: u64,
)
    requires
        amount > v.velocity_limits.per_transaction,
    ensures
        spec_authorize(g, v, amount, merchant_id, mcc_code, now_slot) is Err,
        (!g.is_paused && v.status == CardStatus::Active && v.freeze_info is None
            && spec_merchant_checks(v, merchant_id) is Ok && spec_mcc_checks(v, mcc_code) is Ok)
            ==> spec_authorize(g, v, amount, merchant_id, mcc_code, now_slot) == Err::<
            (),
            HookError,
        >(HookError::TransactionLimitExceeded),
{
}

/// Law: a merchant on the blocklist is always denied, and when the attempt
/// survives the earlier gates the reason is precisely `MerchantBlocked` —
/// even for a merchant that is also on the whitelist, because the blocklist
/// is consulted unconditionally after the whitelist.
pub proof fn lemma_blocklist_overrides_whitelist(
    g: GlobalConfigView,
    v: CardConfigView,
    amount: u64,
    m: [u8; 32],
    mcc_code: Option<u16>,
    now_slot: u64,
)
    requires
        v.merchant_blocklist.contains(m),
    ensures
        spec_authorize(g, v, amount, Some(m), mcc_code, now_slot) is Err,
        (!g.is_paused && v.status == CardStatus::Active && v.freeze_info is None
            && v.merchant_whitelist.contains(m)) ==> spec_authorize(
            g,
            v,
            amount,
            Some(m),
            mcc_code,
            now_slot,
        ) == Err::<(), HookError>(HookError::MerchantBlocked),
{
}

/// Law: while the program is paused, every transaction is denied with
/// `GloballyPaused`, whatever the card's own state.
pub proof fn lemma_global_pause_denies_all(
    g: GlobalConfigView,
    v: CardConfigView,
    amount: u64,
    merchant_id: Option<[u8; 32]>,
    mcc_code: Option<u16>,
    now_slot: u64,
)
    requires
        g.is_paused,
    ensures
        spec_authorize(g, v, amount, merchant_id, mcc_code, now_slot) == Err::<(), HookError>(
            HookError::GloballyPaused,
        ),
{
}

/// Law: resuming restores prior behaviour — the decision of an unpaused
/// program does not depend on the global configuration at all, so after a
/// pause and a resume every attempt decides exactly as it would have
/// before.
pub proof fn lemma_resume_restores_decision(
    g1: GlobalConfigView,
    g2: GlobalConfigView,
    v: CardConfigView,
    amount: u64,
    merchant_id: Option<[u8; 32]>,
    mcc_code: Option<u16>,
    now_slot: u64,
)
    requires
        !g1.is_paused,
        !g2.is_paused,
    ensures
        spec_authorize(g1, v, amount, merchant_id, mcc_code, now_slot) == spec_authorize(
            g2,
            v,
            amount,
            merchant_id,
            mcc_code,
            now_slot,
        ),
{
}

/// Law: recording an authorized transaction keeps every total within its
/// ceiling — the totals grow by exactly the amount, without saturation, and
/// stay at or below the daily, weekly and monthly limits. A record in a
/// just-authorized state therefore maintains the counter invariant; only an
/// administrative limit decrease can leave a total above its ceiling, and
/// the next authorization attempt re-enforces the new limit.
pub proof fn lemma_authorized_record_respects_limits(
    g: GlobalConfigView,
    v: CardConfigView,
    amount: u64,
    merchant_id: Option<[u8; 32]>,
    mcc_code: Option<u16>,
    now_slot: u64,
)
    requires
        spec_authorize(g, v, amount, merchant_id, mcc_code, now_slot) == Ok::<(), HookError>(()),
    ensures
        ({
            let reset = spec_auto_reset(v.velocity_counters, now_slot);
            let recorded = spec_record(reset, amount);
            &&& recorded.daily_total == reset.daily_total + amount
            &&& recorded.weekly_total == reset.weekly_total + amount
            &&& recorded.monthly_total == reset.monthly_total + amount
            &&& recorded.daily_total <= v.velocity_limits.daily
            &&& recorded.weekly_total <= v.velocity_limits.weekly
            &&& recorded.monthly_total <= v.velocity_limits.monthly
            &&& amount <= v.velocity_limits.per_transaction
        }),
{
}

/// Law: freezing and then unfreezing restores an active card with no
/// freeze record; and unfreezing a card that is not frozen is the
/// identity — it does not alter `updated_at` or anything else.
pub proof fn lemma_freeze_unfreeze_roundtrip(
    v: CardConfigView,
    actor: [u8; 32],
    reason: FreezeReason,
    t1: i64,
    t2: i64,
)
    ensures
        spec_unfrozen_card(spec_frozen_card(v, actor, reason, t1), t2).status
            == CardStatus::Active,
        spec_unfrozen_card(spec_frozen_card(v, actor, reason, t1), t2).freeze_info is None,
        v.freeze_info is None ==> spec_unfrozen_card(v, t2) == v,
{
}

} // verus!
