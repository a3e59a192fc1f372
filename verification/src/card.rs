//! The per-card record and its transaction-admissibility decision.
//!
//! A `CardConfig` holds identity, lifecycle status, policy toggles, velocity
//! limits and counters, bounded merchant/MCC lists, optional freeze state,
//! and the confidential-mode extension. The admissibility decision runs its
//! checks in a fixed order — status, explicit freeze, merchant whitelist,
//! merchant blocklist, MCC whitelist, MCC blocklist, velocity — and the
//! first failing check names the error; callers may rely on the error
//! identifying the first violated rule.

use vstd::prelude::*;

use crate::confidential::Ciphertext;
use crate::errors::HookError;
use crate::lists::{
    add_merchants, add_mccs, contains_mcc, contains_merchant, remove_mccs, remove_merchants,
    spec_add_mccs, spec_add_merchants, spec_retain,
};
use crate::velocity::{spec_check_velocity, VelocityCounters, VelocityLimits};

verus! {

/// Lifecycle status of a card. Only an `Active` card can transact;
/// `Terminated` is terminal.
#[derive(Clone, Copy, PartialEq, Eq, Structural, Debug)]
pub enum CardStatus {
    Pending,
    Active,
    Paused,
    Frozen,
    Terminated,
}

/// Why a card was frozen.
#[derive(Clone, Copy, PartialEq, Eq, Structural, Debug)]
pub enum FreezeReason {
    FraudDetected,
    UserRequest,
    AdminAction,
    VelocityBreach,
    SuspiciousActivity,
    LostOrStolen,
    ComplianceHold,
}

/// Whether lifting a freeze for this reason calls for an administrative
/// review. Advisory: the annotation is not itself enforced as a second gate
/// by the unfreeze path.
pub open spec fn spec_requires_admin_review(r: FreezeReason) -> bool {
    match r {
        FreezeReason::FraudDetected => true,
        FreezeReason::AdminAction => true,
        FreezeReason::ComplianceHold => true,
        _ => false,
    }
}

/// Whether the owner may lift a freeze of this reason without review.
/// Advisory, like `spec_requires_admin_review`.
pub open spec fn spec_user_can_unfreeze(r: FreezeReason) -> bool {
    match r {
        FreezeReason::UserRequest => true,
        FreezeReason::VelocityBreach => true,
        _ => false,
    }
}

impl FreezeReason {
    /// Human-readable label for the reason.
    pub fn description(&self) -> &'static str {
        match self {
            FreezeReason::FraudDetected => "Fraudulent activity detected",
            FreezeReason::UserRequest => "User-requested freeze",
            FreezeReason::AdminAction => "Administrative action",
            FreezeReason::VelocityBreach => "Velocity limit breach detected",
            FreezeReason::SuspiciousActivity => "Suspicious activity patterns",
            FreezeReason::LostOrStolen => "Card reported lost or stolen",
            FreezeReason::ComplianceHold => "Compliance review in progress",
        }
    }

    /// Whether lifting this freeze calls for an administrative review.
    pub fn requires_admin_review(&self) -> (r: bool)
        ensures
            r == spec_requires_admin_review(*self),
    {
        match self {
            FreezeReason::FraudDetected => true,
            FreezeReason::AdminAction => true,
            FreezeReason::ComplianceHold => true,
            _ => false,
        }
    }

    /// Whether the owner may lift this freeze without review.
    pub fn user_can_unfreeze(&self) -> (r: bool)
        ensures
            r == spec_user_can_unfreeze(*self),
    {
        match self {
            FreezeReason::UserRequest => true,
            FreezeReason::VelocityBreach => true,
            _ => false,
        }
    }
}

/// The freeze placed on a card: reason, initiator, time, and an optional
/// advisory expiry. No component lifts a freeze on expiry by itself; a
/// freeze ends only through an explicit unfreeze.
#[derive(Clone, Copy, PartialEq, Eq, Debug)]
pub struct FreezeInfo {
    pub reason: FreezeReason,
    pub frozen_by: [u8; 32],
    pub frozen_at: i64,
    pub expires_at: Option<i64>,
}

/// Policy toggles for a card.
#[derive(Clone, PartialEq, Eq, Debug)]
pub struct CardPolicy {
    pub require_biometric: bool,
    pub require_2fa_above: Option<u64>,
    pub allow_international: bool,
    pub allow_online: bool,
    pub allow_atm: bool,
    pub allow_contactless: bool,
    pub contactless_limit: u64,
    pub allowed_countries: Vec<u16>,
    pub blocked_countries: Vec<u16>,
}

/// Mathematical model of a `CardPolicy`.
pub ghost struct CardPolicyView {
    pub require_biometric: bool,
    pub require_2fa_above: Option<u64>,
    pub allow_international: bool,
    pub allow_online: bool,
    pub allow_atm: bool,
    pub allow_contactless: bool,
    pub contactless_limit: u64,
    pub allowed_countries: Seq<u16>,
    pub blocked_countries: Seq<u16>,
}

impl View for CardPolicy {
    type V = CardPolicyView;

    open spec fn view(&self) -> CardPolicyView {
        CardPolicyView {
            require_biometric: self.require_biometric,
            require_2fa_above: self.require_2fa_above,
            allow_international: self.allow_international,
            allow_online: self.allow_online,
            allow_atm: self.allow_atm,
            allow_contactless: self.allow_contactless,
            contactless_limit: self.contactless_limit,
            allowed_countries: self.allowed_countries@,
            blocked_countries: self.blocked_countries@,
        }
    }
}

/// The per-card record.
#[derive(Clone, Debug)]
pub struct CardConfig {
    /// Card identifier (an opaque 32-byte handle).
    pub card_id: [u8; 32],
    /// Commitment hash binding the card to its owner's identity.
    pub owner_did_hash: [u8; 32],
    /// Lifecycle status.
    pub status: CardStatus,
    /// Policy toggles.
    pub policy: CardPolicy,
    /// Velocity ceilings.
    pub velocity_limits: VelocityLimits,
    /// Rolling velocity counters.
    pub velocity_counters: VelocityCounters,
    /// Merchant whitelist; consulted only while enabled.
    pub merchant_whitelist_enabled: bool,
    pub merchant_whitelist: Vec<[u8; 32]>,
    /// Merchant blocklist; always consulted.
    pub merchant_blocklist: Vec<[u8; 32]>,
    /// MCC whitelist; consulted only while enabled.
    pub mcc_whitelist_enabled: bool,
    pub mcc_whitelist: Vec<u16>,
    /// MCC blocklist; always consulted.
    pub mcc_blocklist: Vec<u16>,
    /// Present exactly while the card is frozen.
    pub freeze_info: Option<FreezeInfo>,
    /// When true, velocity enforcement uses range proofs over encrypted
    /// amounts instead of plaintext checks.
    pub confidential_mode: bool,
    /// Encrypted totals, present once a confidential transfer has been
    /// recorded in the window.
    pub encrypted_daily_total: Option<Ciphertext>,
    pub encrypted_weekly_total: Option<Ciphertext>,
    pub encrypted_monthly_total: Option<Ciphertext>,
    /// Advisory timestamps; never gate a decision.
    pub created_at: i64,
    pub updated_at: i64,
    pub last_transaction_at: Option<i64>,
}

/// Mathematical model of a `CardConfig`.
pub ghost struct CardConfigView {
    pub card_id: [u8; 32],
    pub owner_did_hash: [u8; 32],
    pub status: CardStatus,
    pub policy: CardPolicyView,
    pub velocity_limits: VelocityLimits,
    pub velocity_counters: VelocityCounters,
    pub merchant_whitelist_enabled: bool,
    pub merchant_whitelist: Seq<[u8; 32]>,
    pub merchant_blocklist: Seq<[u8; 32]>,
    pub mcc_whitelist_enabled: bool,
    pub mcc_whitelist: Seq<u16>,
    pub mcc_blocklist: Seq<u16>,
    pub freeze_info: Option<FreezeInfo>,
    pub confidential_mode: bool,
    pub encrypted_daily_total: Option<Ciphertext>,
    pub encrypted_weekly_total: Option<Ciphertext>,
    pub encrypted_monthly_total: Option<Ciphertext>,
    pub created_at: i64,
    pub updated_at: i64,
    pub last_transaction_at: Option<i64>,
}

impl View for CardConfig {
    type V = CardConfigView;

    open spec fn view(&self) -> CardConfigView {
        CardConfigView {
            card_id: self.card_id,
            owner_did_hash: self.owner_did_hash,
            status: self.status,
            policy: self.policy@,
            velocity_limits: self.velocity_limits,
            velocity_counters: self.velocity_counters,
            merchant_whitelist_enabled: self.merchant_whitelist_enabled,
            merchant_whitelist: self.merchant_whitelist@,
            merchant_blocklist: self.merchant_blocklist@,
            mcc_whitelist_enabled: self.mcc_whitelist_enabled,
            mcc_whitelist: self.mcc_whitelist@,
            mcc_blocklist: self.mcc_blocklist@,
            freeze_info: self.freeze_info,
            confidential_mode: self.confidential_mode,
            encrypted_daily_total: self.encrypted_daily_total,
            encrypted_weekly_total: self.encrypted_weekly_total,
            encrypted_monthly_total: self.encrypted_monthly_total,
            created_at: self.created_at,
            updated_at: self.updated_at,
            last_transaction_at: self.last_transaction_at,
        }
    }
}

/// The denial owed to a card that is not `Active` — a distinct reason per
/// status.
pub open spec fn spec_status_check(s: CardStatus) -> Result<(), HookError> {
    match s {
        CardStatus::Active => Ok(()),
        CardStatus::Pending => Err(HookError::CardPending),
        CardStatus::Paused => Err(HookError::CardNotActive),
        CardStatus::Frozen => Err(HookError::CardFrozen),
        CardStatus::Terminated => Err(HookError::CardTerminated),
    }
}

/// The merchant-list decision: with a merchant supplied, the whitelist is
/// consulted while enabled, then the blocklist unconditionally — so a
/// merchant on both lists is denied. With no merchant supplied there is
/// nothing to evaluate and both checks are skipped.
pub open spec fn spec_merchant_checks(
    v: CardConfigView,
    merchant_id: Option<[u8; 32]>,
) -> Result<(), HookError> {
    match merchant_id {
        Some(m) => if v.merchant_whitelist_enabled && !v.merchant_whitelist.contains(m) {
            Err(HookError::MerchantNotWhitelisted)
        } else if v.merchant_blocklist.contains(m) {
            Err(HookError::MerchantBlocked)
        } else {
            Ok(())
        },
        None => Ok(()),
    }
}

/// The MCC decision, symmetric to the merchant decision.
pub open spec fn spec_mcc_checks(v: CardConfigView, mcc_code: Option<u16>) -> Result<
    (),
    HookError,
> {
    match mcc_code {
        Some(c) => if v.mcc_whitelist_enabled && !v.mcc_whitelist.contains(c) {
            Err(HookError::MccNotWhitelisted)
        } else if v.mcc_blocklist.contains(c) {
            Err(HookError::MccBlocked)
        } else {
            Ok(())
        },
        None => Ok(()),
    }
}

/// The full admissibility decision for one transaction, in the fixed order:
/// status, explicit freeze, merchant lists, MCC lists, velocity. The freeze
/// check is kept separate from the status check for defence in depth: a
/// freeze record denies even if the status was not updated alongside it.
pub open spec fn spec_transaction_allowed(
    v: CardConfigView,
    amount: u64,
    merchant_id: Option<[u8; 32]>,
    mcc_code: Option<u16>,
) -> Result<(), HookError> {
    if v.status != CardStatus::Active {
        spec_status_check(v.status)
    } else if v.freeze_info is Some {
        Err(HookError::CardFrozen)
    } else if spec_merchant_checks(v, merchant_id) is Err {
        spec_merchant_checks(v, merchant_id)
    } else if spec_mcc_checks(v, mcc_code) is Err {
        spec_mcc_checks(v, mcc_code)
    } else {
        spec_check_velocity(v.velocity_counters, v.velocity_limits, amount)
    }
}

impl CardConfig {
    /// The velocity decision for `amount` against this card's counters and
    /// limits. Transaction counts are tracked for observability but
    /// deliberately not gated here; the check gates on amounts only, in the
    /// fixed order per-transaction, daily, weekly, monthly.
    pub fn check_velocity_limits(&self, amount: u64) -> (r: Result<(), HookError>)
        ensures
            r == spec_check_velocity(self.velocity_counters, self.velocity_limits, amount),
    {
        if amount > self.velocity_limits.per_transaction {
            return Err(HookError::TransactionLimitExceeded);
        }
        match self.velocity_counters.daily_total.checked_add(amount) {
            None => {
                return Err(HookError::DailyLimitExceeded);
            },
            Some(t) => {
                if t > self.velocity_limits.daily {
                    return Err(HookError::DailyLimitExceeded);
                }
            },
        }
        match self.velocity_counters.weekly_total.checked_add(amount) {
            None => {
                return Err(HookError::WeeklyLimitExceeded);
            },
            Some(t) => {
                if t > self.velocity_limits.weekly {
                    return Err(HookError::WeeklyLimitExceeded);
                }
            },
        }
        match self.velocity_counters.monthly_total.checked_add(amount) {
            None => {
                return Err(HookError::MonthlyLimitExceeded);
            },
            Some(t) => {
                if t > self.velocity_limits.monthly {
                    return Err(HookError::MonthlyLimitExceeded);
                }
            },
        }
        Ok(())
    }

    /// The full admissibility decision for one transaction. Read-only: a
    /// denial has no side effect whatsoever.
    pub fn is_transaction_allowed(
        &self,
        amount: u64,
        merchant_id: Option<[u8; 32]>,
        mcc_code: Option<u16>,
    ) -> (r: Result<(), HookError>)
        ensures
            r == spec_transaction_allowed(self@, amount, merchant_id, mcc_code),
    {
        match self.status {
            CardStatus::Active => {},
            CardStatus::Pending => {
                return Err(HookError::CardPending);
            },
            CardStatus::Paused => {
                return Err(HookError::CardNotActive);
            },
            CardStatus::Frozen => {
                return Err(HookError::CardFrozen);
            },
            CardStatus::Terminated => {
                return Err(HookError::CardTerminated);
            },
        }
        if self.freeze_info.is_some() {
            return Err(HookError::CardFrozen);
        }
        if let Some(m) = merchant_id {
            if self.merchant_whitelist_enabled && !contains_merchant(
                &self.merchant_whitelist,
                &m,
            ) {
                return Err(HookError::MerchantNotWhitelisted);
            }
            if contains_merchant(&self.merchant_blocklist, &m) {
                return Err(HookError::MerchantBlocked);
            }
        }
        if let Some(c) = mcc_code {
            if self.mcc_whitelist_enabled && !contains_mcc(&self.mcc_whitelist, c) {
                return Err(HookError::MccNotWhitelisted);
            }
            if contains_mcc(&self.mcc_blocklist, c) {
                return Err(HookError::MccBlocked);
            }
        }
        self.check_velocity_limits(amount)
    }

    /// Replace the card's policy wholesale.
    pub fn update_card_policy(&mut self, new_policy: CardPolicy, now_ts: i64)
        ensures
            final(self)@ == (CardConfigView { policy: new_policy@, updated_at: now_ts, ..old(
                self,
            )@ }),
    {
        self.policy = new_policy;
        self.updated_at = now_ts;
    }

    /// Replace the card's velocity limits wholesale. Counters already above
    /// a lowered limit are not revisited; the next authorization attempt
    /// re-enforces the new limit.
    pub fn update_velocity_limits(&mut self, limits: VelocityLimits, now_ts: i64)
        ensures
            final(self)@ == (CardConfigView {
                velocity_limits: limits,
                updated_at: now_ts,
                ..old(self)@
            }),
    {
        self.velocity_limits = limits;
        self.updated_at = now_ts;
    }

    /// Add merchants to the whitelist; a duplicate is a no-op even when the
    /// list is full, and a new merchant beyond the capacity fails the whole
    /// operation, leaving the card untouched. A non-empty whitelist is
    /// enabled afterwards.
    pub fn add_merchants_to_whitelist(&mut self, merchants: &Vec<[u8; 32]>, now_ts: i64) -> (r:
        Result<(), HookError>)
        ensures
            match r {
                Ok(()) => {
                    &&& spec_add_merchants(
                        old(self)@.merchant_whitelist,
                        merchants@,
                        HookError::MerchantWhitelistFull,
                    ) == Ok::<_, HookError>(final(self)@.merchant_whitelist)
                    &&& final(self)@ == (CardConfigView {
                        merchant_whitelist: final(self)@.merchant_whitelist,
                        merchant_whitelist_enabled: (old(self)@.merchant_whitelist_enabled
                            || final(self)@.merchant_whitelist.len() > 0),
                        updated_at: now_ts,
                        ..old(self)@
                    })
                },
                Err(e) => *final(self) == *old(self) && spec_add_merchants(
                    old(self)@.merchant_whitelist,
                    merchants@,
                    HookError::MerchantWhitelistFull,
                ) == Err::<Seq<[u8; 32]>, _>(e),
            },
    {
        match add_merchants(
            &mut self.merchant_whitelist,
            merchants,
            HookError::MerchantWhitelistFull,
        ) {
            Err(e) => Err(e),
            Ok(()) => {
                if self.merchant_whitelist.len() > 0 {
                    self.merchant_whitelist_enabled = true;
                }
                self.updated_at = now_ts;
                Ok(())
            },
        }
    }

    /// Remove merchants from the whitelist; an empty whitelist is disabled
    /// afterwards.
    pub fn remove_merchants_from_whitelist(&mut self, merchants: &Vec<[u8; 32]>, now_ts: i64)
        ensures
            final(self)@ == (CardConfigView {
                merchant_whitelist: spec_retain(old(self)@.merchant_whitelist, merchants@),
                merchant_whitelist_enabled: old(self)@.merchant_whitelist_enabled && spec_retain(
                    old(self)@.merchant_whitelist,
                    merchants@,
                ).len() > 0,
                updated_at: now_ts,
                ..old(self)@
            }),
    {
        remove_merchants(&mut self.merchant_whitelist, merchants);
        if self.merchant_whitelist.len() == 0 {
            self.merchant_whitelist_enabled = false;
        }
        self.updated_at = now_ts;
    }

    /// Add merchants to the blocklist; a duplicate is a no-op even when the
    /// list is full, and a new merchant beyond the capacity fails the whole
    /// operation, leaving the card untouched.
    pub fn add_merchants_to_blocklist(&mut self, merchants: &Vec<[u8; 32]>, now_ts: i64) -> (r:
        Result<(), HookError>)
        ensures
            match r {
                Ok(()) => {
                    &&& spec_add_merchants(
                        old(self)@.merchant_blocklist,
                        merchants@,
                        HookError::MerchantBlocklistFull,
                    ) == Ok::<_, HookError>(final(self)@.merchant_blocklist)
                    &&& final(self)@ == (CardConfigView {
                        merchant_blocklist: final(self)@.merchant_blocklist,
                        updated_at: now_ts,
                        ..old(self)@
                    })
                },
                Err(e) => *final(self) == *old(self) && spec_add_merchants(
                    old(self)@.merchant_blocklist,
                    merchants@,
                    HookError::MerchantBlocklistFull,
                ) == Err::<Seq<[u8; 32]>, _>(e),
            },
    {
        match add_merchants(
            &mut self.merchant_blocklist,
            merchants,
            HookError::MerchantBlocklistFull,
        ) {
            Err(e) => Err(e),
            Ok(()) => {
                self.updated_at = now_ts;
                Ok(())
            },
        }
    }

    /// Remove merchants from the blocklist.
    pub fn remove_merchants_from_blocklist(&mut self, merchants: &Vec<[u8; 32]>, now_ts: i64)
        ensures
            final(self)@ == (CardConfigView {
                merchant_blocklist: spec_retain(old(self)@.merchant_blocklist, merchants@),
                updated_at: now_ts,
                ..old(self)@
            }),
    {
        remove_merchants(&mut self.merchant_blocklist, merchants);
        self.updated_at = now_ts;
    }

    /// Add MCC codes to the whitelist; every code must be a four-digit
    /// code, a duplicate is a no-op even when the list is full, and a new
    /// code beyond the capacity fails the whole operation, leaving the card
    /// untouched. A non-empty whitelist is enabled afterwards.
    pub fn add_mcc_codes_to_whitelist(&mut self, mcc_codes: &Vec<u16>, now_ts: i64) -> (r: Result<
        (),
        HookError,
    >)
        ensures
            match r {
                Ok(()) => {
                    &&& spec_add_mccs(
                        old(self)@.mcc_whitelist,
                        mcc_codes@,
                        HookError::MccWhitelistFull,
                    ) == Ok::<_, HookError>(final(self)@.mcc_whitelist)
                    &&& final(self)@ == (CardConfigView {
                        mcc_whitelist: final(self)@.mcc_whitelist,
                        mcc_whitelist_enabled: (old(self)@.mcc_whitelist_enabled
                            || final(self)@.mcc_whitelist.len() > 0),
                        updated_at: now_ts,
                        ..old(self)@
                    })
                },
                Err(e) => *final(self) == *old(self) && spec_add_mccs(
                    old(self)@.mcc_whitelist,
                    mcc_codes@,
                    HookError::MccWhitelistFull,
                ) == Err::<Seq<u16>, _>(e),
            },
    {
        match add_mccs(&mut self.mcc_whitelist, mcc_codes, HookError::MccWhitelistFull) {
            Err(e) => Err(e),
            Ok(()) => {
                if self.mcc_whitelist.len() > 0 {
                    self.mcc_whitelist_enabled = true;
                }
                self.updated_at = now_ts;
                Ok(())
            },
        }
    }

    /// Remove MCC codes from the whitelist; an empty whitelist is disabled
    /// afterwards.
    pub fn remove_mcc_codes_from_whitelist(&mut self, mcc_codes: &Vec<u16>, now_ts: i64)
        ensures
            final(self)@ == (CardConfigView {
                mcc_whitelist: spec_retain(old(self)@.mcc_whitelist, mcc_codes@),
                mcc_whitelist_enabled: old(self)@.mcc_whitelist_enabled && spec_retain(
                    old(self)@.mcc_whitelist,
                    mcc_codes@,
                ).len() > 0,
                updated_at: now_ts,
                ..old(self)@
            }),
    {
        remove_mccs(&mut self.mcc_whitelist, mcc_codes);
        if self.mcc_whitelist.len() == 0 {
            self.mcc_whitelist_enabled = false;
        }
        self.updated_at = now_ts;
    }

    /// Add MCC codes to the blocklist; every code must be a four-digit
    /// code, a duplicate is a no-op even when the list is full, and a new
    /// code beyond the capacity fails the whole operation, leaving the card
    /// untouched.
    pub fn add_mcc_codes_to_blocklist(&mut self, mcc_codes: &Vec<u16>, now_ts: i64) -> (r: Result<
        (),
        HookError,
    >)
        ensures
            match r {
                Ok(()) => {
                    &&& spec_add_mccs(
                        old(self)@.mcc_blocklist,
                        mcc_codes@,
                        HookError::MccBlocklistFull,
                    ) == Ok::<_, HookError>(final(self)@.mcc_blocklist)
                    &&& final(self)@ == (CardConfigView {
                        mcc_blocklist: final(self)@.mcc_blocklist,
                        updated_at: now_ts,
                        ..old(self)@
                    })
                },
                Err(e) => *final(self) == *old(self) && spec_add_mccs(
                    old(self)@.mcc_blocklist,
                    mcc_codes@,
                    HookError::MccBlocklistFull,
                ) == Err::<Seq<u16>, _>(e),
            },
    {
        match add_mccs(&mut self.mcc_blocklist, mcc_codes, HookError::MccBlocklistFull) {
            Err(e) => Err(e),
            Ok(()) => {
                self.updated_at = now_ts;
                Ok(())
            },
        }
    }

    /// Remove MCC codes from the blocklist.
    pub fn remove_mcc_codes_from_blocklist(&mut self, mcc_codes: &Vec<u16>, now_ts: i64)
        ensures
            final(self)@ == (CardConfigView {
                mcc_blocklist: spec_retain(old(self)@.mcc_blocklist, mcc_codes@),
                updated_at: now_ts,
                ..old(self)@
            }),
    {
        remove_mccs(&mut self.mcc_blocklist, mcc_codes);
        self.updated_at = now_ts;
    }
}

/// The policy a fresh card starts with.
pub open spec fn spec_default_policy() -> CardPolicyView {
    CardPolicyView {
        require_biometric: false,
        require_2fa_above: None,
        allow_international: true,
        allow_online: true,
        allow_atm: true,
        allow_contactless: true,
        contactless_limit: 10000,
        allowed_countries: Seq::empty(),
        blocked_countries: Seq::empty(),
    }
}

/// The generous velocity limits a fresh card starts with.
pub open spec fn spec_default_limits() -> VelocityLimits {
    VelocityLimits {
        per_transaction: 100000000,
        daily: 500000000,
        weekly: 2000000000,
        monthly: 10000000000,
        max_daily_transactions: 1000,
        max_weekly_transactions: 5000,
        max_monthly_transactions: 20000,
    }
}

/// Create a fresh, immediately active card record: default policy, generous
/// default limits, zeroed counters whose windows start at the current slot,
/// empty and disabled lists, no freeze, plaintext mode.
pub fn initialize_card_config(
    card_id: [u8; 32],
    owner_did_hash: [u8; 32],
    now_slot: u64,
    now_ts: i64,
) -> (card: CardConfig)
    ensures
        card@ == (CardConfigView {
            card_id: card_id,
            owner_did_hash: owner_did_hash,
            status: CardStatus::Active,
            policy: spec_default_policy(),
            velocity_limits: spec_default_limits(),
            velocity_counters: VelocityCounters {
                daily_total: 0,
                weekly_total: 0,
                monthly_total: 0,
                daily_transaction_count: 0,
                weekly_transaction_count: 0,
                monthly_transaction_count: 0,
                last_daily_reset_slot: now_slot,
                last_weekly_reset_slot: now_slot,
                last_monthly_reset_slot: now_slot,
            },
            merchant_whitelist_enabled: false,
            merchant_whitelist: Seq::empty(),
            merchant_blocklist: Seq::empty(),
            mcc_whitelist_enabled: false,
            mcc_whitelist: Seq::empty(),
            mcc_blocklist: Seq::empty(),
            freeze_info: None,
            confidential_mode: false,
            encrypted_daily_total: None,
            encrypted_weekly_total: None,
            encrypted_monthly_total: None,
            created_at: now_ts,
            updated_at: now_ts,
            last_transaction_at: None,
        }),
{
    let card = CardConfig {
        card_id,
        owner_did_hash,
        status: CardStatus::Active,
        policy: CardPolicy {
            require_biometric: false,
            require_2fa_above: None,
            allow_international: true,
            allow_online: true,
            allow_atm: true,
            allow_contactless: true,
            contactless_limit: 10000,
            allowed_countries: Vec::new(),
            blocked_countries: Vec::new(),
        },
        velocity_limits: VelocityLimits {
            per_transaction: 100000000,
            daily: 500000000,
            weekly: 2000000000,
            monthly: 10000000000,
            max_daily_transactions: 1000,
            max_weekly_transactions: 5000,
            max_monthly_transactions: 20000,
        },
        velocity_counters: VelocityCounters {
            daily_total: 0,
            weekly_total: 0,
            monthly_total: 0,
            daily_transaction_count: 0,
            weekly_transaction_count: 0,
            monthly_transaction_count: 0,
            last_daily_reset_slot: now_slot,
            last_weekly_reset_slot: now_slot,
            last_monthly_reset_slot: now_slot,
        },
        merchant_whitelist_enabled: false,
        merchant_whitelist: Vec::new(),
        merchant_blocklist: Vec::new(),
        mcc_whitelist_enabled: false,
        mcc_whitelist: Vec::new(),
        mcc_blocklist: Vec::new(),
        freeze_info: None,
        confidential_mode: false,
        encrypted_daily_total: None,
        encrypted_weekly_total: None,
        encrypted_monthly_total: None,
        created_at: now_ts,
        updated_at: now_ts,
        last_transaction_at: None,
    };
    assert(card@.merchant_whitelist =~= Seq::<[u8; 32]>::empty());
    assert(card@.merchant_blocklist =~= Seq::<[u8; 32]>::empty());
    assert(card@.mcc_whitelist =~= Seq::<u16>::empty());
    assert(card@.mcc_blocklist =~= Seq::<u16>::empty());
    assert(card@.policy.allowed_countries =~= Seq::<u16>::empty());
    assert(card@.policy.blocked_countries =~= Seq::<u16>::empty());
    card
}

} // verus!
