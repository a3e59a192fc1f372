use discard_core::card::{initialize_card_config, CardConfig, CardStatus, FreezeReason};
use discard_core::clock::SLOTS_PER_DAY;
use discard_core::engine::{
    authorize_and_record, emergency_freeze, record_transaction, reset_daily_velocity,
    reset_monthly_velocity, reset_weekly_velocity, transfer_hook, unfreeze, validate_transaction,
};
use discard_core::errors::HookError;
use discard_core::global::{global_pause, global_resume, GlobalConfig};
use discard_core::velocity::{VelocityCounters, VelocityLimits};

const ADMIN: [u8; 32] = [9; 32];
const OWNER: [u8; 32] = [2; 32];
const FRAUD_SVC: [u8; 32] = [7; 32];
const CRON: [u8; 32] = [8; 32];

fn engine_global() -> GlobalConfig {
    GlobalConfig {
        admin: ADMIN,
        is_paused: false,
        reset_authorities: vec![CRON],
        fraud_authorities: vec![FRAUD_SVC],
        default_velocity_limits: VelocityLimits {
            per_transaction: 100,
            daily: 100,
            weekly: 100,
            monthly: 100,
            max_daily_transactions: 1,
            max_weekly_transactions: 1,
            max_monthly_transactions: 1,
        },
        total_cards: 0,
        total_transactions: 0,
        total_volume: 0,
        created_at: 0,
        updated_at: 0,
    }
}

fn engine_card(daily_limit: u64) -> CardConfig {
    let mut card = initialize_card_config([1; 32], OWNER, 100, 1_000);
    card.velocity_limits = VelocityLimits {
        per_transaction: 1_000,
        daily: daily_limit,
        weekly: 1_000_000,
        monthly: 1_000_000,
        max_daily_transactions: 100,
        max_weekly_transactions: 100,
        max_monthly_transactions: 100,
    };
    card
}

#[test]
fn two_transactions_against_the_daily_limit() {
    let g = engine_global();
    let mut card = engine_card(1_000);
    let first = authorize_and_record(&g, &mut card, 600, None, None, 100, 2_000);
    assert_eq!(first, Ok(()));
    assert_eq!(card.velocity_counters.daily_total, 600);
    assert_eq!(card.last_transaction_at, Some(2_000));
    let second = authorize_and_record(&g, &mut card, 500, None, None, 101, 2_001);
    assert_eq!(second, Err(HookError::DailyLimitExceeded));
    assert_eq!(card.velocity_counters.daily_total, 600);
    assert_eq!(card.velocity_counters.daily_transaction_count, 1);
    assert_eq!(card.last_transaction_at, Some(2_000));
}

#[test]
fn mcc_whitelist_denies_other_codes_and_skips_absent_ones() {
    let g = engine_global();
    let mut card = engine_card(1_000_000);
    card.add_mcc_codes_to_whitelist(&vec![5411], 2_000).unwrap();
    let denied = transfer_hook(&g, &mut card, 10, None, Some(5812), 100);
    assert_eq!(denied, Err(HookError::MccNotWhitelisted));
    let skipped = transfer_hook(&g, &mut card, 10, None, None, 100);
    assert_eq!(skipped, Ok(()));
    let listed = transfer_hook(&g, &mut card, 10, None, Some(5411), 100);
    assert_eq!(listed, Ok(()));
}

#[test]
fn amount_over_per_transaction_ceiling_is_denied() {
    let g = engine_global();
    let mut card = engine_card(1_000_000);
    card.velocity_counters.daily_total = 0;
    let r = transfer_hook(&g, &mut card, 1_001, None, None, 100);
    assert_eq!(r, Err(HookError::TransactionLimitExceeded));
    assert_eq!(card.velocity_counters.daily_total, 0);
}

#[test]
fn merchant_on_both_lists_is_denied_by_the_blocklist() {
    let g = engine_global();
    let mut card = engine_card(1_000_000);
    let m: [u8; 32] = [5; 32];
    card.add_merchants_to_whitelist(&vec![m], 2_000).unwrap();
    card.add_merchants_to_blocklist(&vec![m], 2_000).unwrap();
    let r = transfer_hook(&g, &mut card, 10, Some(m), None, 100);
    assert_eq!(r, Err(HookError::MerchantBlocked));
}

#[test]
fn merchant_whitelist_denies_unknown_merchant() {
    let g = engine_global();
    let mut card = engine_card(1_000_000);
    card.add_merchants_to_whitelist(&vec![[5; 32]], 2_000).unwrap();
    let r = transfer_hook(&g, &mut card, 10, Some([6; 32]), None, 100);
    assert_eq!(r, Err(HookError::MerchantNotWhitelisted));
}

#[test]
fn merchant_blocklist_alone_denies() {
    let g = engine_global();
    let mut card = engine_card(1_000_000);
    card.add_merchants_to_blocklist(&vec![[5; 32]], 2_000).unwrap();
    let r = transfer_hook(&g, &mut card, 10, Some([5; 32]), None, 100);
    assert_eq!(r, Err(HookError::MerchantBlocked));
}

#[test]
fn mcc_blocklist_denies_listed_code() {
    let g = engine_global();
    let mut card = engine_card(1_000_000);
    card.add_mcc_codes_to_blocklist(&vec![7995], 2_000).unwrap();
    let r = transfer_hook(&g, &mut card, 10, None, Some(7995), 100);
    assert_eq!(r, Err(HookError::MccBlocked));
}

#[test]
fn global_pause_denies_a_fully_compliant_card_and_resume_restores() {
    let mut g = engine_global();
    let mut card = engine_card(1_000_000);
    assert_eq!(global_pause(&mut g, ADMIN, 3_000), Ok(()));
    assert!(g.is_paused);
    let r = transfer_hook(&g, &mut card, 10, None, None, 100);
    assert_eq!(r, Err(HookError::GloballyPaused));
    assert_eq!(global_resume(&mut g, ADMIN, 3_001), Ok(()));
    let r2 = transfer_hook(&g, &mut card, 10, None, None, 100);
    assert_eq!(r2, Ok(()));
}

#[test]
fn pause_and_resume_are_admin_only() {
    let mut g = engine_global();
    assert_eq!(global_pause(&mut g, OWNER, 3_000), Err(HookError::Unauthorized));
    assert!(!g.is_paused);
    g.is_paused = true;
    assert_eq!(global_resume(&mut g, OWNER, 3_000), Err(HookError::Unauthorized));
    assert!(g.is_paused);
}

#[test]
fn each_inactive_status_has_its_own_denial() {
    let g = engine_global();
    let mut card = engine_card(1_000_000);
    card.status = CardStatus::Pending;
    assert_eq!(
        validate_transaction(&card, 10, None, None),
        Err(HookError::CardPending)
    );
    card.status = CardStatus::Paused;
    assert_eq!(
        validate_transaction(&card, 10, None, None),
        Err(HookError::CardNotActive)
    );
    card.status = CardStatus::Terminated;
    assert_eq!(
        validate_transaction(&card, 10, None, None),
        Err(HookError::CardTerminated)
    );
    card.status = CardStatus::Frozen;
    assert_eq!(
        validate_transaction(&card, 10, None, None),
        Err(HookError::CardFrozen)
    );
    let _ = g;
}

#[test]
fn freeze_record_denies_even_with_active_status() {
    let g = engine_global();
    let mut card = engine_card(1_000_000);
    assert_eq!(emergency_freeze(&g, &mut card, OWNER, FreezeReason::UserRequest, 5_000), Ok(()));
    card.status = CardStatus::Active; // status out of step with the freeze record
    let r = validate_transaction(&card, 10, None, None);
    assert_eq!(r, Err(HookError::CardFrozen));
}

#[test]
fn freeze_then_unfreeze_restores_an_active_card() {
    let g = engine_global();
    let mut card = engine_card(1_000_000);
    assert_eq!(
        emergency_freeze(&g, &mut card, FRAUD_SVC, FreezeReason::FraudDetected, 5_000),
        Ok(())
    );
    assert_eq!(card.status, CardStatus::Frozen);
    let info = card.freeze_info.expect("freeze record present");
    assert_eq!(info.reason, FreezeReason::FraudDetected);
    assert_eq!(info.frozen_by, FRAUD_SVC);
    assert_eq!(info.frozen_at, 5_000);
    assert_eq!(info.expires_at, None);
    assert_eq!(unfreeze(&g, &mut card, OWNER, 6_000), Ok(()));
    assert_eq!(card.status, CardStatus::Active);
    assert_eq!(card.freeze_info, None);
    assert_eq!(card.updated_at, 6_000);
}

#[test]
fn unfreezing_an_unfrozen_card_is_a_silent_no_op() {
    let g = engine_global();
    let mut card = engine_card(1_000_000);
    let updated_before = card.updated_at;
    assert_eq!(unfreeze(&g, &mut card, OWNER, 9_999), Ok(()));
    assert_eq!(card.status, CardStatus::Active);
    assert_eq!(card.freeze_info, None);
    assert_eq!(card.updated_at, updated_before);
}

#[test]
fn freeze_and_unfreeze_require_owner_or_fraud_authority() {
    let g = engine_global();
    let mut card = engine_card(1_000_000);
    let stranger: [u8; 32] = [77; 32];
    assert_eq!(
        emergency_freeze(&g, &mut card, stranger, FreezeReason::AdminAction, 5_000),
        Err(HookError::Unauthorized)
    );
    assert_eq!(card.status, CardStatus::Active);
    assert_eq!(emergency_freeze(&g, &mut card, OWNER, FreezeReason::UserRequest, 5_000), Ok(()));
    assert_eq!(unfreeze(&g, &mut card, stranger, 6_000), Err(HookError::Unauthorized));
    assert_eq!(card.status, CardStatus::Frozen);
}

#[test]
fn velocity_resets_require_a_reset_authority() {
    let g = engine_global();
    let mut card = engine_card(1_000_000);
    card.velocity_counters.record_transaction(500);
    assert_eq!(
        reset_daily_velocity(&g, &mut card, OWNER, 200, 7_000),
        Err(HookError::Unauthorized)
    );
    assert_eq!(card.velocity_counters.daily_total, 500);
    assert_eq!(reset_daily_velocity(&g, &mut card, CRON, 200, 7_000), Ok(()));
    assert_eq!(card.velocity_counters.daily_total, 0);
    assert_eq!(card.velocity_counters.weekly_total, 500);
    assert_eq!(reset_weekly_velocity(&g, &mut card, ADMIN, 201, 7_001), Ok(()));
    assert_eq!(card.velocity_counters.weekly_total, 0);
    assert_eq!(card.velocity_counters.monthly_total, 500);
    assert_eq!(reset_monthly_velocity(&g, &mut card, CRON, 202, 7_002), Ok(()));
    assert_eq!(card.velocity_counters.monthly_total, 0);
    assert_eq!(card.updated_at, 7_002);
}

#[test]
fn initialize_card_config_defaults() {
    let card = initialize_card_config([3; 32], [4; 32], 42, 1_234);
    assert_eq!(card.card_id, [3; 32]);
    assert_eq!(card.owner_did_hash, [4; 32]);
    assert_eq!(card.status, CardStatus::Active);
    assert!(!card.policy.require_biometric);
    assert_eq!(card.policy.require_2fa_above, None);
    assert!(card.policy.allow_international);
    assert!(card.policy.allow_online);
    assert!(card.policy.allow_atm);
    assert!(card.policy.allow_contactless);
    assert_eq!(card.policy.contactless_limit, 10_000);
    assert!(card.policy.allowed_countries.is_empty());
    assert!(card.policy.blocked_countries.is_empty());
    assert_eq!(card.velocity_limits.per_transaction, 100_000_000);
    assert_eq!(card.velocity_limits.daily, 500_000_000);
    assert_eq!(card.velocity_limits.weekly, 2_000_000_000);
    assert_eq!(card.velocity_limits.monthly, 10_000_000_000);
    assert_eq!(card.velocity_limits.max_daily_transactions, 1_000);
    assert_eq!(
        card.velocity_counters,
        VelocityCounters {
            daily_total: 0,
            weekly_total: 0,
            monthly_total: 0,
            daily_transaction_count: 0,
            weekly_transaction_count: 0,
            monthly_transaction_count: 0,
            last_daily_reset_slot: 42,
            last_weekly_reset_slot: 42,
            last_monthly_reset_slot: 42,
        }
    );
    assert!(!card.merchant_whitelist_enabled);
    assert!(card.merchant_whitelist.is_empty());
    assert!(card.merchant_blocklist.is_empty());
    assert!(!card.mcc_whitelist_enabled);
    assert!(card.mcc_whitelist.is_empty());
    assert!(card.mcc_blocklist.is_empty());
    assert_eq!(card.freeze_info, None);
    assert!(!card.confidential_mode);
    assert_eq!(card.encrypted_daily_total, None);
    assert_eq!(card.created_at, 1_234);
    assert_eq!(card.updated_at, 1_234);
    assert_eq!(card.last_transaction_at, None);
}

#[test]
fn update_limits_and_policy_replace_wholesale() {
    let mut card = engine_card(1_000);
    let new_limits = VelocityLimits {
        per_transaction: 1,
        daily: 2,
        weekly: 3,
        monthly: 4,
        max_daily_transactions: 5,
        max_weekly_transactions: 6,
        max_monthly_transactions: 7,
    };
    card.update_velocity_limits(new_limits, 8_000);
    assert_eq!(card.velocity_limits, new_limits);
    assert_eq!(card.updated_at, 8_000);
    let mut new_policy = card.policy.clone();
    new_policy.allow_atm = false;
    new_policy.contactless_limit = 55;
    card.update_card_policy(new_policy.clone(), 8_001);
    assert!(!card.policy.allow_atm);
    assert_eq!(card.policy.contactless_limit, 55);
    assert_eq!(card.updated_at, 8_001);
}

#[test]
fn record_transaction_accumulates_and_stamps() {
    let mut card = engine_card(1_000_000);
    record_transaction(&mut card, 250, Some([5; 32]), Some(5411), 150, 9_000);
    assert_eq!(card.velocity_counters.daily_total, 250);
    assert_eq!(card.velocity_counters.monthly_transaction_count, 1);
    assert_eq!(card.last_transaction_at, Some(9_000));
    assert_eq!(card.updated_at, 9_000);
}

#[test]
fn lazy_reset_runs_before_the_limit_check() {
    let g = engine_global();
    let mut card = engine_card(1_000);
    card.velocity_counters.daily_total = 1_000; // at the limit
    let denied = transfer_hook(&g, &mut card, 1, None, None, 150);
    assert_eq!(denied, Err(HookError::DailyLimitExceeded));
    // A day later the window has rolled over, so the same request passes.
    let allowed = transfer_hook(&g, &mut card, 1, None, None, SLOTS_PER_DAY + 100);
    assert_eq!(allowed, Ok(()));
    assert_eq!(card.velocity_counters.daily_total, 0);
    assert_eq!(card.velocity_counters.last_daily_reset_slot, SLOTS_PER_DAY + 100);
}

#[test]
fn denial_never_mutates_beyond_the_lazy_reset() {
    let g = engine_global();
    let mut card = engine_card(1_000);
    card.velocity_counters.record_transaction(900);
    let before = card.velocity_counters;
    let r = authorize_and_record(&g, &mut card, 200, None, None, 100, 9_500);
    assert_eq!(r, Err(HookError::DailyLimitExceeded));
    assert_eq!(card.velocity_counters, before);
    assert_eq!(card.last_transaction_at, None);
}
