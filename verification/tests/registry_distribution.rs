use slots::{MIN_HOLDER_BALANCE, PAYOUT_INTERVAL, RESERVED_MINIMUM};
use slots::distribution::distribute_holder_rewards;
use slots::errors::ErrorCode;
use slots::registry::{init_holder_registry, register_as_holder, HolderRegistry};
use slots::treasury::Vault;

fn registry_with(holders: &[u64], now: i64) -> HolderRegistry {
    let mut registry = init_holder_registry(now);
    for &h in holders {
        register_as_holder(&mut registry, h, MIN_HOLDER_BALANCE, now).unwrap();
    }
    registry
}

fn vault_with_pool(pool: u64) -> Vault {
    Vault {
        spin_count: 0,
        generator_state: RESERVED_MINIMUM,
        reward_pool_balance: pool,
        last_payout_time: 0,
    }
}

#[test]
fn register_is_idempotent() {
    let mut registry = init_holder_registry(0);
    register_as_holder(&mut registry, 42, MIN_HOLDER_BALANCE, 7).unwrap();
    assert_eq!(registry.holders, vec![42]);
    assert_eq!(registry.last_updated, 7);

    register_as_holder(&mut registry, 42, MIN_HOLDER_BALANCE, 99).unwrap();
    assert_eq!(registry.holders, vec![42]);
    assert_eq!(registry.last_updated, 7);
}

#[test]
fn register_keeps_insertion_order() {
    let registry = registry_with(&[5, 3, 9], 0);
    assert_eq!(registry.holders, vec![5, 3, 9]);
}

#[test]
fn membership_lookup_matches_the_list() {
    let registry = registry_with(&[5, 3, 9], 0);
    assert!(slots::registry::holders_contain(&registry.holders, 3));
    assert!(!slots::registry::holders_contain(&registry.holders, 4));
    assert!(!slots::registry::holders_contain(&init_holder_registry(0).holders, 5));
}

#[test]
fn register_rejects_underfunded_candidate() {
    let mut registry = init_holder_registry(4);
    let r = register_as_holder(&mut registry, 42, MIN_HOLDER_BALANCE - 1, 7);
    assert_eq!(r, Err(ErrorCode::InsufficientHolderBalance));
    assert!(registry.holders.is_empty());
    assert_eq!(registry.last_updated, 4);
}

#[test]
fn distribute_share_is_floor_of_pool_over_count() {
    // Pool 1000 among 3 holders. The first caller draws floor(1000/3) =
    // 333; each later caller draws a third of whatever pool it finds, so
    // the shares shrink and a remainder stays behind.
    let mut vault = vault_with_pool(1000);
    let registry = registry_with(&[1, 2, 3], 0);
    let mut vault_balance: u64 = 1000;
    let now = PAYOUT_INTERVAL;

    let expected: [(u64, u64); 3] = [(333, 667), (222, 445), (148, 297)];
    for (caller, (expected_share, pool_left)) in [1u64, 2, 3].into_iter().zip(expected) {
        let mut holder_vault_balance: u64 = RESERVED_MINIMUM;
        let share = distribute_holder_rewards(
            &mut vault,
            &registry,
            caller,
            now,
            &mut vault_balance,
            &mut holder_vault_balance,
        )
        .unwrap();
        assert_eq!(share, expected_share);
        assert_eq!(vault.reward_pool_balance, pool_left);
        assert_eq!(holder_vault_balance, RESERVED_MINIMUM + share);
    }
    // The pool never reached zero, so the payout clock did not reset.
    assert_eq!(vault.last_payout_time, 0);
}

#[test]
fn distribute_resets_clock_on_full_drain_then_gates() {
    // A single registered holder drains the whole pool in one call; the
    // clock resets, so a second call inside the interval is too early.
    let mut vault = vault_with_pool(999);
    let registry = registry_with(&[1], 0);
    let mut vault_balance: u64 = 999;
    let now = PAYOUT_INTERVAL + 5;

    let mut holder_vault_balance: u64 = RESERVED_MINIMUM;
    let share = distribute_holder_rewards(
        &mut vault,
        &registry,
        1,
        now,
        &mut vault_balance,
        &mut holder_vault_balance,
    )
    .unwrap();
    assert_eq!(share, 999);
    assert_eq!(vault.reward_pool_balance, 0);
    assert_eq!(vault.last_payout_time, now);

    vault.reward_pool_balance = 600;
    let mut holder_vault_balance: u64 = RESERVED_MINIMUM;
    let r = distribute_holder_rewards(
        &mut vault,
        &registry,
        1,
        now + PAYOUT_INTERVAL - 1,
        &mut vault_balance,
        &mut holder_vault_balance,
    );
    assert_eq!(r, Err(ErrorCode::PayoutTooEarly));
    assert_eq!(vault.reward_pool_balance, 600);
}

#[test]
fn distribute_too_early_before_first_interval() {
    let mut vault = vault_with_pool(1000);
    let registry = registry_with(&[1], 0);
    let mut vault_balance: u64 = 1000;
    let mut holder_vault_balance: u64 = RESERVED_MINIMUM;
    let r = distribute_holder_rewards(
        &mut vault,
        &registry,
        1,
        PAYOUT_INTERVAL - 1,
        &mut vault_balance,
        &mut holder_vault_balance,
    );
    assert_eq!(r, Err(ErrorCode::PayoutTooEarly));
}

#[test]
fn distribute_nothing_to_distribute() {
    let mut vault = vault_with_pool(0);
    let registry = registry_with(&[1], 0);
    let mut vault_balance: u64 = 50;
    let mut holder_vault_balance: u64 = RESERVED_MINIMUM;
    let r = distribute_holder_rewards(
        &mut vault,
        &registry,
        1,
        PAYOUT_INTERVAL,
        &mut vault_balance,
        &mut holder_vault_balance,
    );
    assert_eq!(r, Err(ErrorCode::NoRewardsToDistribute));
}

#[test]
fn distribute_without_holders() {
    let mut vault = vault_with_pool(1000);
    let registry = init_holder_registry(0);
    let mut vault_balance: u64 = 1000;
    let mut holder_vault_balance: u64 = RESERVED_MINIMUM;
    let r = distribute_holder_rewards(
        &mut vault,
        &registry,
        1,
        PAYOUT_INTERVAL,
        &mut vault_balance,
        &mut holder_vault_balance,
    );
    assert_eq!(r, Err(ErrorCode::NoHoldersRegistered));
}

#[test]
fn distribute_to_unregistered_caller() {
    let mut vault = vault_with_pool(1000);
    let registry = registry_with(&[1, 2], 0);
    let mut vault_balance: u64 = 1000;
    let mut holder_vault_balance: u64 = RESERVED_MINIMUM;
    let r = distribute_holder_rewards(
        &mut vault,
        &registry,
        3,
        PAYOUT_INTERVAL,
        &mut vault_balance,
        &mut holder_vault_balance,
    );
    assert_eq!(r, Err(ErrorCode::NotRegisteredHolder));
    assert_eq!(vault.reward_pool_balance, 1000);
    assert_eq!(vault_balance, 1000);
    assert_eq!(holder_vault_balance, RESERVED_MINIMUM);
}

#[test]
fn error_descriptions_name_each_failure() {
    let errors = [
        ErrorCode::InsufficientStakeFunds,
        ErrorCode::InsufficientHolderBalance,
        ErrorCode::NoRewardsToDistribute,
        ErrorCode::NoHoldersRegistered,
        ErrorCode::PayoutTooEarly,
        ErrorCode::NotRegisteredHolder,
    ];
    for e in errors {
        assert!(!e.describe().is_empty());
    }
}
