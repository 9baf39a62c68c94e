use single_pool_core::{
    check_vote_account, derive_address, derive_pool_addresses, role_seed, InitializeError,
    PoolAddresses, PoolRole, PoolState, SinglePoolError,
};

const PROGRAM: [u8; 32] = [7u8; 32];
const VALIDATOR: [u8; 32] = [42u8; 32];
const RENT: u64 = 2_282_880;
const MIN_DELEGATION: u64 = 1_000_000_000;

fn current_vote_data() -> Vec<u8> {
    let mut data = vec![2u8, 0, 0, 0];
    data.extend_from_slice(&[9u8; 60]);
    data
}

fn pool_addresses() -> PoolAddresses {
    derive_pool_addresses(&VALIDATOR, &PROGRAM).unwrap()
}

fn active_pool(staked: u64, supply: u64) -> PoolState {
    PoolState { initialized: true, validator: VALIDATOR, total_staked_lamports: staked, token_supply: supply }
}

#[test]
fn success() {
    let fresh = PoolState::new(VALIDATOR);
    let addresses = pool_addresses();
    let pool = fresh
        .initialize(&PROGRAM, &current_vote_data(), RENT, RENT, MIN_DELEGATION, &addresses)
        .unwrap();
    assert!(pool.initialized);
    assert_eq!(pool.total_staked_lamports, MIN_DELEGATION);
    assert_eq!(pool.token_supply, MIN_DELEGATION);
}

#[test]
fn fail_double_init() {
    let addresses = pool_addresses();
    let pool = PoolState::new(VALIDATOR)
        .initialize(&PROGRAM, &current_vote_data(), RENT, RENT, MIN_DELEGATION, &addresses)
        .unwrap();
    let again = pool.initialize(&PROGRAM, &current_vote_data(), RENT, RENT, MIN_DELEGATION, &addresses);
    assert_eq!(again.unwrap_err(), InitializeError::AlreadyInitialized);
}

#[test]
fn initialize_rent_one_below_minimum() {
    let addresses = pool_addresses();
    let r = PoolState::new(VALIDATOR).initialize(
        &PROGRAM,
        &current_vote_data(),
        RENT - 1,
        RENT,
        MIN_DELEGATION,
        &addresses,
    );
    assert_eq!(r.unwrap_err(), InitializeError::Pool(SinglePoolError::WrongRentAmount));
}

#[test]
fn initialize_rejects_substituted_addresses() {
    let good = pool_addresses();
    let fresh = PoolState::new(VALIDATOR);
    let data = current_vote_data();
    let mut bad = good;
    bad.stake_account = [1u8; 32];
    assert_eq!(
        fresh.initialize(&PROGRAM, &data, RENT, RENT, MIN_DELEGATION, &bad).unwrap_err(),
        InitializeError::Pool(SinglePoolError::InvalidPoolStakeAccount)
    );
    let mut bad = good;
    bad.authority = [1u8; 32];
    assert_eq!(
        fresh.initialize(&PROGRAM, &data, RENT, RENT, MIN_DELEGATION, &bad).unwrap_err(),
        InitializeError::Pool(SinglePoolError::InvalidPoolAuthority)
    );
    let mut bad = good;
    bad.mint = [1u8; 32];
    assert_eq!(
        fresh.initialize(&PROGRAM, &data, RENT, RENT, MIN_DELEGATION, &bad).unwrap_err(),
        InitializeError::Pool(SinglePoolError::InvalidPoolMint)
    );
}

#[test]
fn initialize_rejects_vote_accounts() {
    let addresses = pool_addresses();
    let fresh = PoolState::new(VALIDATOR);
    let legacy = vec![0u8, 0, 0, 0, 5, 5];
    assert_eq!(
        fresh.initialize(&PROGRAM, &legacy, RENT, RENT, MIN_DELEGATION, &addresses).unwrap_err(),
        InitializeError::Pool(SinglePoolError::LegacyVoteAccount)
    );
    let short = vec![2u8, 0];
    assert_eq!(
        fresh.initialize(&PROGRAM, &short, RENT, RENT, MIN_DELEGATION, &addresses).unwrap_err(),
        InitializeError::Pool(SinglePoolError::UnparseableVoteAccount)
    );
}

#[test]
fn vote_account_versions() {
    assert_eq!(check_vote_account(&vec![1u8, 0, 0, 0]), Ok(()));
    assert_eq!(check_vote_account(&vec![2u8, 0, 0, 0, 1]), Ok(()));
    assert_eq!(check_vote_account(&vec![0u8, 0, 0, 0]), Err(SinglePoolError::LegacyVoteAccount));
    assert_eq!(check_vote_account(&vec![3u8, 0, 0, 0]), Err(SinglePoolError::UnparseableVoteAccount));
    assert_eq!(check_vote_account(&vec![0u8, 1, 0, 0]), Err(SinglePoolError::UnparseableVoteAccount));
    assert_eq!(check_vote_account(&vec![]), Err(SinglePoolError::UnparseableVoteAccount));
}

#[test]
fn derived_addresses_are_distinct_and_stable() {
    let a = pool_addresses();
    let b = pool_addresses();
    assert_eq!(a.authority, b.authority);
    assert_eq!(a.mint, b.mint);
    let all = [a.authority, a.stake_account, a.mint, a.metadata];
    for i in 0..4 {
        for j in 0..4 {
            if i != j {
                assert_ne!(all[i], all[j]);
            }
        }
    }
    let other = derive_pool_addresses(&[43u8; 32], &PROGRAM).unwrap();
    assert_ne!(other.authority, a.authority);
    assert_ne!(other.stake_account, a.stake_account);
    assert_eq!(derive_address(PoolRole::Mint, &VALIDATOR, &PROGRAM), Some(a.mint));
    assert_ne!(a.mint, VALIDATOR);
}

#[test]
fn role_seeds() {
    assert_eq!(role_seed(PoolRole::Authority), b"authority".to_vec());
    assert_eq!(role_seed(PoolRole::StakeAccount), b"stake".to_vec());
    assert_eq!(role_seed(PoolRole::Mint), b"mint".to_vec());
    assert_eq!(role_seed(PoolRole::Metadata), b"metadata".to_vec());
}

#[test]
fn conversions_at_fresh_and_active_rates() {
    let fresh = PoolState::new(VALIDATOR);
    assert_eq!(fresh.lamports_to_tokens(500), Ok(500));
    assert_eq!(fresh.tokens_to_lamports(500), Ok(500));
    let pool = active_pool(3_000, 2_000);
    assert_eq!(pool.lamports_to_tokens(100), Ok(66));
    assert_eq!(pool.tokens_to_lamports(66), Ok(99));
    let rich = active_pool(1, u64::MAX);
    assert_eq!(rich.lamports_to_tokens(2), Err(SinglePoolError::ArithmeticOverflow));
}

#[test]
fn round_trip_never_creates_value() {
    let states = [active_pool(3_000, 2_000), active_pool(7, 13), active_pool(1_000_003, 999_983)];
    for pool in states.iter() {
        for x in [0u64, 1, 2, 3, 99, 1_000, 123_457] {
            let tokens = pool.lamports_to_tokens(x).unwrap();
            assert!(pool.tokens_to_lamports(tokens).unwrap() <= x);
        }
    }
}

#[test]
fn deposit_mints_at_current_rate() {
    let pool = active_pool(3_000, 2_000);
    let stake = pool_addresses().stake_account;
    let (after, minted) = pool.deposit(&PROGRAM, &stake, true, 300).unwrap();
    assert_eq!(minted, 200);
    assert_eq!(after.total_staked_lamports, 3_300);
    assert_eq!(after.token_supply, 2_200);
}

#[test]
fn deposit_too_small() {
    let pool = active_pool(3_000, 2_000);
    let stake = pool_addresses().stake_account;
    assert_eq!(pool.deposit_with_address(&stake, &stake, true, 1), Err(SinglePoolError::DepositTooSmall));
    assert_eq!(pool.deposit_with_address(&stake, &stake, true, 2).unwrap().1, 1);
}

#[test]
fn deposit_errors() {
    let pool = active_pool(3_000, 2_000);
    let stake = pool_addresses().stake_account;
    assert_eq!(pool.deposit_with_address(&[0u8; 32], &stake, true, 300), Err(SinglePoolError::InvalidPoolStakeAccount));
    assert_eq!(pool.deposit(&PROGRAM, &pool_addresses().mint, true, 300), Err(SinglePoolError::InvalidPoolStakeAccount));
    assert_eq!(pool.deposit_with_address(&stake, &stake, false, 300), Err(SinglePoolError::WrongStakeState));
    let fresh = PoolState::new(VALIDATOR);
    assert_eq!(fresh.deposit_with_address(&stake, &stake, true, 300), Err(SinglePoolError::WrongStakeState));
    let full = active_pool(u64::MAX - 10, u64::MAX - 10);
    assert_eq!(full.deposit_with_address(&stake, &stake, true, 11), Err(SinglePoolError::ArithmeticOverflow));
}

#[test]
fn withdraw_splits_at_current_rate() {
    let pool = active_pool(3_000, 2_000);
    let (after, lamports) = pool.withdraw(true, 200, 1_000).unwrap();
    assert_eq!(lamports, 300);
    assert_eq!(after.total_staked_lamports, 2_700);
    assert_eq!(after.token_supply, 1_800);
}

#[test]
fn withdraw_without_signature() {
    let pool = active_pool(3_000, 2_000);
    assert_eq!(pool.withdraw(false, 200, 1_000), Err(SinglePoolError::SignatureMissing));
}

#[test]
fn withdraw_too_small() {
    let pool = active_pool(2_000, 3_000);
    assert_eq!(pool.withdraw(true, 1, 0), Err(SinglePoolError::WithdrawalTooSmall));
    assert_eq!(pool.withdraw(true, 2, 0).unwrap().1, 1);
}

#[test]
fn withdraw_errors() {
    let pool = active_pool(3_000, 2_000);
    assert_eq!(pool.withdraw(true, 2_001, 0), Err(SinglePoolError::ArithmeticOverflow));
    assert_eq!(pool.withdraw(true, 2_000, 1), Err(SinglePoolError::WrongStakeState));
    assert_eq!(PoolState::new(VALIDATOR).withdraw(true, 1, 0), Err(SinglePoolError::WrongStakeState));
}

#[test]
fn backing_per_token_never_decreases() {
    let stake = pool_addresses().stake_account;
    let mut pool = active_pool(1_000_003, 999_983);
    let steps: [(bool, u64); 6] = [(true, 777), (false, 5_001), (true, 3), (false, 17), (true, 99_999), (false, 1)];
    for (is_deposit, amount) in steps {
        let next = if is_deposit {
            pool.deposit_with_address(&stake, &stake, true, amount).map(|r| r.0)
        } else {
            pool.withdraw(true, amount, 1).map(|r| r.0)
        };
        if let Ok(next) = next {
            assert!(
                next.total_staked_lamports as u128 * pool.token_supply as u128
                    >= pool.total_staked_lamports as u128 * next.token_supply as u128
            );
            pool = next;
        }
    }
}
