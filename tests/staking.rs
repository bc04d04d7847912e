use governance::address::Address;
use governance::derivation::labelled_key;
use governance::staking::accounts::{
    StakePoolDeactivatingTokenAccountDerivationData, StakePoolDistributionTokenAccountDerivationData,
    StakePoolStakingTokenAccountDerivationData, STAKE_ACCOUNT_CUSTODY_SEED,
};
use governance::staking::error::StakingError;
use governance::staking::stake_account::{
    bond_stake_account, close_stake_account, complete_unbond_stake_account, create_stake_account,
    unbond_stake_account, withdraw_stake_account, CreateStakeAccountData, CreateStakeAccountType,
    CreateStakeAccountVestingData, WithdrawStakeAccountData,
};
use governance::staking::stake_pool::{
    create_stake_pool, deactivate_stake_pool, edit_stake_pool, split_reward, sync_stake_pool, CreateStakePoolData,
    EditStakePoolData,
};
use governance::staking::types::{
    ConfigData, StakeAccountData, StakeAccountState, StakeAccountType, StakePoolData, StakePoolState, VestingData,
};
use governance::token::{TokenAccount, TokenAccountState};

fn addr(b: u8) -> Address {
    Address::new([b; 32])
}

fn program() -> Address {
    addr(7)
}

fn pool_key() -> Address {
    addr(9)
}

fn mint() -> Address {
    addr(3)
}

fn owner() -> Address {
    addr(1)
}

fn staking_key() -> Address {
    StakePoolStakingTokenAccountDerivationData { stake_pool: pool_key() }.key(&program()).unwrap()
}

fn deactivating_key() -> Address {
    StakePoolDeactivatingTokenAccountDerivationData { stake_pool: pool_key() }.key(&program()).unwrap()
}

fn distribution_key() -> Address {
    StakePoolDistributionTokenAccountDerivationData { stake_pool: pool_key() }.key(&program()).unwrap()
}

fn custody_signer() -> Address {
    labelled_key(STAKE_ACCOUNT_CUSTODY_SEED, &program()).unwrap()
}

fn token(key: Address, amount: u64) -> TokenAccount {
    TokenAccount {
        key,
        mint: mint(),
        owner: custody_signer(),
        amount,
        delegate: None,
        close_authority: None,
        state: TokenAccountState::Initialized,
    }
}

fn pool() -> StakePoolData {
    StakePoolData {
        operator: addr(2),
        name: String::from("pool"),
        description: String::from("a pool"),
        icon: String::from("icon"),
        commission: 500,
        reward_account: addr(4),
        total_shares: 0,
        total_shares_unbonding: 0,
        state: StakePoolState::ACTIVE,
    }
}

fn account(custody: Address) -> StakeAccountData {
    StakeAccountData {
        owner: owner(),
        custody_account: custody,
        account_type: StakeAccountType::TOKEN,
        account_state: StakeAccountState::UNBONDED,
        shares: 0,
    }
}

fn bond(acct: &mut StakeAccountData, custody_amount: u64, p: &mut StakePoolData, staking_amount: u64) -> Result<u64, StakingError> {
    let custody = token(acct.custody_account, custody_amount);
    let staking = token(staking_key(), staking_amount);
    bond_stake_account(&program(), acct, &custody, &pool_key(), p, &staking, &owner()).map(|t| t.amount)
}

#[test]
fn derived_accounts_differ_from_their_inputs() {
    let staking = staking_key();
    assert!(staking != program());
    assert!(staking != pool_key());
    assert!(staking != deactivating_key());
    assert!(staking != distribution_key());
    assert!(StakePoolStakingTokenAccountDerivationData { stake_pool: pool_key() }.verify(&program(), &staking));
    assert!(!StakePoolStakingTokenAccountDerivationData { stake_pool: pool_key() }.verify(&program(), &addr(5)));
}

#[test]
fn bootstrap_bond_mints_one_share_per_token() {
    let mut p = pool();
    let mut a = account(addr(20));
    let moved = bond(&mut a, 1000, &mut p, 0).unwrap();
    assert_eq!(moved, 1000);
    assert_eq!(a.shares, 1000);
    assert_eq!(p.total_shares, 1000);
    assert!(matches!(a.account_state, StakeAccountState::BONDED(k) if k == pool_key()));
}

#[test]
fn second_bond_is_priced_before_the_deposit() {
    let mut p = pool();
    p.total_shares = 1000;
    let mut a = account(addr(20));
    // 1000 shares against 2000 tokens: 500 tokens buy 250 shares.
    bond(&mut a, 500, &mut p, 2000).unwrap();
    assert_eq!(a.shares, 250);
    assert_eq!(p.total_shares, 1250);
}

#[test]
fn bond_rounds_down() {
    let mut p = pool();
    p.total_shares = 10;
    let mut a = account(addr(20));
    bond(&mut a, 1, &mut p, 3).unwrap();
    assert_eq!(a.shares, 3);
}

#[test]
fn bond_refusals() {
    let mut p = pool();
    let mut a = account(addr(20));
    let custody = token(addr(20), 10);
    let staking = token(staking_key(), 0);
    assert_eq!(
        bond_stake_account(&program(), &mut a, &custody, &pool_key(), &mut p, &staking, &addr(99)).unwrap_err(),
        StakingError::InvalidOwner
    );
    let other_custody = token(addr(21), 10);
    assert_eq!(
        bond_stake_account(&program(), &mut a, &other_custody, &pool_key(), &mut p, &staking, &owner()).unwrap_err(),
        StakingError::WrongMint
    );
    let wrong_staking = token(addr(22), 0);
    assert_eq!(
        bond_stake_account(&program(), &mut a, &custody, &pool_key(), &mut p, &wrong_staking, &owner()).unwrap_err(),
        StakingError::InvalidDerivation
    );
    p.state = StakePoolState::DEACTIVATED;
    assert_eq!(bond(&mut a, 10, &mut p, 0).unwrap_err(), StakingError::StakePoolDeactivated);
    p.state = StakePoolState::ACTIVE;
    p.total_shares = 5;
    assert_eq!(bond(&mut a, 10, &mut p, 0).unwrap_err(), StakingError::ArithmeticError);
    assert_eq!(p.total_shares, 5);
    assert!(matches!(a.account_state, StakeAccountState::UNBONDED));
    p.total_shares = 0;
    // An empty custody buys nothing.
    assert_eq!(bond(&mut a, 0, &mut p, 0).unwrap_err(), StakingError::InsufficientFunds);
    // 1 share over 10 tokens: a deposit of 1 rounds down to no share.
    p.total_shares = 1;
    assert_eq!(bond(&mut a, 1, &mut p, 10).unwrap_err(), StakingError::InsufficientFunds);
    assert!(matches!(a.account_state, StakeAccountState::UNBONDED));
    p.total_shares = 0;
    bond(&mut a, 10, &mut p, 0).unwrap();
    assert_eq!(bond(&mut a, 10, &mut p, 10).unwrap_err(), StakingError::NotUnbonded);
}

fn unbond(acct: &mut StakeAccountData, p: &mut StakePoolData, staking_amount: u64, deactivating_amount: u64, now: u64) -> Result<u64, StakingError> {
    let staking = token(staking_key(), staking_amount);
    let deactivating = token(deactivating_key(), deactivating_amount);
    unbond_stake_account(&program(), 100, acct, &pool_key(), p, &staking, &deactivating, &owner(), now).map(|t| t.amount)
}

#[test]
fn unbond_pays_pro_rata() {
    let mut p = pool();
    let mut first = account(addr(20));
    let mut second = account(addr(21));
    bond(&mut first, 100, &mut p, 0).unwrap();
    bond(&mut second, 300, &mut p, 100).unwrap();
    assert_eq!(p.total_shares, 400);
    // 100 of 400 shares over 400 tokens.
    let paid = unbond(&mut first, &mut p, 400, 0, 50).unwrap();
    assert_eq!(paid, 100);
    assert_eq!(p.total_shares, 300);
    assert_eq!(p.total_shares_unbonding, 100);
    assert_eq!(first.shares, 0);
    match first.account_state {
        StakeAccountState::UNBONDING(d) => {
            assert!(d.pool == pool_key());
            assert_eq!(d.unbonding_time, 150);
            assert_eq!(d.unbonding_shares, 100);
        },
        _ => panic!("not unbonding"),
    }
    // The round trip returns the deposit.
    let returned = complete(&mut first, &mut p, 100, 150).unwrap();
    assert_eq!(returned, 100);
    assert_eq!(p.total_shares_unbonding, 0);
    // The other staker's shares keep their worth.
    let paid = unbond(&mut second, &mut p, 300, 0, 60).unwrap();
    assert_eq!(paid, 300);
}

#[test]
fn payout_with_rounding_stays_within_the_deposit() {
    let mut p = pool();
    p.total_shares = 10;
    let mut a = account(addr(20));
    // 10 shares over 3 tokens: 2 tokens buy 6 shares (6.66 rounded down).
    bond(&mut a, 2, &mut p, 3).unwrap();
    assert_eq!(a.shares, 6);
    // 6 of 16 shares over 5 tokens fetch 1 token; the rest stays in the pool.
    assert_eq!(unbond(&mut a, &mut p, 5, 0, 0).unwrap(), 1);
}

#[test]
fn last_staker_unbonds_the_whole_balance() {
    let mut p = pool();
    let mut a = account(addr(20));
    bond(&mut a, 100, &mut p, 0).unwrap();
    assert_eq!(unbond(&mut a, &mut p, 150, 0, 0).unwrap(), 150);
    assert_eq!(p.total_shares, 0);
    assert_eq!(p.total_shares_unbonding, 150);
}

#[test]
fn unbond_refusals() {
    let mut p = pool();
    let mut a = account(addr(20));
    assert_eq!(unbond(&mut a, &mut p, 0, 0, 0).unwrap_err(), StakingError::NotBonded);
    a.account_state = StakeAccountState::BONDED(addr(50));
    a.shares = 1;
    p.total_shares = 2;
    assert_eq!(unbond(&mut a, &mut p, 10, 0, 0).unwrap_err(), StakingError::InvalidPool);
    a.account_state = StakeAccountState::BONDED(pool_key());
    let staking = token(staking_key(), 10);
    let deactivating = token(addr(60), 0);
    assert_eq!(
        unbond_stake_account(&program(), 100, &mut a, &pool_key(), &mut p, &staking, &deactivating, &owner(), 0).unwrap_err(),
        StakingError::InvalidDerivation
    );
    // 1 of 2 shares over 10 tokens fetches 5, which cannot be priced in an
    // unbonding sub-pool that has shares but no balance.
    p.total_shares_unbonding = 5;
    assert_eq!(unbond(&mut a, &mut p, 10, 0, 0).unwrap_err(), StakingError::ArithmeticError);
    p.total_shares_unbonding = 0;
    assert_eq!(unbond(&mut a, &mut p, 10, 0, u64::MAX).unwrap_err(), StakingError::ArithmeticError);
    // 1 of 100 shares over 10 tokens is worth nothing and buys no unbonding shares.
    p.total_shares = 100;
    assert_eq!(unbond(&mut a, &mut p, 10, 0, 0).unwrap_err(), StakingError::InsufficientFunds);
    // More shares than the pool has outstanding.
    a.shares = 101;
    assert_eq!(unbond(&mut a, &mut p, 10, 0, 0).unwrap_err(), StakingError::ArithmeticError);
    assert_eq!(p.total_shares, 100);
}

fn unbonding_account(shares: u128, time: u64) -> StakeAccountData {
    let mut a = account(addr(20));
    a.account_state = StakeAccountState::UNBONDING(governance::staking::types::UnbondingData {
        pool: pool_key(),
        unbonding_time: time,
        unbonding_shares: shares,
    });
    a
}

fn complete(acct: &mut StakeAccountData, p: &mut StakePoolData, deactivating_amount: u64, now: u64) -> Result<u64, StakingError> {
    let custody = token(addr(20), 0);
    let deactivating = token(deactivating_key(), deactivating_amount);
    complete_unbond_stake_account(&program(), acct, &custody, &pool_key(), p, &deactivating, &owner(), now).map(|t| t.amount)
}

#[test]
fn complete_unbond_waits_for_the_unbonding_time() {
    let mut p = pool();
    p.total_shares_unbonding = 300;
    let mut a = unbonding_account(100, 1000);
    assert_eq!(complete(&mut a, &mut p, 600, 999).unwrap_err(), StakingError::StillUnbonding);
    assert_eq!(p.total_shares_unbonding, 300);
    let paid = complete(&mut a, &mut p, 600, 1000).unwrap();
    assert_eq!(paid, 200);
    assert_eq!(p.total_shares_unbonding, 200);
    assert!(matches!(a.account_state, StakeAccountState::UNBONDED));
    assert_eq!(a.shares, 0);
}

#[test]
fn complete_unbond_refusals() {
    let mut p = pool();
    p.total_shares_unbonding = 300;
    let mut a = account(addr(20));
    assert_eq!(complete(&mut a, &mut p, 600, 0).unwrap_err(), StakingError::NotUnbonding);
    let mut b = unbonding_account(100, 0);
    let custody = token(addr(21), 0);
    let deactivating = token(deactivating_key(), 600);
    assert_eq!(
        complete_unbond_stake_account(&program(), &mut b, &custody, &pool_key(), &mut p, &deactivating, &owner(), 0).unwrap_err(),
        StakingError::WrongMint
    );
    b.account_state = StakeAccountState::UNBONDING(governance::staking::types::UnbondingData {
        pool: addr(50),
        unbonding_time: 0,
        unbonding_shares: 100,
    });
    assert_eq!(complete(&mut b, &mut p, 600, 0).unwrap_err(), StakingError::InvalidPool);
    let mut c = unbonding_account(400, 0);
    assert_eq!(complete(&mut c, &mut p, 600, 0).unwrap_err(), StakingError::ArithmeticError);
}

fn withdraw(acct: &StakeAccountData, custody_amount: u64, amount: u64, now: u64) -> Result<Option<u64>, StakingError> {
    let custody = token(acct.custody_account, custody_amount);
    withdraw_stake_account(
        &program(),
        acct,
        &addr(30),
        &custody,
        &custody_signer(),
        &owner(),
        now,
        &WithdrawStakeAccountData { amount },
    )
    .map(|t| t.map(|t| t.amount))
}

#[test]
fn token_withdrawal_is_capped_by_balance() {
    let a = account(addr(20));
    assert_eq!(withdraw(&a, 100, 100, 0).unwrap(), Some(100));
    assert_eq!(withdraw(&a, 100, 101, 0).unwrap_err(), StakingError::InsufficientFunds);
}

#[test]
fn vesting_withdrawal_follows_the_schedule() {
    let mut a = account(addr(20));
    a.account_type = StakeAccountType::VESTING(VestingData { initial_balance: 1000, cliff_date: 1000, vesting_duration: 1000 });
    // Before the cliff nothing moves, without error.
    assert_eq!(withdraw(&a, 1000, 10, 500).unwrap(), None);
    // Half way, 500 are unlocked.
    assert_eq!(withdraw(&a, 1000, 500, 1500).unwrap(), Some(500));
    assert_eq!(withdraw(&a, 1000, 501, 1500).unwrap_err(), StakingError::InsufficientFunds);
    // 200 already left: 300 remain claimable.
    assert_eq!(withdraw(&a, 800, 300, 1500).unwrap(), Some(300));
    assert_eq!(withdraw(&a, 800, 301, 1500).unwrap_err(), StakingError::InsufficientFunds);
    assert_eq!(withdraw(&a, 800, 800, 5000).unwrap(), Some(800));
}

#[test]
fn withdrawal_refusals() {
    let mut a = account(addr(20));
    let custody = token(addr(20), 10);
    let data = WithdrawStakeAccountData { amount: 1 };
    assert_eq!(
        withdraw_stake_account(&program(), &a, &addr(30), &custody, &addr(77), &owner(), 0, &data).unwrap_err(),
        StakingError::InvalidDerivation
    );
    assert_eq!(
        withdraw_stake_account(&program(), &a, &addr(30), &custody, &custody_signer(), &addr(98), 0, &data).unwrap_err(),
        StakingError::InvalidOwner
    );
    let other = token(addr(21), 10);
    assert_eq!(
        withdraw_stake_account(&program(), &a, &addr(30), &other, &custody_signer(), &owner(), 0, &data).unwrap_err(),
        StakingError::WrongMint
    );
    a.account_state = StakeAccountState::BONDED(pool_key());
    assert_eq!(withdraw(&a, 10, 1, 0).unwrap_err(), StakingError::NotUnbonded);
}

#[test]
fn close_requires_an_unbonded_matured_account() {
    let mut a = account(addr(20));
    let custody = token(addr(20), 0);
    let mut lamports: u64 = 500;
    let mut owner_lamports: u64 = 7;
    a.account_state = StakeAccountState::BONDED(pool_key());
    assert_eq!(
        close_stake_account(&a, &mut lamports, &addr(30), &custody, &owner(), &mut owner_lamports, 0).unwrap_err(),
        StakingError::NotUnbonded
    );
    a = unbonding_account(5, 0);
    assert_eq!(
        close_stake_account(&a, &mut lamports, &addr(30), &custody, &owner(), &mut owner_lamports, 0).unwrap_err(),
        StakingError::NotUnbonded
    );
    a = account(addr(20));
    a.account_type = StakeAccountType::VESTING(VestingData { initial_balance: 10, cliff_date: 100, vesting_duration: 50 });
    assert_eq!(
        close_stake_account(&a, &mut lamports, &addr(30), &custody, &owner(), &mut owner_lamports, 149).unwrap_err(),
        StakingError::NotVested
    );
    assert_eq!((lamports, owner_lamports), (500, 7));
    let closed = close_stake_account(&a, &mut lamports, &addr(30), &custody, &owner(), &mut owner_lamports, 150).unwrap();
    assert!(closed.account == addr(20) && closed.destination == addr(30));
    assert_eq!((lamports, owner_lamports), (0, 507));
}

#[test]
fn close_refuses_an_overflowing_drain() {
    let a = account(addr(20));
    let custody = token(addr(20), 0);
    let mut lamports: u64 = 2;
    let mut owner_lamports: u64 = u64::MAX - 1;
    assert_eq!(
        close_stake_account(&a, &mut lamports, &addr(30), &custody, &owner(), &mut owner_lamports, 0).unwrap_err(),
        StakingError::InsufficientFunds
    );
    assert_eq!(
        close_stake_account(&a, &mut lamports, &addr(30), &custody, &addr(99), &mut owner_lamports, 0).unwrap_err(),
        StakingError::InvalidOwner
    );
}

#[test]
fn create_stake_account_checks_the_custody() {
    let config = ConfigData { unbonding_time: 100, staking_token: mint() };
    let vesting = CreateStakeAccountData {
        owner: owner(),
        account_type: CreateStakeAccountType::VESTING(CreateStakeAccountVestingData { cliff_date: 10, vesting_duration: 20 }),
    };
    let custody = token(addr(20), 700);
    let a = create_stake_account(&program(), &config, &custody, &vesting).unwrap();
    assert!(a.owner == owner() && a.custody_account == addr(20));
    assert!(a.account_type == StakeAccountType::VESTING(VestingData { initial_balance: 700, cliff_date: 10, vesting_duration: 20 }));
    assert!(matches!(a.account_state, StakeAccountState::UNBONDED));
    let plain = CreateStakeAccountData { owner: owner(), account_type: CreateStakeAccountType::default() };
    assert!(create_stake_account(&program(), &config, &custody, &plain).unwrap().account_type == StakeAccountType::TOKEN);

    let mut bad = custody;
    bad.owner = addr(40);
    assert_eq!(create_stake_account(&program(), &config, &bad, &plain).unwrap_err(), StakingError::InvalidOwner);
    bad = custody;
    bad.delegate = Some(addr(41));
    assert_eq!(create_stake_account(&program(), &config, &bad, &plain).unwrap_err(), StakingError::TokenAccountHasDelegation);
    bad = custody;
    bad.close_authority = Some(addr(41));
    assert_eq!(create_stake_account(&program(), &config, &bad, &plain).unwrap_err(), StakingError::TokenAccountHasDelegation);
    bad = custody;
    bad.state = TokenAccountState::Frozen;
    assert_eq!(create_stake_account(&program(), &config, &bad, &plain).unwrap_err(), StakingError::InvalidTokenAccountState);
    bad = custody;
    bad.mint = addr(42);
    assert_eq!(create_stake_account(&program(), &config, &bad, &plain).unwrap_err(), StakingError::WrongMint);
}

#[test]
fn create_stake_pool_checks_mint_and_accounts() {
    let config = ConfigData { unbonding_time: 100, staking_token: mint() };
    let data = || CreateStakePoolData {
        name: String::from("n"),
        description: String::from("d"),
        icon: String::from("i"),
        commission: 250,
    };
    let reward = token(addr(4), 0);
    let p = create_stake_pool(
        &program(), &config, &pool_key(), &staking_key(), &distribution_key(), &deactivating_key(), &addr(2), &reward, &mint(), data(),
    )
    .unwrap();
    assert_eq!(p.commission, 250);
    assert_eq!(p.name, "n");
    assert!(p.operator == addr(2) && p.reward_account == addr(4));
    assert_eq!((p.total_shares, p.total_shares_unbonding), (0, 0));
    assert!(p.state == StakePoolState::ACTIVE);
    assert_eq!(
        create_stake_pool(&program(), &config, &pool_key(), &staking_key(), &distribution_key(), &deactivating_key(), &addr(2), &reward, &addr(43), data())
            .unwrap_err(),
        StakingError::WrongMint
    );
    let greedy = CreateStakePoolData { commission: 10001, ..data() };
    assert_eq!(
        create_stake_pool(&program(), &config, &pool_key(), &staking_key(), &distribution_key(), &deactivating_key(), &addr(2), &reward, &mint(), greedy)
            .unwrap_err(),
        StakingError::InvalidCommission
    );
    assert_eq!(
        create_stake_pool(&program(), &config, &pool_key(), &distribution_key(), &distribution_key(), &deactivating_key(), &addr(2), &reward, &mint(), data())
            .unwrap_err(),
        StakingError::InvalidDerivation
    );
}

#[test]
fn edit_and_deactivate_belong_to_the_operator() {
    let mut p = pool();
    let edit = || EditStakePoolData { name: Some(String::from("renamed")), description: None, icon: None, commission: Some(100) };
    assert_eq!(edit_stake_pool(&mut p, &addr(60), &addr(60), edit()).unwrap_err(), StakingError::InvalidOwner);
    let greedy = EditStakePoolData { name: None, description: None, icon: None, commission: Some(10001) };
    assert_eq!(edit_stake_pool(&mut p, &addr(2), &addr(2), greedy).unwrap_err(), StakingError::InvalidCommission);
    assert_eq!(p.commission, 500);
    edit_stake_pool(&mut p, &addr(2), &addr(61), edit()).unwrap();
    assert_eq!(p.name, "renamed");
    assert_eq!(p.description, "a pool");
    assert_eq!(p.commission, 100);
    assert!(p.operator == addr(61));
    assert_eq!(deactivate_stake_pool(&mut p, &addr(2)).unwrap_err(), StakingError::InvalidOwner);
    deactivate_stake_pool(&mut p, &addr(61)).unwrap();
    assert!(p.state == StakePoolState::DEACTIVATED);
    assert_eq!(deactivate_stake_pool(&mut p, &addr(61)).unwrap_err(), StakingError::StakePoolDeactivated);
}

#[test]
fn reward_split_takes_commission_in_basis_points() {
    let s = split_reward(1000, 500).unwrap();
    assert_eq!((s.to_operator, s.to_stakers), (50, 950));
    let s = split_reward(999, 3333).unwrap();
    assert_eq!((s.to_operator, s.to_stakers), (332, 667));
    assert_eq!(split_reward(10, 0).unwrap().to_stakers, 10);
    assert_eq!(split_reward(10, 10000).unwrap().to_operator, 10);
    assert!(split_reward(10, 10001).is_none());
}

#[test]
fn sync_raises_the_value_of_existing_shares() {
    let mut p = pool();
    let mut a = account(addr(20));
    bond(&mut a, 1000, &mut p, 0).unwrap();
    let staking = token(staking_key(), 1000);
    let distribution = token(distribution_key(), 1000);
    let t = sync_stake_pool(&program(), &pool_key(), &p, &staking, &distribution, &addr(4)).unwrap();
    assert_eq!(t.to_stakers.amount, 950);
    assert_eq!(t.to_operator.amount, 50);
    assert!(t.to_stakers.destination == staking_key() && t.to_operator.destination == addr(4));
    assert!(t.to_stakers.source == distribution_key());
    assert_eq!(p.total_shares, 1000);
    let before = governance::shares::value_of_shares(1, 1000, p.total_shares).unwrap();
    let after = governance::shares::value_of_shares(1000, 1000 + t.to_stakers.amount, p.total_shares).unwrap();
    assert_eq!(before, 1);
    assert_eq!(after, 1950);
}

#[test]
fn sync_refusals() {
    let p = pool();
    let staking = token(staking_key(), 0);
    let distribution = token(distribution_key(), 10);
    assert_eq!(
        sync_stake_pool(&program(), &pool_key(), &p, &staking, &distribution, &addr(5)).unwrap_err(),
        StakingError::InvalidTokenAccount
    );
    assert_eq!(
        sync_stake_pool(&program(), &pool_key(), &p, &distribution, &distribution, &addr(4)).unwrap_err(),
        StakingError::InvalidDerivation
    );
    let mut greedy = pool();
    greedy.commission = 20000;
    assert_eq!(
        sync_stake_pool(&program(), &pool_key(), &greedy, &staking, &distribution, &addr(4)).unwrap_err(),
        StakingError::ArithmeticError
    );
}

#[test]
fn error_codes_follow_the_variant_order() {
    assert_eq!(StakingError::InvalidOwner.code(), 0);
    assert_eq!(StakingError::StakePoolDeactivated.code(), 12);
    assert_eq!(StakingError::ArithmeticError.code(), 14);
    assert_eq!(StakingError::InvalidCommission.code(), 15);
}

#[test]
fn share_totals_match_account_shares() {
    let mut p = pool();
    let mut accounts = vec![account(addr(20)), account(addr(21)), account(addr(22))];
    let mut staking_balance: u64 = 0;
    let mut deactivating_balance: u64 = 0;
    for (a, deposit) in accounts.iter_mut().zip([300u64, 600, 900]) {
        let moved = bond(a, deposit, &mut p, staking_balance).unwrap();
        staking_balance += moved;
    }
    let paid = unbond(&mut accounts[2], &mut p, staking_balance, deactivating_balance, 10).unwrap();
    staking_balance -= paid;
    deactivating_balance += paid;
    let totals = |accounts: &Vec<StakeAccountData>| {
        let mut bonded: u128 = 0;
        let mut unbonding: u128 = 0;
        for a in accounts {
            match a.account_state {
                StakeAccountState::BONDED(_) => bonded += a.shares,
                StakeAccountState::UNBONDING(d) => unbonding += d.unbonding_shares,
                StakeAccountState::UNBONDED => {},
            }
        }
        (bonded, unbonding)
    };
    assert_eq!(totals(&accounts), (p.total_shares, p.total_shares_unbonding));
    let paid = unbond(&mut accounts[0], &mut p, staking_balance, deactivating_balance, 20).unwrap();
    staking_balance -= paid;
    deactivating_balance += paid;
    assert_eq!(totals(&accounts), (p.total_shares, p.total_shares_unbonding));
    let custody = token(addr(22), 0);
    let deactivating = token(deactivating_key(), deactivating_balance);
    complete_unbond_stake_account(&program(), &mut accounts[2], &custody, &pool_key(), &mut p, &deactivating, &owner(), 110)
        .unwrap();
    assert_eq!(totals(&accounts), (p.total_shares, p.total_shares_unbonding));
    assert!(staking_balance <= 1800);
}
