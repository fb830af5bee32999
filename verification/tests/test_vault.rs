//! Vault scenarios: initialization, pause gate, deposits, and treasury
//! management including the surplus sweep.

use vestroll_vault::auth::Authorizer;
use vestroll_vault::common::VaultError;
use vestroll_vault::token::TokenLedger;
use vestroll_vault::vault::VaultContract;

const VAULT: u64 = 900;
const ADMIN: u64 = 7;
const USER: u64 = 100;
const NOT_ADMIN: u64 = 8;
const RECIPIENT: u64 = 200;
const TOKEN: u64 = 1;

fn all_auths() -> Authorizer {
    Authorizer::granting(vec![ADMIN, USER, NOT_ADMIN, RECIPIENT])
}

#[test]
fn test_initilization() {
    let auth = all_auths();
    let mut vault = VaultContract::new(VAULT);

    assert_eq!(vault.initialize(&auth, ADMIN), Ok(()));
}

#[test]
fn test_deposit_while_not_paused() {
    let auth = all_auths();
    let mut vault = VaultContract::new(VAULT);
    let mut token = TokenLedger::new();
    let amount: i128 = 10000;

    // Mint tokens to user
    token.mint(TOKEN, USER, amount).unwrap();

    // Initialize, and whitelist the asset for money movement
    vault.initialize(&auth, ADMIN).unwrap();
    vault.whitelist_asset(&auth, ADMIN, TOKEN, true).unwrap();

    assert_eq!(vault.deposit(&mut token, &auth, USER, amount, TOKEN), Ok(()));

    // Verify stats
    let stats = vault.get_treasury_stats(&token, TOKEN);
    assert_eq!(stats.total_deposits, amount);
    assert_eq!(stats.total_locked, amount);
    assert_eq!(stats.total_liquidity, 0);

    // Verify balance
    assert_eq!(token.balance_of(TOKEN, VAULT), amount);
}

#[test]
fn test_deposit_when_paused() {
    let auth = all_auths();
    let mut vault = VaultContract::new(VAULT);
    let mut token = TokenLedger::new();
    let amount: i128 = 10000;

    token.mint(TOKEN, USER, amount).unwrap();

    vault.initialize(&auth, ADMIN).unwrap();
    vault.whitelist_asset(&auth, ADMIN, TOKEN, true).unwrap();

    vault.set_pause(&auth, ADMIN, true, 0).unwrap();

    assert_eq!(
        vault.deposit(&mut token, &auth, USER, amount, TOKEN),
        Err(VaultError::ContractPaused)
    );
    // The refused call changed nothing.
    assert_eq!(token.balance_of(TOKEN, VAULT), 0);
    assert_eq!(token.balance_of(TOKEN, USER), amount);
    let stats = vault.get_treasury_stats(&token, TOKEN);
    assert_eq!(stats.total_deposits, 0);
    assert_eq!(stats.total_locked, 0);
}

#[test]
fn test_unauthorized_paused() {
    let auth = all_auths();
    let mut vault = VaultContract::new(VAULT);

    vault.initialize(&auth, ADMIN).unwrap();

    assert_eq!(
        vault.set_pause(&auth, NOT_ADMIN, true, 0),
        Err(VaultError::NotAuthorized)
    );
}

#[test]
fn test_admin_not_set() {
    let auth = all_auths();
    let mut vault = VaultContract::new(VAULT);

    assert_eq!(
        vault.set_pause(&auth, ADMIN, true, 0),
        Err(VaultError::AdminNotSet)
    );
}

#[test]
fn test_pause_when_paused() {
    let auth = all_auths();
    let mut vault = VaultContract::new(VAULT);

    vault.initialize(&auth, ADMIN).unwrap();

    assert_eq!(vault.set_pause(&auth, ADMIN, true, 0), Ok(true));
    assert_eq!(
        vault.set_pause(&auth, ADMIN, true, 1),
        Err(VaultError::ContractPaused)
    );
}

#[test]
fn test_deposit_while_not_paused_event() {
    let auth = all_auths();
    let mut vault = VaultContract::new(VAULT);

    vault.initialize(&auth, ADMIN).unwrap();

    vault.set_pause(&auth, ADMIN, true, 5).unwrap();
    assert_eq!(vault.pause_events().len(), 1);

    vault.set_pause(&auth, ADMIN, false, 6).unwrap();
    // The log is append-only: both changes are recorded.
    let events = vault.pause_events();
    assert_eq!(events.len(), 2);

    // Verify the latest is the unpause
    let event = events.last().unwrap();
    assert!(!event.paused);
    assert_eq!(event.admin, ADMIN);
    assert_eq!(event.timestamp, 6);
}

#[test]
fn test_treasury_management() {
    let auth = all_auths();
    let mut vault = VaultContract::new(VAULT);
    let mut token = TokenLedger::new();
    let deposit_amount: i128 = 1000;
    let surplus_amount: i128 = 500;

    vault.initialize(&auth, ADMIN).unwrap();
    vault.whitelist_asset(&auth, ADMIN, TOKEN, true).unwrap();

    // 1. User deposits (locked)
    token.mint(TOKEN, USER, deposit_amount).unwrap();
    vault.deposit(&mut token, &auth, USER, deposit_amount, TOKEN).unwrap();

    // 2. Add surplus (direct transfer to vault, not via deposit),
    //    simulating fees or external funding
    token.mint(TOKEN, ADMIN, surplus_amount).unwrap();
    token.transfer(TOKEN, ADMIN, VAULT, surplus_amount).unwrap();

    // Verify stats
    let stats = vault.get_treasury_stats(&token, TOKEN);
    assert_eq!(stats.total_deposits, deposit_amount);
    assert_eq!(stats.total_locked, deposit_amount);
    // Liquidity = balance (1500) - locked (1000) = 500
    assert_eq!(stats.total_liquidity, surplus_amount);

    // 3. Admin withdraws available successfully
    assert_eq!(
        vault.withdraw_available(&mut token, &auth, RECIPIENT, surplus_amount, TOKEN),
        Ok(())
    );

    // Verify transfer
    assert_eq!(token.balance_of(TOKEN, RECIPIENT), surplus_amount);
    assert_eq!(token.balance_of(TOKEN, VAULT), deposit_amount);

    // Verify stats
    let stats_after = vault.get_treasury_stats(&token, TOKEN);
    assert_eq!(stats_after.total_liquidity, 0);
    assert_eq!(stats_after.total_locked, deposit_amount);
}

#[test]
fn test_withdraw_available_fail_locked() {
    let auth = all_auths();
    let mut vault = VaultContract::new(VAULT);
    let mut token = TokenLedger::new();
    let amount: i128 = 1000;

    vault.initialize(&auth, ADMIN).unwrap();
    vault.whitelist_asset(&auth, ADMIN, TOKEN, true).unwrap();

    token.mint(TOKEN, USER, amount).unwrap();
    vault.deposit(&mut token, &auth, USER, amount, TOKEN).unwrap();

    // Everything custodied is locked: no liquidity to sweep.
    assert_eq!(
        vault.withdraw_available(&mut token, &auth, RECIPIENT, 500, TOKEN),
        Err(VaultError::InsufficientBalance)
    );
}
