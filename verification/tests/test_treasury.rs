//! Property-oriented vault tests: whitelist round trips, withdrawal
//! accounting, pause behaviour of every money mover, the liquidity law,
//! and one input for each reachable error.

use vestroll_vault::auth::Authorizer;
use vestroll_vault::common::VaultError;
use vestroll_vault::token::TokenLedger;
use vestroll_vault::vault::VaultContract;

const VAULT: u64 = 900;
const ADMIN: u64 = 7;
const USER: u64 = 100;
const RECIPIENT: u64 = 200;
const TOKEN: u64 = 1;
const OTHER_TOKEN: u64 = 2;

fn all_auths() -> Authorizer {
    Authorizer::granting(vec![ADMIN, USER, RECIPIENT, VAULT])
}

fn funded_vault(amount: i128) -> (VaultContract, TokenLedger, Authorizer) {
    let auth = all_auths();
    let mut vault = VaultContract::new(VAULT);
    let mut token = TokenLedger::new();
    vault.initialize(&auth, ADMIN).unwrap();
    vault.whitelist_asset(&auth, ADMIN, TOKEN, true).unwrap();
    token.mint(TOKEN, USER, amount).unwrap();
    vault.deposit(&mut token, &auth, USER, amount, TOKEN).unwrap();
    (vault, token, auth)
}

#[test]
fn whitelist_round_trip() {
    let auth = all_auths();
    let mut vault = VaultContract::new(VAULT);
    vault.initialize(&auth, ADMIN).unwrap();

    assert!(!vault.is_asset_whitelisted(TOKEN));
    vault.whitelist_asset(&auth, ADMIN, TOKEN, true).unwrap();
    assert!(vault.is_asset_whitelisted(TOKEN));
    assert!(!vault.is_asset_whitelisted(OTHER_TOKEN));
    vault.whitelist_asset(&auth, ADMIN, TOKEN, false).unwrap();
    assert!(!vault.is_asset_whitelisted(TOKEN));
}

#[test]
fn blacklist_strikes_asset() {
    let auth = all_auths();
    let mut vault = VaultContract::new(VAULT);
    vault.initialize(&auth, ADMIN).unwrap();
    vault.whitelist_asset(&auth, ADMIN, TOKEN, true).unwrap();

    vault.blacklist_asset(&auth, ADMIN, TOKEN).unwrap();
    assert!(!vault.is_asset_whitelisted(TOKEN));
}

#[test]
fn protocol_asset_auto_whitelists() {
    let auth = all_auths();
    let mut vault = VaultContract::new(VAULT);
    vault.initialize(&auth, ADMIN).unwrap();

    // Even an asset struck from the whitelist comes back when designated.
    vault.whitelist_asset(&auth, ADMIN, TOKEN, true).unwrap();
    vault.blacklist_asset(&auth, ADMIN, TOKEN).unwrap();
    vault.set_protocol_asset(&auth, ADMIN, TOKEN).unwrap();
    assert!(vault.is_asset_whitelisted(TOKEN));
}

#[test]
fn reinitialization_is_refused() {
    let auth = all_auths();
    let mut vault = VaultContract::new(VAULT);
    vault.initialize(&auth, ADMIN).unwrap();

    assert_eq!(vault.initialize(&auth, USER), Err(VaultError::NotAuthorized));
    assert_eq!(vault.initialize(&auth, ADMIN), Err(VaultError::NotAuthorized));
    // The stored administrator still answers.
    assert_eq!(vault.set_pause(&auth, ADMIN, true, 0), Ok(true));
}

#[test]
fn unpause_always_succeeds() {
    let auth = all_auths();
    let mut vault = VaultContract::new(VAULT);
    vault.initialize(&auth, ADMIN).unwrap();

    // Unpausing an active vault is accepted, not refused as a double move.
    assert_eq!(vault.set_pause(&auth, ADMIN, false, 0), Ok(true));
    assert_eq!(vault.set_pause(&auth, ADMIN, true, 1), Ok(true));
    assert_eq!(vault.set_pause(&auth, ADMIN, false, 2), Ok(true));
    assert_eq!(vault.set_pause(&auth, ADMIN, false, 3), Ok(true));
}

#[test]
fn admin_checks_answer_for_configuration() {
    let auth = all_auths();
    let mut vault = VaultContract::new(VAULT);

    // Nothing is admin-configurable before initialization.
    assert_eq!(
        vault.set_protocol_asset(&auth, ADMIN, TOKEN),
        Err(VaultError::AdminNotSet)
    );
    vault.initialize(&auth, ADMIN).unwrap();
    // Only the stored administrator passes the identity check.
    assert_eq!(
        vault.set_protocol_asset(&auth, USER, TOKEN),
        Err(VaultError::NotAuthorized)
    );
    assert_eq!(
        vault.whitelist_asset(&auth, USER, TOKEN, true),
        Err(VaultError::NotAuthorized)
    );
    assert_eq!(vault.blacklist_asset(&auth, USER, TOKEN), Err(VaultError::NotAuthorized));
    assert!(!vault.is_asset_whitelisted(TOKEN));
}

#[test]
fn withdraw_decrements_both_counters() {
    let (mut vault, mut token, auth) = funded_vault(1000);

    assert_eq!(vault.withdraw(&mut token, &auth, RECIPIENT, 400, TOKEN), Ok(()));

    let stats = vault.get_treasury_stats(&token, TOKEN);
    assert_eq!(stats.total_deposits, 600);
    assert_eq!(stats.total_locked, 600);
    assert_eq!(stats.total_liquidity, 0);
    assert_eq!(token.balance_of(TOKEN, RECIPIENT), 400);
    assert_eq!(token.balance_of(TOKEN, VAULT), 600);
}

#[test]
fn withdraw_over_locked_fails_unchanged() {
    let (mut vault, mut token, auth) = funded_vault(1000);

    assert_eq!(
        vault.withdraw(&mut token, &auth, RECIPIENT, 1001, TOKEN),
        Err(VaultError::InsufficientLockedFunds)
    );
    let stats = vault.get_treasury_stats(&token, TOKEN);
    assert_eq!(stats.total_deposits, 1000);
    assert_eq!(stats.total_locked, 1000);
    assert_eq!(token.balance_of(TOKEN, VAULT), 1000);
    assert_eq!(token.balance_of(TOKEN, RECIPIENT), 0);
}

#[test]
fn withdraw_without_admin_fails() {
    // Before initialization nobody's authorization is demanded, and the
    // release paths answer AdminNotSet.
    let auth = Authorizer::none();
    let mut vault = VaultContract::new(VAULT);
    let mut token = TokenLedger::new();

    assert_eq!(
        vault.withdraw(&mut token, &auth, RECIPIENT, 1, TOKEN),
        Err(VaultError::AdminNotSet)
    );
    assert_eq!(
        vault.withdraw_available(&mut token, &auth, RECIPIENT, 1, TOKEN),
        Err(VaultError::AdminNotSet)
    );
}

#[test]
fn withdraw_never_deposited_asset_fails() {
    let auth = all_auths();
    let mut vault = VaultContract::new(VAULT);
    let mut token = TokenLedger::new();
    vault.initialize(&auth, ADMIN).unwrap();
    vault.whitelist_asset(&auth, ADMIN, TOKEN, true).unwrap();

    // Nothing was ever deposited: locked is zero, so any positive
    // amount is over the rail.
    assert_eq!(
        vault.withdraw(&mut token, &auth, RECIPIENT, 1, TOKEN),
        Err(VaultError::InsufficientLockedFunds)
    );
}

#[test]
fn money_movers_fail_while_paused() {
    let (mut vault, mut token, auth) = funded_vault(1000);
    token.mint(TOKEN, VAULT, 300).unwrap();
    vault.set_pause(&auth, ADMIN, true, 0).unwrap();

    assert_eq!(
        vault.deposit(&mut token, &auth, USER, 1, TOKEN),
        Err(VaultError::ContractPaused)
    );
    assert_eq!(
        vault.withdraw(&mut token, &auth, RECIPIENT, 1, TOKEN),
        Err(VaultError::ContractPaused)
    );
    assert_eq!(
        vault.withdraw_available(&mut token, &auth, RECIPIENT, 1, TOKEN),
        Err(VaultError::ContractPaused)
    );
    // Counters and balances stand exactly as before.
    let stats = vault.get_treasury_stats(&token, TOKEN);
    assert_eq!(stats.total_deposits, 1000);
    assert_eq!(stats.total_locked, 1000);
    assert_eq!(token.balance_of(TOKEN, VAULT), 1300);
    assert_eq!(token.balance_of(TOKEN, RECIPIENT), 0);

    // Unpausing always succeeds, and movement resumes.
    assert_eq!(vault.set_pause(&auth, ADMIN, false, 1), Ok(true));
    assert_eq!(vault.withdraw(&mut token, &auth, RECIPIENT, 1, TOKEN), Ok(()));
}

#[test]
fn liquidity_tracks_surplus_exactly() {
    // After a sequence of deposits and locked withdrawals plus an
    // out-of-band credit of S, liquidity reads exactly S, independent of
    // the deposits counter.
    let (mut vault, mut token, auth) = funded_vault(1000);
    token.mint(TOKEN, USER, 600).unwrap();
    vault.deposit(&mut token, &auth, USER, 600, TOKEN).unwrap();
    vault.withdraw(&mut token, &auth, RECIPIENT, 350, TOKEN).unwrap();
    assert_eq!(vault.get_treasury_stats(&token, TOKEN).total_liquidity, 0);

    let surplus: i128 = 500;
    token.mint(TOKEN, ADMIN, surplus).unwrap();
    token.transfer(TOKEN, ADMIN, VAULT, surplus).unwrap();

    let stats = vault.get_treasury_stats(&token, TOKEN);
    assert_eq!(stats.total_liquidity, surplus);
    assert_eq!(stats.total_deposits, 1250);

    assert_eq!(
        vault.withdraw_available(&mut token, &auth, RECIPIENT, surplus + 1, TOKEN),
        Err(VaultError::InsufficientBalance)
    );
    assert_eq!(
        vault.withdraw_available(&mut token, &auth, RECIPIENT, surplus, TOKEN),
        Ok(())
    );
    assert_eq!(vault.get_treasury_stats(&token, TOKEN).total_liquidity, 0);
}

#[test]
fn deposit_rejects_bad_inputs() {
    let auth = all_auths();
    let mut vault = VaultContract::new(VAULT);
    let mut token = TokenLedger::new();
    vault.initialize(&auth, ADMIN).unwrap();
    token.mint(TOKEN, USER, 50).unwrap();

    // Not whitelisted yet.
    assert_eq!(
        vault.deposit(&mut token, &auth, USER, 10, TOKEN),
        Err(VaultError::AssetNotWhitelisted)
    );
    vault.whitelist_asset(&auth, ADMIN, TOKEN, true).unwrap();
    // Amounts must be positive.
    assert_eq!(
        vault.deposit(&mut token, &auth, USER, 0, TOKEN),
        Err(VaultError::InvalidAmount)
    );
    assert_eq!(
        vault.deposit(&mut token, &auth, USER, -5, TOKEN),
        Err(VaultError::InvalidAmount)
    );
    // The vault cannot deposit into itself.
    assert_eq!(
        vault.deposit(&mut token, &auth, VAULT, 10, TOKEN),
        Err(VaultError::SelfTransfer)
    );
    // The pull fails when the holder does not hold the amount.
    assert_eq!(
        vault.deposit(&mut token, &auth, USER, 51, TOKEN),
        Err(VaultError::TransferFailed)
    );
    // Nothing moved throughout.
    assert_eq!(token.balance_of(TOKEN, VAULT), 0);
    assert_eq!(token.balance_of(TOKEN, USER), 50);
}

#[test]
fn withdraw_rejects_bad_inputs() {
    let (mut vault, mut token, auth) = funded_vault(1000);

    assert_eq!(
        vault.withdraw(&mut token, &auth, RECIPIENT, 0, TOKEN),
        Err(VaultError::InvalidAmount)
    );
    assert_eq!(
        vault.withdraw(&mut token, &auth, VAULT, 10, TOKEN),
        Err(VaultError::SelfTransfer)
    );
    vault.blacklist_asset(&auth, ADMIN, TOKEN).unwrap();
    assert_eq!(
        vault.withdraw(&mut token, &auth, RECIPIENT, 10, TOKEN),
        Err(VaultError::AssetNotWhitelisted)
    );
}

#[test]
fn withdraw_insufficient_balance() {
    // Locked obligations can outrun the custodied balance only if funds
    // left through a channel other than the vault; the balance guard
    // still answers.
    let (mut vault, mut token, auth) = funded_vault(1000);
    token.transfer(TOKEN, VAULT, USER, 400).unwrap();

    assert_eq!(
        vault.withdraw(&mut token, &auth, RECIPIENT, 700, TOKEN),
        Err(VaultError::InsufficientBalance)
    );
}

#[test]
fn stats_of_untouched_asset_are_zero() {
    let (vault, token, _auth) = funded_vault(1000);

    let stats = vault.get_treasury_stats(&token, OTHER_TOKEN);
    assert_eq!(stats.total_deposits, 0);
    assert_eq!(stats.total_locked, 0);
    assert_eq!(stats.total_fees, 0);
    assert_eq!(stats.total_liquidity, 0);
}

#[test]
fn fees_counter_is_never_written() {
    let (mut vault, mut token, auth) = funded_vault(1000);
    vault.withdraw(&mut token, &auth, RECIPIENT, 100, TOKEN).unwrap();

    assert_eq!(vault.get_treasury_stats(&token, TOKEN).total_fees, 0);
}

#[test]
fn deposits_of_two_assets_stay_apart() {
    let (mut vault, mut token, auth) = funded_vault(1000);
    vault.whitelist_asset(&auth, ADMIN, OTHER_TOKEN, true).unwrap();
    token.mint(OTHER_TOKEN, USER, 70).unwrap();
    vault.deposit(&mut token, &auth, USER, 70, OTHER_TOKEN).unwrap();

    assert_eq!(vault.get_treasury_stats(&token, TOKEN).total_deposits, 1000);
    assert_eq!(vault.get_treasury_stats(&token, OTHER_TOKEN).total_deposits, 70);
}
