//! The shared data model: payroll agreement records and treasury figures
//! as plain values.

use vestroll_vault::common::ContractMetadata;
use vestroll_vault::common::ContractStatus;
use vestroll_vault::common::ContractType;
use vestroll_vault::common::TreasuryStats;
use vestroll_vault::vault::VaultContract;

#[test]
fn metadata_round_trips_as_plain_data() {
    let record = ContractMetadata {
        employer: 7,
        employee: 21,
        contract_type: ContractType::FixedRate,
        status: ContractStatus::Draft,
        amount: 2500,
        asset: 1,
    };
    let copy = record;
    assert_eq!(copy, record);
    assert_ne!(copy.contract_type, ContractType::Milestone);
    assert_ne!(copy.status, ContractStatus::Active);
}

#[test]
fn treasury_stats_compare_by_fields() {
    let a = TreasuryStats { total_deposits: 1, total_locked: 1, total_fees: 0, total_liquidity: 0 };
    let b = TreasuryStats { total_deposits: 1, total_locked: 1, total_fees: 0, total_liquidity: 0 };
    assert_eq!(a, b);
}

#[test]
fn vault_reports_its_own_address() {
    let vault = VaultContract::new(900);
    assert_eq!(vault.address(), 900);
}
