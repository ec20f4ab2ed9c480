use move_core_types::gas_schedule::{GasAlgebra, GasConstants as CoreGasConstants, InternalGasUnits};
use move_core_types::vm_status::StatusCode as Core;
use vm_adapter::config::{DiemVMImpl, DiemVMInternals, DiemVersion, VMConfig, VMPublishingOption};
use vm_adapter::gas::{
    calculate_intrinsic_gas, charge_global_write_gas_usage, min_transaction_fee, CostTable,
    GasConstants, GasStatus,
};
use vm_adapter::status::{ErrorClass, StatusCode, StatusType, VMStatus};
use vm_adapter::types::{AccountAddress, ChainId, TransactionMetadata};

fn assert_send<T: Send>() {}

fn assert_sync<T: Sync>() {}

fn constants() -> GasConstants {
    GasConstants {
        global_memory_per_byte_cost: 4,
        global_memory_per_byte_write_cost: 9,
        min_transaction_gas_units: 600,
        large_transaction_cutoff: 600,
        intrinsic_gas_per_byte: 8,
        maximum_number_of_gas_units: 4_000_000,
        min_price_per_gas_unit: 0,
        max_price_per_gas_unit: 10_000,
        max_transaction_size_in_bytes: 4096,
        gas_unit_scaling_factor: 1000,
        default_account_size: 800,
    }
}

fn vm_with(g: GasConstants) -> DiemVMImpl {
    DiemVMImpl::init_with_config(
        DiemVersion { major: 3 },
        VMConfig { gas_schedule: CostTable { gas_constants: g } },
        VMPublishingOption { script_allow_list: vec![], is_open_module: true },
    )
}

fn txn(size: u64, max_gas: u64, price: u64) -> TransactionMetadata {
    TransactionMetadata {
        sender: AccountAddress::new([7u8; 16]),
        authentication_key_preimage: vec![1, 2, 3],
        secondary_signers: vec![],
        secondary_authentication_key_preimages: vec![],
        sequence_number: 5,
        max_gas_amount: max_gas,
        gas_unit_price: price,
        transaction_size: size,
        expiration_timestamp_secs: 1000,
        chain_id: ChainId::new(4),
        script_hash: vec![9; 32],
    }
}

fn err(code: StatusCode) -> Result<(), VMStatus> {
    Err(VMStatus::Error(code))
}

#[test]
fn vm_thread_safe() {
    assert_send::<DiemVMImpl>();
    assert_sync::<DiemVMImpl>();
    assert_send::<GasStatus>();
    assert_sync::<GasStatus>();
}

#[test]
fn status_codes_are_those_of_the_engine() {
    let pairs = vec![
        (StatusCode::ExceededMaxTransactionSize, Core::EXCEEDED_MAX_TRANSACTION_SIZE),
        (
            StatusCode::MaxGasUnitsExceedsMaxGasUnitsBound,
            Core::MAX_GAS_UNITS_EXCEEDS_MAX_GAS_UNITS_BOUND,
        ),
        (
            StatusCode::MaxGasUnitsBelowMinTransactionGasUnits,
            Core::MAX_GAS_UNITS_BELOW_MIN_TRANSACTION_GAS_UNITS,
        ),
        (StatusCode::GasUnitPriceBelowMinBound, Core::GAS_UNIT_PRICE_BELOW_MIN_BOUND),
        (StatusCode::GasUnitPriceAboveMaxBound, Core::GAS_UNIT_PRICE_ABOVE_MAX_BOUND),
        (StatusCode::UnknownInvariantViolationError, Core::UNKNOWN_INVARIANT_VIOLATION_ERROR),
        (StatusCode::EventKeyMismatch, Core::EVENT_KEY_MISMATCH),
        (StatusCode::VmStartupFailure, Core::VM_STARTUP_FAILURE),
        (StatusCode::OutOfGas, Core::OUT_OF_GAS),
        (StatusCode::ResourceDoesNotExist, Core::RESOURCE_DOES_NOT_EXIST),
        (StatusCode::DataFormatError, Core::DATA_FORMAT_ERROR),
    ];
    for (own, core) in pairs {
        assert_eq!(own.code(), u64::from(core));
        assert_eq!(StatusCode::from_code(own.code()), Some(own));
    }
    assert_eq!(StatusCode::ExceededMaxTransactionSize.code(), 10);
    assert_eq!(StatusCode::OutOfGas.code(), 4002);
    assert_eq!(StatusCode::from_code(11), None);
    assert_eq!(StatusCode::from_code(20), None);
    assert_eq!(StatusCode::from_code(u64::MAX), None);
}

#[test]
fn status_classes() {
    assert_eq!(StatusCode::GasUnitPriceAboveMaxBound.status_type(), StatusType::Validation);
    assert_eq!(StatusCode::VmStartupFailure.status_type(), StatusType::InvariantViolation);
    assert_eq!(StatusCode::EventKeyMismatch.status_type(), StatusType::InvariantViolation);
    assert_eq!(StatusCode::DataFormatError.status_type(), StatusType::Execution);
    assert_eq!(
        VMStatus::Error(StatusCode::ExceededMaxTransactionSize).class(),
        ErrorClass::AdmissionRejection
    );
    assert_eq!(VMStatus::Error(StatusCode::OutOfGas).class(), ErrorClass::RecoverableFailure);
    assert_eq!(
        VMStatus::Error(StatusCode::UnknownInvariantViolationError).class(),
        ErrorClass::Fatal
    );
}

#[test]
fn accessors_without_records_fail_at_startup() {
    let vm = DiemVMImpl::new(None, None, None);
    assert_eq!(vm.get_gas_schedule().err(), Some(VMStatus::Error(StatusCode::VmStartupFailure)));
    assert_eq!(vm.get_diem_version(), Err(VMStatus::Error(StatusCode::VmStartupFailure)));
    assert_eq!(
        vm.publishing_option().err(),
        Some(VMStatus::Error(StatusCode::VmStartupFailure))
    );
    assert_eq!(vm.check_gas(&txn(10, 10, 1)), err(StatusCode::VmStartupFailure));
    let internals = vm.internals();
    assert_eq!(internals.diem_version(), Err(VMStatus::Error(StatusCode::VmStartupFailure)));
    assert!(internals.gas_schedule().is_err());
}

#[test]
fn accessors_with_records() {
    let vm = vm_with(constants());
    assert_eq!(vm.get_diem_version(), Ok(DiemVersion { major: 3 }));
    assert_eq!(vm.get_gas_schedule().unwrap().gas_constants, constants());
    assert!(vm.publishing_option().unwrap().is_open_module);
    let internals = DiemVMInternals::new(&vm);
    assert_eq!(internals.diem_version(), Ok(DiemVersion { major: 3 }));
    assert_eq!(internals.gas_schedule().unwrap().gas_constants, constants());
    let partly = DiemVMImpl::new(None, Some(DiemVersion { major: 2 }), None);
    assert_eq!(partly.get_diem_version(), Ok(DiemVersion { major: 2 }));
    assert!(partly.get_gas_schedule().is_err());
}

#[test]
fn admits_a_transaction_within_all_bounds() {
    let vm = vm_with(constants());
    assert_eq!(vm.check_gas(&txn(600, 1, 0)), Ok(()));
    assert_eq!(vm.check_gas(&txn(4096, 4_000_000, 10_000)), Ok(()));
}

#[test]
fn rejects_oversized_transaction() {
    let mut g = constants();
    g.max_transaction_size_in_bytes = 1024;
    let vm = vm_with(g);
    assert_eq!(vm.check_gas(&txn(2048, 1000, 1)), err(StatusCode::ExceededMaxTransactionSize));
    assert_eq!(vm.check_gas(&txn(1025, 1000, 1)), err(StatusCode::ExceededMaxTransactionSize));
    assert_eq!(vm.check_gas(&txn(1024, 1000, 1)), Ok(()));
}

#[test]
fn rejects_max_gas_above_bound() {
    let vm = vm_with(constants());
    assert_eq!(
        vm.check_gas(&txn(100, 4_000_001, 1)),
        err(StatusCode::MaxGasUnitsExceedsMaxGasUnitsBound)
    );
}

#[test]
fn rejects_max_gas_below_intrinsic() {
    let mut g = constants();
    g.min_transaction_gas_units = 150;
    g.gas_unit_scaling_factor = 1;
    let vm = vm_with(g);
    assert_eq!(
        vm.check_gas(&txn(100, 100, 1)),
        err(StatusCode::MaxGasUnitsBelowMinTransactionGasUnits)
    );
    assert_eq!(
        vm.check_gas(&txn(100, 149, 1)),
        err(StatusCode::MaxGasUnitsBelowMinTransactionGasUnits)
    );
    assert_eq!(vm.check_gas(&txn(100, 150, 1)), Ok(()));
}

#[test]
fn rejects_price_out_of_bounds() {
    let mut g = constants();
    g.min_price_per_gas_unit = 5;
    let vm = vm_with(g);
    assert_eq!(vm.check_gas(&txn(100, 10, 4)), err(StatusCode::GasUnitPriceBelowMinBound));
    assert_eq!(vm.check_gas(&txn(100, 10, 5)), Ok(()));
    assert_eq!(vm.check_gas(&txn(100, 10, 10_001)), err(StatusCode::GasUnitPriceAboveMaxBound));
}

#[test]
fn first_violated_rule_names_the_rejection() {
    let mut g = constants();
    g.max_transaction_size_in_bytes = 1024;
    g.min_price_per_gas_unit = 5;
    g.min_transaction_gas_units = 2_000_000;
    let vm = vm_with(g);
    // Every rule is violated: the size decides.
    assert_eq!(
        vm.check_gas(&txn(2048, 5_000_000, 0)),
        err(StatusCode::ExceededMaxTransactionSize)
    );
    // All but the size: the bound on gas decides.
    assert_eq!(
        vm.check_gas(&txn(10, 5_000_000, 0)),
        err(StatusCode::MaxGasUnitsExceedsMaxGasUnitsBound)
    );
    // Intrinsic cost and price: the intrinsic cost decides.
    assert_eq!(
        vm.check_gas(&txn(10, 1, 0)),
        err(StatusCode::MaxGasUnitsBelowMinTransactionGasUnits)
    );
    assert_eq!(
        vm.check_gas(&txn(10, 1, 20_000)),
        err(StatusCode::MaxGasUnitsBelowMinTransactionGasUnits)
    );
}

#[test]
fn intrinsic_gas_formula() {
    let g = constants();
    assert_eq!(calculate_intrinsic_gas(0, &g), 600);
    assert_eq!(calculate_intrinsic_gas(600, &g), 600);
    assert_eq!(calculate_intrinsic_gas(601, &g), 608);
    assert_eq!(calculate_intrinsic_gas(1000, &g), 600 + 8 * 400);
    assert_eq!(min_transaction_fee(1000, &g), 3);
    assert_eq!(min_transaction_fee(4096, &g), (600 + 8 * 3496) / 1000);
    let mut big = constants();
    big.intrinsic_gas_per_byte = u64::MAX;
    big.min_transaction_gas_units = u64::MAX;
    big.large_transaction_cutoff = 0;
    assert_eq!(
        calculate_intrinsic_gas(u64::MAX, &big),
        u64::MAX as u128 + (u64::MAX as u128) * (u64::MAX as u128)
    );
}

#[test]
fn meter_deducts_and_runs_out() {
    let table = CostTable { gas_constants: constants() };
    let mut meter = GasStatus::new(&table, 5);
    assert!(meter.is_metered());
    assert_eq!(meter.internal_gas_left(), 5000);
    assert_eq!(meter.remaining_gas(), 5);
    assert_eq!(meter.deduct_gas(1500), Ok(()));
    assert_eq!(meter.internal_gas_left(), 3500);
    assert_eq!(meter.remaining_gas(), 3);
    assert_eq!(meter.deduct_gas(3501), Err(VMStatus::Error(StatusCode::OutOfGas)));
    assert_eq!(meter.internal_gas_left(), 0);
    assert_eq!(meter.cost_table().gas_constants, constants());
}

#[test]
fn unmetered_meter_never_charges() {
    let mut meter = GasStatus::new_unmetered();
    assert!(!meter.is_metered());
    assert_eq!(meter.deduct_gas(u64::MAX), Ok(()));
    assert_eq!(meter.internal_gas_left(), 0);
    assert_eq!(meter.remaining_gas(), 0);
    assert_eq!(charge_global_write_gas_usage(&mut meter, 1000), Ok(()));
}

#[test]
fn global_write_charge_for_three_accounts() {
    let mut g = constants();
    g.global_memory_per_byte_write_cost = 1;
    g.default_account_size = 600;
    g.gas_unit_scaling_factor = 1;
    let table = CostTable { gas_constants: g };
    let mut meter = GasStatus::new(&table, 5000);
    assert_eq!(charge_global_write_gas_usage(&mut meter, 3), Ok(()));
    assert_eq!(meter.internal_gas_left(), 3200);
    let mut exact = GasStatus::new(&table, 1800);
    assert_eq!(charge_global_write_gas_usage(&mut exact, 3), Ok(()));
    assert_eq!(exact.internal_gas_left(), 0);
    let mut short = GasStatus::new(&table, 1799);
    assert_eq!(
        charge_global_write_gas_usage(&mut short, 3),
        Err(VMStatus::Error(StatusCode::OutOfGas))
    );
    assert_eq!(short.internal_gas_left(), 0);
    let mut none = GasStatus::new(&table, 10);
    assert_eq!(charge_global_write_gas_usage(&mut none, 0), Ok(()));
    assert_eq!(none.internal_gas_left(), 10);
}

#[test]
fn global_write_charge_beyond_any_meter() {
    let mut g = constants();
    g.global_memory_per_byte_write_cost = u64::MAX;
    g.default_account_size = u64::MAX;
    g.gas_unit_scaling_factor = 1;
    let table = CostTable { gas_constants: g };
    let mut meter = GasStatus::new(&table, u64::MAX);
    assert_eq!(
        charge_global_write_gas_usage(&mut meter, u64::MAX),
        Err(VMStatus::Error(StatusCode::OutOfGas))
    );
    assert_eq!(meter.internal_gas_left(), 0);
    g.default_account_size = 1;
    let table = CostTable { gas_constants: g };
    let mut meter = GasStatus::new(&table, u64::MAX);
    assert_eq!(
        charge_global_write_gas_usage(&mut meter, 2),
        Err(VMStatus::Error(StatusCode::OutOfGas))
    );
    let mut meter = GasStatus::new(&table, u64::MAX);
    assert_eq!(charge_global_write_gas_usage(&mut meter, 1), Ok(()));
    assert_eq!(meter.internal_gas_left(), 0);
}

#[test]
fn declared_units_agree_with_the_schedule_of_the_chain() {
    let core = CoreGasConstants::default();
    let own = constants();
    assert_eq!(own.gas_unit_scaling_factor, core.gas_unit_scaling_factor);
    assert_eq!(own.min_transaction_gas_units, core.min_transaction_gas_units.get());
    assert_eq!(own.default_account_size, core.default_account_size.get());
    for size in [0u64, 600, 601, 1000, 4096] {
        let intrinsic = calculate_intrinsic_gas(size, &own);
        let expected = core.to_external_units(InternalGasUnits::new(intrinsic as u64)).get();
        assert_eq!(min_transaction_fee(size, &own), expected as u128);
    }
}
