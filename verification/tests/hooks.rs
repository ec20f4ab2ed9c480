use move_core_types::account_address::AccountAddress as CoreAddress;
use move_core_types::identifier::Identifier;
use move_core_types::language_storage::TypeTag;
use move_core_types::value::{serialize_values, MoveValue as CoreValue};
use vm_adapter::config::{DiemVMImpl, DiemVersion, VMConfig, VMPublishingOption};
use vm_adapter::gas::{CostTable, GasConstants, GasStatus};
use vm_adapter::hooks::{make_call, translate_outcome, ErrorPolicy, HookCall};
use vm_adapter::names::{SystemFunction, SystemModule};
use vm_adapter::status::{EngineError, EngineErrorKind, ErrorClass, StatusCode, VMStatus};
use vm_adapter::types::{AccountAddress, ChainId, MoveValue, TransactionMetadata};

fn constants() -> GasConstants {
    GasConstants {
        global_memory_per_byte_cost: 4,
        global_memory_per_byte_write_cost: 1,
        min_transaction_gas_units: 600,
        large_transaction_cutoff: 600,
        intrinsic_gas_per_byte: 8,
        maximum_number_of_gas_units: 4_000_000,
        min_price_per_gas_unit: 0,
        max_price_per_gas_unit: 10_000,
        max_transaction_size_in_bytes: 4096,
        gas_unit_scaling_factor: 1,
        default_account_size: 600,
    }
}

fn vm(major: u64) -> DiemVMImpl {
    DiemVMImpl::init_with_config(
        DiemVersion { major },
        VMConfig { gas_schedule: CostTable { gas_constants: constants() } },
        VMPublishingOption { script_allow_list: vec![], is_open_module: true },
    )
}

fn sender() -> [u8; 16] {
    [0, 1, 2, 3, 4, 5, 6, 7, 8, 9, 10, 11, 12, 13, 14, 15]
}

fn single_agent() -> TransactionMetadata {
    TransactionMetadata {
        sender: AccountAddress::new(sender()),
        authentication_key_preimage: vec![1, 2, 3],
        secondary_signers: vec![],
        secondary_authentication_key_preimages: vec![],
        sequence_number: 5,
        max_gas_amount: 1_000,
        gas_unit_price: 2,
        transaction_size: 200,
        expiration_timestamp_secs: 99,
        chain_id: ChainId::new(4),
        script_hash: vec![9; 32],
    }
}

fn multi_agent() -> TransactionMetadata {
    let mut t = single_agent();
    t.secondary_signers = vec![AccountAddress::new([0xaa; 16]), AccountAddress::new([0xbb; 16])];
    t.secondary_authentication_key_preimages = vec![vec![7, 7], vec![8, 8, 8]];
    t
}

fn xus() -> Identifier {
    Identifier::new("XUS").unwrap()
}

fn xus_tag() -> TypeTag {
    diem_types::account_config::type_tag_for_currency_code(xus())
}

fn sha3(bytes: &[u8]) -> Vec<u8> {
    diem_crypto::HashValue::sha3_256_of(bytes).to_vec()
}

fn single_agent_args() -> Vec<Vec<u8>> {
    serialize_values(&vec![
        CoreValue::Signer(CoreAddress::new(sender())),
        CoreValue::U64(5),
        CoreValue::vector_u8(vec![1, 2, 3]),
        CoreValue::U64(2),
        CoreValue::U64(1_000),
        CoreValue::U64(99),
        CoreValue::U8(4),
        CoreValue::vector_u8(vec![9; 32]),
    ])
}

fn multi_agent_args() -> Vec<Vec<u8>> {
    serialize_values(&vec![
        CoreValue::Signer(CoreAddress::new(sender())),
        CoreValue::U64(5),
        CoreValue::vector_u8(vec![1, 2, 3]),
        CoreValue::vector_address(vec![CoreAddress::new([0xaa; 16]), CoreAddress::new([0xbb; 16])]),
        CoreValue::Vector(vec![
            CoreValue::vector_u8(sha3(&[7, 7])),
            CoreValue::vector_u8(sha3(&[8, 8, 8])),
        ]),
        CoreValue::U64(2),
        CoreValue::U64(1_000),
        CoreValue::U64(99),
        CoreValue::U8(4),
    ])
}

fn assert_account_call(call: &HookCall, function: SystemFunction) {
    assert_eq!(call.module, SystemModule::DiemAccount);
    assert_eq!(call.function, function);
}

#[test]
fn system_names() {
    assert_eq!(SystemModule::DiemAccount.name(), "DiemAccount");
    assert_eq!(SystemModule::DiemBlock.name(), "DiemBlock");
    assert_eq!(SystemModule::DiemConfig.name(), "DiemConfig");
    assert_eq!(SystemModule::Oracle.name(), "Oracle");
    assert_eq!(SystemModule::Upgrade.name(), "Upgrade");
    assert_eq!(
        SystemModule::Oracle.address().bytes,
        move_core_types::language_storage::CORE_CODE_ADDRESS.into_bytes()
    );
    assert_eq!(SystemFunction::ScriptPrologue.name(), "script_prologue");
    assert_eq!(SystemFunction::MultiAgentScriptPrologue.name(), "multi_agent_script_prologue");
    assert_eq!(SystemFunction::ModulePrologue.name(), "module_prologue");
    assert_eq!(SystemFunction::WritesetPrologue.name(), "writeset_prologue");
    assert_eq!(SystemFunction::WritesetEpilogue.name(), "writeset_epilogue");
    assert_eq!(SystemFunction::UserEpilogue.name(), "epilogue");
    assert_eq!(SystemFunction::BlockPrologue.name(), "block_prologue");
    assert_eq!(SystemFunction::CheckUpgrade.name(), "check_upgrade");
    assert_eq!(SystemFunction::ResetPayload.name(), "reset_payload");
    assert_eq!(SystemFunction::UpgradeReconfig.name(), "upgrade_reconfig");
    assert_eq!(SystemFunction::BlockPrologue.home(), SystemModule::DiemBlock);
    assert_eq!(SystemFunction::CheckUpgrade.home(), SystemModule::Oracle);
    assert_eq!(SystemFunction::ResetPayload.home(), SystemModule::Upgrade);
    assert_eq!(SystemFunction::UpgradeReconfig.home(), SystemModule::DiemConfig);
    assert_eq!(SystemFunction::UserEpilogue.home(), SystemModule::DiemAccount);
}

#[test]
fn address_helpers() {
    let a = AccountAddress::new(sender());
    assert_eq!(a.to_vec(), sender().to_vec());
    assert!(a.same_as(&AccountAddress::new(sender())));
    assert!(!a.same_as(&AccountAddress::new([0; 16])));
    assert_eq!(AccountAddress::core_code_address().bytes[15], 1);
}

#[test]
fn single_agent_script_prologue() {
    let call = vm(3).run_script_prologue(&single_agent(), xus()).unwrap();
    assert_account_call(&call, SystemFunction::ScriptPrologue);
    assert_eq!(call.ty_args, vec![xus_tag()]);
    assert_eq!(call.args, single_agent_args());
    assert!(!call.metered);
    assert_eq!(call.policy, ErrorPolicy::Prologue);
}

#[test]
fn multi_agent_script_prologue_at_the_threshold() {
    let call = vm(3).run_script_prologue(&multi_agent(), xus()).unwrap();
    assert_account_call(&call, SystemFunction::MultiAgentScriptPrologue);
    assert_eq!(call.ty_args, vec![xus_tag()]);
    assert_eq!(call.args, multi_agent_args());
    assert_eq!(call.args.len(), 9);
    assert!(!call.metered);
    assert_eq!(call.policy, ErrorPolicy::Prologue);
    let later = vm(4).run_script_prologue(&multi_agent(), xus()).unwrap();
    assert_eq!(later.function, SystemFunction::MultiAgentScriptPrologue);
}

#[test]
fn multi_agent_transaction_below_the_threshold() {
    let call = vm(2).run_script_prologue(&multi_agent(), xus()).unwrap();
    assert_account_call(&call, SystemFunction::ScriptPrologue);
    assert_eq!(call.args, single_agent_args());
    assert_eq!(call.args.len(), 8);
}

#[test]
fn script_prologue_without_version() {
    let vm = DiemVMImpl::new(None, None, None);
    let r = vm.run_script_prologue(&single_agent(), xus());
    assert_eq!(r.err(), Some(VMStatus::Error(StatusCode::VmStartupFailure)));
}

#[test]
fn module_prologue() {
    let call = vm(3).run_module_prologue(&multi_agent(), xus());
    assert_account_call(&call, SystemFunction::ModulePrologue);
    assert_eq!(call.ty_args, vec![xus_tag()]);
    let mut expected = single_agent_args();
    expected.pop();
    assert_eq!(call.args, expected);
    assert!(!call.metered);
    assert_eq!(call.policy, ErrorPolicy::Prologue);
}

fn epilogue_args(remaining: u64) -> Vec<Vec<u8>> {
    serialize_values(&vec![
        CoreValue::Signer(CoreAddress::new(sender())),
        CoreValue::U64(5),
        CoreValue::U64(2),
        CoreValue::U64(1_000),
        CoreValue::U64(remaining),
    ])
}

#[test]
fn success_and_failure_epilogue() {
    let table = CostTable { gas_constants: constants() };
    let meter = GasStatus::new(&table, 321);
    let call = vm(3).run_success_epilogue(&meter, &single_agent(), xus());
    assert_account_call(&call, SystemFunction::UserEpilogue);
    assert_eq!(call.ty_args, vec![xus_tag()]);
    assert_eq!(call.args, epilogue_args(321));
    assert!(call.metered);
    assert_eq!(call.policy, ErrorPolicy::SuccessEpilogue);
    let call = vm(3).run_failure_epilogue(&meter, &single_agent(), xus());
    assert_account_call(&call, SystemFunction::UserEpilogue);
    assert_eq!(call.args, epilogue_args(321));
    assert!(call.metered);
    assert_eq!(call.policy, ErrorPolicy::MustSucceed);
}

#[test]
fn global_writes_are_charged_before_the_success_epilogue() {
    let table = CostTable { gas_constants: constants() };
    let mut meter = GasStatus::new(&table, 5_000);
    let call = vm(3)
        .charge_and_run_success_epilogue(&mut meter, 3, &single_agent(), xus())
        .unwrap();
    assert_eq!(meter.internal_gas_left(), 3_200);
    assert_eq!(call.function, SystemFunction::UserEpilogue);
    assert_eq!(call.args, epilogue_args(3_200));
}

#[test]
fn no_success_epilogue_when_the_charge_cannot_be_paid() {
    let table = CostTable { gas_constants: constants() };
    let mut meter = GasStatus::new(&table, 1_799);
    let r = vm(3).charge_and_run_success_epilogue(&mut meter, 3, &single_agent(), xus());
    assert_eq!(r.err(), Some(VMStatus::Error(StatusCode::OutOfGas)));
    assert_eq!(meter.internal_gas_left(), 0);
}

#[test]
fn writeset_prologue_and_epilogue() {
    let call = vm(3).run_writeset_prologue(&single_agent());
    assert_account_call(&call, SystemFunction::WritesetPrologue);
    assert!(call.ty_args.is_empty());
    assert_eq!(
        call.args,
        serialize_values(&vec![
            CoreValue::Signer(CoreAddress::new(sender())),
            CoreValue::U64(5),
            CoreValue::vector_u8(vec![1, 2, 3]),
            CoreValue::U64(99),
            CoreValue::U8(4),
        ])
    );
    assert_eq!(call.policy, ErrorPolicy::Prologue);
    let call = vm(3).run_writeset_epilogue(&single_agent(), true);
    assert_account_call(&call, SystemFunction::WritesetEpilogue);
    assert!(call.ty_args.is_empty());
    assert_eq!(
        call.args,
        serialize_values(&vec![
            CoreValue::Signer(CoreAddress::new(sender())),
            CoreValue::U64(5),
            CoreValue::Bool(true),
        ])
    );
    assert_eq!(call.policy, ErrorPolicy::MustSucceed);
    let call = vm(3).run_writeset_epilogue(&single_agent(), false);
    assert_eq!(call.args[2], vec![0u8]);
}

#[test]
fn make_call_serializes_each_value() {
    let values = vec![
        MoveValue::U8(200),
        MoveValue::U64(0x0102030405060708),
        MoveValue::Bool(true),
        MoveValue::Signer(AccountAddress::new(sender())),
        MoveValue::VectorU8(vec![5, 6]),
        MoveValue::VectorAddress(vec![AccountAddress::new([3; 16])]),
        MoveValue::VectorVectorU8(vec![vec![1], vec![]]),
    ];
    let call = make_call(
        SystemFunction::CheckUpgrade,
        vec![],
        &values,
        true,
        ErrorPolicy::Prologue,
    );
    assert_eq!(call.module, SystemModule::Oracle);
    assert_eq!(call.args[0], vec![200]);
    assert_eq!(call.args[1], vec![8, 7, 6, 5, 4, 3, 2, 1]);
    assert_eq!(call.args[2], vec![1]);
    assert_eq!(call.args[3], sender().to_vec());
    assert_eq!(call.args[4], vec![2, 5, 6]);
    let mut addresses = vec![1u8];
    addresses.extend_from_slice(&[3; 16]);
    assert_eq!(call.args[5], addresses);
    assert_eq!(call.args[6], vec![2, 1, 1, 0]);
}

fn failure(kind: EngineErrorKind) -> EngineError {
    EngineError { kind, code: 77 }
}

#[test]
fn prologue_failures_reject() {
    for kind in [EngineErrorKind::Verification, EngineErrorKind::Abort, EngineErrorKind::Other] {
        let r = translate_outcome(ErrorPolicy::Prologue, Err(failure(kind)));
        assert_eq!(r, Err(VMStatus::Rejected(failure(kind))));
        assert_eq!(r.unwrap_err().class(), ErrorClass::AdmissionRejection);
    }
    assert_eq!(translate_outcome(ErrorPolicy::Prologue, Ok(())), Ok(()));
}

#[test]
fn success_epilogue_failures() {
    let r = translate_outcome(
        ErrorPolicy::SuccessEpilogue,
        Err(failure(EngineErrorKind::Verification)),
    );
    assert_eq!(r, Err(VMStatus::Error(StatusCode::UnknownInvariantViolationError)));
    assert_eq!(r.unwrap_err().class(), ErrorClass::Fatal);
    let r = translate_outcome(ErrorPolicy::SuccessEpilogue, Err(failure(EngineErrorKind::Abort)));
    assert_eq!(r, Err(VMStatus::Rejected(failure(EngineErrorKind::Abort))));
    assert_eq!(translate_outcome(ErrorPolicy::SuccessEpilogue, Ok(())), Ok(()));
}

#[test]
fn failure_epilogue_must_not_fail() {
    for kind in [EngineErrorKind::Verification, EngineErrorKind::Abort, EngineErrorKind::Other] {
        let r = translate_outcome(ErrorPolicy::MustSucceed, Err(failure(kind)));
        assert_eq!(r, Err(VMStatus::Error(StatusCode::UnknownInvariantViolationError)));
    }
    assert_eq!(translate_outcome(ErrorPolicy::MustSucceed, Ok(())), Ok(()));
}

/// A stand-in for the engine that counts what it is asked to do.
struct CountingEngine {
    calls: usize,
}

impl CountingEngine {
    fn execute(&mut self, _call: HookCall) -> Result<(), EngineError> {
        self.calls += 1;
        Ok(())
    }
}

fn try_transaction(vm: &DiemVMImpl, engine: &mut CountingEngine, txn: &TransactionMetadata) -> Result<(), VMStatus> {
    let call = vm.admit_script_transaction(txn, xus())?;
    let policy = call.policy;
    translate_outcome(policy, engine.execute(call))
}

#[test]
fn oversized_transaction_is_refused_before_any_engine_call() {
    let mut g = constants();
    g.max_transaction_size_in_bytes = 1024;
    let vm = DiemVMImpl::init_with_config(
        DiemVersion { major: 3 },
        VMConfig { gas_schedule: CostTable { gas_constants: g } },
        VMPublishingOption { script_allow_list: vec![], is_open_module: true },
    );
    let mut engine = CountingEngine { calls: 0 };
    let mut txn = single_agent();
    txn.transaction_size = 2048;
    assert_eq!(
        try_transaction(&vm, &mut engine, &txn),
        Err(VMStatus::Error(StatusCode::ExceededMaxTransactionSize))
    );
    assert_eq!(engine.calls, 0);
    txn.transaction_size = 1024;
    txn.max_gas_amount = 3_992;
    assert_eq!(try_transaction(&vm, &mut engine, &txn), Ok(()));
    assert_eq!(engine.calls, 1);
}

#[test]
fn admission_prepares_the_prologue_of_the_transaction() {
    let call = vm(3).admit_script_transaction(&multi_agent(), xus()).unwrap();
    assert_eq!(call.function, SystemFunction::MultiAgentScriptPrologue);
    assert_eq!(call.args, multi_agent_args());
    let call = vm(3).admit_module_transaction(&single_agent(), xus()).unwrap();
    assert_eq!(call.function, SystemFunction::ModulePrologue);
    let mut txn = single_agent();
    txn.gas_unit_price = 10_001;
    assert_eq!(
        vm(3).admit_module_transaction(&txn, xus()).err(),
        Some(VMStatus::Error(StatusCode::GasUnitPriceAboveMaxBound))
    );
    let bare = DiemVMImpl::new(None, None, None);
    assert_eq!(
        bare.admit_script_transaction(&single_agent(), xus()).err(),
        Some(VMStatus::Error(StatusCode::VmStartupFailure))
    );
}
