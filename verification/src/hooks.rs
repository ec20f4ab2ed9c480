//! The system hooks that frame a transaction: which entry point of the
//! standard library is called, with which arguments, against which meter, and
//! what a failure of the call means.
//!
//! The adapter does not hold the engine. Each function here prepares one
//! call; whoever holds the session makes it and hands the engine's answer to
//! `translate_outcome`.

use vstd::prelude::*;
use move_core_types::identifier::Identifier;
use move_core_types::language_storage::TypeTag;
use crate::config::{DiemVMImpl, DiemVersion, MULTI_AGENT_VERSION, spec_check_gas};
use crate::gas::{GasStatus, charge_global_write_gas_usage, spec_deduct_left, spec_deduct_result, spec_global_write_charge};
use crate::names::{SystemFunction, SystemModule, spec_home};
use crate::status::{EngineError, EngineErrorKind, StatusCode, VMStatus};
use crate::trusted::{MAX_SEQUENCE_LENGTH, serialize_value, sha3_256, spec_currency_type_tag, spec_move_value_bytes, spec_sha3_256, spec_value_within_limits};
use crate::types::{AccountAddress, copy_bytes, MoveValue, MoveValueView, TransactionMetadata, spec_address_list, spec_bytes_list, spec_is_multi_agent};

verus! {

/// What a failure of a call means for the transaction.
#[derive(Clone, Copy, Debug, PartialEq, Eq, Structural)]
pub enum ErrorPolicy {
    /// Any failure, a verification error too, rejects the transaction.
    Prologue,
    /// A verification error is an invariant violation; any other failure
    /// rejects the transaction as a prologue's would.
    SuccessEpilogue,
    /// Any failure is an invariant violation.
    MustSucceed,
}

/// One call of a system function, ready to be made.
#[derive(Debug)]
pub struct HookCall {
    pub module: SystemModule,
    pub function: SystemFunction,
    pub ty_args: Vec<TypeTag>,
    /// The arguments in their order, each in its canonical serialization.
    pub args: Vec<Vec<u8>>,
    /// Whether the call is charged to the session's live meter. Where it is
    /// not, it runs against a fresh meter that charges nothing.
    pub metered: bool,
    pub policy: ErrorPolicy,
}

/// What a `HookCall` holds.
pub struct HookCallView {
    pub module: SystemModule,
    pub function: SystemFunction,
    pub ty_args: Seq<TypeTag>,
    pub args: Seq<Seq<u8>>,
    pub metered: bool,
    pub policy: ErrorPolicy,
}

impl View for HookCall {
    type V = HookCallView;

    open spec fn view(&self) -> HookCallView {
        HookCallView {
            module: self.module,
            function: self.function,
            ty_args: self.ty_args@,
            args: spec_bytes_list(self.args@),
            metered: self.metered,
            policy: self.policy,
        }
    }
}

/// What a list of values holds.
pub open spec fn spec_values(l: Seq<MoveValue>) -> Seq<MoveValueView> {
    l.map_values(|v: MoveValue| v@)
}

/// The call of `function` with `values` as its arguments.
pub open spec fn spec_hook_call(
    function: SystemFunction,
    ty_args: Seq<TypeTag>,
    values: Seq<MoveValueView>,
    metered: bool,
    policy: ErrorPolicy,
) -> HookCallView {
    HookCallView {
        module: spec_home(function),
        function,
        ty_args,
        args: values.map_values(|v: MoveValueView| spec_move_value_bytes(v)),
        metered,
        policy,
    }
}

/// What the engine's answer to a call means under a policy.
pub open spec fn spec_translate(policy: ErrorPolicy, outcome: Result<(), EngineError>) -> Result<
    (),
    VMStatus,
> {
    match outcome {
        Ok(()) => Ok(()),
        Err(e) => match policy {
            ErrorPolicy::Prologue => Err(VMStatus::Rejected(e)),
            ErrorPolicy::SuccessEpilogue => if e.kind == EngineErrorKind::Verification {
                Err(VMStatus::Error(StatusCode::UnknownInvariantViolationError))
            } else {
                Err(VMStatus::Rejected(e))
            },
            ErrorPolicy::MustSucceed => Err(
                VMStatus::Error(StatusCode::UnknownInvariantViolationError),
            ),
        },
    }
}

/// Turns the engine's answer to a call into the adapter's: no failure of
/// the engine leaves the adapter as it came.
pub fn translate_outcome(policy: ErrorPolicy, outcome: Result<(), EngineError>) -> (r: Result<
    (),
    VMStatus,
>)
    ensures
        r == spec_translate(policy, outcome),
{
    match outcome {
        Ok(()) => Ok(()),
        Err(e) => match policy {
            ErrorPolicy::Prologue => Err(VMStatus::Rejected(e)),
            ErrorPolicy::SuccessEpilogue => match e.kind {
                EngineErrorKind::Verification => Err(
                    VMStatus::Error(StatusCode::UnknownInvariantViolationError),
                ),
                _ => Err(VMStatus::Rejected(e)),
            },
            ErrorPolicy::MustSucceed => Err(
                VMStatus::Error(StatusCode::UnknownInvariantViolationError),
            ),
        },
    }
}

/// The sequences of a transaction that go into a call are no longer than
/// the canonical serialization allows.
pub open spec fn spec_encodable(txn: TransactionMetadata) -> bool {
    &&& txn.authentication_key_preimage@.len() <= MAX_SEQUENCE_LENGTH
    &&& txn.secondary_signers@.len() <= MAX_SEQUENCE_LENGTH
    &&& txn.secondary_authentication_key_preimages@.len() <= MAX_SEQUENCE_LENGTH
    &&& txn.script_hash@.len() <= MAX_SEQUENCE_LENGTH
}

/// The digests of the secondary signers' key preimages, in their order.
pub open spec fn spec_secondary_key_hashes(txn: TransactionMetadata) -> Seq<Seq<u8>> {
    txn.secondary_authentication_key_preimages@.map_values(|p: Vec<u8>| spec_sha3_256(p@))
}

/// Whether a transaction goes through the multi-agent prologue under a
/// protocol version: the version has to know the form, and the transaction
/// has to use it.
pub open spec fn spec_uses_multi_agent_prologue(txn: TransactionMetadata, version: DiemVersion) -> bool {
    version.major >= MULTI_AGENT_VERSION && spec_is_multi_agent(txn)
}

/// The arguments of the single-agent script prologue.
pub open spec fn spec_script_prologue_values(txn: TransactionMetadata) -> Seq<MoveValueView> {
    seq![
        MoveValueView::Signer(txn.sender@),
        MoveValueView::U64(txn.sequence_number),
        MoveValueView::VectorU8(txn.authentication_key_preimage@),
        MoveValueView::U64(txn.gas_unit_price),
        MoveValueView::U64(txn.max_gas_amount),
        MoveValueView::U64(txn.expiration_timestamp_secs),
        MoveValueView::U8(txn.chain_id.id),
        MoveValueView::VectorU8(txn.script_hash@),
    ]
}

/// The arguments of the multi-agent script prologue.
pub open spec fn spec_multi_agent_prologue_values(txn: TransactionMetadata) -> Seq<MoveValueView> {
    seq![
        MoveValueView::Signer(txn.sender@),
        MoveValueView::U64(txn.sequence_number),
        MoveValueView::VectorU8(txn.authentication_key_preimage@),
        MoveValueView::VectorAddress(spec_address_list(txn.secondary_signers@)),
        MoveValueView::VectorVectorU8(spec_secondary_key_hashes(txn)),
        MoveValueView::U64(txn.gas_unit_price),
        MoveValueView::U64(txn.max_gas_amount),
        MoveValueView::U64(txn.expiration_timestamp_secs),
        MoveValueView::U8(txn.chain_id.id),
    ]
}

/// The arguments of the module prologue.
pub open spec fn spec_module_prologue_values(txn: TransactionMetadata) -> Seq<MoveValueView> {
    seq![
        MoveValueView::Signer(txn.sender@),
        MoveValueView::U64(txn.sequence_number),
        MoveValueView::VectorU8(txn.authentication_key_preimage@),
        MoveValueView::U64(txn.gas_unit_price),
        MoveValueView::U64(txn.max_gas_amount),
        MoveValueView::U64(txn.expiration_timestamp_secs),
        MoveValueView::U8(txn.chain_id.id),
    ]
}

/// The arguments of the epilogue, after success and after failure alike.
pub open spec fn spec_epilogue_values(txn: TransactionMetadata, gas_remaining: u64) -> Seq<
    MoveValueView,
> {
    seq![
        MoveValueView::Signer(txn.sender@),
        MoveValueView::U64(txn.sequence_number),
        MoveValueView::U64(txn.gas_unit_price),
        MoveValueView::U64(txn.max_gas_amount),
        MoveValueView::U64(gas_remaining),
    ]
}

/// The arguments of the write-set prologue.
pub open spec fn spec_writeset_prologue_values(txn: TransactionMetadata) -> Seq<MoveValueView> {
    seq![
        MoveValueView::Signer(txn.sender@),
        MoveValueView::U64(txn.sequence_number),
        MoveValueView::VectorU8(txn.authentication_key_preimage@),
        MoveValueView::U64(txn.expiration_timestamp_secs),
        MoveValueView::U8(txn.chain_id.id),
    ]
}

/// The arguments of the write-set epilogue.
pub open spec fn spec_writeset_epilogue_values(
    txn: TransactionMetadata,
    should_trigger_reconfiguration: bool,
) -> Seq<MoveValueView> {
    seq![
        MoveValueView::Signer(txn.sender@),
        MoveValueView::U64(txn.sequence_number),
        MoveValueView::Bool(should_trigger_reconfiguration),
    ]
}

/// The call that a script transaction's prologue makes under a protocol
/// version.
pub open spec fn spec_script_prologue_call(
    txn: TransactionMetadata,
    currency_code: Identifier,
    version: DiemVersion,
) -> HookCallView {
    if spec_uses_multi_agent_prologue(txn, version) {
        spec_hook_call(
            SystemFunction::MultiAgentScriptPrologue,
            seq![spec_currency_type_tag(currency_code)],
            spec_multi_agent_prologue_values(txn),
            false,
            ErrorPolicy::Prologue,
        )
    } else {
        spec_hook_call(
            SystemFunction::ScriptPrologue,
            seq![spec_currency_type_tag(currency_code)],
            spec_script_prologue_values(txn),
            false,
            ErrorPolicy::Prologue,
        )
    }
}

/// What the gas rules say of a transaction under an adapter's configuration:
/// without a gas schedule, a startup failure.
pub open spec fn spec_gas_admission(vm: DiemVMImpl, txn: TransactionMetadata) -> Result<(), VMStatus> {
    match vm.spec_gas_schedule() {
        Some(t) => spec_check_gas(txn, t.gas_constants),
        None => Err(VMStatus::Error(StatusCode::VmStartupFailure)),
    }
}

/// The protocol version under which an admitted script transaction's
/// prologue is chosen, or the status that refuses the transaction before
/// any call: the gas rules' rejection, or a startup failure without a
/// version.
pub open spec fn spec_admission(vm: DiemVMImpl, txn: TransactionMetadata) -> Result<
    DiemVersion,
    VMStatus,
> {
    match spec_gas_admission(vm, txn) {
        Err(e) => Err(e),
        Ok(_) => match vm.spec_version() {
            Some(v) => Ok(v),
            None => Err(VMStatus::Error(StatusCode::VmStartupFailure)),
        },
    }
}

/// The gas that a meter shows in declared units.
pub open spec fn spec_remaining_gas(gas_status: GasStatus) -> u64 {
    gas_status.spec_gas_left() / gas_status.spec_cost_table().gas_constants.gas_unit_scaling_factor
}

/// The call of the epilogue against a meter.
pub open spec fn spec_epilogue_call(
    txn: TransactionMetadata,
    currency_code: Identifier,
    gas_status: GasStatus,
    policy: ErrorPolicy,
) -> HookCallView {
    spec_hook_call(
        SystemFunction::UserEpilogue,
        seq![spec_currency_type_tag(currency_code)],
        spec_epilogue_values(txn, spec_remaining_gas(gas_status)),
        true,
        policy,
    )
}

/// A copy of a list of addresses.
fn copy_addresses(l: &Vec<AccountAddress>) -> (r: Vec<AccountAddress>)
    ensures
        r@ == l@,
{
    let mut r: Vec<AccountAddress> = Vec::new();
    let mut i: usize = 0;
    while i < l.len()
        invariant
            i <= l.len(),
            r@ == l@.take(i as int),
        decreases l.len() - i,
    {
        r.push(l[i]);
        assert(l@.take(i + 1) =~= l@.take(i as int).push(l@[i as int]));
        i = i + 1;
    }
    assert(l@.take(l.len() as int) =~= l@);
    r
}

/// The digest of each of the secondary signers' key preimages.
fn secondary_key_hashes(txn: &TransactionMetadata) -> (r: Vec<Vec<u8>>)
    ensures
        spec_bytes_list(r@) == spec_secondary_key_hashes(*txn),
        forall|i: int| 0 <= i < r@.len() ==> (#[trigger] r@[i])@.len() == 32,
{
    let preimages = &txn.secondary_authentication_key_preimages;
    let mut r: Vec<Vec<u8>> = Vec::new();
    let mut i: usize = 0;
    while i < preimages.len()
        invariant
            i <= preimages.len(),
            r@.len() == i,
            forall|j: int| 0 <= j < i ==> (#[trigger] r@[j])@ == spec_sha3_256(preimages@[j]@),
            forall|j: int| 0 <= j < i ==> (#[trigger] r@[j])@.len() == 32,
        decreases preimages.len() - i,
    {
        r.push(sha3_256(&preimages[i]));
        i = i + 1;
    }
    assert(spec_bytes_list(r@) =~= spec_secondary_key_hashes(*txn));
    r
}

/// Prepares the call of `function` with `values` as its arguments: this is
/// the one way in which the adapter calls the standard library.
pub fn make_call(
    function: SystemFunction,
    ty_args: Vec<TypeTag>,
    values: &Vec<MoveValue>,
    metered: bool,
    policy: ErrorPolicy,
) -> (call: HookCall)
    requires
        forall|i: int| 0 <= i < values@.len() ==> spec_value_within_limits((#[trigger] values@[i])@),
    ensures
        call@ == spec_hook_call(function, ty_args@, spec_values(values@), metered, policy),
{
    let mut args: Vec<Vec<u8>> = Vec::new();
    let mut i: usize = 0;
    while i < values.len()
        invariant
            i <= values.len(),
            args@.len() == i,
            forall|j: int| 0 <= j < values@.len() ==> spec_value_within_limits((#[trigger] values@[j])@),
            forall|j: int| 0 <= j < i ==> (#[trigger] args@[j])@ == spec_move_value_bytes(values@[j]@),
        decreases values.len() - i,
    {
        args.push(serialize_value(&values[i]));
        i = i + 1;
    }
    let call = HookCall { module: function.home(), function, ty_args, args, metered, policy };
    assert(call@.args =~= spec_values(values@).map_values(
        |v: MoveValueView| spec_move_value_bytes(v),
    ));
    call
}

impl DiemVMImpl {
    /// Prepares the prologue of a script transaction. The multi-agent form is
    /// called only where the protocol version knows it and the transaction
    /// names secondary signers; else the single-agent form is, on newer
    /// versions too. Without a protocol version the answer is a startup
    /// failure.
    pub fn run_script_prologue(&self, txn_data: &TransactionMetadata, currency_code: Identifier) -> (r:
        Result<HookCall, VMStatus>)
        requires
            spec_encodable(*txn_data),
        ensures
            match self.spec_version() {
                Some(v) => r is Ok && r.unwrap()@ == spec_script_prologue_call(
                    *txn_data,
                    currency_code,
                    v,
                ),
                None => r is Err && r.unwrap_err() == VMStatus::Error(StatusCode::VmStartupFailure),
            },
    {
        let version = match self.get_diem_version() {
            Ok(v) => v,
            Err(e) => {
                return Err(e);
            },
        };
        let gas_currency_ty = diem_types::account_config::type_tag_for_currency_code(currency_code);
        let mut ty_args: Vec<TypeTag> = Vec::new();
        ty_args.push(gas_currency_ty);
        assert(ty_args@ =~= seq![spec_currency_type_tag(currency_code)]);
        let mut values: Vec<MoveValue> = Vec::new();
        values.push(MoveValue::Signer(txn_data.sender()));
        values.push(MoveValue::U64(txn_data.sequence_number()));
        values.push(MoveValue::VectorU8(copy_bytes(&txn_data.authentication_key_preimage)));
        if version.major >= MULTI_AGENT_VERSION && txn_data.is_multi_agent() {
            let hashes = secondary_key_hashes(txn_data);
            values.push(MoveValue::VectorAddress(copy_addresses(&txn_data.secondary_signers)));
            values.push(MoveValue::VectorVectorU8(hashes));
            values.push(MoveValue::U64(txn_data.gas_unit_price()));
            values.push(MoveValue::U64(txn_data.max_gas_amount()));
            values.push(MoveValue::U64(txn_data.expiration_timestamp_secs()));
            values.push(MoveValue::U8(txn_data.chain_id().id()));
            assert(spec_values(values@) =~= spec_multi_agent_prologue_values(*txn_data));
            assert(spec_value_within_limits(values@[4]@)) by {
                assert(spec_secondary_key_hashes(*txn_data).len()
                    == txn_data.secondary_authentication_key_preimages@.len());
                assert forall|i: int| 0 <= i < hashes@.len() implies (#[trigger] spec_bytes_list(
                    hashes@,
                )[i]).len() <= MAX_SEQUENCE_LENGTH by {
                    assert(hashes@[i]@.len() == 32);
                }
            }
            Ok(
                make_call(
                    SystemFunction::MultiAgentScriptPrologue,
                    ty_args,
                    &values,
                    false,
                    ErrorPolicy::Prologue,
                ),
            )
        } else {
            values.push(MoveValue::U64(txn_data.gas_unit_price()));
            values.push(MoveValue::U64(txn_data.max_gas_amount()));
            values.push(MoveValue::U64(txn_data.expiration_timestamp_secs()));
            values.push(MoveValue::U8(txn_data.chain_id().id()));
            values.push(MoveValue::VectorU8(copy_bytes(&txn_data.script_hash)));
            assert(spec_values(values@) =~= spec_script_prologue_values(*txn_data));
            Ok(
                make_call(
                    SystemFunction::ScriptPrologue,
                    ty_args,
                    &values,
                    false,
                    ErrorPolicy::Prologue,
                ),
            )
        }
    }
    /// Prepares the prologue of a transaction that publishes a module: the
    /// script prologue's checks, less the script hash.
    pub fn run_module_prologue(&self, txn_data: &TransactionMetadata, currency_code: Identifier) -> (call:
        HookCall)
        requires
            txn_data.authentication_key_preimage@.len() <= MAX_SEQUENCE_LENGTH,
        ensures
            call@ == spec_hook_call(
                SystemFunction::ModulePrologue,
                seq![spec_currency_type_tag(currency_code)],
                spec_module_prologue_values(*txn_data),
                false,
                ErrorPolicy::Prologue,
            ),
    {
        let gas_currency_ty = diem_types::account_config::type_tag_for_currency_code(currency_code);
        let mut ty_args: Vec<TypeTag> = Vec::new();
        ty_args.push(gas_currency_ty);
        assert(ty_args@ =~= seq![spec_currency_type_tag(currency_code)]);
        let mut values: Vec<MoveValue> = Vec::new();
        values.push(MoveValue::Signer(txn_data.sender()));
        values.push(MoveValue::U64(txn_data.sequence_number()));
        values.push(MoveValue::VectorU8(copy_bytes(&txn_data.authentication_key_preimage)));
        values.push(MoveValue::U64(txn_data.gas_unit_price()));
        values.push(MoveValue::U64(txn_data.max_gas_amount()));
        values.push(MoveValue::U64(txn_data.expiration_timestamp_secs()));
        values.push(MoveValue::U8(txn_data.chain_id().id()));
        assert(spec_values(values@) =~= spec_module_prologue_values(*txn_data));
        make_call(SystemFunction::ModulePrologue, ty_args, &values, false, ErrorPolicy::Prologue)
    }

    /// Prepares the epilogue that follows a payload that succeeded. It is
    /// charged to the live meter, and it is told what that meter holds now.
    pub fn run_success_epilogue(
        &self,
        gas_status: &GasStatus,
        txn_data: &TransactionMetadata,
        currency_code: Identifier,
    ) -> (call: HookCall)
        requires
            gas_status.wf(),
        ensures
            call@ == spec_epilogue_call(
                *txn_data,
                currency_code,
                *gas_status,
                ErrorPolicy::SuccessEpilogue,
            ),
    {
        epilogue_call(gas_status, txn_data, currency_code, ErrorPolicy::SuccessEpilogue)
    }

    /// Prepares the epilogue that follows a payload that failed: it charges
    /// the gas of the failed run and applies none of the payload's effects.
    /// Once entered it must not fail.
    pub fn run_failure_epilogue(
        &self,
        gas_status: &GasStatus,
        txn_data: &TransactionMetadata,
        currency_code: Identifier,
    ) -> (call: HookCall)
        requires
            gas_status.wf(),
        ensures
            call@ == spec_epilogue_call(*txn_data, currency_code, *gas_status, ErrorPolicy::MustSucceed),
    {
        epilogue_call(gas_status, txn_data, currency_code, ErrorPolicy::MustSucceed)
    }

    /// Charges the meter for the accounts that a successful payload mutated,
    /// and prepares the success epilogue against what is left. Where the
    /// meter cannot pay, the answer is out-of-gas and no epilogue is
    /// prepared.
    pub fn charge_and_run_success_epilogue(
        &self,
        gas_status: &mut GasStatus,
        num_mutated_accounts: u64,
        txn_data: &TransactionMetadata,
        currency_code: Identifier,
    ) -> (r: Result<HookCall, VMStatus>)
        requires
            old(gas_status).wf(),
        ensures
            final(gas_status).spec_cost_table() == old(gas_status).spec_cost_table(),
            final(gas_status).spec_metered() == old(gas_status).spec_metered(),
            final(gas_status).spec_gas_left() == spec_deduct_left(
                old(gas_status).spec_metered(),
                old(gas_status).spec_gas_left(),
                spec_global_write_charge(
                    num_mutated_accounts,
                    old(gas_status).spec_cost_table().gas_constants,
                ),
            ),
            match spec_deduct_result(
                old(gas_status).spec_metered(),
                old(gas_status).spec_gas_left(),
                spec_global_write_charge(
                    num_mutated_accounts,
                    old(gas_status).spec_cost_table().gas_constants,
                ),
            ) {
                Ok(_) => r is Ok && r.unwrap()@ == spec_epilogue_call(
                    *txn_data,
                    currency_code,
                    *final(gas_status),
                    ErrorPolicy::SuccessEpilogue,
                ),
                Err(e) => r is Err && r.unwrap_err() == e,
            },
    {
        match charge_global_write_gas_usage(gas_status, num_mutated_accounts) {
            Ok(()) => Ok(self.run_success_epilogue(gas_status, txn_data, currency_code)),
            Err(e) => Err(e),
        }
    }

    /// Prepares the prologue of a privileged write-set transaction.
    pub fn run_writeset_prologue(&self, txn_data: &TransactionMetadata) -> (call: HookCall)
        requires
            txn_data.authentication_key_preimage@.len() <= MAX_SEQUENCE_LENGTH,
        ensures
            call@ == spec_hook_call(
                SystemFunction::WritesetPrologue,
                Seq::<TypeTag>::empty(),
                spec_writeset_prologue_values(*txn_data),
                false,
                ErrorPolicy::Prologue,
            ),
    {
        let mut values: Vec<MoveValue> = Vec::new();
        values.push(MoveValue::Signer(txn_data.sender()));
        values.push(MoveValue::U64(txn_data.sequence_number()));
        values.push(MoveValue::VectorU8(copy_bytes(&txn_data.authentication_key_preimage)));
        values.push(MoveValue::U64(txn_data.expiration_timestamp_secs()));
        values.push(MoveValue::U8(txn_data.chain_id().id()));
        assert(spec_values(values@) =~= spec_writeset_prologue_values(*txn_data));
        make_call(
            SystemFunction::WritesetPrologue,
            Vec::new(),
            &values,
            false,
            ErrorPolicy::Prologue,
        )
    }

    /// Prepares the epilogue of a privileged write-set transaction, which is
    /// told whether to trigger a reconfiguration. It must not fail.
    pub fn run_writeset_epilogue(
        &self,
        txn_data: &TransactionMetadata,
        should_trigger_reconfiguration: bool,
    ) -> (call: HookCall)
        ensures
            call@ == spec_hook_call(
                SystemFunction::WritesetEpilogue,
                Seq::<TypeTag>::empty(),
                spec_writeset_epilogue_values(*txn_data, should_trigger_reconfiguration),
                false,
                ErrorPolicy::MustSucceed,
            ),
    {
        let mut values: Vec<MoveValue> = Vec::new();
        values.push(MoveValue::Signer(txn_data.sender()));
        values.push(MoveValue::U64(txn_data.sequence_number()));
        values.push(MoveValue::Bool(should_trigger_reconfiguration));
        assert(spec_values(values@) =~= spec_writeset_epilogue_values(
            *txn_data,
            should_trigger_reconfiguration,
        ));
        make_call(
            SystemFunction::WritesetEpilogue,
            Vec::new(),
            &values,
            false,
            ErrorPolicy::MustSucceed,
        )
    }

    /// Admits a script transaction. The gas rules come first: a transaction
    /// that they refuse is answered with their rejection, and no call is
    /// prepared for it. One that passes gets its prologue.
    pub fn admit_script_transaction(
        &self,
        txn_data: &TransactionMetadata,
        currency_code: Identifier,
    ) -> (r: Result<HookCall, VMStatus>)
        requires
            self.wf(),
            spec_encodable(*txn_data),
        ensures
            match spec_admission(*self, *txn_data) {
                Err(e) => r is Err && r.unwrap_err() == e,
                Ok(v) => r is Ok && r.unwrap()@ == spec_script_prologue_call(
                    *txn_data,
                    currency_code,
                    v,
                ),
            },
    {
        match self.check_gas(txn_data) {
            Ok(()) => self.run_script_prologue(txn_data, currency_code),
            Err(e) => Err(e),
        }
    }

    /// Admits a transaction that publishes a module: the gas rules first,
    /// then the module prologue.
    pub fn admit_module_transaction(
        &self,
        txn_data: &TransactionMetadata,
        currency_code: Identifier,
    ) -> (r: Result<HookCall, VMStatus>)
        requires
            self.wf(),
            txn_data.authentication_key_preimage@.len() <= MAX_SEQUENCE_LENGTH,
        ensures
            match spec_gas_admission(*self, *txn_data) {
                Err(e) => r is Err && r.unwrap_err() == e,
                Ok(_) => r is Ok && r.unwrap()@ == spec_hook_call(
                    SystemFunction::ModulePrologue,
                    seq![spec_currency_type_tag(currency_code)],
                    spec_module_prologue_values(*txn_data),
                    false,
                    ErrorPolicy::Prologue,
                ),
            },
    {
        match self.check_gas(txn_data) {
            Ok(()) => Ok(self.run_module_prologue(txn_data, currency_code)),
            Err(e) => Err(e),
        }
    }
}

/// Prepares the epilogue under a policy.
fn epilogue_call(
    gas_status: &GasStatus,
    txn_data: &TransactionMetadata,
    currency_code: Identifier,
    policy: ErrorPolicy,
) -> (call: HookCall)
    requires
        gas_status.wf(),
    ensures
        call@ == spec_epilogue_call(*txn_data, currency_code, *gas_status, policy),
{
    let gas_currency_ty = diem_types::account_config::type_tag_for_currency_code(currency_code);
    let mut ty_args: Vec<TypeTag> = Vec::new();
    ty_args.push(gas_currency_ty);
    assert(ty_args@ =~= seq![spec_currency_type_tag(currency_code)]);
    let gas_remaining: u64 = gas_status.remaining_gas();
    let mut values: Vec<MoveValue> = Vec::new();
    values.push(MoveValue::Signer(txn_data.sender()));
    values.push(MoveValue::U64(txn_data.sequence_number()));
    values.push(MoveValue::U64(txn_data.gas_unit_price()));
    values.push(MoveValue::U64(txn_data.max_gas_amount()));
    values.push(MoveValue::U64(gas_remaining));
    assert(spec_values(values@) =~= spec_epilogue_values(*txn_data, gas_remaining));
    make_call(SystemFunction::UserEpilogue, ty_args, &values, true, policy)
}

/// A script transaction goes through the multi-agent prologue, with the
/// secondary signers and the digests of their keys after the sender's key,
/// exactly where it names secondary signers and the protocol version is the
/// third or a later one. Else it goes through the single-agent prologue,
/// whose arguments name no secondary signer and end with the script's hash.
pub proof fn lemma_script_prologue_selection(
    txn: TransactionMetadata,
    currency_code: Identifier,
    version: DiemVersion,
)
    ensures
        spec_script_prologue_call(txn, currency_code, version).function == if txn.secondary_signers@.len()
            > 0 && version.major >= 3 {
            SystemFunction::MultiAgentScriptPrologue
        } else {
            SystemFunction::ScriptPrologue
        },
        spec_script_prologue_call(txn, currency_code, version).module == SystemModule::DiemAccount,
        spec_script_prologue_call(txn, currency_code, version).policy == ErrorPolicy::Prologue,
        !spec_script_prologue_call(txn, currency_code, version).metered,
        spec_script_prologue_call(txn, currency_code, version).args.len() == if txn.secondary_signers@.len()
            > 0 && version.major >= 3 {
            9int
        } else {
            8int
        },
        txn.secondary_signers@.len() > 0 && version.major >= 3 ==> spec_script_prologue_call(
            txn,
            currency_code,
            version,
        ).args[3] == spec_move_value_bytes(
            MoveValueView::VectorAddress(spec_address_list(txn.secondary_signers@)),
        ) && spec_script_prologue_call(txn, currency_code, version).args[4]
            == spec_move_value_bytes(
            MoveValueView::VectorVectorU8(spec_secondary_key_hashes(txn)),
        ),
        !(txn.secondary_signers@.len() > 0 && version.major >= 3) ==> spec_script_prologue_call(
            txn,
            currency_code,
            version,
        ).args[7] == spec_move_value_bytes(MoveValueView::VectorU8(txn.script_hash@)),
{
}

/// A failure of a prologue never stops the block, and a failure of a call
/// that must succeed always does. Under every policy a call that succeeded
/// leaves the transaction as it is, and one that failed comes back as a
/// failure.
pub proof fn lemma_translation_classes(policy: ErrorPolicy, e: EngineError)
    ensures
        spec_translate(policy, Ok(())) is Ok,
        spec_translate(ErrorPolicy::Prologue, Err(e)) matches Err(s) && crate::status::spec_class(s)
            == crate::status::ErrorClass::AdmissionRejection,
        spec_translate(ErrorPolicy::MustSucceed, Err(e)) matches Err(s) && crate::status::spec_class(
            s,
        ) == crate::status::ErrorClass::Fatal,
        spec_translate(ErrorPolicy::SuccessEpilogue, Err(e)) matches Err(s) && crate::status::spec_class(
            s,
        ) == if e.kind == EngineErrorKind::Verification {
            crate::status::ErrorClass::Fatal
        } else {
            crate::status::ErrorClass::AdmissionRejection
        },
        spec_translate(policy, Err(e)) is Err,
{
}

} // verus!
