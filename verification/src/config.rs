//! The snapshot of on-chain configuration that an adapter instance works
//! under, and the admission of a transaction's gas parameters against it.

use vstd::prelude::*;
use crate::gas::{CostTable, GasConstants, min_transaction_fee, spec_min_transaction_fee};
use crate::status::{StatusCode, VMStatus};
use crate::types::TransactionMetadata;

verus! {

/// The version of the protocol that the chain runs.
#[derive(Clone, Copy, Debug, PartialEq, Eq, Structural)]
pub struct DiemVersion {
    pub major: u64,
}

/// The first protocol version that knows multi-agent transactions.
pub const MULTI_AGENT_VERSION: u64 = 3;

/// The configuration record that holds the gas schedule.
#[derive(Clone, Copy, Debug, PartialEq, Eq, Structural)]
pub struct VMConfig {
    pub gas_schedule: CostTable,
}

/// Who may publish what: the hashes of the scripts that are allowed (none
/// listed: any script), and whether anyone may publish modules.
#[derive(Clone, Debug)]
pub struct VMPublishingOption {
    pub script_allow_list: Vec<Vec<u8>>,
    pub is_open_module: bool,
}

/// The adapter's configuration: three records read from chain state when the
/// instance is made, any of which may have been missing there.
#[derive(Clone, Debug)]
pub struct DiemVMImpl {
    on_chain_config: Option<VMConfig>,
    version: Option<DiemVersion>,
    publishing_option: Option<VMPublishingOption>,
}

/// Read access for those who test the adapter.
#[derive(Clone, Copy)]
pub struct DiemVMInternals<'a>(&'a DiemVMImpl);

/// The answer of one accessor: the record, or a startup failure where it was
/// never found.
pub open spec fn spec_found<T>(record: Option<T>) -> Result<T, VMStatus> {
    match record {
        Some(r) => Ok(r),
        None => Err(VMStatus::Error(StatusCode::VmStartupFailure)),
    }
}

/// The transaction is no larger than the schedule allows.
pub open spec fn spec_size_within_limit(txn: TransactionMetadata, g: GasConstants) -> bool {
    txn.transaction_size <= g.max_transaction_size_in_bytes
}

/// The gas that the transaction may use is no more than the schedule allows.
pub open spec fn spec_max_gas_within_bound(txn: TransactionMetadata, g: GasConstants) -> bool {
    txn.max_gas_amount <= g.maximum_number_of_gas_units
}

/// The gas that the transaction may use covers its intrinsic cost.
pub open spec fn spec_max_gas_covers_intrinsic(txn: TransactionMetadata, g: GasConstants) -> bool {
    txn.max_gas_amount >= spec_min_transaction_fee(txn.transaction_size, g)
}

/// The price offered is no less than the least accepted.
pub open spec fn spec_price_at_least_min(txn: TransactionMetadata, g: GasConstants) -> bool {
    txn.gas_unit_price >= g.min_price_per_gas_unit
}

/// The price offered is no more than the most accepted.
pub open spec fn spec_price_at_most_max(txn: TransactionMetadata, g: GasConstants) -> bool {
    txn.gas_unit_price <= g.max_price_per_gas_unit
}

/// The five admission rules in their order: the first that is violated names
/// the rejection, and the later ones are not looked at.
pub open spec fn spec_check_gas(txn: TransactionMetadata, g: GasConstants) -> Result<(), VMStatus> {
    if !spec_size_within_limit(txn, g) {
        Err(VMStatus::Error(StatusCode::ExceededMaxTransactionSize))
    } else if !spec_max_gas_within_bound(txn, g) {
        Err(VMStatus::Error(StatusCode::MaxGasUnitsExceedsMaxGasUnitsBound))
    } else if !spec_max_gas_covers_intrinsic(txn, g) {
        Err(VMStatus::Error(StatusCode::MaxGasUnitsBelowMinTransactionGasUnits))
    } else if !spec_price_at_least_min(txn, g) {
        Err(VMStatus::Error(StatusCode::GasUnitPriceBelowMinBound))
    } else if !spec_price_at_most_max(txn, g) {
        Err(VMStatus::Error(StatusCode::GasUnitPriceAboveMaxBound))
    } else {
        Ok(())
    }
}

impl DiemVMImpl {
    /// The gas configuration record, if it was found.
    pub closed spec fn spec_on_chain_config(&self) -> Option<VMConfig> {
        self.on_chain_config
    }

    /// The protocol version, if it was found.
    pub closed spec fn spec_version(&self) -> Option<DiemVersion> {
        self.version
    }

    /// The publishing option, if it was found.
    pub closed spec fn spec_publishing_option(&self) -> Option<VMPublishingOption> {
        self.publishing_option
    }

    /// The gas schedule, if its record was found.
    pub open spec fn spec_gas_schedule(&self) -> Option<CostTable> {
        match self.spec_on_chain_config() {
            Some(c) => Some(c.gas_schedule),
            None => None,
        }
    }

    /// The gas schedule, where there is one, can turn internal units into
    /// declared ones.
    pub open spec fn wf(&self) -> bool {
        self.spec_gas_schedule() matches Some(t) ==> t.wf()
    }

    /// An instance over the three records as they were read from chain state:
    /// `None` stands for a record that was not found.
    pub fn new(
        on_chain_config: Option<VMConfig>,
        version: Option<DiemVersion>,
        publishing_option: Option<VMPublishingOption>,
    ) -> (vm: DiemVMImpl)
        ensures
            vm.spec_on_chain_config() == on_chain_config,
            vm.spec_version() == version,
            vm.spec_publishing_option() == publishing_option,
    {
        let mut vm = DiemVMImpl { on_chain_config: None, version: None, publishing_option: None };
        vm.load_configs_impl(on_chain_config, version, publishing_option);
        vm
    }

    /// An instance over three records that are at hand.
    pub fn init_with_config(
        version: DiemVersion,
        on_chain_config: VMConfig,
        publishing_option: VMPublishingOption,
    ) -> (vm: DiemVMImpl)
        ensures
            vm.spec_on_chain_config() == Some(on_chain_config),
            vm.spec_version() == Some(version),
            vm.spec_publishing_option() == Some(publishing_option),
    {
        DiemVMImpl {
            on_chain_config: Some(on_chain_config),
            version: Some(version),
            publishing_option: Some(publishing_option),
        }
    }

    /// Read access for those who test the adapter.
    pub fn internals(&self) -> (i: DiemVMInternals<'_>)
        ensures
            i.spec_vm() == *self,
    {
        DiemVMInternals(self)
    }

    fn load_configs_impl(
        &mut self,
        on_chain_config: Option<VMConfig>,
        version: Option<DiemVersion>,
        publishing_option: Option<VMPublishingOption>,
    )
        ensures
            final(self).spec_on_chain_config() == on_chain_config,
            final(self).spec_version() == version,
            final(self).spec_publishing_option() == publishing_option,
    {
        self.on_chain_config = on_chain_config;
        self.version = version;
        self.publishing_option = publishing_option;
    }

    /// The publishing option, or a startup failure where its record was never
    /// found.
    pub fn publishing_option(&self) -> (r: Result<&VMPublishingOption, VMStatus>)
        ensures
            match r {
                Ok(p) => self.spec_publishing_option() == Some(*p),
                Err(e) => self.spec_publishing_option() is None && e == VMStatus::Error(
                    StatusCode::VmStartupFailure,
                ),
            },
    {
        match &self.publishing_option {
            Some(p) => Ok(p),
            None => Err(VMStatus::Error(StatusCode::VmStartupFailure)),
        }
    }

    /// The gas schedule, or a startup failure where its record was never found.
    pub fn get_gas_schedule(&self) -> (r: Result<&CostTable, VMStatus>)
        ensures
            match r {
                Ok(t) => self.spec_gas_schedule() == Some(*t),
                Err(e) => self.spec_gas_schedule() is None && e == VMStatus::Error(
                    StatusCode::VmStartupFailure,
                ),
            },
    {
        match &self.on_chain_config {
            Some(config) => Ok(&config.gas_schedule),
            None => Err(VMStatus::Error(StatusCode::VmStartupFailure)),
        }
    }

    /// The protocol version, or a startup failure where its record was never
    /// found.
    pub fn get_diem_version(&self) -> (r: Result<DiemVersion, VMStatus>)
        ensures
            r == spec_found(self.spec_version()),
    {
        match self.version {
            Some(v) => Ok(v),
            None => Err(VMStatus::Error(StatusCode::VmStartupFailure)),
        }
    }

    /// Admits or rejects a transaction by its gas parameters alone. Without a
    /// gas schedule the answer is a startup failure. Else the five rules are
    /// tried in their order, and the first that the transaction violates
    /// names the rejection.
    pub fn check_gas(&self, txn_data: &TransactionMetadata) -> (r: Result<(), VMStatus>)
        requires
            self.wf(),
        ensures
            r == match self.spec_gas_schedule() {
                Some(t) => spec_check_gas(*txn_data, t.gas_constants),
                None => Err(VMStatus::Error(StatusCode::VmStartupFailure)),
            },
    {
        let gas_constants: GasConstants = match self.get_gas_schedule() {
            Ok(t) => t.gas_constants,
            Err(e) => {
                return Err(e);
            },
        };
        if txn_data.transaction_size() > gas_constants.max_transaction_size_in_bytes {
            return Err(VMStatus::Error(StatusCode::ExceededMaxTransactionSize));
        }
        if txn_data.max_gas_amount() > gas_constants.maximum_number_of_gas_units {
            return Err(VMStatus::Error(StatusCode::MaxGasUnitsExceedsMaxGasUnitsBound));
        }
        let min_txn_fee: u128 = min_transaction_fee(txn_data.transaction_size(), &gas_constants);
        if (txn_data.max_gas_amount() as u128) < min_txn_fee {
            return Err(VMStatus::Error(StatusCode::MaxGasUnitsBelowMinTransactionGasUnits));
        }
        if txn_data.gas_unit_price() < gas_constants.min_price_per_gas_unit {
            return Err(VMStatus::Error(StatusCode::GasUnitPriceBelowMinBound));
        }
        if txn_data.gas_unit_price() > gas_constants.max_price_per_gas_unit {
            return Err(VMStatus::Error(StatusCode::GasUnitPriceAboveMaxBound));
        }
        Ok(())
    }
}

impl<'a> DiemVMInternals<'a> {
    /// The adapter that is read.
    pub closed spec fn spec_vm(&self) -> DiemVMImpl {
        *self.0
    }

    pub fn new(internal: &'a DiemVMImpl) -> (i: Self)
        ensures
            i.spec_vm() == *internal,
    {
        DiemVMInternals(internal)
    }

    /// The gas schedule if it has been loaded, or a startup failure.
    pub fn gas_schedule(self) -> (r: Result<&'a CostTable, VMStatus>)
        ensures
            match r {
                Ok(t) => self.spec_vm().spec_gas_schedule() == Some(*t),
                Err(e) => self.spec_vm().spec_gas_schedule() is None && e == VMStatus::Error(
                    StatusCode::VmStartupFailure,
                ),
            },
    {
        self.0.get_gas_schedule()
    }

    /// The protocol version if it has been loaded, or a startup failure.
    pub fn diem_version(self) -> (r: Result<DiemVersion, VMStatus>)
        ensures
            r == spec_found(self.spec_vm().spec_version()),
    {
        self.0.get_diem_version()
    }
}

/// A transaction is admitted if and only if it keeps all five rules.
pub proof fn lemma_check_gas_admits(txn: TransactionMetadata, g: GasConstants)
    ensures
        spec_check_gas(txn, g) is Ok <==> spec_size_within_limit(txn, g)
            && spec_max_gas_within_bound(txn, g) && spec_max_gas_covers_intrinsic(txn, g)
            && spec_price_at_least_min(txn, g) && spec_price_at_most_max(txn, g),
{
}

/// Each rejection names the first rule that the transaction violates,
/// whatever later rules it violates too: size, then the bound on gas, then
/// the intrinsic cost, then the least price, then the greatest.
pub proof fn lemma_check_gas_reports_first_violation(txn: TransactionMetadata, g: GasConstants)
    ensures
        spec_check_gas(txn, g) == Err::<(), VMStatus>(
            VMStatus::Error(StatusCode::ExceededMaxTransactionSize),
        ) <==> !spec_size_within_limit(txn, g),
        spec_check_gas(txn, g) == Err::<(), VMStatus>(
            VMStatus::Error(StatusCode::MaxGasUnitsExceedsMaxGasUnitsBound),
        ) <==> spec_size_within_limit(txn, g) && !spec_max_gas_within_bound(txn, g),
        spec_check_gas(txn, g) == Err::<(), VMStatus>(
            VMStatus::Error(StatusCode::MaxGasUnitsBelowMinTransactionGasUnits),
        ) <==> spec_size_within_limit(txn, g) && spec_max_gas_within_bound(txn, g)
            && !spec_max_gas_covers_intrinsic(txn, g),
        spec_check_gas(txn, g) == Err::<(), VMStatus>(
            VMStatus::Error(StatusCode::GasUnitPriceBelowMinBound),
        ) <==> spec_size_within_limit(txn, g) && spec_max_gas_within_bound(txn, g)
            && spec_max_gas_covers_intrinsic(txn, g) && !spec_price_at_least_min(txn, g),
        spec_check_gas(txn, g) == Err::<(), VMStatus>(
            VMStatus::Error(StatusCode::GasUnitPriceAboveMaxBound),
        ) <==> spec_size_within_limit(txn, g) && spec_max_gas_within_bound(txn, g)
            && spec_max_gas_covers_intrinsic(txn, g) && spec_price_at_least_min(txn, g)
            && !spec_price_at_most_max(txn, g),
{
}

/// Every rejection by the gas rules is an admission rejection: it never
/// stops the block.
pub proof fn lemma_check_gas_rejections_are_admission(txn: TransactionMetadata, g: GasConstants)
    ensures
        spec_check_gas(txn, g) matches Err(e) ==> crate::status::spec_class(e)
            == crate::status::ErrorClass::AdmissionRejection,
{
}

} // verus!
