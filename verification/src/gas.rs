//! The gas schedule's constants, the intrinsic cost of a transaction, and the
//! meter that one transaction's session is charged against.

use vstd::prelude::*;
use crate::status::{StatusCode, VMStatus};

verus! {

/// The constants of the gas schedule. Amounts named `..gas_units` or `..cost`
/// are in internal units, but for `maximum_number_of_gas_units`, which is in
/// the units that a sender declares.
#[derive(Clone, Copy, Debug, PartialEq, Eq, Structural)]
pub struct GasConstants {
    pub global_memory_per_byte_cost: u64,
    pub global_memory_per_byte_write_cost: u64,
    pub min_transaction_gas_units: u64,
    pub large_transaction_cutoff: u64,
    pub intrinsic_gas_per_byte: u64,
    pub maximum_number_of_gas_units: u64,
    pub min_price_per_gas_unit: u64,
    pub max_price_per_gas_unit: u64,
    pub max_transaction_size_in_bytes: u64,
    /// How many internal units make one declared unit.
    pub gas_unit_scaling_factor: u64,
    pub default_account_size: u64,
}

/// The part of the cost table that the adapter reads.
#[derive(Clone, Copy, Debug, PartialEq, Eq, Structural)]
pub struct CostTable {
    pub gas_constants: GasConstants,
}

impl GasConstants {
    /// Constants are usable when internal units can be turned into declared ones.
    pub open spec fn wf(&self) -> bool {
        self.gas_unit_scaling_factor > 0
    }

    pub fn is_wf(&self) -> (b: bool)
        ensures
            b == self.wf(),
    {
        self.gas_unit_scaling_factor > 0
    }
}

impl CostTable {
    pub open spec fn wf(&self) -> bool {
        self.gas_constants.wf()
    }
}

/// The constants of a schedule under which nothing costs anything.
pub open spec fn spec_zero_cost_constants() -> GasConstants {
    GasConstants {
        global_memory_per_byte_cost: 0,
        global_memory_per_byte_write_cost: 0,
        min_transaction_gas_units: 0,
        large_transaction_cutoff: 0,
        intrinsic_gas_per_byte: 0,
        maximum_number_of_gas_units: 0,
        min_price_per_gas_unit: 0,
        max_price_per_gas_unit: 0,
        max_transaction_size_in_bytes: 0,
        gas_unit_scaling_factor: 1,
        default_account_size: 0,
    }
}

/// The intrinsic gas of a transaction of `size` bytes, in internal units: the
/// flat minimum, and a price per byte for what exceeds the cutoff.
pub open spec fn spec_intrinsic_gas(size: u64, g: GasConstants) -> int {
    if size > g.large_transaction_cutoff {
        g.min_transaction_gas_units + g.intrinsic_gas_per_byte * (size - g.large_transaction_cutoff)
    } else {
        g.min_transaction_gas_units as int
    }
}

/// The least amount of gas, in declared units, that a transaction of `size`
/// bytes has to bring.
pub open spec fn spec_min_transaction_fee(size: u64, g: GasConstants) -> int {
    spec_intrinsic_gas(size, g) / (g.gas_unit_scaling_factor as int)
}

/// The charge for the growth of global state, in internal units: one account
/// of default size, at the price per byte written, for each mutated account.
pub open spec fn spec_global_write_charge(num_mutated_accounts: u64, g: GasConstants) -> int {
    num_mutated_accounts * (g.global_memory_per_byte_write_cost * g.default_account_size)
}

proof fn lemma_mul_u64_bound(a: u64, b: u64)
    ensures
        0 <= a * b <= 0xffff_ffff_ffff_ffff * 0xffff_ffff_ffff_ffff,
{
    assert(0 <= a * b <= 0xffff_ffff_ffff_ffff * 0xffff_ffff_ffff_ffff) by (nonlinear_arith)
        requires
            0 <= a <= 0xffff_ffff_ffff_ffff,
            0 <= b <= 0xffff_ffff_ffff_ffff,
    ;
}

/// Computes the intrinsic gas of a transaction of `size` bytes.
pub fn calculate_intrinsic_gas(size: u64, g: &GasConstants) -> (r: u128)
    ensures
        r == spec_intrinsic_gas(size, *g),
{
    if size > g.large_transaction_cutoff {
        let excess: u64 = size - g.large_transaction_cutoff;
        proof {
            lemma_mul_u64_bound(g.intrinsic_gas_per_byte, excess);
        }
        g.min_transaction_gas_units as u128 + g.intrinsic_gas_per_byte as u128 * excess as u128
    } else {
        g.min_transaction_gas_units as u128
    }
}

/// Computes the least amount of gas, in declared units, that a transaction of
/// `size` bytes has to bring.
pub fn min_transaction_fee(size: u64, g: &GasConstants) -> (r: u128)
    requires
        g.wf(),
    ensures
        r == spec_min_transaction_fee(size, *g),
{
    calculate_intrinsic_gas(size, g) / (g.gas_unit_scaling_factor as u128)
}

/// Whether a meter that holds `gas_left` can pay `amount`: one that does not
/// charge can pay anything.
pub open spec fn spec_can_pay(metered: bool, gas_left: u64, amount: int) -> bool {
    !metered || amount <= gas_left
}

/// The answer of a meter that is asked for `amount`.
pub open spec fn spec_deduct_result(metered: bool, gas_left: u64, amount: int) -> Result<
    (),
    VMStatus,
> {
    if spec_can_pay(metered, gas_left, amount) {
        Ok(())
    } else {
        Err(VMStatus::Error(StatusCode::OutOfGas))
    }
}

/// What a meter holds after it was asked for `amount`: a meter that does not
/// charge keeps what it has, one that cannot pay is emptied.
pub open spec fn spec_deduct_left(metered: bool, gas_left: u64, amount: int) -> int {
    if !metered {
        gas_left as int
    } else if amount <= gas_left {
        gas_left - amount
    } else {
        0
    }
}

/// The gas meter of one transaction's session.
#[derive(Debug)]
pub struct GasStatus {
    cost_table: CostTable,
    gas_left: u64,
    charge: bool,
}

impl GasStatus {
    /// The gas that is left, in internal units.
    pub closed spec fn spec_gas_left(&self) -> u64 {
        self.gas_left
    }

    /// Whether charges are deducted at all.
    pub closed spec fn spec_metered(&self) -> bool {
        self.charge
    }

    /// The cost table in force.
    pub closed spec fn spec_cost_table(&self) -> CostTable {
        self.cost_table
    }

    pub open spec fn wf(&self) -> bool {
        self.spec_cost_table().wf()
    }

    /// A meter that starts with `gas_left` declared units under `cost_table`.
    pub fn new(cost_table: &CostTable, gas_left: u64) -> (s: GasStatus)
        requires
            cost_table.wf(),
            gas_left * cost_table.gas_constants.gas_unit_scaling_factor <= u64::MAX,
        ensures
            s.wf(),
            s.spec_metered(),
            s.spec_cost_table() == *cost_table,
            s.spec_gas_left() == gas_left * cost_table.gas_constants.gas_unit_scaling_factor,
    {
        GasStatus {
            cost_table: *cost_table,
            gas_left: gas_left * cost_table.gas_constants.gas_unit_scaling_factor,
            charge: true,
        }
    }

    /// A meter that never charges: for calls whose outcome must not depend on
    /// the gas that is available.
    pub fn new_unmetered() -> (s: GasStatus)
        ensures
            s.wf(),
            !s.spec_metered(),
            s.spec_gas_left() == 0,
            s.spec_cost_table().gas_constants == spec_zero_cost_constants(),
    {
        GasStatus {
            cost_table: CostTable {
                gas_constants: GasConstants {
                    global_memory_per_byte_cost: 0,
                    global_memory_per_byte_write_cost: 0,
                    min_transaction_gas_units: 0,
                    large_transaction_cutoff: 0,
                    intrinsic_gas_per_byte: 0,
                    maximum_number_of_gas_units: 0,
                    min_price_per_gas_unit: 0,
                    max_price_per_gas_unit: 0,
                    max_transaction_size_in_bytes: 0,
                    gas_unit_scaling_factor: 1,
                    default_account_size: 0,
                },
            },
            gas_left: 0,
            charge: false,
        }
    }

    pub fn cost_table(&self) -> (t: &CostTable)
        ensures
            *t == self.spec_cost_table(),
    {
        &self.cost_table
    }

    pub fn is_metered(&self) -> (b: bool)
        ensures
            b == self.spec_metered(),
    {
        self.charge
    }

    /// The gas that is left, in internal units.
    pub fn internal_gas_left(&self) -> (n: u64)
        ensures
            n == self.spec_gas_left(),
    {
        self.gas_left
    }

    /// The gas that is left, in declared units, rounded down.
    pub fn remaining_gas(&self) -> (n: u64)
        requires
            self.wf(),
        ensures
            n == self.spec_gas_left() / self.spec_cost_table().gas_constants.gas_unit_scaling_factor,
    {
        self.gas_left / self.cost_table.gas_constants.gas_unit_scaling_factor
    }

    /// Takes `amount` internal units from the meter. A meter that does not
    /// charge stays as it is. One that holds less than `amount` is emptied,
    /// and the call fails with out-of-gas.
    pub fn deduct_gas(&mut self, amount: u64) -> (r: Result<(), VMStatus>)
        ensures
            final(self).spec_cost_table() == old(self).spec_cost_table(),
            final(self).spec_metered() == old(self).spec_metered(),
            r == spec_deduct_result(old(self).spec_metered(), old(self).spec_gas_left(), amount as int),
            final(self).spec_gas_left() == spec_deduct_left(
                old(self).spec_metered(),
                old(self).spec_gas_left(),
                amount as int,
            ),
    {
        if !self.charge {
            return Ok(());
        }
        if self.gas_left >= amount {
            self.gas_left = self.gas_left - amount;
            Ok(())
        } else {
            self.gas_left = 0;
            Err(VMStatus::Error(StatusCode::OutOfGas))
        }
    }
}

/// Charges the meter for the growth of global state that a transaction
/// caused: `num_mutated_accounts` is the number of distinct accounts that it
/// mutated, the sender not counted. The charge does not depend on how many
/// bytes were written. Where the meter holds less than the charge it is
/// emptied, and the call fails with out-of-gas.
pub fn charge_global_write_gas_usage(gas_status: &mut GasStatus, num_mutated_accounts: u64) -> (r:
    Result<(), VMStatus>)
    ensures
        final(gas_status).spec_cost_table() == old(gas_status).spec_cost_table(),
        final(gas_status).spec_metered() == old(gas_status).spec_metered(),
        r == spec_deduct_result(
            old(gas_status).spec_metered(),
            old(gas_status).spec_gas_left(),
            spec_global_write_charge(
                num_mutated_accounts,
                old(gas_status).spec_cost_table().gas_constants,
            ),
        ),
        final(gas_status).spec_gas_left() == spec_deduct_left(
            old(gas_status).spec_metered(),
            old(gas_status).spec_gas_left(),
            spec_global_write_charge(
                num_mutated_accounts,
                old(gas_status).spec_cost_table().gas_constants,
            ),
        ),
{
    let g: GasConstants = gas_status.cost_table().gas_constants;
    let w: u64 = g.global_memory_per_byte_write_cost;
    let s: u64 = g.default_account_size;
    proof {
        lemma_mul_u64_bound(w, s);
    }
    let per_account: u128 = w as u128 * s as u128;
    let ghost charge: int = spec_global_write_charge(num_mutated_accounts, g);
    assert(charge == num_mutated_accounts * per_account);
    if num_mutated_accounts == 0 || per_account == 0 {
        assert(charge == 0) by (nonlinear_arith)
            requires
                charge == num_mutated_accounts * per_account,
                num_mutated_accounts == 0 || per_account == 0,
        ;
        return gas_status.deduct_gas(0);
    }
    if per_account > 0xffff_ffff_ffff_ffff {
        assert(charge > 0xffff_ffff_ffff_ffff) by (nonlinear_arith)
            requires
                charge == num_mutated_accounts * per_account,
                num_mutated_accounts >= 1,
                per_account > 0xffff_ffff_ffff_ffff,
        ;
        return gas_status.deduct_gas_beyond_reach(Ghost(charge));
    }
    let per_account64: u64 = per_account as u64;
    proof {
        lemma_mul_u64_bound(num_mutated_accounts, per_account64);
    }
    let total: u128 = num_mutated_accounts as u128 * per_account64 as u128;
    assert(total == charge);
    if total > 0xffff_ffff_ffff_ffff {
        gas_status.deduct_gas_beyond_reach(Ghost(charge))
    } else {
        gas_status.deduct_gas(total as u64)
    }
}

impl GasStatus {
    /// Takes from the meter a charge that no meter can hold.
    fn deduct_gas_beyond_reach(&mut self, Ghost(amount): Ghost<int>) -> (r: Result<(), VMStatus>)
        requires
            amount > u64::MAX,
        ensures
            final(self).spec_cost_table() == old(self).spec_cost_table(),
            final(self).spec_metered() == old(self).spec_metered(),
            r == spec_deduct_result(old(self).spec_metered(), old(self).spec_gas_left(), amount),
            final(self).spec_gas_left() == spec_deduct_left(
                old(self).spec_metered(),
                old(self).spec_gas_left(),
                amount,
            ),
    {
        if !self.charge {
            return Ok(());
        }
        self.gas_left = 0;
        Err(VMStatus::Error(StatusCode::OutOfGas))
    }
}

} // verus!
