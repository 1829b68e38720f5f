//! Gas metering and the cost model for contract execution.
//!
//! Gas costs reflect computational complexity; the meter bounds how much of
//! it one execution may use.

use vstd::prelude::*;

verus! {

/// Cost, in gas, of each kind of operation.
#[derive(Debug, Clone, Copy)]
pub struct GasCosts {
    /// Basic arithmetic operations (add, sub, mul, div).
    pub arithmetic: u64,
    /// Memory read and write operations.
    pub memory: u64,
    /// Function call overhead.
    pub call: u64,
    /// Storage read (expensive).
    pub storage_read: u64,
    /// Storage write (very expensive).
    pub storage_write: u64,
    /// Event emission.
    pub emit_event: u64,
}

impl GasCosts {
    /// A table prices persistence sensibly when a storage write costs more
    /// than a storage read, and a storage read more than a memory access.
    pub open spec fn prices_persistence(self) -> bool {
        self.memory < self.storage_read < self.storage_write
    }

    /// The default cost table.
    pub fn default() -> (costs: Self)
        ensures
            costs.arithmetic == 3,
            costs.memory == 5,
            costs.call == 10,
            costs.storage_read == 100,
            costs.storage_write == 200,
            costs.emit_event == 50,
            costs.prices_persistence(),
    {
        GasCosts {
            arithmetic: 3,
            memory: 5,
            call: 10,
            storage_read: 100,
            storage_write: 200,
            emit_event: 50,
        }
    }
}

/// Gas metering configuration: a cost table and a limit per transaction.
pub struct GasConfig {
    /// Gas costs for operations.
    pub costs: GasCosts,
    /// Maximum gas per transaction.
    pub max_gas: u64,
}

impl Default for GasConfig {
    /// The default cost table with a limit of one million gas.
    fn default() -> (config: Self)
        ensures
            config.costs.arithmetic == 3,
            config.costs.memory == 5,
            config.costs.call == 10,
            config.costs.storage_read == 100,
            config.costs.storage_write == 200,
            config.costs.emit_event == 50,
            config.max_gas == 1_000_000,
    {
        GasConfig { costs: GasCosts::default(), max_gas: 1_000_000 }
    }
}

/// What a gas meter stands for: the gas used so far and the limit.
pub struct GasView {
    pub used: nat,
    pub limit: nat,
}

impl GasView {
    /// Both counters fit the meter's 64-bit fields.
    pub open spec fn bounded(self) -> bool {
        self.used <= u64::MAX && self.limit <= u64::MAX
    }

    /// The meter after `amount` more gas: the sum, held at the largest
    /// 64-bit value where it would pass it.
    pub open spec fn consume(self, amount: nat) -> GasView {
        GasView {
            used: if self.used + amount > u64::MAX {
                u64::MAX as nat
            } else {
                self.used + amount
            },
            limit: self.limit,
        }
    }

    /// More gas has been used than the limit allows.
    pub open spec fn exhausted(self) -> bool {
        self.used > self.limit
    }

    /// Gas left under the limit, never below zero.
    pub open spec fn remaining(self) -> nat {
        if self.used > self.limit {
            0
        } else {
            (self.limit - self.used) as nat
        }
    }
}

/// Gas meter: tracks consumption against a fixed limit.
pub struct GasMeter {
    used: u64,
    limit: u64,
}

impl View for GasMeter {
    type V = GasView;

    closed spec fn view(&self) -> GasView {
        GasView { used: self.used as nat, limit: self.limit as nat }
    }
}

impl GasMeter {
    /// A meter with nothing used yet.
    pub fn new(limit: u64) -> (meter: Self)
        ensures
            meter@ == (GasView { used: 0, limit: limit as nat }),
    {
        GasMeter { used: 0, limit }
    }

    /// Adds `amount` to the gas used, saturating, and fails when the total
    /// is then above the limit. The total stays as added either way.
    pub fn consume(&mut self, amount: u64) -> (r: Result<(), &'static str>)
        ensures
            final(self)@ == old(self)@.consume(amount as nat),
            r is Err <==> final(self)@.exhausted(),
            r matches Err(msg) ==> msg@ == "Out of gas"@,
    {
        self.used = self.used.saturating_add(amount);
        if self.used > self.limit {
            Err("Out of gas")
        } else {
            Ok(())
        }
    }

    /// Gas left under the limit; zero once the limit is passed.
    pub fn remaining(&self) -> (left: u64)
        ensures
            left == self@.remaining(),
    {
        self.limit.saturating_sub(self.used)
    }

    /// Every meter holds counters that fit 64 bits.
    pub proof fn lemma_bounded(&self)
        ensures
            self@.bounded(),
    {
    }
}

/// Spending exactly the limit on a fresh meter succeeds and leaves nothing.
pub proof fn lemma_exact_spend_allowed(limit: nat)
    requires
        limit <= u64::MAX,
    ensures
        !(GasView { used: 0, limit }).consume(limit).exhausted(),
        (GasView { used: 0, limit }).consume(limit).remaining() == 0,
{
}

/// Once a meter under a limit below the 64-bit maximum has nothing left,
/// every further positive amount is refused and nothing is left afterwards.
pub proof fn lemma_spent_meter_refuses(meter: GasView, amount: nat)
    requires
        meter.bounded(),
        meter.limit < u64::MAX,
        meter.remaining() == 0,
        0 < amount <= u64::MAX,
    ensures
        meter.consume(amount).exhausted(),
        meter.consume(amount).remaining() == 0,
{
}

/// A refused amount leaves the meter exhausted for good: every later
/// request is refused as well.
pub proof fn lemma_exhaustion_is_final(meter: GasView, amount: nat)
    requires
        meter.exhausted(),
        meter.bounded(),
    ensures
        meter.consume(amount).exhausted(),
        meter.consume(amount).bounded(),
        meter.consume(amount).remaining() == 0,
{
}

/// Consumption adds up: two requests leave the meter as one request for
/// their sum does.
pub proof fn lemma_consume_adds(meter: GasView, first: nat, second: nat)
    requires
        meter.bounded(),
    ensures
        meter.consume(first).consume(second) == meter.consume(first + second),
{
}

} // verus!
