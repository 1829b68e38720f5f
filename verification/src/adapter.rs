//! The adapters: one way to execute bytecode for each deployment target.
//!
//! The direct adapter hands every call to the harness. The chain adapter
//! first holds the state's chain context against its ownership rule, and
//! hands on only what passes.

use crate::error::{ErrorView, ExecError};
use crate::simulator::{harness_outcome, host_surface, ContractSimulator};
use crate::state::{AccountView, StateView};
use vstd::prelude::*;

pub use crate::state::{ContractState, SolanaAccount, SolanaContext};

verus! {

impl AccountView {
    /// The account may be written to, and a program other than `program_id`
    /// owns it.
    pub open spec fn foreign_writable(self, program_id: i64) -> bool {
        self.is_writable && self.owner != program_id
    }
}

/// The index of the first account from `from` on that is writable and not
/// owned by `program_id`, if there is one.
pub open spec fn first_foreign_writable(
    accounts: Seq<AccountView>,
    program_id: i64,
    from: int,
) -> Option<int>
    decreases accounts.len() - from,
{
    if from < 0 || from >= accounts.len() {
        None
    } else if accounts[from].foreign_writable(program_id) {
        Some(from)
    } else {
        first_foreign_writable(accounts, program_id, from + 1)
    }
}

/// The address of the account on which the ownership rule refuses a state:
/// the first writable account that the executing program does not own. A
/// state without chain context is never refused.
pub open spec fn ownership_refusal(state: StateView) -> Option<i64> {
    match state.solana {
        None => None,
        Some(chain) => match first_foreign_writable(chain.accounts, chain.program_id, 0) {
            Some(index) => Some(chain.accounts[index].address),
            None => None,
        },
    }
}

/// What an adapter owes for a call: a state that its validation refuses is
/// answered with the permission failure for the refused account, and for
/// any other state the outcome is one of the harness.
pub open spec fn adapter_outcome(
    refused: Option<i64>,
    bytes: Seq<u8>,
    name: Seq<char>,
    outcome: Result<(i64, ContractState), ExecError>,
) -> bool {
    match refused {
        Some(address) => outcome matches Err(error) && error@ == (ErrorView::Permission {
            address,
        }),
        None => harness_outcome(bytes, name, outcome),
    }
}

/// `outcome` is what a run of `simulator` on these arguments returned.
pub open spec fn harness_returned(
    simulator: ContractSimulator,
    wasm_bytes: &[u8],
    func_name: &str,
    args: &[i64],
    state: ContractState,
    outcome: Result<(i64, ContractState), ExecError>,
) -> bool {
    call_ensures(ContractSimulator::run, (&simulator, wasm_bytes, func_name, args, state), outcome)
}

/// The search finds an account that breaks the rule and that no earlier
/// account from `from` on breaks it; it finds none only where no account
/// from `from` on breaks it.
pub proof fn lemma_first_foreign_writable(accounts: Seq<AccountView>, program_id: i64, from: int)
    requires
        0 <= from,
    ensures
        match first_foreign_writable(accounts, program_id, from) {
            Some(index) => {
                &&& from <= index < accounts.len()
                &&& accounts[index].foreign_writable(program_id)
                &&& forall|j: int|
                    from <= j < index ==> !(#[trigger] accounts[j]).foreign_writable(program_id)
            },
            None => forall|j: int|
                from <= j < accounts.len() ==> !(#[trigger] accounts[j]).foreign_writable(
                    program_id,
                ),
        },
    decreases accounts.len() - from,
{
    if from < accounts.len() && !accounts[from].foreign_writable(program_id) {
        lemma_first_foreign_writable(accounts, program_id, from + 1);
    }
}

/// A state is refused exactly when its chain context holds a writable
/// account that the program does not own.
pub proof fn lemma_refusal_iff_foreign_writable(state: StateView)
    ensures
        ownership_refusal(state) is Some <==> (state.solana matches Some(chain) && exists|j: int|
            0 <= j < chain.accounts.len() && (#[trigger] chain.accounts[j]).foreign_writable(
                chain.program_id,
            )),
{
    if let Some(chain) = state.solana {
        lemma_first_foreign_writable(chain.accounts, chain.program_id, 0);
    }
}

/// A permission failure comes from a refusal and from nothing else: where
/// the adapter's contract holds, the outcome is the permission failure for
/// an account exactly when validation refused the state on that account.
pub proof fn lemma_permission_failure_iff_refused(
    refused: Option<i64>,
    bytes: Seq<u8>,
    name: Seq<char>,
    outcome: Result<(i64, ContractState), ExecError>,
    address: i64,
)
    requires
        adapter_outcome(refused, bytes, name, outcome),
    ensures
        (outcome matches Err(error) && error@ == (ErrorView::Permission { address })) <==> refused
            == Some(address),
        refused is Some ==> outcome is Err,
{
}

/// Holds a state against the ownership rule: every writable account of its
/// chain context has to be owned by the executing program.
pub fn check_ownership(state: &ContractState) -> (verdict: Result<(), ExecError>)
    ensures
        match ownership_refusal(state@) {
            Some(address) => verdict matches Err(error) && error@ == (ErrorView::Permission {
                address,
            }),
            None => verdict is Ok,
        },
{
    match &state.solana {
        None => Ok(()),
        Some(context) => {
            let ghost accounts = context@.accounts;
            let mut i: usize = 0;
            while i < context.accounts.len()
                invariant
                    i <= context.accounts.len(),
                    state.solana == Some(*context),
                    accounts == context@.accounts,
                    first_foreign_writable(accounts, context.program_id, 0)
                        == first_foreign_writable(accounts, context.program_id, i as int),
                decreases context.accounts.len() - i,
            {
                let account = &context.accounts[i];
                if account.is_writable && account.owner != context.program_id {
                    assert(first_foreign_writable(accounts, context.program_id, i as int) == Some(
                        i as int,
                    ));
                    return Err(ExecError::Permission { address: account.address });
                }
                i += 1;
            }
            Ok(())
        },
    }
}

/// One way to execute bytecode against a state.
pub trait BlockchainAdapter {
    /// The address of the account on which this adapter's validation
    /// refuses a state, if it refuses it.
    spec fn refused_account(&self, state: StateView) -> Option<i64>;

    /// Executes the exported function `func_name` of `wasm_bytes` on `args`
    /// against `state`, unless validation refuses the state: then no
    /// bytecode runs.
    fn execute(
        &self,
        wasm_bytes: &[u8],
        func_name: &str,
        args: &[i64],
        state: ContractState,
    ) -> (outcome: Result<(i64, ContractState), ExecError>)
        ensures
            adapter_outcome(self.refused_account(state@), wasm_bytes@, func_name@, outcome),
    ;
}

/// The direct adapter: no validation, every call goes to the harness.
pub struct SimulatorAdapter {
    simulator: ContractSimulator,
}

impl SimulatorAdapter {
    /// The harness that this adapter runs its calls on.
    pub closed spec fn harness(self) -> ContractSimulator {
        self.simulator
    }

    /// A direct adapter over a harness of its own.
    pub fn new() -> (adapter: Self)
        ensures
            adapter.harness().bound_names() == host_surface(),
    {
        SimulatorAdapter { simulator: ContractSimulator::new() }
    }
}

impl BlockchainAdapter for SimulatorAdapter {
    open spec fn refused_account(&self, state: StateView) -> Option<i64> {
        None
    }

    fn execute(
        &self,
        wasm_bytes: &[u8],
        func_name: &str,
        args: &[i64],
        state: ContractState,
    ) -> (outcome: Result<(i64, ContractState), ExecError>)
        ensures
            harness_returned(self.harness(), wasm_bytes, func_name, args, state, outcome),
    {
        self.simulator.run(wasm_bytes, func_name, args, state)
    }
}

/// The chain adapter for programs that run over accounts: a call goes to
/// the harness only if the program owns every writable account.
pub struct SolanaAdapter {
    simulator: ContractSimulator,
}

impl SolanaAdapter {
    /// The harness that this adapter runs its admitted calls on.
    pub closed spec fn harness(self) -> ContractSimulator {
        self.simulator
    }

    /// A chain adapter over a harness of its own.
    pub fn new() -> (adapter: Self)
        ensures
            adapter.harness().bound_names() == host_surface(),
    {
        SolanaAdapter { simulator: ContractSimulator::new() }
    }
}

impl BlockchainAdapter for SolanaAdapter {
    open spec fn refused_account(&self, state: StateView) -> Option<i64> {
        ownership_refusal(state)
    }

    fn execute(
        &self,
        wasm_bytes: &[u8],
        func_name: &str,
        args: &[i64],
        state: ContractState,
    ) -> (outcome: Result<(i64, ContractState), ExecError>)
        ensures
            ownership_refusal(state@) is None ==> harness_returned(
                self.harness(),
                wasm_bytes,
                func_name,
                args,
                state,
                outcome,
            ),
    {
        match check_ownership(&state) {
            Err(error) => Err(error),
            Ok(()) => self.simulator.run(wasm_bytes, func_name, args, state),
        }
    }
}

/// Whatever the direct adapter returns, its harness returned for the same
/// arguments.
pub proof fn lemma_direct_call_is_a_harness_run(
    direct: SimulatorAdapter,
    wasm_bytes: &[u8],
    func_name: &str,
    args: &[i64],
    state: ContractState,
    outcome: Result<(i64, ContractState), ExecError>,
)
    requires
        call_ensures(
            <SimulatorAdapter as BlockchainAdapter>::execute,
            (&direct, wasm_bytes, func_name, args, state),
            outcome,
        ),
    ensures
        harness_returned(direct.harness(), wasm_bytes, func_name, args, state, outcome),
        harness_outcome(wasm_bytes@, func_name@, outcome),
{
}

/// For a state that validation does not refuse, the chain adapter is the
/// direct adapter: whatever it returns, its harness returned for the same
/// arguments, with nothing put before or after.
pub proof fn lemma_admitted_call_is_a_harness_run(
    chain: SolanaAdapter,
    wasm_bytes: &[u8],
    func_name: &str,
    args: &[i64],
    state: ContractState,
    outcome: Result<(i64, ContractState), ExecError>,
)
    requires
        ownership_refusal(state@) is None,
        call_ensures(
            <SolanaAdapter as BlockchainAdapter>::execute,
            (&chain, wasm_bytes, func_name, args, state),
            outcome,
        ),
    ensures
        harness_returned(chain.harness(), wasm_bytes, func_name, args, state, outcome),
        harness_outcome(wasm_bytes@, func_name@, outcome),
{
}

/// For a state that validation refuses, the chain adapter returns the
/// permission failure for the refused account, whatever the bytecode, the
/// function and the arguments are.
pub proof fn lemma_refused_call_fails(
    chain: SolanaAdapter,
    wasm_bytes: &[u8],
    func_name: &str,
    args: &[i64],
    state: ContractState,
    outcome: Result<(i64, ContractState), ExecError>,
)
    requires
        ownership_refusal(state@) is Some,
        call_ensures(
            <SolanaAdapter as BlockchainAdapter>::execute,
            (&chain, wasm_bytes, func_name, args, state),
            outcome,
        ),
    ensures
        outcome matches Err(error) && error@ == (ErrorView::Permission {
            address: ownership_refusal(state@).unwrap(),
        }),
{
}

} // verus!
