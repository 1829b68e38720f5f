//! The state model: the mutable context of one contract invocation.
//!
//! A state is built by the caller, moved into an execution, changed only by
//! the host functions that the bytecode calls, and moved back out. Each type
//! here has a view that the contracts of the rest of the crate speak of.

use std::collections::HashMap;
use vstd::prelude::*;

verus! {

/// One account of a chain context.
#[derive(Debug, Clone)]
pub struct SolanaAccount {
    pub address: i64,
    pub owner: i64,
    pub data: Vec<u8>,
    pub lamports: u64,
    pub is_signer: bool,
    pub is_writable: bool,
}

/// What an account stands for.
pub struct AccountView {
    pub address: i64,
    pub owner: i64,
    pub data: Seq<u8>,
    pub lamports: u64,
    pub is_signer: bool,
    pub is_writable: bool,
}

impl View for SolanaAccount {
    type V = AccountView;

    open spec fn view(&self) -> AccountView {
        AccountView {
            address: self.address,
            owner: self.owner,
            data: self.data@,
            lamports: self.lamports,
            is_signer: self.is_signer,
            is_writable: self.is_writable,
        }
    }
}

impl Default for SolanaAccount {
    /// An account with every number zero, no data and no flag set.
    fn default() -> (account: Self)
        ensures
            account@ == (AccountView {
                address: 0,
                owner: 0,
                data: Seq::<u8>::empty(),
                lamports: 0,
                is_signer: false,
                is_writable: false,
            }),
    {
        SolanaAccount {
            address: 0,
            owner: 0,
            data: Vec::new(),
            lamports: 0,
            is_signer: false,
            is_writable: false,
        }
    }
}

/// Chain context of a program that runs over accounts: the program's
/// identifier and the accounts handed to it, in order.
#[derive(Debug, Clone)]
pub struct SolanaContext {
    pub accounts: Vec<SolanaAccount>,
    pub program_id: i64,
}

/// What a chain context stands for.
pub struct ChainView {
    pub accounts: Seq<AccountView>,
    pub program_id: i64,
}

impl View for SolanaContext {
    type V = ChainView;

    open spec fn view(&self) -> ChainView {
        ChainView {
            accounts: Seq::new(self.accounts@.len(), |i: int| self.accounts@[i]@),
            program_id: self.program_id,
        }
    }
}

impl Default for SolanaContext {
    /// A context with no accounts and program identifier zero.
    fn default() -> (context: Self)
        ensures
            context@ == (ChainView { accounts: Seq::<AccountView>::empty(), program_id: 0 }),
    {
        let context = SolanaContext { accounts: Vec::new(), program_id: 0 };
        assert(context@.accounts =~= Seq::<AccountView>::empty());
        context
    }
}

/// The mutable context of one invocation.
#[derive(Debug, Clone)]
pub struct ContractState {
    /// Key-value storage of the contract.
    pub storage: HashMap<i64, i64>,
    /// Identifier of the invoking principal.
    pub caller: i64,
    /// Amount that comes with the call.
    pub value: i64,
    /// Opaque handle passed to the bytecode.
    pub data: i64,
    /// Events emitted so far, oldest first.
    pub events: Vec<(i64, i64)>,
    /// Chain context, absent on the generic path.
    pub solana: Option<SolanaContext>,
}

/// What a contract state stands for.
pub struct StateView {
    pub storage: Map<i64, i64>,
    pub caller: i64,
    pub value: i64,
    pub data: i64,
    pub events: Seq<(i64, i64)>,
    pub solana: Option<ChainView>,
}

impl View for ContractState {
    type V = StateView;

    open spec fn view(&self) -> StateView {
        StateView {
            storage: self.storage@,
            caller: self.caller,
            value: self.value,
            data: self.data,
            events: self.events@,
            solana: match self.solana {
                Some(context) => Some(context@),
                None => None,
            },
        }
    }
}

impl StateView {
    /// The state with nothing stored, nothing emitted, no chain context and
    /// every number zero.
    pub open spec fn empty() -> StateView {
        StateView {
            storage: Map::<i64, i64>::empty(),
            caller: 0,
            value: 0,
            data: 0,
            events: Seq::<(i64, i64)>::empty(),
            solana: None,
        }
    }
}

impl Default for ContractState {
    /// The empty state.
    fn default() -> (state: Self)
        ensures
            state@ == StateView::empty(),
    {
        ContractState {
            storage: HashMap::new(),
            caller: 0,
            value: 0,
            data: 0,
            events: Vec::new(),
            solana: None,
        }
    }
}

} // verus!
