//! Sandboxed execution core for smart contracts compiled to WebAssembly.
//!
//! The crate models one invocation's contract state ([`state`]), the host
//! functions that bytecode may import ([`host`]), a gas meter ([`gas`]), the
//! harness that runs bytecode against a state ([`simulator`]), and the
//! adapters that put chain-specific validation before it ([`adapter`]).
//! The interpreter itself is an outside crate; [`vm`] holds all that is
//! assumed of it.

use vstd::prelude::*;

pub mod adapter;
pub mod dump;
pub mod error;
pub mod gas;
pub mod host;
pub mod simulator;
pub mod state;
pub mod text;
pub mod vm;

pub use adapter::{BlockchainAdapter, SimulatorAdapter, SolanaAdapter};
pub use error::ExecError;
pub use gas::{GasConfig, GasCosts, GasMeter};
pub use simulator::ContractSimulator;
pub use state::{ContractState, SolanaAccount, SolanaContext};

verus! {

/// Version of the runtime.
pub const VERSION: &'static str = "0.1.0";

} // verus!
