//! The diagnostic dump of bytecode that failed to load: where it belongs,
//! and the failure that carries it.

use crate::error::{ErrorView, ExecError};
use crate::text::{hex_encode, hex_of};
use vstd::prelude::*;

verus! {

/// Where the dump of bytecode that failed to load is kept.
pub const DUMP_PATH: &'static str = "/tmp/contract.wasm.hex";

/// The failure for bytecode that did not load: the loader's own words, and
/// the bytecode in hexadecimal.
pub fn load_failure(bytes: &[u8], detail: String) -> (error: ExecError)
    ensures
        error@ == (ErrorView::Load { detail: detail@, dump: hex_of(bytes@) }),
{
    ExecError::Load { detail, dump: hex_encode(bytes) }
}

} // verus!
