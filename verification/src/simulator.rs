//! The execution harness: binds the host functions once, then runs bytecode
//! against a state, one call at a time.

use crate::dump::load_failure;
use crate::error::{ErrorView, ExecError};
use crate::state::ContractState;
use crate::text::hex_of;
use crate::vm;
use crate::vm::Word;
use vstd::prelude::*;
use wasmi::{Engine, Func, Instance, InstancePre, Linker, Module, Store};

verus! {

/// The module name under which bytecode imports the host functions.
pub const HOST_MODULE: &'static str = "env";

/// The names that the harness binds: every host function, under the host
/// module.
pub open spec fn host_surface() -> Set<(Seq<char>, Seq<char>)> {
    set![
        (HOST_MODULE@, "get_caller"@),
        (HOST_MODULE@, "get_value"@),
        (HOST_MODULE@, "get_data"@),
        (HOST_MODULE@, "storage_read"@),
        (HOST_MODULE@, "storage_write"@),
        (HOST_MODULE@, "emit_event"@),
        (HOST_MODULE@, "hash_i64"@),
    ]
}

/// What holds of every outcome of a run of `name` in `bytes`: a failure is
/// one of the harness's own, a load failure carries the bytecode in
/// hexadecimal, and a missing function is reported under the name asked for.
pub open spec fn harness_outcome(
    bytes: Seq<u8>,
    name: Seq<char>,
    outcome: Result<(i64, ContractState), ExecError>,
) -> bool {
    match outcome {
        Ok(_) => true,
        Err(error) => match error@ {
            ErrorView::Load { detail, dump } => dump == hex_of(bytes),
            ErrorView::Instantiate { .. } => true,
            ErrorView::Start { .. } => true,
            ErrorView::NotFound { name: missing } => missing == name,
            ErrorView::Call { .. } => true,
            ErrorView::Permission { .. } => false,
        },
    }
}

/// What a call returned, as one integer: the first word if it is a 64-bit
/// integer, zero otherwise.
pub open spec fn first_word(words: Seq<Word>) -> i64 {
    if words.len() > 0 {
        match words[0] {
            Word::I64(word) => word,
            Word::Other => 0,
        }
    } else {
        0
    }
}

/// Reads the result of a call off the words that came back.
pub fn first_result(words: &[Word]) -> (result: i64)
    ensures
        result == first_word(words@),
{
    if words.len() > 0 {
        match words[0] {
            Word::I64(word) => word,
            Word::Other => 0,
        }
    } else {
        0
    }
}

/// `detail` is the interpreter's own words for `error`.
pub closed spec fn worded(error: wasmi::Error, detail: Seq<char>) -> bool {
    exists|text: String| #[trigger] call_ensures(vm::error_text, (&error,), text) && text@ == detail
}

/// The instance's start function is run. If that fails, the outcome is the
/// start failure in the interpreter's words; otherwise the run goes on as
/// [`ran_started`] says.
pub closed spec fn ran_pending(
    pending: InstancePre,
    store: Store<ContractState>,
    func_name: &str,
    args: &[i64],
    outcome: Result<(i64, ContractState), ExecError>,
) -> bool {
    exists|started: (Store<ContractState>, Result<Instance, wasmi::Error>)|
        #[trigger] call_ensures(vm::start, (pending, store), started) && match started.1 {
            Err(error) => outcome matches Err(failure) && failure@ matches ErrorView::Start {
                detail,
            } && worded(error, detail),
            Ok(instance) => ran_started(instance, started.0, func_name, args, outcome),
        }
}

/// The function that the instance exports under `func_name` is looked up.
/// If there is none, the outcome is the failure that names `func_name`;
/// otherwise the run goes on as [`ran_found`] says.
pub closed spec fn ran_started(
    instance: Instance,
    store: Store<ContractState>,
    func_name: &str,
    args: &[i64],
    outcome: Result<(i64, ContractState), ExecError>,
) -> bool {
    exists|found: Option<Func>|
        #[trigger] call_ensures(vm::find_func, (&instance, &store, func_name), found)
            && match found {
            None => outcome matches Err(failure) && failure@ == (ErrorView::NotFound {
                name: func_name@,
            }),
            Some(func) => ran_found(func, store, args, outcome),
        }
}

/// The function is called on `args`, with room for as many results as it
/// declares. If the call fails, the outcome is the call failure in the
/// interpreter's words; otherwise it is the first word that came back, read
/// as [`first_word`] says, with the state that the store holds after the
/// call.
pub closed spec fn ran_found(
    func: Func,
    store: Store<ContractState>,
    args: &[i64],
    outcome: Result<(i64, ContractState), ExecError>,
) -> bool {
    exists|room: usize, returned: (Store<ContractState>, Result<Vec<Word>, wasmi::Error>)|
        #[trigger] call_ensures(vm::result_count, (&func, &store), room) && #[trigger] call_ensures(
            vm::call,
            (&func, store, args, room),
            returned,
        ) && match returned.1 {
            Err(error) => outcome matches Err(failure) && failure@ matches ErrorView::Call {
                detail,
            } && worded(error, detail),
            Ok(words) => outcome matches Ok(done) && done.0 == first_word(words@) && call_ensures(
                vm::into_state,
                (returned.0,),
                done.1,
            ),
        }
}

/// No two host functions share a name.
pub proof fn lemma_host_names_differ()
    ensures
        "get_caller"@ != "get_value"@,
        "get_caller"@ != "get_data"@,
        "get_caller"@ != "storage_read"@,
        "get_caller"@ != "storage_write"@,
        "get_caller"@ != "emit_event"@,
        "get_caller"@ != "hash_i64"@,
        "get_value"@ != "get_data"@,
        "get_value"@ != "storage_read"@,
        "get_value"@ != "storage_write"@,
        "get_value"@ != "emit_event"@,
        "get_value"@ != "hash_i64"@,
        "get_data"@ != "storage_read"@,
        "get_data"@ != "storage_write"@,
        "get_data"@ != "emit_event"@,
        "get_data"@ != "hash_i64"@,
        "storage_read"@ != "storage_write"@,
        "storage_read"@ != "emit_event"@,
        "storage_read"@ != "hash_i64"@,
        "storage_write"@ != "emit_event"@,
        "storage_write"@ != "hash_i64"@,
        "emit_event"@ != "hash_i64"@,
{
    reveal_strlit("get_caller");
    reveal_strlit("get_value");
    reveal_strlit("get_data");
    reveal_strlit("storage_read");
    reveal_strlit("storage_write");
    reveal_strlit("emit_event");
    reveal_strlit("hash_i64");
    assert("get_value"@.len() == 9);
    assert("get_data"@.len() == 8 && "get_data"@[0] == 'g');
    assert("storage_read"@.len() == 12);
    assert("storage_write"@.len() == 13);
    assert("emit_event"@.len() == 10 && "emit_event"@[0] == 'e');
    assert("hash_i64"@.len() == 8 && "hash_i64"@[0] == 'h');
}

/// An engine with the host functions bound. It is made once and then only
/// read: every run gets a store of its own.
pub struct ContractSimulator {
    engine: Engine,
    linker: Linker<ContractState>,
}

impl ContractSimulator {
    #[verifier::type_invariant]
    spec fn well_formed(self) -> bool {
        &&& vm::linker_engine(self.linker) == self.engine
        &&& vm::linker_names(self.linker) == host_surface()
    }

    /// The names that this simulator has bound.
    pub closed spec fn bound_names(self) -> Set<(Seq<char>, Seq<char>)> {
        vm::linker_names(self.linker)
    }

    /// A simulator with every host function bound under the host module.
    pub fn new() -> (simulator: Self)
        ensures
            simulator.bound_names() == host_surface(),
    {
        let engine = vm::new_engine();
        let mut linker = vm::new_linker(&engine);
        proof {
            lemma_host_names_differ();
        }
        let caller = vm::bind_get_caller(&mut linker, HOST_MODULE, "get_caller");
        let value = vm::bind_get_value(&mut linker, HOST_MODULE, "get_value");
        let data = vm::bind_get_data(&mut linker, HOST_MODULE, "get_data");
        let read = vm::bind_storage_read(&mut linker, HOST_MODULE, "storage_read");
        let write = vm::bind_storage_write(&mut linker, HOST_MODULE, "storage_write");
        let emit = vm::bind_emit_event(&mut linker, HOST_MODULE, "emit_event");
        let hash = vm::bind_hash_i64(&mut linker, HOST_MODULE, "hash_i64");
        assert(caller is Ok && value is Ok && data is Ok && read is Ok && write is Ok && emit is Ok
            && hash is Ok);
        ContractSimulator { engine, linker }
    }

    /// `outcome` is what a run on these arguments comes to, stage by stage.
    ///
    /// The bytecode is loaded for this simulator's engine. If that fails, the
    /// outcome is the load failure in the interpreter's words, with the
    /// bytecode in hexadecimal; otherwise the run goes on as
    /// [`Self::ran_loaded`] says.
    pub closed spec fn ran(
        self,
        wasm_bytes: &[u8],
        func_name: &str,
        args: &[i64],
        state: ContractState,
        outcome: Result<(i64, ContractState), ExecError>,
    ) -> bool {
        exists|loaded: Result<Module, wasmi::Error>|
            #[trigger] call_ensures(vm::load_module, (&self.engine, wasm_bytes), loaded)
                && match loaded {
                Err(error) => outcome matches Err(failure) && failure@ matches ErrorView::Load {
                    detail,
                    dump,
                } && worded(error, detail) && dump == hex_of(wasm_bytes@),
                Ok(module) => self.ran_loaded(module, func_name, args, state, outcome),
            }
    }

    /// A store is made for `state` and this simulator's engine, and the
    /// module is instantiated in it against this simulator's linker. If that
    /// fails, the outcome is the instantiation failure in the interpreter's
    /// words; otherwise the run goes on as [`ran_pending`] says.
    pub closed spec fn ran_loaded(
        self,
        module: Module,
        func_name: &str,
        args: &[i64],
        state: ContractState,
        outcome: Result<(i64, ContractState), ExecError>,
    ) -> bool {
        exists|fresh: Store<ContractState>, made: (Store<ContractState>, Result<InstancePre, wasmi::Error>)|
            #[trigger] call_ensures(vm::new_store, (&self.engine, state), fresh)
                && #[trigger] call_ensures(vm::instantiate, (&self.linker, fresh, &module), made)
                && match made.1 {
                Err(error) => outcome matches Err(failure) && failure@ matches ErrorView::Instantiate {
                    detail,
                } && worded(error, detail),
                Ok(pending) => ran_pending(pending, made.0, func_name, args, outcome),
            }
    }

    /// Whatever a run comes to is a harness outcome: the failure of the
    /// first stage that failed, and never a permission failure.
    pub proof fn lemma_ran_gives_harness_outcome(
        self,
        wasm_bytes: &[u8],
        func_name: &str,
        args: &[i64],
        state: ContractState,
        outcome: Result<(i64, ContractState), ExecError>,
    )
        requires
            self.ran(wasm_bytes, func_name, args, state, outcome),
        ensures
            harness_outcome(wasm_bytes@, func_name@, outcome),
    {
    }

    /// Runs the exported function `func_name` of `wasm_bytes` on `args`,
    /// against `state`. The stages of [`Self::ran`] are gone through in
    /// order; the first that fails decides the failure, and where none does
    /// the function's first result comes back as an integer, with the state
    /// that the store then holds.
    pub fn run(
        &self,
        wasm_bytes: &[u8],
        func_name: &str,
        args: &[i64],
        state: ContractState,
    ) -> (outcome: Result<(i64, ContractState), ExecError>)
        ensures
            self.ran(wasm_bytes, func_name, args, state, outcome),
            harness_outcome(wasm_bytes@, func_name@, outcome),
    {
        proof {
            use_type_invariant(self);
        }
        let module = match vm::load_module(&self.engine, wasm_bytes) {
            Ok(module) => module,
            Err(error) => {
                return Err(load_failure(wasm_bytes, vm::error_text(&error)));
            },
        };
        let store = vm::new_store(&self.engine, state);
        let (store, made) = vm::instantiate(&self.linker, store, &module);
        let pending = match made {
            Ok(pending) => pending,
            Err(error) => {
                return Err(ExecError::Instantiate { detail: vm::error_text(&error) });
            },
        };
        let (store, started) = vm::start(pending, store);
        let instance = match started {
            Ok(instance) => instance,
            Err(error) => {
                return Err(ExecError::Start { detail: vm::error_text(&error) });
            },
        };
        let func = match vm::find_func(&instance, &store, func_name) {
            Some(func) => func,
            None => {
                return Err(ExecError::NotFound { name: func_name.to_owned() });
            },
        };
        let room = vm::result_count(&func, &store);
        let (store, returned) = vm::call(&func, store, args, room);
        let words = match returned {
            Ok(words) => words,
            Err(error) => {
                return Err(ExecError::Call { detail: vm::error_text(&error) });
            },
        };
        let result = first_result(words.as_slice());
        Ok((result, vm::into_state(store)))
    }
}

impl Default for ContractSimulator {
    /// The same as [`ContractSimulator::new`].
    fn default() -> (simulator: Self)
        ensures
            simulator.bound_names() == host_surface(),
    {
        ContractSimulator::new()
    }
}

} // verus!
