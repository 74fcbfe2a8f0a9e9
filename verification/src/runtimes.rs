//! The three execution dialects an evaluator can speak, fixed at
//! construction: the host-call (waPC) stack, the command-line stack, and the
//! rule-engine stack.

use vstd::prelude::*;

use wasmtime_provider::wasmtime::Engine;
use wasmtime_provider::wasmtime::Module;

use crate::policy_evaluator_builder::EpochDeadlines;
use crate::wasm_backend::engine_clone;
use crate::wasm_backend::module_clone;
use crate::wasm_backend::provider_build;
use crate::wasm_backend::provider_builder_engine;
use crate::wasm_backend::provider_builder_epoch_deadlines;
use crate::wasm_backend::provider_builder_module;
use crate::wasm_backend::provider_builder_new;
use crate::wasm_backend::wapc_host_id;
use crate::wasm_backend::wapc_host_new;
use crate::wasm_backend::HostCallbackHandle;

verus! {

/// The rule engine's own mode enumeration: plain rule evaluation, or the
/// external-library-shaped variant.
#[derive(Clone, Copy, Debug, PartialEq, Eq, Structural)]
pub enum RegoPolicyExecutionMode {
    Opa,
    Gatekeeper,
}

/// The host-call execution stack: a live guest instance reachable through
/// the waPC host, plus the engine and module it was built from.
pub struct WapcStack {
    pub engine: Engine,
    pub module: Module,
    pub epoch_deadlines: Option<EpochDeadlines>,
    pub wapc_host: wapc::WapcHost,
    pub instance_handle: u64,
}

impl WapcStack {
    /// Instantiates the guest module behind a waPC host. The tick budgets,
    /// when given, are wired into the provider so guest initialization and
    /// each guest call are interrupted once their budget is exhausted; the
    /// embedder's dispatcher, when given, is installed as the host callback
    /// every guest host-call reaches. Fails when the provider cannot be
    /// configured or when instantiation or guest initialization fails.
    pub fn new(
        engine: Engine,
        module: Module,
        epoch_deadlines: Option<EpochDeadlines>,
        host_callback: Option<HostCallbackHandle>,
    ) -> (r: Result<WapcStack, String>)
        ensures
            r matches Ok(s) ==> s.engine == engine && s.module == module && s.epoch_deadlines
                == epoch_deadlines,
    {
        let provider_engine = engine_clone(&engine);
        let provider_module = module_clone(&module);
        let mut builder = provider_builder_new();
        builder = provider_builder_engine(builder, provider_engine);
        builder = provider_builder_module(builder, provider_module);
        if let Some(deadlines) = epoch_deadlines {
            builder = provider_builder_epoch_deadlines(
                builder,
                deadlines.wapc_init,
                deadlines.wapc_func,
            );
        }
        let provider = match provider_build(&builder) {
            Ok(p) => p,
            Err(msg) => {
                return Err(msg);
            },
        };
        let host = match wapc_host_new(provider, host_callback) {
            Ok(h) => h,
            Err(msg) => {
                return Err(msg);
            },
        };
        let instance_handle = wapc_host_id(&host);
        Ok(WapcStack { engine, module, epoch_deadlines, wapc_host: host, instance_handle })
    }

    /// The unique identifier of the running guest instance behind this
    /// stack; the key under which its evaluation context is registered.
    pub fn wapc_host_id(&self) -> (r: u64)
        ensures
            r == self.instance_handle,
    {
        self.instance_handle
    }
}

/// The command-line execution stack: the guest is run as a command-line
/// style program, so no host-callback bridge and no registry entry are
/// needed.
pub struct CliStack {
    pub engine: Engine,
    pub module: Module,
    pub epoch_deadlines: Option<EpochDeadlines>,
}

impl CliStack {
    /// Assembles the command-line stack around the compiled module.
    pub fn new(engine: Engine, module: Module, epoch_deadlines: Option<EpochDeadlines>) -> (r:
        CliStack)
        ensures
            r.engine == engine,
            r.module == module,
            r.epoch_deadlines == epoch_deadlines,
    {
        CliStack { engine, module, epoch_deadlines }
    }
}

/// The rule-engine execution stack: the validated inputs a rule-engine
/// evaluator is constructed from — the engine and compiled module, the
/// well-known entrypoint it is evaluated at (a single fixed value today),
/// the engine's own mode, and the per-call tick budget (rule-engine
/// initialization has no separate budget).
///
/// The rule-engine evaluator itself is not constructed here: no rule-engine
/// library is among this crate's dependencies, so this stack deliberately
/// stops at the configuration, and an embedder that owns such a library
/// builds the evaluator from these fields (wiring the library's own host
/// callbacks at that point). Until then a rule-engine evaluation unit
/// cannot evaluate anything.
pub struct BurregoStack {
    pub engine: Engine,
    pub module: Module,
    pub entrypoint_id: u64,
    pub policy_execution_mode: RegoPolicyExecutionMode,
    pub epoch_deadline: Option<u64>,
}

/// The runtime variant an evaluator holds: exactly one of the three
/// dialects, fixed for the evaluator's lifetime.
pub enum Runtime {
    Wapc(WapcStack),
    Cli(CliStack),
    Burrego(BurregoStack),
}

} // verus!
