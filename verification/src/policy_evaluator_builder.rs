//! The evaluator builder: validates a combinatorial set of
//! mutually-exclusive configuration inputs, resolves the engine and the
//! guest module, selects the runtime variant, and — for the host-call
//! dialect — registers the new instance's evaluation context.

use vstd::prelude::*;

use tokio::sync::mpsc;
use wasmtime_provider::wasmtime::Engine;
use wasmtime_provider::wasmtime::Module;

use crate::callback_requests::clone_sender;
use crate::callback_requests::CallbackRequest;
use crate::errors::BuildError;
use crate::errors::ConfigurationError;
use crate::evaluation_context::EvaluationContext;
use crate::evaluation_context_registry::EvaluationContextRegistry;
use crate::policy_evaluator::PolicyEvaluator;
use crate::policy_evaluator::PolicyExecutionMode;
use crate::policy_metadata::ContextAwareResourceSet;
use crate::runtimes::BurregoStack;
use crate::runtimes::CliStack;
use crate::runtimes::Runtime;
use crate::runtimes::WapcStack;
use crate::wasm_backend::cache_load_default;
use crate::wasm_backend::clone_host_callback;
use crate::wasm_backend::config_enable_cache;
use crate::wasm_backend::config_enable_epoch_interruption;
use crate::wasm_backend::config_new;
use crate::wasm_backend::engine_clone;
use crate::wasm_backend::engine_new;
use crate::wasm_backend::module_clone;
use crate::wasm_backend::module_from_file;
use crate::wasm_backend::module_new;
use crate::wasm_backend::HostCallbackHandle;

verus! {

/// The two tick budgets enforced through epoch-based interruption: one for
/// guest initialization code, one for each guest function call. A tick is
/// an abstract unit; the embedder decides how often the epoch advances.
#[derive(Clone, Copy, Debug, PartialEq, Eq, Structural)]
pub struct EpochDeadlines {
    /// Ticks allowed for guest initialization code.
    pub wapc_init: u64,
    /// Ticks allowed per guest-function invocation.
    pub wapc_func: u64,
}

/// Collects the configuration of one evaluator and builds it in a single
/// validating step. Every `build` call reads the configuration without
/// consuming it, so one builder can produce any number of fresh evaluators.
pub struct PolicyEvaluatorBuilder {
    pub engine: Option<Engine>,
    pub policy_id: String,
    pub worker_id: u64,
    pub policy_file: Option<String>,
    pub policy_contents: Option<Vec<u8>>,
    pub policy_module: Option<Module>,
    pub execution_mode: Option<PolicyExecutionMode>,
    pub callback_channel: Option<mpsc::Sender<CallbackRequest>>,
    pub host_callback: Option<HostCallbackHandle>,
    pub wasmtime_cache: bool,
    pub epoch_deadlines: Option<EpochDeadlines>,
    pub ctx_aware_resources_allow_list: ContextAwareResourceSet,
}

/// The validation verdict on a builder configuration: the first rule it
/// breaks, in the order the rules are checked, or nothing when the
/// configuration is acceptable.
pub open spec fn spec_validation_error(b: &PolicyEvaluatorBuilder) -> Option<ConfigurationError> {
    if b.policy_file is Some && b.policy_contents is Some {
        Some(ConfigurationError::FileAndContents)
    } else if b.policy_file is Some && b.policy_module is Some {
        Some(ConfigurationError::FileAndModule)
    } else if b.policy_contents is Some && b.policy_module is Some {
        Some(ConfigurationError::ContentsAndModule)
    } else if b.policy_file is None && b.policy_contents is None && b.policy_module is None {
        Some(ConfigurationError::NoPolicySource)
    } else if b.engine is None && b.policy_module is Some {
        Some(ConfigurationError::ModuleWithoutEngine)
    } else if b.execution_mode is None {
        Some(ConfigurationError::NoExecutionMode)
    } else {
        None
    }
}

/// The resolved engine and module honour the supplied ones: a caller-built
/// engine is the engine used, and a pre-compiled module is the module used.
/// (A freshly built engine or a freshly compiled module has nothing it must
/// equal.)
pub open spec fn resolved_sources_match(
    b: &PolicyEvaluatorBuilder,
    engine: Engine,
    module: Module,
) -> bool {
    &&& (b.engine matches Some(e) ==> engine == e)
    &&& (b.policy_module matches Some(m) ==> module == m)
}

impl PolicyEvaluatorBuilder {
    /// A fresh builder for the given policy and worker: no module source,
    /// no execution mode, no deadlines, no callback channel, an empty
    /// allow-list, and the compilation cache off.
    pub fn new(policy_id: String, worker_id: u64) -> (r: PolicyEvaluatorBuilder)
        ensures
            r.engine is None,
            r.policy_id@ == policy_id@,
            r.worker_id == worker_id,
            r.policy_file is None,
            r.policy_contents is None,
            r.policy_module is None,
            r.execution_mode is None,
            r.callback_channel is None,
            r.host_callback is None,
            r.wasmtime_cache == false,
            r.epoch_deadlines is None,
            r.ctx_aware_resources_allow_list@ == Set::<(Seq<char>, Seq<char>)>::empty(),
            r.ctx_aware_resources_allow_list.wf(),
    {
        PolicyEvaluatorBuilder {
            engine: None,
            policy_id,
            worker_id,
            policy_file: None,
            policy_contents: None,
            policy_module: None,
            execution_mode: None,
            callback_channel: None,
            host_callback: None,
            wasmtime_cache: false,
            epoch_deadlines: None,
            ctx_aware_resources_allow_list: ContextAwareResourceSet::new(),
        }
    }

    /// Uses a pre-built engine. The caller is then responsible for every
    /// engine-level setting the rest of the configuration needs — the
    /// compilation cache, and epoch interruption if deadlines are set.
    pub fn engine(self, engine: Engine) -> (r: Self)
        ensures
            r == (PolicyEvaluatorBuilder { engine: Some(engine), ..self }),
    {
        PolicyEvaluatorBuilder { engine: Some(engine), ..self }
    }

    /// Reads the policy from a Wasm file on disk at build time. Cannot be
    /// combined with `policy_contents` or `policy_module`.
    pub fn policy_file(self, path: &str) -> (r: Result<PolicyEvaluatorBuilder, ConfigurationError>)
        ensures
            (r matches Ok(b) && {
                &&& b.policy_file matches Some(f) && f@ == path@
                &&& b.engine == self.engine
                &&& b.policy_id == self.policy_id
                &&& b.worker_id == self.worker_id
                &&& b.policy_contents == self.policy_contents
                &&& b.policy_module == self.policy_module
                &&& b.execution_mode == self.execution_mode
                &&& b.callback_channel == self.callback_channel
                &&& b.wasmtime_cache == self.wasmtime_cache
                &&& b.epoch_deadlines == self.epoch_deadlines
                &&& b.ctx_aware_resources_allow_list == self.ctx_aware_resources_allow_list
            }),
    {
        Ok(PolicyEvaluatorBuilder { policy_file: Some(path.to_owned()), ..self })
    }

    /// Uses the given bytes as the policy module. Cannot be combined with
    /// `policy_file` or `policy_module`.
    pub fn policy_contents(self, data: &[u8]) -> (r: PolicyEvaluatorBuilder)
        ensures
            r.policy_contents matches Some(v) && v@ == data@,
            r.engine == self.engine,
            r.policy_id == self.policy_id,
            r.worker_id == self.worker_id,
            r.policy_file == self.policy_file,
            r.policy_module == self.policy_module,
            r.execution_mode == self.execution_mode,
            r.callback_channel == self.callback_channel,
            r.wasmtime_cache == self.wasmtime_cache,
            r.epoch_deadlines == self.epoch_deadlines,
            r.ctx_aware_resources_allow_list == self.ctx_aware_resources_allow_list,
    {
        PolicyEvaluatorBuilder {
            policy_contents: Some(vstd::slice::slice_to_vec(data)),
            ..self
        }
    }

    /// Uses a pre-compiled module. The engine that compiled it must be
    /// supplied too, or validation fails.
    pub fn policy_module(self, module: Module) -> (r: Self)
        ensures
            r == (PolicyEvaluatorBuilder { policy_module: Some(module), ..self }),
    {
        PolicyEvaluatorBuilder { policy_module: Some(module), ..self }
    }

    /// Selects the execution dialect; required before `build`.
    pub fn execution_mode(self, mode: PolicyExecutionMode) -> (r: PolicyEvaluatorBuilder)
        ensures
            r == (PolicyEvaluatorBuilder { execution_mode: Some(mode), ..self }),
    {
        PolicyEvaluatorBuilder { execution_mode: Some(mode), ..self }
    }

    /// Turns on the persistent compilation cache for an engine built here.
    pub fn enable_wasmtime_cache(self) -> (r: PolicyEvaluatorBuilder)
        ensures
            r == (PolicyEvaluatorBuilder { wasmtime_cache: true, ..self }),
    {
        PolicyEvaluatorBuilder { wasmtime_cache: true, ..self }
    }

    /// Sets the external resources the policy may consult; defaults to
    /// none.
    pub fn context_aware_resources_allowed(self, allowed_resources: ContextAwareResourceSet) -> (r:
        PolicyEvaluatorBuilder)
        ensures
            r == (PolicyEvaluatorBuilder {
                ctx_aware_resources_allow_list: allowed_resources,
                ..self
            }),
    {
        PolicyEvaluatorBuilder { ctx_aware_resources_allow_list: allowed_resources, ..self }
    }

    /// Enables epoch-based interruption with the two tick budgets: one for
    /// guest initialization, one per guest call. With a caller-supplied
    /// engine, that engine must have been created with epoch interruption
    /// enabled.
    #[must_use]
    pub fn enable_epoch_interruptions(self, wapc_init_deadline: u64, wapc_func_deadline: u64) -> (r:
        Self)
        ensures
            r == (PolicyEvaluatorBuilder {
                epoch_deadlines: Some(
                    EpochDeadlines { wapc_init: wapc_init_deadline, wapc_func: wapc_func_deadline },
                ),
                ..self
            }),
    {
        PolicyEvaluatorBuilder {
            epoch_deadlines: Some(
                EpochDeadlines { wapc_init: wapc_init_deadline, wapc_func: wapc_func_deadline },
            ),
            ..self
        }
    }

    /// Supplies the channel the synchronous world uses to request
    /// asynchronous work. Without one the evaluator is still built, but a
    /// host function that needs the channel fails with an unavailable
    /// capability, which the guest sees as an evaluation error.
    pub fn callback_channel(self, channel: mpsc::Sender<CallbackRequest>) -> (r:
        PolicyEvaluatorBuilder)
        ensures
            r == (PolicyEvaluatorBuilder { callback_channel: Some(channel), ..self }),
    {
        PolicyEvaluatorBuilder { callback_channel: Some(channel), ..self }
    }

    /// Supplies the dispatcher the waPC host invokes for every guest
    /// host-call — typically the embedder's function that resolves the
    /// calling instance in its registry and bridges the request. Without
    /// one, every guest host-call fails with the waPC host's own
    /// missing-callback error.
    pub fn host_callback(self, handle: HostCallbackHandle) -> (r: PolicyEvaluatorBuilder)
        ensures
            r == (PolicyEvaluatorBuilder { host_callback: Some(handle), ..self }),
    {
        PolicyEvaluatorBuilder { host_callback: Some(handle), ..self }
    }

    /// Checks the validation rules in order, before any expensive work:
    /// the module sources are pairwise exclusive, at least one is present,
    /// a pre-compiled module brings its engine, and an execution mode is
    /// selected.
    fn validate_user_input(&self) -> (r: Result<(), ConfigurationError>)
        ensures
            r == (match spec_validation_error(self) {
                Some(e) => Err::<(), ConfigurationError>(e),
                None => Ok::<(), ConfigurationError>(()),
            }),
    {
        if self.policy_file.is_some() && self.policy_contents.is_some() {
            return Err(ConfigurationError::FileAndContents);
        }
        if self.policy_file.is_some() && self.policy_module.is_some() {
            return Err(ConfigurationError::FileAndModule);
        }
        if self.policy_contents.is_some() && self.policy_module.is_some() {
            return Err(ConfigurationError::ContentsAndModule);
        }
        if self.policy_file.is_none() && self.policy_contents.is_none()
            && self.policy_module.is_none() {
            return Err(ConfigurationError::NoPolicySource);
        }
        if self.engine.is_none() && self.policy_module.is_some() {
            return Err(ConfigurationError::ModuleWithoutEngine);
        }
        if self.execution_mode.is_none() {
            return Err(ConfigurationError::NoExecutionMode);
        }
        Ok(())
    }

    /// Builds the evaluator: validation first — an invalid configuration
    /// is reported without any engine, module or registry work — then
    /// engine resolution, module resolution, and construction of the
    /// variant the execution mode selects. Only the host-call dialect
    /// touches the registry, inserting exactly one entry for the new
    /// instance; every failure path leaves the registry as it was.
    pub fn build(&self, registry: &mut EvaluationContextRegistry) -> (r: Result<
        PolicyEvaluator,
        BuildError,
    >)
        requires
            old(registry).wf(),
        ensures
            final(registry).wf(),
            (match spec_validation_error(self) {
                Some(e) => r == Err::<PolicyEvaluator, BuildError>(BuildError::Configuration(e))
                    && final(registry)@ == old(registry)@,
                None => !(r matches Err(BuildError::Configuration(_))),
            }),
            r is Err ==> final(registry)@ == old(registry)@,
            self.engine is Some ==> !(r matches Err(BuildError::EngineCreation(_))),
            self.policy_module is Some ==> !(r matches Err(BuildError::ModuleCompilation(_))),
            spec_validation_error(self) is None && self.engine is Some && self.policy_module
                is Some && self.execution_mode != Some(PolicyExecutionMode::KubewardenWapc) ==> r
                is Ok,
            (match r {
                Ok(ev) => {
                    &&& ev.policy_id@ == self.policy_id@
                    &&& ev.worker_id == self.worker_id
                    &&& (match self.execution_mode {
                        Some(PolicyExecutionMode::KubewardenWapc) => {
                            &&& ev.runtime matches Runtime::Wapc(stack)
                            &&& (ev.runtime matches Runtime::Wapc(stack)
                                ==> wapc_registration_holds(
                                self,
                                stack,
                                old(registry)@,
                                final(registry)@,
                            ) && resolved_sources_match(self, stack.engine, stack.module))
                        },
                        Some(PolicyExecutionMode::Wasi) => {
                            &&& (ev.runtime matches Runtime::Cli(stack)
                                && stack.epoch_deadlines == self.epoch_deadlines
                                && resolved_sources_match(self, stack.engine, stack.module))
                            &&& final(registry)@ == old(registry)@
                        },
                        Some(PolicyExecutionMode::Opa) | Some(PolicyExecutionMode::OpaGatekeeper)
                            => {
                            &&& (ev.runtime matches Runtime::Burrego(stack)
                                && burrego_stack_matches(self, stack)
                                && resolved_sources_match(self, stack.engine, stack.module))
                            &&& final(registry)@ == old(registry)@
                        },
                        None => false,
                    })
                },
                Err(_) => true,
            }),
    {
        match self.validate_user_input() {
            Err(e) => {
                return Err(BuildError::Configuration(e));
            },
            Ok(()) => {},
        }
        let engine: Engine = match &self.engine {
            Some(e) => engine_clone(e),
            None => {
                let mut config = config_new();
                if self.wasmtime_cache {
                    match cache_load_default() {
                        Ok(cache) => config_enable_cache(&mut config, cache),
                        Err(msg) => {
                            return Err(BuildError::EngineCreation(msg));
                        },
                    }
                }
                if self.epoch_deadlines.is_some() {
                    config_enable_epoch_interruption(&mut config);
                }
                match engine_new(&config) {
                    Ok(e) => e,
                    Err(msg) => {
                        return Err(BuildError::EngineCreation(msg));
                    },
                }
            },
        };
        let module: Module = if let Some(m) = &self.policy_module {
            module_clone(m)
        } else {
            match &self.policy_file {
                Some(file) => match module_from_file(&engine, file) {
                    Ok(m) => m,
                    Err(msg) => {
                        return Err(BuildError::ModuleCompilation(msg));
                    },
                },
                None => match &self.policy_contents {
                    Some(bytes) => match module_new(&engine, bytes.as_slice()) {
                        Ok(m) => m,
                        Err(msg) => {
                            return Err(BuildError::ModuleCompilation(msg));
                        },
                    },
                    None => {
                        proof {
                            assert(false);
                        }
                        return Err(BuildError::ModuleCompilation(String::new()));
                    },
                },
            }
        };
        let execution_mode = match self.execution_mode {
            Some(mode) => mode,
            None => {
                proof {
                    assert(false);
                }
                return Err(BuildError::Configuration(ConfigurationError::NoExecutionMode));
            },
        };
        let runtime: Runtime = match execution_mode {
            PolicyExecutionMode::KubewardenWapc => {
                let host_callback = match &self.host_callback {
                    Some(handle) => Some(clone_host_callback(handle)),
                    None => None,
                };
                match create_wapc_runtime(
                    self.policy_id.as_str(),
                    self.worker_id,
                    engine,
                    module,
                    self.epoch_deadlines,
                    &self.callback_channel,
                    host_callback,
                    &self.ctx_aware_resources_allow_list,
                    registry,
                ) {
                    Ok(rt) => rt,
                    Err(e) => {
                        return Err(e);
                    },
                }
            },
            PolicyExecutionMode::Wasi => Runtime::Cli(
                CliStack::new(engine, module, self.epoch_deadlines),
            ),
            PolicyExecutionMode::Opa | PolicyExecutionMode::OpaGatekeeper => {
                let rego_mode = match execution_mode.rego_mode() {
                    Ok(m) => m,
                    Err(_) => {
                        proof {
                            assert(false);
                        }
                        return Err(BuildError::Configuration(
                            ConfigurationError::NotARuleEngineMode,
                        ));
                    },
                };
                let epoch_deadline = match self.epoch_deadlines {
                    Some(deadlines) => Some(deadlines.wapc_func),
                    None => None,
                };
                Runtime::Burrego(
                    BurregoStack {
                        engine,
                        module,
                        entrypoint_id: 0,
                        policy_execution_mode: rego_mode,
                        epoch_deadline,
                    },
                )
            },
        };
        Ok(PolicyEvaluator::new(self.policy_id.as_str(), self.worker_id, runtime))
    }
}

/// What a successful host-call-dialect build does to the registry: exactly
/// one entry appears, keyed by the new instance's handle, owned by the
/// builder's worker, carrying the builder's policy id, channel presence and
/// allow-list; the stack keeps the configured deadlines.
pub open spec fn wapc_registration_holds(
    b: &PolicyEvaluatorBuilder,
    stack: WapcStack,
    before: Map<u64, crate::evaluation_context_registry::RegistryEntry>,
    after: Map<u64, crate::evaluation_context_registry::RegistryEntry>,
) -> bool {
    &&& stack.epoch_deadlines == b.epoch_deadlines
    &&& after.contains_key(stack.instance_handle)
    &&& after[stack.instance_handle].worker_id == b.worker_id
    &&& after[stack.instance_handle].context.policy_id@ == b.policy_id@
    &&& (after[stack.instance_handle].context.callback_channel is Some <==> b.callback_channel
        is Some)
    &&& after[stack.instance_handle].context.ctx_aware_resources_allow_list@
        == b.ctx_aware_resources_allow_list@
    &&& !before.contains_key(stack.instance_handle)
    &&& after == before.insert(stack.instance_handle, after[stack.instance_handle])
}

/// The validation laws: every configuration with two of the three module
/// sources, with none of them, with a pre-compiled module but no engine, or
/// without an execution mode is refused; and a configuration that passes
/// validation has an execution mode and exactly one module source, with an
/// engine wherever a pre-compiled module is used.
pub proof fn lemma_validation_laws(b: &PolicyEvaluatorBuilder)
    ensures
        b.policy_file is Some && b.policy_contents is Some ==> spec_validation_error(b)
            == Some(ConfigurationError::FileAndContents),
        b.policy_file is Some && b.policy_contents is None && b.policy_module is Some
            ==> spec_validation_error(b) == Some(ConfigurationError::FileAndModule),
        b.policy_file is None && b.policy_contents is Some && b.policy_module is Some
            ==> spec_validation_error(b) == Some(ConfigurationError::ContentsAndModule),
        b.policy_file is None && b.policy_contents is None && b.policy_module is None
            ==> spec_validation_error(b) == Some(ConfigurationError::NoPolicySource),
        b.policy_module is Some && b.engine is None ==> spec_validation_error(b) is Some,
        b.execution_mode is None ==> spec_validation_error(b) is Some,
        spec_validation_error(b) is None ==> {
            &&& b.execution_mode is Some
            &&& (b.policy_module is Some ==> b.engine is Some)
            &&& {
                let sources = (if b.policy_file is Some { 1int } else { 0int }) + (
                if b.policy_contents is Some { 1int } else { 0int }) + (
                if b.policy_module is Some { 1int } else { 0int });
                sources == 1
            }
        },
{
}

/// What a successful rule-engine build produces: the well-known entrypoint,
/// the engine's own mode for the selected sub-mode, and only the per-call
/// tick budget (rule-engine initialization has no separate budget).
pub open spec fn burrego_stack_matches(b: &PolicyEvaluatorBuilder, stack: BurregoStack) -> bool {
    &&& stack.entrypoint_id == 0
    &&& (match b.execution_mode {
        Some(PolicyExecutionMode::Opa) => stack.policy_execution_mode
            == crate::runtimes::RegoPolicyExecutionMode::Opa,
        Some(PolicyExecutionMode::OpaGatekeeper) => stack.policy_execution_mode
            == crate::runtimes::RegoPolicyExecutionMode::Gatekeeper,
        _ => false,
    })
    &&& stack.epoch_deadline == (match b.epoch_deadlines {
        Some(deadlines) => Some(deadlines.wapc_func),
        None => None::<u64>,
    })
}

/// Builds the host-call runtime: instantiates the guest behind the waPC
/// host, assembles the evaluation context, and registers it under the new
/// instance's handle for the given worker. A handle collision means the
/// engine's uniqueness guarantee is broken: the build fails and the
/// registry stays unchanged.
pub fn create_wapc_runtime(
    policy_id: &str,
    worker_id: u64,
    engine: Engine,
    module: Module,
    epoch_deadlines: Option<EpochDeadlines>,
    callback_channel: &Option<mpsc::Sender<CallbackRequest>>,
    host_callback: Option<HostCallbackHandle>,
    ctx_aware_resources_allow_list: &ContextAwareResourceSet,
    registry: &mut EvaluationContextRegistry,
) -> (r: Result<Runtime, BuildError>)
    requires
        old(registry).wf(),
    ensures
        final(registry).wf(),
        r is Err ==> final(registry)@ == old(registry)@,
        (match r {
            Ok(rt) => {
                &&& rt matches Runtime::Wapc(stack)
                &&& (rt matches Runtime::Wapc(stack) ==> {
                    &&& stack.epoch_deadlines == epoch_deadlines
                    &&& stack.engine == engine
                    &&& stack.module == module
                    &&& !old(registry)@.contains_key(stack.instance_handle)
                    &&& final(registry)@.contains_key(stack.instance_handle)
                    &&& final(registry)@[stack.instance_handle].worker_id == worker_id
                    &&& final(registry)@[stack.instance_handle].context.policy_id@ == policy_id@
                    &&& (final(registry)@[stack.instance_handle].context.callback_channel is Some
                        <==> callback_channel is Some)
                    &&& final(registry)@[stack.instance_handle].context.ctx_aware_resources_allow_list@
                        == ctx_aware_resources_allow_list@
                    &&& final(registry)@ == old(registry)@.insert(
                        stack.instance_handle,
                        final(registry)@[stack.instance_handle],
                    )
                })
            },
            Err(e) => e matches BuildError::RuntimeCreation(_) || e
                matches BuildError::RegistryInvariantViolation,
        }),
{
    let stack = match WapcStack::new(engine, module, epoch_deadlines, host_callback) {
        Ok(s) => s,
        Err(msg) => {
            return Err(BuildError::RuntimeCreation(msg));
        },
    };
    let channel = match callback_channel {
        Some(sender) => Some(clone_sender(sender)),
        None => None,
    };
    let eval_ctx = EvaluationContext {
        policy_id: policy_id.to_owned(),
        callback_channel: channel,
        ctx_aware_resources_allow_list: ctx_aware_resources_allow_list.clone(),
    };
    let instance_handle = stack.wapc_host_id();
    match registry.register(instance_handle, worker_id, eval_ctx) {
        Ok(()) => Ok(Runtime::Wapc(stack)),
        Err(_) => Err(BuildError::RegistryInvariantViolation),
    }
}

} // verus!
