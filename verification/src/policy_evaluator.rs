//! The finished evaluation unit: one policy, one worker, one runtime
//! variant — and the teardown step that releases its registry entry.

use vstd::prelude::*;

use crate::errors::ConfigurationError;
use crate::evaluation_context_registry::EvaluationContextRegistry;
use crate::runtimes::RegoPolicyExecutionMode;
use crate::runtimes::Runtime;

verus! {

/// The calling convention the guest module expects. Missing it is a
/// validation error: nothing about a module reveals its dialect.
#[derive(Clone, Copy, Debug, PartialEq, Eq, Structural)]
pub enum PolicyExecutionMode {
    /// The host-call (waPC) dialect: guest code may call back into the
    /// host, so the instance is registered for context lookups.
    KubewardenWapc,
    /// The command-line dialect: one run per evaluation, no host callbacks.
    Wasi,
    /// The rule-engine dialect.
    Opa,
    /// The rule-engine dialect in its external-library shape.
    OpaGatekeeper,
}

impl PolicyExecutionMode {
    /// The rule engine's own mode for this execution mode; fails for the
    /// two dialects that are not rule-engine modes.
    pub fn rego_mode(&self) -> (r: Result<RegoPolicyExecutionMode, ConfigurationError>)
        ensures
            r == (match *self {
                PolicyExecutionMode::Opa => Ok::<RegoPolicyExecutionMode, ConfigurationError>(
                    RegoPolicyExecutionMode::Opa,
                ),
                PolicyExecutionMode::OpaGatekeeper => Ok::<
                    RegoPolicyExecutionMode,
                    ConfigurationError,
                >(RegoPolicyExecutionMode::Gatekeeper),
                _ => Err::<RegoPolicyExecutionMode, ConfigurationError>(
                    ConfigurationError::NotARuleEngineMode,
                ),
            }),
    {
        match *self {
            PolicyExecutionMode::Opa => Ok(RegoPolicyExecutionMode::Opa),
            PolicyExecutionMode::OpaGatekeeper => Ok(RegoPolicyExecutionMode::Gatekeeper),
            _ => Err(ConfigurationError::NotARuleEngineMode),
        }
    }
}

/// One assembled evaluation unit: the policy it evaluates, the worker that
/// owns it, and the runtime variant selected at build time.
pub struct PolicyEvaluator {
    pub policy_id: String,
    pub worker_id: u64,
    pub runtime: Runtime,
}

impl PolicyEvaluator {
    /// Assembles the evaluator from its parts.
    pub fn new(policy_id: &str, worker_id: u64, runtime: Runtime) -> (r: PolicyEvaluator)
        ensures
            r.policy_id@ == policy_id@,
            r.worker_id == worker_id,
            r.runtime == runtime,
    {
        PolicyEvaluator { policy_id: policy_id.to_owned(), worker_id, runtime }
    }

    /// The runtime variant this evaluator speaks.
    pub fn runtime(&self) -> (r: &Runtime)
        ensures
            *r == self.runtime,
    {
        &self.runtime
    }

    /// The handle of the running guest instance, present only for the
    /// host-call dialect — the only dialect with a registry entry.
    pub fn instance_handle(&self) -> (r: Option<u64>)
        ensures
            r == (match self.runtime {
                Runtime::Wapc(stack) => Some(stack.instance_handle),
                _ => None::<u64>,
            }),
    {
        match &self.runtime {
            Runtime::Wapc(stack) => Some(stack.instance_handle),
            _ => None,
        }
    }

    /// Tears the evaluator down. For a host-call-dialect evaluator this
    /// removes its instance's entry from the registry, so a later lookup of
    /// that handle fails with not-found; the other dialects never had an
    /// entry and the registry is left untouched.
    pub fn teardown(self, registry: &mut EvaluationContextRegistry)
        requires
            old(registry).wf(),
        ensures
            final(registry).wf(),
            (match self.runtime {
                Runtime::Wapc(stack) => final(registry)@ == old(registry)@.remove(
                    stack.instance_handle,
                ) && !final(registry)@.contains_key(stack.instance_handle),
                _ => final(registry)@ == old(registry)@,
            }),
    {
        match &self.runtime {
            Runtime::Wapc(stack) => {
                registry.unregister(stack.instance_handle);
            },
            _ => {
                proof {
                    assert(registry@ =~= old(registry)@);
                }
            },
        }
    }
}

} // verus!
