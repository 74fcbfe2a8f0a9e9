//! Error values returned by the builder, the registry and the callback
//! bridge.

use vstd::prelude::*;

verus! {

/// A builder configuration that can never produce an evaluator: conflicting
/// or missing inputs, detected before any engine or module work is done.
#[derive(Debug, Clone, Copy, PartialEq, Eq, Structural)]
pub enum ConfigurationError {
    /// Both `policy_file` and `policy_contents` were supplied.
    FileAndContents,
    /// Both `policy_file` and `policy_module` were supplied.
    FileAndModule,
    /// Both `policy_contents` and `policy_module` were supplied.
    ContentsAndModule,
    /// None of `policy_file`, `policy_contents`, `policy_module` was supplied.
    NoPolicySource,
    /// A pre-compiled module was supplied without the engine that produced it.
    ModuleWithoutEngine,
    /// No execution mode was selected.
    NoExecutionMode,
    /// The selected execution mode is not a rule-engine mode, so it has no
    /// rule-engine sub-mode translation.
    NotARuleEngineMode,
}

/// An error returned by `PolicyEvaluatorBuilder::build`, tagged with the
/// stage that failed.
#[derive(Debug)]
pub enum BuildError {
    /// Validation rejected the configuration before any expensive work.
    Configuration(ConfigurationError),
    /// A fresh engine could not be created from the requested settings.
    EngineCreation(String),
    /// The guest module could not be compiled or loaded.
    ModuleCompilation(String),
    /// The selected runtime variant could not be constructed around the
    /// compiled module.
    RuntimeCreation(String),
    /// An instance handle was already registered: instance handles are
    /// assumed globally unique, so this indicates a broken embedder or
    /// engine, never a recoverable condition.
    RegistryInvariantViolation,
}

/// An error returned by registry lookups and removals.
#[derive(Debug, Clone, Copy, PartialEq, Eq, Structural)]
pub enum RegistryError {
    /// No evaluation context is registered under the given instance handle:
    /// either it was never registered or it has already been removed.
    NotFound,
    /// The instance handle is already registered.
    DuplicateInstance,
}

/// An error surfaced to a host function that tried to reach the asynchronous
/// world over the callback bridge.
#[derive(Debug, Clone, Copy, PartialEq, Eq, Structural)]
pub enum CallbackError {
    /// No callback channel was configured for this evaluator, so the
    /// capability is unavailable; the guest sees a policy-evaluation error,
    /// never a host crash.
    CapabilityUnavailable,
    /// The consumer side of the callback channel is gone: the request cannot
    /// be delivered, or the reply will never arrive.
    ChannelClosed,
}

} // verus!
