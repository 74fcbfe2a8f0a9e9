//! Construction and lifecycle management of sandboxed policy-evaluation
//! units running untrusted WebAssembly modules.
//!
//! The crate centers on [`policy_evaluator_builder::PolicyEvaluatorBuilder`],
//! which validates a set of mutually-exclusive configuration inputs, resolves
//! a `wasmtime` engine and module, and assembles one of three execution
//! dialects behind [`runtimes::Runtime`]. Evaluators speaking the host-call
//! dialect are tracked in an [`evaluation_context_registry::EvaluationContextRegistry`],
//! which maps a running guest instance to the evaluation context its host
//! functions consult.

pub mod callback_requests;
pub mod errors;
pub mod evaluation_context;
pub mod evaluation_context_registry;
pub mod policy;
pub mod policy_evaluator;
pub mod policy_evaluator_builder;
pub mod policy_metadata;
pub mod runtimes;
pub mod wasm_backend;
