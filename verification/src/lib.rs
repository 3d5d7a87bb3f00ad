//! A build-time generator for hardware-simulation bindings.
//!
//! From a declarative description of a hardware module's external
//! interface (an annotated structure declaration), the crate produces two
//! synchronized artifacts: a native shim exposing a C-compatible ABI over
//! the compiled simulation model, and a host-language wrapper type with
//! typed accessors and a clock-stepping helper.  A build orchestrator
//! sequences the external toolchain invocations that compile and package
//! the result, as a plan of explicit steps that the caller carries out.

pub mod err;
pub mod example;
pub mod extract;
pub mod model;
pub mod orchestrate;
pub mod shim;
mod text;
pub mod wrapper;
