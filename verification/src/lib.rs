//! Instrumentation of functions for Prometheus: the rewriting of an annotated
//! function into one that counts, times and tracks its calls, and the metric
//! families, registry and scrape responses behind the rewritten code.

/// The `prometheus` crate, whose registry, collectors and error type the
/// metrics speak of.
pub use prometheus;

pub mod annotation;
pub mod literal;
pub mod metrics;
pub mod registry;
pub mod codegen;
pub mod exporter;
pub mod function;
pub mod labels;
pub mod syntax;
