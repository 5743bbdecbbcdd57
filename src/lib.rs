//! Runtime-typed metric values, with verified narrowing conversions back
//! into native types.
pub mod mpc_metric_dtype;
