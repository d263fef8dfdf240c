//! A ground-truth corpus of memory-safety and resource-safety defect patterns.
//!
//! Every pattern pairs a minimal trigger with a declared oracle. The registry
//! holds the patterns, the runner turns one execution of a trigger into an
//! execution result, the classifier maps that result to a fault category and
//! the comparator grades it against the oracle.

pub mod a;
pub mod classifier;
pub mod comparator;
pub mod config;
pub mod corpus;
pub mod harness;
pub mod ieee;
pub mod laws;
pub mod paths;
pub mod probe;
pub mod registry;
pub mod runner;
pub mod status;
pub mod supervisor;
pub mod taxonomy;
pub mod text;
pub mod triggers;
pub mod wire;

pub use crate::triggers::{
    avoid_abs_path_in_join, avoid_compare_to_nan, avoid_const_path_join, check_double_free,
    check_double_lock, check_flm_1, check_flm_2, check_fml_1, check_fml_2, check_fml_3,
    check_fml_4, check_null_return_from_c_func, check_null_to_c_func, check_nullable_arg,
    check_shadowing, check_uaf_1, check_uaf_2, check_uaf_3, use_runtime_path_value, W,
};
