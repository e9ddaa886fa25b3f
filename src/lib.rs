//! A flat, status-code boundary around the BLS12-381 operations of
//! `revm_precompile`: pointer checks, the engine call, a capacity check and
//! the copy into the caller's buffer, each stated and proved.

pub mod boundary;
pub mod engine;
pub mod operation;
pub mod status;

pub use boundary::{
    deliver_result, execute_precompile, g1_add_wrapper, g1_msm_wrapper, g2_add_wrapper,
    g2_msm_wrapper, map_fp2_to_g2_wrapper, map_fp_to_g1_wrapper, pairing_wrapper,
};
pub use engine::run_operation;
pub use operation::Operation;
pub use status::Status;
