//! Discrete core of an offline Monte Carlo path tracer.
//!
//! The renderer's numeric work — vector algebra, ray–sphere intersection,
//! material scattering — is IEEE-754 floating point and lives outside this
//! crate. What is verified here is the part of the pipeline that is exact:
//! the row-major RGB byte grid a render produces, the depth-bounded decision
//! machine that drives the recursive light-transport walk, and the integer
//! hygiene applied to a camera's declared parameters.

pub mod camera;
pub mod framebuffer;
pub mod trace;
