//! Builds and loads CUDA kernels that come as NVVM IR, and checks the
//! warp-level matrix operations of the NVVM dialect.
//!
//! A kernel that uses float math intrinsics is emitted as NVVM IR
//! (`<name>.ll`) rather than as PTX. To run it:
//!
//! 1. libNVVM compiles the NVVM IR, together with libdevice, to LTOIR.
//! 2. nvJitLink links the LTOIR to a cubin for the same architecture, or to PTX
//!    when a pre-Blackwell module is loaded on a Blackwell GPU.
//! 3. The CUDA driver loads that image.
//!
//! The decisions of this pipeline are jobs: [`pipeline::Build`],
//! [`target::TargetLookup`] and [`load::Load`]. A job names the outside work
//! that it waits for as a [`request::Request`] and goes on with the
//! [`request::Reply`].
//!
//! - [`text`], [`paths`], [`arch`], [`error`]: the values that jobs work on.
//! - [`target`]: for which target an artifact was emitted.
//! - [`route`]: which artifact is loaded, and how it reaches the GPU.
//! - [`compile`], [`link`], [`pipeline`], [`load`]: the jobs.
//! - [`runs`], [`load_runs`]: what whole runs of jobs come to.
//! - [`build_laws`], [`load_laws`], [`driver_laws`], [`siblings`],
//!   [`target_laws`]: what all of them keep to.
//! - [`step_laws`], [`load_step_laws`], [`path_laws`], [`call_laws`],
//!   [`view_laws`]: what callers see, in plain words of the inputs.
//! - [`wmma`], [`warp`]: matrix operations, by their types and by what they do.

pub mod arch;
pub mod build_laws;
pub mod call_laws;
pub mod compile;
pub mod driver_laws;
pub mod error;
pub mod link;
pub mod load;
pub mod load_laws;
pub mod load_runs;
pub mod load_step_laws;
pub mod path_laws;
pub mod paths;
pub mod pipeline;
pub mod request;
pub mod route;
pub mod runs;
pub mod siblings;
pub mod step_laws;
pub mod target;
pub mod target_laws;
pub mod text;
pub mod view_laws;
pub mod warp;
pub mod wmma;
