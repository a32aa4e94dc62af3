//! Secure single-file destruction: the decisions and data of an
//! overwrite, scrub, rename and remove pipeline, proved with Verus.
//!
//! The filesystem work itself is done by the caller, which follows the
//! steps that [`passes::PassController`] hands out and the chunk sizes
//! that [`overwrite::OverwritePlan`] hands out.
pub mod error;
pub mod overwrite;
pub mod passes;
pub mod rename;
