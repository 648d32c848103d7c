//! Resource-control layer for the legacy (per-subsystem) cgroup hierarchy.
//!
//! The library decides what is written where: which interface files of a
//! control scope receive which decimal text, in which order, and how a run of
//! those writes stops at the first failure. Performing the writes is left to
//! the caller, which reports each outcome back.
pub mod cpu;
pub mod decimal;
pub mod run;
pub mod steps;
