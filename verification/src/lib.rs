//! The logic of `openvmm-ctl`, a small client for the management socket of an
//! `openvmm` process: pause and resume a live VM, hot add and remove its
//! disks, and look into its device tree.
//!
//! [`command`] turns a command into the call that it makes and the answer into
//! what it prints. [`status`] writes the report on the NVMe controllers, from
//! an inspection tree that [`tree`] finds its way in. [`size`] and [`text`]
//! put byte counts and numbers into words. [`laws`] proves what all of it is
//! for.

pub mod command;
pub mod laws;
pub mod size;
pub mod status;
pub mod text;
pub mod tree;
