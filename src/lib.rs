//! Provisioning of an eMMC device into a bootable Debian installation for an
//! ARM single-board computer.
//!
//! The library decides what is done and in which order; it performs no I/O.
//! Every external operation (a tool run, a file write, a copy) is described as
//! an [`action::Action`], and a [`pipeline::Provisioner`] hands them out one at
//! a time, learning from each reported [`action::Outcome`].

pub mod text;
pub mod action;
pub mod config;
pub mod validate;
pub mod storage;
pub mod rootfs;
pub mod system;
pub mod boot;
pub mod job;
pub mod pipeline;
pub mod runs;
