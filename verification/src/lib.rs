//! Deployment classification and boot-status reporting for hosts whose
//! operating system is delivered as versioned container images layered on a
//! transactional deployment store.
//!
//! Given the store's raw, weakly-ordered deployment records, the library
//! classifies them into boot slots (staged, booted, rollback, other),
//! determines boot-order intent, extracts per-slot image metadata, assembles
//! a single `Host` snapshot and renders it for human consumption.

use vstd::prelude::*;

pub mod classify;
pub mod deployment;
pub mod entry;
pub mod host;
pub mod imgref;
pub mod model;
pub mod render;
pub mod textutil;
pub mod timestamp;

verus! {

/// The boot slots a deployment can occupy in a status report.
#[derive(Clone, Copy, Debug)]
pub enum Slot {
    Staged,
    Booted,
    Rollback,
}

impl Slot {
    /// The lower-case name of the slot, as used in rendered output.
    pub fn as_str(&self) -> (r: &'static str)
        ensures
            r@ == self.name(),
    {
        match self {
            Slot::Staged => "staged",
            Slot::Booted => "booted",
            Slot::Rollback => "rollback",
        }
    }

    /// The lower-case name of the slot.
    pub open spec fn name(self) -> Seq<char> {
        match self {
            Slot::Staged => "staged"@,
            Slot::Booted => "booted"@,
            Slot::Rollback => "rollback"@,
        }
    }
}

} // verus!
