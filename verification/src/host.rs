//! The host assembler: combine the extracted boot entries into one `Host`
//! snapshot, derive the declared intent and the host type, and the small
//! decisions around a status query (format selection, format version).

use vstd::prelude::*;
use vstd::string::StringExecFns;

use crate::model::BootEntry;
use crate::model::BootOrder;
use crate::model::Host;
use crate::model::HostSpec;
use crate::model::HostStatus;
use crate::model::HostType;
use crate::model::StatusError;
use crate::entry::opt_chars;
use crate::Slot;

verus! {

/// The name of the image the host is meant to run: the staged entry's
/// image if the staged entry has one, else the booted entry's image if it
/// has one, else none.
pub open spec fn entry_image_name(e: Option<BootEntry>) -> Option<Seq<char>> {
    match e {
        Some(s) => match s.image {
            Some(img) => Some(img.image.image@),
            None => None,
        },
        None => None,
    }
}

pub open spec fn spec_host_image(
    staged: Option<BootEntry>,
    booted: Option<BootEntry>,
) -> Option<Seq<char>> {
    if entry_image_name(staged) is Some {
        entry_image_name(staged)
    } else {
        entry_image_name(booted)
    }
}

/// The host type: declared exactly when the booted entry has a resolved
/// image.
pub open spec fn spec_host_type(booted: Option<BootEntry>) -> Option<HostType> {
    if booted matches Some(b) && b.image is Some {
        Some(HostType::BootcHost)
    } else {
        None
    }
}

/// Combine the extracted entries into one `Host` snapshot.
///
/// The declared intent takes the staged entry's image name when the staged
/// entry has an image, else the booted entry's; the boot order follows the
/// classifier's rollback-queued decision; the host type is present exactly
/// when the booted entry has a resolved image.
pub fn assemble_host(
    staged: Option<BootEntry>,
    booted: Option<BootEntry>,
    rollback: Option<BootEntry>,
    other_deployments: Vec<BootEntry>,
    rollback_queued: bool,
) -> (h: Host)
    ensures
        h.status.staged == staged,
        h.status.booted == booted,
        h.status.rollback == rollback,
        h.status.other_deployments == other_deployments,
        h.status.rollback_queued == rollback_queued,
        h.status.ty == spec_host_type(booted),
        opt_chars(h.spec.image) == spec_host_image(staged, booted),
        h.spec.boot_order == (if rollback_queued {
            BootOrder::Rollback
        } else {
            BootOrder::Default
        }),
{
    let mut image: Option<String> = None;
    if let Some(s) = &staged {
        if let Some(img) = &s.image {
            image = Some(img.image.image.clone());
        }
    }
    if image.is_none() {
        if let Some(b) = &booted {
            if let Some(img) = &b.image {
                image = Some(img.image.image.clone());
            }
        }
    }
    let boot_order = if rollback_queued {
        BootOrder::Rollback
    } else {
        BootOrder::Default
    };
    let ty = if let Some(b) = &booted {
        if b.image.is_some() {
            Some(HostType::BootcHost)
        } else {
            None
        }
    } else {
        None
    };
    Host {
        spec: HostSpec { image, boot_order },
        status: HostStatus {
            staged,
            booted,
            rollback,
            other_deployments,
            rollback_queued,
            ty,
        },
    }
}

impl Host {
    /// Restrict the snapshot to one slot: the other two slots and the
    /// other deployments are dropped; the intent, boot order, host type
    /// and rollback-queued flag stay as they are.
    pub fn filter_to_slot(&mut self, slot: Slot)
        ensures
            final(self).spec == old(self).spec,
            final(self).status.rollback_queued == old(self).status.rollback_queued,
            final(self).status.ty == old(self).status.ty,
            final(self).status.other_deployments@ == Seq::<BootEntry>::empty(),
            match slot {
                Slot::Staged => final(self).status.staged == old(self).status.staged
                    && final(self).status.booted is None && final(self).status.rollback is None,
                Slot::Booted => final(self).status.booted == old(self).status.booted
                    && final(self).status.staged is None && final(self).status.rollback is None,
                Slot::Rollback => final(self).status.rollback == old(self).status.rollback
                    && final(self).status.staged is None && final(self).status.booted is None,
            },
    {
        match slot {
            Slot::Staged => {
                self.status.booted = None;
                self.status.rollback = None;
            },
            Slot::Booted => {
                self.status.staged = None;
                self.status.rollback = None;
            },
            Slot::Rollback => {
                self.status.staged = None;
                self.status.booted = None;
            },
        }
        self.status.other_deployments = Vec::new();
    }
}

/// The output formats a status snapshot can be rendered in.
#[derive(Clone, Copy, Debug, PartialEq, Eq)]
pub enum OutputFormat {
    /// Structured canonical JSON.
    Json,
    /// Structured YAML.
    Yaml,
    /// The human-readable text table.
    HumanReadable,
}

/// The format a query renders in: an explicit choice wins; else the JSON
/// flag; else human-readable on a terminal and YAML elsewhere.
pub open spec fn selected_format(
    explicit: Option<OutputFormat>,
    json_flag: bool,
    stdout_is_terminal: bool,
) -> OutputFormat {
    match explicit {
        Some(f) => f,
        None => if json_flag {
            OutputFormat::Json
        } else if stdout_is_terminal {
            OutputFormat::HumanReadable
        } else {
            OutputFormat::Yaml
        },
    }
}

/// The format a query renders in: an explicit choice wins; else the JSON
/// flag; else human-readable on a terminal and YAML elsewhere.
pub fn select_format(
    explicit: Option<OutputFormat>,
    json_flag: bool,
    stdout_is_terminal: bool,
) -> (r: OutputFormat)
    ensures
        r == selected_format(explicit, json_flag, stdout_is_terminal),
{
    match explicit {
        Some(f) => f,
        None => {
            if json_flag {
                OutputFormat::Json
            } else if stdout_is_terminal {
                OutputFormat::HumanReadable
            } else {
                OutputFormat::Yaml
            }
        },
    }
}

/// Accept a status format version: zero and one both name the current
/// schema; anything else is rejected before any store access.
pub fn validate_format_version(v: u64) -> (r: Result<(), StatusError>)
    ensures
        match r {
            Ok(_) => v == 0 || v == 1,
            Err(e) => !(v == 0 || v == 1) && e == StatusError::UnsupportedFormatVersion(v),
        },
{
    if v == 0 || v == 1 {
        Ok(())
    } else {
        Err(StatusError::UnsupportedFormatVersion(v))
    }
}

} // verus!
