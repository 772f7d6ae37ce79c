//! Decisions of the mount command.
//!
//! Probing devices, preparing a passphrase key and the mount syscall all
//! happen at the process edge; what is checked here is the decision
//! between them: which probed filesystem is selected, whether a key is
//! required and available, and whether a mountpoint was supplied.

use vstd::prelude::*;

verus! {

/// Why the mount command refuses to proceed.
#[derive(Clone, Copy, Debug, PartialEq, Eq, Structural)]
pub enum MountError {
    /// No probed filesystem matched the requested identifier.
    FilesystemNotFound,
    /// The selected filesystem is encrypted and no key option was given.
    NoKeyAvailable,
    /// No mountpoint option was given.
    NoMountpoint,
}

impl MountError {
    /// The command's descriptive line for this refusal.
    pub fn message(&self) -> (r: String)
        ensures
            self is FilesystemNotFound ==> r@ == "filesystem was not found"@,
            self is NoKeyAvailable ==> r@ == "no keyoption specified for locked filesystem"@,
            self is NoMountpoint ==> r@ == "mountpoint option was not specified"@,
    {
        match self {
            MountError::FilesystemNotFound => "filesystem was not found".to_string(),
            MountError::NoKeyAvailable => {
                "no keyoption specified for locked filesystem".to_string()
            },
            MountError::NoMountpoint => "mountpoint option was not specified".to_string(),
        }
    }
}

/// What the mount command does next.
pub enum MountStep {
    /// No filesystem identifier was requested: the probe listing was the
    /// whole job, exit successfully.
    ProbeOnly,
    /// Mount the selected filesystem at `mountpoint` with the given mount
    /// options, preparing `key` first when one is carried.
    Mount { key: Option<Vec<u8>>, mountpoint: Vec<u8>, options: Vec<u8> },
    /// Refuse, before any key preparation or mount syscall.
    Fail(MountError),
}

/// Decide the mount command's next step from what probing and the
/// arguments established: `have_uuid` whether an identifier was
/// requested, `fs_found` whether probing matched it, `encrypted` whether
/// the matched filesystem needs a key.
pub fn mount_plan(
    have_uuid: bool,
    fs_found: bool,
    encrypted: bool,
    key: Option<Vec<u8>>,
    mountpoint: Option<Vec<u8>>,
    options: Vec<u8>,
) -> (r: MountStep)
    ensures
        !have_uuid ==> r is ProbeOnly,
        have_uuid && !fs_found ==> r == MountStep::Fail(MountError::FilesystemNotFound),
        have_uuid && fs_found && encrypted && key is None ==> r == MountStep::Fail(
            MountError::NoKeyAvailable,
        ),
        have_uuid && fs_found && (encrypted ==> key is Some) && mountpoint is None ==> r
            == MountStep::Fail(MountError::NoMountpoint),
        have_uuid && fs_found && (encrypted ==> key is Some) && mountpoint is Some ==> (
        r matches MountStep::Mount { key: k, mountpoint: m, options: mo } && m@
            == mountpoint->Some_0@ && mo@ == options@ && (if encrypted {
            k == key
        } else {
            k is None
        })),
{
    if !have_uuid {
        return MountStep::ProbeOnly;
    }
    if !fs_found {
        return MountStep::Fail(MountError::FilesystemNotFound);
    }
    let use_key: Option<Vec<u8>> = if encrypted {
        match key {
            Some(k) => Some(k),
            None => {
                return MountStep::Fail(MountError::NoKeyAvailable);
            },
        }
    } else {
        None
    };
    match mountpoint {
        Some(mp) => MountStep::Mount { key: use_key, mountpoint: mp, options },
        None => MountStep::Fail(MountError::NoMountpoint),
    }
}

} // verus!
