//! The option bag handed to engine acquisition calls.
//!
//! Every recognized field is enumerated explicitly.  A field of `None` is
//! one the caller left unset, so the engine applies its own default; a
//! field of `Some` carries the value the caller chose.  The bag is built
//! immutably once and passed by value into the acquisition calls.

use vstd::prelude::*;

verus! {

/// What the engine should do when it finds an inconsistency.
#[derive(Clone, Copy, Debug, PartialEq, Eq, Structural)]
pub enum ErrorAction {
    /// Keep going.
    Continue,
    /// Degrade to read-only.
    ReadOnly,
    /// Stop the machine.
    Panic,
}

/// Whether a consistency check may repair what it finds.
#[derive(Clone, Copy, Debug, PartialEq, Eq, Structural)]
pub enum FsckFix {
    /// Never repair.
    No,
    /// Repair without asking.
    Yes,
    /// Ask before each repair.
    Ask,
}

/// How far a degraded (missing-device) mount may go.
#[derive(Clone, Copy, Debug, PartialEq, Eq, Structural)]
pub enum DegradedLevel {
    /// Refuse a degraded mount.
    No,
    /// Allow an ordinary degraded mount.
    Yes,
    /// Allow even a severely degraded mount.
    Very,
}

/// The engine's option bag: one field per recognized feature flag.
#[allow(non_camel_case_types)]
#[derive(Clone, Copy, Debug, PartialEq, Eq, Structural)]
pub struct bch_opts {
    /// Do not take the exclusive-open lock on the devices.
    pub noexcl: Option<bool>,
    /// No-op mode: never write anything back.
    pub nochanges: Option<bool>,
    /// Open the filesystem read-only.
    pub read_only: Option<bool>,
    /// Skip journal recovery on open.
    pub norecovery: Option<bool>,
    /// How far a degraded mount may go.
    pub degraded: Option<DegradedLevel>,
    /// What to do on an inconsistency.
    pub errors: Option<ErrorAction>,
    /// Whether a consistency check may repair.
    pub fix_errors: Option<FsckFix>,
    /// Verbose engine logging.
    pub verbose: Option<bool>,
}

impl Default for bch_opts {
    /// The empty bag: every field unset, every engine default in force.
    fn default() -> (r: Self)
        ensures
            r == spec_opts_default(),
    {
        bch_opts {
            noexcl: None,
            nochanges: None,
            read_only: None,
            norecovery: None,
            degraded: None,
            errors: None,
            fix_errors: None,
            verbose: None,
        }
    }
}

/// The empty option bag.
pub open spec fn spec_opts_default() -> bch_opts {
    bch_opts {
        noexcl: None,
        nochanges: None,
        read_only: None,
        norecovery: None,
        degraded: None,
        errors: None,
        fix_errors: None,
        verbose: None,
    }
}

} // verus!
