//! Read-only inspection: listing keys and nodes of a btree in a bounded
//! range.
//!
//! The command opens the filesystem read-only with a fixed option bag,
//! starts a transaction, and runs one cursor from the start position until
//! a yielded key lies strictly past the end position.  Only plain key
//! listing applies the optional key-type filter; node listing modes differ
//! solely in how the driver renders each yielded key, which is
//! engine-defined text and stays outside this layer.

use vstd::prelude::*;
use crate::btree::{scan, scan_spec, BtreeIter, BtreeIterFlags, BtreeTrans, PeekResult};
use crate::err::{spec_errno_of, spec_is_error_value, BchError};
use crate::key::Bkey;
use crate::opts::{bch_opts, DegradedLevel, ErrorAction, FsckFix};
use crate::pos::Bpos;
use crate::super_fs::bch_fs;

verus! {

/// What the listing command prints per yielded key.
#[derive(Clone, Copy, Debug, PartialEq, Eq, Structural)]
pub enum Mode {
    /// Each key, decoded.
    Keys,
    /// Each node's format header.
    Formats,
    /// Each node's key, decoded.
    Nodes,
    /// Each node's raw on-disk representation.
    NodesOndisk,
}

/// The listing command's arguments.
pub struct Cli {
    /// Which btree's key-space to list.
    pub btree: u32,
    /// Key-type discriminant to keep; `None` lists every type.
    pub bkey_type: Option<u8>,
    /// Btree depth to descend to; zero means leaves.
    pub level: u32,
    /// First position to list from.
    pub start: Bpos,
    /// Last position to list; a key strictly past it stops the scan.
    pub end: Bpos,
    /// What to print per key.
    pub mode: Mode,
    /// Run a consistency check first.
    pub fsck: bool,
    /// Force colored output on or off.
    pub colorize: bool,
    /// Verbosity level.
    pub verbose: u8,
    /// Devices the filesystem spans.
    pub devices: Vec<Vec<u8>>,
}

/// The key-type filter a mode applies: only plain key listing filters.
pub open spec fn spec_mode_filter(opt: Cli) -> Option<u8> {
    match opt.mode {
        Mode::Keys => opt.bkey_type,
        _ => None,
    }
}

/// The option bag the listing command opens the filesystem with: safe,
/// read-only inspection.  A consistency-check run enables repair and
/// recovery; verbosity is passed through.
pub fn list_fs_opts(fsck: bool, verbose: u8) -> (o: bch_opts)
    ensures
        o.noexcl == Some(true),
        o.nochanges == Some(true),
        o.read_only == Some(true),
        o.norecovery == Some(!fsck),
        o.degraded == Some(DegradedLevel::Very),
        o.errors == Some(ErrorAction::Continue),
        o.fix_errors == (if fsck {
            Some(FsckFix::Yes)
        } else {
            None::<FsckFix>
        }),
        o.verbose == (if verbose > 0 {
            Some(true)
        } else {
            None::<bool>
        }),
{
    let mut fs_opts = bch_opts::default();
    fs_opts.noexcl = Some(true);
    fs_opts.nochanges = Some(true);
    fs_opts.read_only = Some(true);
    fs_opts.norecovery = Some(true);
    fs_opts.degraded = Some(DegradedLevel::Very);
    fs_opts.errors = Some(ErrorAction::Continue);
    if fsck {
        fs_opts.fix_errors = Some(FsckFix::Yes);
        fs_opts.norecovery = Some(false);
    }
    if verbose > 0 {
        fs_opts.verbose = Some(true);
    }
    fs_opts
}

/// List keys: scan from the start position, filtered by key type, until a
/// key lies strictly past the end position.  `responses` holds the engine
/// peek results, one per engine call.
pub fn list_keys(fs: &bch_fs, opt: &Cli, responses: &Vec<PeekResult>) -> (r: Result<
    Vec<Bkey>,
    BchError,
>)
    ensures
        match r {
            Ok(v) => scan_spec(responses@, opt.start, opt.end, opt.bkey_type) == Ok::<
                Seq<Bkey>,
                BchError,
            >(v@),
            Err(e) => scan_spec(responses@, opt.start, opt.end, opt.bkey_type) == Err::<
                Seq<Bkey>,
                BchError,
            >(e),
        },
{
    let trans = BtreeTrans::new(fs);
    let mut iter = BtreeIter::new(
        &trans,
        opt.btree,
        opt.start,
        BtreeIterFlags { all_snapshots: true, prefetch: true },
    );
    scan(&mut iter, responses, opt.end, opt.bkey_type)
}

/// List node format headers: an unfiltered scan at the requested level.
pub fn list_btree_formats(fs: &bch_fs, opt: &Cli, responses: &Vec<PeekResult>) -> (r: Result<
    Vec<Bkey>,
    BchError,
>)
    ensures
        match r {
            Ok(v) => scan_spec(responses@, opt.start, opt.end, None) == Ok::<
                Seq<Bkey>,
                BchError,
            >(v@),
            Err(e) => scan_spec(responses@, opt.start, opt.end, None) == Err::<
                Seq<Bkey>,
                BchError,
            >(e),
        },
{
    let trans = BtreeTrans::new(fs);
    let mut iter = BtreeIter::new_node(
        &trans,
        opt.btree,
        opt.start,
        0,
        opt.level,
        BtreeIterFlags { all_snapshots: false, prefetch: true },
    );
    scan(&mut iter, responses, opt.end, None)
}

/// List node keys: the same traversal as `list_btree_formats`, rendered
/// by the driver as decoded keys.
pub fn list_btree_nodes(fs: &bch_fs, opt: &Cli, responses: &Vec<PeekResult>) -> (r: Result<
    Vec<Bkey>,
    BchError,
>)
    ensures
        match r {
            Ok(v) => scan_spec(responses@, opt.start, opt.end, None) == Ok::<
                Seq<Bkey>,
                BchError,
            >(v@),
            Err(e) => scan_spec(responses@, opt.start, opt.end, None) == Err::<
                Seq<Bkey>,
                BchError,
            >(e),
        },
{
    let trans = BtreeTrans::new(fs);
    let mut iter = BtreeIter::new_node(
        &trans,
        opt.btree,
        opt.start,
        0,
        opt.level,
        BtreeIterFlags { all_snapshots: false, prefetch: true },
    );
    scan(&mut iter, responses, opt.end, None)
}

/// List nodes in their raw on-disk form: the same traversal again,
/// rendered by the driver from the on-disk bytes.
pub fn list_nodes_ondisk(fs: &bch_fs, opt: &Cli, responses: &Vec<PeekResult>) -> (r: Result<
    Vec<Bkey>,
    BchError,
>)
    ensures
        match r {
            Ok(v) => scan_spec(responses@, opt.start, opt.end, None) == Ok::<
                Seq<Bkey>,
                BchError,
            >(v@),
            Err(e) => scan_spec(responses@, opt.start, opt.end, None) == Err::<
                Seq<Bkey>,
                BchError,
            >(e),
        },
{
    let trans = BtreeTrans::new(fs);
    let mut iter = BtreeIter::new_node(
        &trans,
        opt.btree,
        opt.start,
        0,
        opt.level,
        BtreeIterFlags { all_snapshots: false, prefetch: true },
    );
    scan(&mut iter, responses, opt.end, None)
}

/// Run the listing command: open the filesystem with the inspection
/// option bag, then scan in the requested mode.  `raw_open` is the raw
/// word the engine's open entry point returned; when the device list is
/// empty the command fails before that call would be made.
pub fn cmd_list_inner(opt: &Cli, raw_open: u64, responses: &Vec<PeekResult>) -> (r: Result<
    Vec<Bkey>,
    BchError,
>)
    ensures
        opt.devices@.len() == 0 ==> r == Err::<Vec<Bkey>, BchError>(BchError::EmptyDeviceList),
        opt.devices@.len() > 0 && spec_is_error_value(raw_open) ==> r == Err::<Vec<Bkey>, BchError>(
            BchError::Engine { errno: spec_errno_of(raw_open) },
        ),
        opt.devices@.len() > 0 && !spec_is_error_value(raw_open) ==> match r {
            Ok(v) => scan_spec(responses@, opt.start, opt.end, spec_mode_filter(*opt)) == Ok::<
                Seq<Bkey>,
                BchError,
            >(v@),
            Err(e) => scan_spec(responses@, opt.start, opt.end, spec_mode_filter(*opt)) == Err::<
                Seq<Bkey>,
                BchError,
            >(e),
        },
{
    let fs_opts = list_fs_opts(opt.fsck, opt.verbose);
    let fs = match bch_fs::try_new(&opt.devices, fs_opts, raw_open) {
        Ok(fs) => fs,
        Err(e) => {
            return Err(e);
        },
    };
    match opt.mode {
        Mode::Keys => list_keys(&fs, opt, responses),
        Mode::Formats => list_btree_formats(&fs, opt, responses),
        Mode::Nodes => list_btree_nodes(&fs, opt, responses),
        Mode::NodesOndisk => list_nodes_ondisk(&fs, opt, responses),
    }
}

/// The listing entry point, after argument parsing and logging setup have
/// happened at the process edge.
pub fn list(opt: &Cli, raw_open: u64, responses: &Vec<PeekResult>) -> (r: Result<
    Vec<Bkey>,
    BchError,
>)
    ensures
        opt.devices@.len() == 0 ==> r == Err::<Vec<Bkey>, BchError>(BchError::EmptyDeviceList),
        opt.devices@.len() > 0 && spec_is_error_value(raw_open) ==> r == Err::<Vec<Bkey>, BchError>(
            BchError::Engine { errno: spec_errno_of(raw_open) },
        ),
        opt.devices@.len() > 0 && !spec_is_error_value(raw_open) ==> match r {
            Ok(v) => scan_spec(responses@, opt.start, opt.end, spec_mode_filter(*opt)) == Ok::<
                Seq<Bkey>,
                BchError,
            >(v@),
            Err(e) => scan_spec(responses@, opt.start, opt.end, spec_mode_filter(*opt)) == Err::<
                Seq<Bkey>,
                BchError,
            >(e),
        },
{
    cmd_list_inner(opt, raw_open, responses)
}

} // verus!
