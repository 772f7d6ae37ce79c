//! Handle lifecycle: acquiring superblock and filesystem handles.
//!
//! The engine's open entry point takes an array of NUL-terminated device
//! path strings and an option bag, and returns a raw word that is either a
//! filesystem handle or an encoded error; its read-superblock entry point
//! takes one path and reports a status code.  This module holds the checked
//! half of both paths: marshalling the device list, rejecting an empty list
//! before any engine call, and translating the raw return.  The driver that
//! performs the native call hands the raw result back in as a plain value.

use vstd::prelude::*;
use crate::err::{BchError, spec_is_error_value, spec_errno_of, ptr_result};
use crate::opts::bch_opts;

verus! {

/// The views of a sequence of byte vectors.
pub open spec fn view_seq(s: Seq<Vec<u8>>) -> Seq<Seq<u8>> {
    s.map_values(|v: Vec<u8>| v@)
}

/// The engine's string-array form of a device list: each path that holds no
/// interior NUL, in order, with a terminating NUL appended; paths that
/// cannot be represented as NUL-terminated strings are dropped.
pub open spec fn spec_marshal(devs: Seq<Vec<u8>>) -> Seq<Seq<u8>>
    decreases devs.len(),
{
    if devs.len() == 0 {
        Seq::empty()
    } else {
        let rest = spec_marshal(devs.drop_last());
        if devs.last()@.contains(0u8) {
            rest
        } else {
            rest.push(devs.last()@.push(0u8))
        }
    }
}

/// True when `v` holds a NUL byte.
fn contains_nul(v: &Vec<u8>) -> (r: bool)
    ensures
        r == v@.contains(0u8),
{
    let mut i: usize = 0;
    while i < v.len()
        invariant
            i <= v@.len(),
            forall|j: int| 0 <= j < i ==> v@[j] != 0u8,
        decreases v@.len() - i,
    {
        if v[i] == 0u8 {
            assert(v@.contains(0u8));
            return true;
        }
        i = i + 1;
    }
    assert(!v@.contains(0u8));
    false
}

/// Marshal a device list into the engine's expected string-array form.
pub fn marshal_devices(devices: &Vec<Vec<u8>>) -> (r: Vec<Vec<u8>>)
    ensures
        view_seq(r@) == spec_marshal(devices@),
{
    let mut out: Vec<Vec<u8>> = Vec::new();
    let mut i: usize = 0;
    while i < devices.len()
        invariant
            i <= devices@.len(),
            view_seq(out@) == spec_marshal(devices@.take(i as int)),
        decreases devices@.len() - i,
    {
        let ghost prefix = devices@.take(i as int);
        assert(devices@.take(i + 1).drop_last() =~= prefix);
        assert(devices@.take(i + 1).last() == devices@[i as int]);
        if !contains_nul(&devices[i]) {
            let mut nv = devices[i].clone();
            nv.push(0u8);
            out.push(nv);
            assert(view_seq(out@) =~= spec_marshal(devices@.take(i + 1)));
        } else {
            assert(view_seq(out@) =~= spec_marshal(devices@.take(i + 1)));
        }
        i = i + 1;
    }
    assert(devices@.take(devices@.len() as int) =~= devices@);
    out
}

/// What the open path does next: either reject the request before any
/// engine call, or call the engine's open entry point with the marshalled
/// device array and the option bag.
pub enum OpenStep {
    /// Refuse the request; the engine is never called.
    Reject(BchError),
    /// Call the engine with these marshalled paths and options.
    Call { devices: Vec<Vec<u8>>, opts: bch_opts },
}

/// Decide how an open request proceeds.  An empty device list is rejected
/// here, before any engine call is attempted.
pub fn open_begin(devices: &Vec<Vec<u8>>, opts: bch_opts) -> (r: OpenStep)
    ensures
        devices@.len() == 0 ==> r == OpenStep::Reject(BchError::EmptyDeviceList),
        devices@.len() > 0 ==> (r matches OpenStep::Call { devices: d, opts: o }
            && view_seq(d@) == spec_marshal(devices@) && o == opts),
{
    if devices.len() == 0 {
        OpenStep::Reject(BchError::EmptyDeviceList)
    } else {
        OpenStep::Call { devices: marshal_devices(devices), opts }
    }
}

/// An open filesystem instance: the validated raw handle word returned by
/// the engine's open entry point.  Exclusively owned by the scope that
/// acquired it; transactions and cursors borrow it and never outlive it.
#[allow(non_camel_case_types)]
pub struct bch_fs {
    /// The raw handle word; never in the error band.
    pub raw: u64,
}

impl bch_fs {
    /// A well-formed handle never holds an error-band word.
    pub open spec fn wf(self) -> bool {
        !spec_is_error_value(self.raw)
    }

    /// Acquire a filesystem handle: decide the open request, and translate
    /// the raw word the engine's open entry point returned for it.
    /// `raw_open` is that raw return; when the request is rejected before
    /// the call, it is never examined.
    pub fn try_new(devices: &Vec<Vec<u8>>, opts: bch_opts, raw_open: u64) -> (r: Result<
        bch_fs,
        BchError,
    >)
        ensures
            devices@.len() == 0 ==> r == Err::<bch_fs, BchError>(BchError::EmptyDeviceList),
            devices@.len() > 0 && spec_is_error_value(raw_open) ==> r == Err::<bch_fs, BchError>(
                BchError::Engine { errno: spec_errno_of(raw_open) },
            ),
            devices@.len() > 0 && !spec_is_error_value(raw_open) ==> (r matches Ok(fs) && fs.raw
                == raw_open && fs.wf()),
    {
        match open_begin(devices, opts) {
            OpenStep::Reject(e) => Err(e),
            OpenStep::Call { devices: _, opts: _ } => match ptr_result(raw_open) {
                Ok(v) => Ok(bch_fs { raw: v }),
                Err(e) => Err(e),
            },
        }
    }
}

/// An owned superblock handle: proof that a superblock was read in full
/// from one device, without a full mount.
#[allow(non_camel_case_types)]
pub struct bch_sb_handle {
    /// The device path the superblock was read from.
    pub path: Vec<u8>,
}

/// The error number a nonzero read-superblock status encodes: the engine
/// reports the negated error number, so the magnitude is taken.
pub open spec fn spec_status_errno(status: i32) -> u64 {
    if status < 0 {
        (-(status as int)) as u64
    } else {
        status as u64
    }
}

/// Translate the status the engine's read-superblock entry point returned
/// for `path`.  The output buffer is fully populated only on status zero,
/// so only that status yields a handle.
pub fn read_super_opts(path: &Vec<u8>, _opts: bch_opts, status: i32) -> (r: Result<
    bch_sb_handle,
    BchError,
>)
    ensures
        r is Ok <==> status == 0,
        r matches Ok(sb) ==> sb.path@ == path@,
        status != 0 ==> r == Err::<bch_sb_handle, BchError>(
            BchError::Engine { errno: spec_status_errno(status) },
        ),
{
    if status == 0 {
        Ok(bch_sb_handle { path: path.clone() })
    } else {
        let errno: u64 = if status < 0 {
            (-(status as i64)) as u64
        } else {
            status as u64
        };
        Err(BchError::Engine { errno })
    }
}

/// `read_super_opts` with the default (empty) option bag.
pub fn read_super(path: &Vec<u8>, status: i32) -> (r: Result<bch_sb_handle, BchError>)
    ensures
        r is Ok <==> status == 0,
        r matches Ok(sb) ==> sb.path@ == path@,
        status != 0 ==> r == Err::<bch_sb_handle, BchError>(
            BchError::Engine { errno: spec_status_errno(status) },
        ),
{
    read_super_opts(path, bch_opts::default(), status)
}

} // verus!
