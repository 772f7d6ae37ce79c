//! Safety and iteration layer for a copy-on-write, B-tree-structured
//! filesystem whose storage engine is an external native component.
//!
//! The engine owns device I/O, locking and the on-disk B-tree; it speaks an
//! errno-in-pointer convention and yields keys one cursor step at a time.
//! This crate holds the checked side of that boundary: error-band
//! translation of raw engine returns, handle acquisition with its
//! preconditions, and cursor traversal with bounded scans, key-type
//! filtering and transparent retry on transient conflicts.  Every engine
//! interaction is modelled as a plain event handed to a verified decision
//! function, so the driver that performs the native calls only relays
//! results back and forth.

use vstd::prelude::*;

pub mod btree;
pub mod err;
pub mod key;
pub mod list;
pub mod mount;
pub mod opts;
pub mod pos;
pub mod super_fs;

verus! {

/// Run a fallible command body and translate its outcome to the C
/// calling convention: zero for success, one for failure, nothing else.
pub fn call_err_fn_for_c<F, FT, E>(c_fn: F) -> (rc: i32) where F: FnOnce() -> Result<FT, E>
    requires
        call_requires(c_fn, ()),
    ensures
        rc == 0 || rc == 1,
        exists|r: Result<FT, E>|
            call_ensures(c_fn, (), r) && rc == (if r is Ok {
                0i32
            } else {
                1i32
            }),
{
    let r = c_fn();
    if r.is_ok() {
        0
    } else {
        1
    }
}

} // verus!
