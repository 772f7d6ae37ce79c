//! Positions in the engine's ordered key-space.
//!
//! A position is the totally-ordered triple (inode, offset, snapshot),
//! compared lexicographically.  `Bpos::min_pos` and `Bpos::spos_max` are the
//! sentinel bounds of the key-space; `succ` is the immediate successor, the
//! position a cursor moves to when it advances strictly past a yielded key.

use vstd::prelude::*;

verus! {

/// A location in a btree's key-space: (inode, offset, snapshot),
/// ordered lexicographically.
#[derive(Clone, Copy, Debug, PartialEq, Eq, Structural)]
pub struct Bpos {
    pub inode: u64,
    pub offset: u64,
    pub snapshot: u32,
}

/// Strict lexicographic order over (inode, offset, snapshot).
pub open spec fn pos_lt(a: Bpos, b: Bpos) -> bool {
    ||| a.inode < b.inode
    ||| (a.inode == b.inode && a.offset < b.offset)
    ||| (a.inode == b.inode && a.offset == b.offset && a.snapshot < b.snapshot)
}

/// Non-strict lexicographic order.
pub open spec fn pos_le(a: Bpos, b: Bpos) -> bool {
    pos_lt(a, b) || a == b
}

/// The smallest position.
pub open spec fn spec_pos_min() -> Bpos {
    Bpos { inode: 0, offset: 0, snapshot: 0 }
}

/// The largest position, snapshot field included.
pub open spec fn spec_spos_max() -> Bpos {
    Bpos { inode: u64::MAX, offset: u64::MAX, snapshot: u32::MAX }
}

/// The immediate successor of a position that is not the maximum:
/// increment the snapshot, carrying into offset and inode.
pub open spec fn spec_pos_succ(p: Bpos) -> Bpos {
    if p.snapshot < u32::MAX {
        Bpos { inode: p.inode, offset: p.offset, snapshot: (p.snapshot + 1) as u32 }
    } else if p.offset < u64::MAX {
        Bpos { inode: p.inode, offset: (p.offset + 1) as u64, snapshot: 0 }
    } else {
        Bpos { inode: (p.inode + 1) as u64, offset: 0, snapshot: 0 }
    }
}

impl Bpos {
    /// The minimum sentinel, the default start of a scan.
    pub fn min_pos() -> (r: Bpos)
        ensures
            r == spec_pos_min(),
    {
        Bpos { inode: 0, offset: 0, snapshot: 0 }
    }

    /// The maximum sentinel, the default end of a scan.
    pub fn spos_max() -> (r: Bpos)
        ensures
            r == spec_spos_max(),
    {
        Bpos { inode: u64::MAX, offset: u64::MAX, snapshot: u32::MAX }
    }

    /// Strict comparison, matching `pos_lt`.
    pub fn lt(&self, other: &Bpos) -> (r: bool)
        ensures
            r == pos_lt(*self, *other),
    {
        if self.inode != other.inode {
            self.inode < other.inode
        } else if self.offset != other.offset {
            self.offset < other.offset
        } else {
            self.snapshot < other.snapshot
        }
    }

    /// Non-strict comparison, matching `pos_le`.
    pub fn le(&self, other: &Bpos) -> (r: bool)
        ensures
            r == pos_le(*self, *other),
    {
        !other.lt(self)
    }

    /// The next position strictly after `self`, or `None` at the maximum.
    pub fn succ(&self) -> (r: Option<Bpos>)
        ensures
            r is Some <==> *self != spec_spos_max(),
            r matches Some(s) ==> s == spec_pos_succ(*self),
    {
        if self.snapshot < u32::MAX {
            Some(Bpos { inode: self.inode, offset: self.offset, snapshot: self.snapshot + 1 })
        } else if self.offset < u64::MAX {
            Some(Bpos { inode: self.inode, offset: self.offset + 1, snapshot: 0 })
        } else if self.inode < u64::MAX {
            Some(Bpos { inode: self.inode + 1, offset: 0, snapshot: 0 })
        } else {
            None
        }
    }
}

/// The order is total: of two positions, one is at or before the other.
pub proof fn lemma_pos_order_total(a: Bpos, b: Bpos)
    ensures
        pos_le(a, b) || pos_le(b, a),
        pos_le(a, b) && pos_le(b, a) ==> a == b,
{
}

/// The order is transitive.
pub proof fn lemma_pos_order_trans(a: Bpos, b: Bpos, c: Bpos)
    requires
        pos_le(a, b),
        pos_le(b, c),
    ensures
        pos_le(a, c),
        pos_lt(a, b) || pos_lt(b, c) ==> pos_lt(a, c),
{
}

/// Every position lies between the two sentinels.
pub proof fn lemma_pos_bounds(p: Bpos)
    ensures
        pos_le(spec_pos_min(), p),
        pos_le(p, spec_spos_max()),
{
}

/// The successor is the least position strictly after `p`: nothing fits
/// between a position and its successor.
pub proof fn lemma_pos_succ_least(p: Bpos, q: Bpos)
    requires
        p != spec_spos_max(),
        pos_lt(p, q),
    ensures
        pos_lt(p, spec_pos_succ(p)),
        pos_le(spec_pos_succ(p), q),
{
}

} // verus!
