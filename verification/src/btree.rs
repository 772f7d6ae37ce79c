//! Transaction and cursor traversal over the engine's ordered key-space.
//!
//! A transaction is a scope, bound to a filesystem handle, within which
//! cursors run.  A cursor holds a target btree, a current position and
//! flags, and advances monotonically: once it has yielded a key at position
//! P, every later yield is at or after P.  Each engine peek is a blocking
//! native call performed by the driver; its result comes back into this
//! module as a plain `PeekResult` event, and `peek_step` is the verified
//! state transition for one such event.  A transient conflict (`Restart`)
//! is absorbed by retrying with the same floor position, so a retried peek
//! observes exactly what an unconflicted peek would have.
//!
//! `scan` runs the whole bounded traversal over a recorded sequence of
//! events: it stops strictly past the caller's upper bound, optionally
//! filters by key-type discriminant (rejected keys are still advanced
//! past), and refuses to observe a position ordering violation.

use vstd::prelude::*;
use crate::err::BchError;
use crate::key::Bkey;
use crate::pos::{
    Bpos, pos_le, pos_lt, spec_pos_succ, spec_spos_max, lemma_pos_bounds, lemma_pos_order_trans,
    lemma_pos_succ_least,
};
use crate::super_fs::bch_fs;

verus! {

/// A traversal scope bound to a filesystem handle.  Cursors borrow the
/// transaction and never outlive it; the transaction never outlives the
/// handle.
pub struct BtreeTrans<'f> {
    /// The filesystem instance this transaction reads.
    pub fs: &'f bch_fs,
}

impl<'f> BtreeTrans<'f> {
    /// Begin a transaction on an open filesystem.
    pub fn new(fs: &'f bch_fs) -> (r: Self)
        ensures
            r.fs == fs,
    {
        BtreeTrans { fs }
    }
}

/// Behavioral flags of a cursor.
#[derive(Clone, Copy, Debug, PartialEq, Eq, Structural)]
pub struct BtreeIterFlags {
    /// Traverse keys of every snapshot, not one logical view.
    pub all_snapshots: bool,
    /// Ask the engine to prefetch ahead of the cursor.
    pub prefetch: bool,
}

/// What one engine peek call reported, as a plain event.
#[derive(Clone, Copy, Debug, PartialEq, Eq, Structural)]
pub enum PeekResult {
    /// The next key at or after the requested position.
    Key(Bkey),
    /// No key at or below the end of the key-space: the scan is exhausted.
    Empty,
    /// A transient conflict with concurrent B-tree mutation; the peek must
    /// be retried with the same floor position.
    Restart,
    /// A non-retryable engine failure, carrying the decoded error number.
    Fail(u64),
}

/// What the cursor did with one peek event.
#[derive(Clone, Copy, Debug, PartialEq, Eq, Structural)]
pub enum StepOutcome {
    /// A key was yielded; the cursor is positioned on it.
    Yielded(Bkey),
    /// The event was a transient conflict: peek again, same position.
    Retry,
    /// The traversal is exhausted.
    Exhausted,
    /// A failure to surface to the caller.
    Fail(BchError),
}

/// Mutable cursor state over one btree's key-space.
pub struct BtreeIter<'t, 'f> {
    /// The transaction this cursor runs in.
    pub trans: &'t BtreeTrans<'f>,
    /// Which btree's key-space is traversed.
    pub btree: u32,
    /// Depth to descend to; zero means leaves.
    pub level: u32,
    /// Locking mode for node-level traversal.
    pub locks: u32,
    /// Behavioral flags.
    pub flags: BtreeIterFlags,
    /// The floor: the next peek yields a key at or after this position.
    pub pos: Bpos,
    /// The position of the most recently yielded key, until the cursor
    /// advances past it.
    pub last: Option<Bpos>,
    /// Whether the traversal has run off the end of the key-space.
    pub exhausted: bool,
}

impl<'t, 'f> BtreeIter<'t, 'f> {
    /// A key cursor in the created state: at `start`, on leaves.
    pub fn new(trans: &'t BtreeTrans<'f>, btree: u32, start: Bpos, flags: BtreeIterFlags) -> (r:
        Self)
        ensures
            r.trans == trans,
            r.btree == btree,
            r.level == 0,
            r.locks == 0,
            r.flags == flags,
            r.pos == start,
            r.last is None,
            !r.exhausted,
    {
        BtreeIter { trans, btree, level: 0, locks: 0, flags, pos: start, last: None, exhausted: false }
    }

    /// A node cursor in the created state: at `start`, descending to
    /// `level`, with an explicit locking mode.
    pub fn new_node(
        trans: &'t BtreeTrans<'f>,
        btree: u32,
        start: Bpos,
        locks: u32,
        level: u32,
        flags: BtreeIterFlags,
    ) -> (r: Self)
        ensures
            r.trans == trans,
            r.btree == btree,
            r.level == level,
            r.locks == locks,
            r.flags == flags,
            r.pos == start,
            r.last is None,
            !r.exhausted,
    {
        BtreeIter { trans, btree, level, locks, flags, pos: start, last: None, exhausted: false }
    }

    /// Process the result of one engine peek at the cursor's position.
    ///
    /// On an exhausted cursor a peek yields the empty result outright,
    /// whatever the event says.  Otherwise: a `Restart` event leaves the
    /// cursor unchanged, so the retried peek re-observes the same floor,
    /// and a key before the floor is a position ordering violation, which
    /// the cursor refuses to observe.
    pub fn peek_step(&mut self, resp: PeekResult) -> (o: StepOutcome)
        ensures
            final(self).trans == old(self).trans,
            final(self).btree == old(self).btree,
            final(self).level == old(self).level,
            final(self).locks == old(self).locks,
            final(self).flags == old(self).flags,
            old(self).exhausted ==> *final(self) == *old(self) && o == StepOutcome::Exhausted,
            !old(self).exhausted ==> (resp is Restart ==> *final(self) == *old(self) && o
                == StepOutcome::Retry),
            !old(self).exhausted ==> (resp is Empty ==> o == StepOutcome::Exhausted
                && final(self).exhausted && final(self).pos == old(self).pos && final(self).last
                == old(self).last),
            !old(self).exhausted ==> (resp matches PeekResult::Fail(e) ==> *final(self) == *old(
                self,
            ) && o == StepOutcome::Fail(BchError::Engine { errno: e })),
            !old(self).exhausted ==> (resp matches PeekResult::Key(k) ==> (if pos_le(
                old(self).pos,
                k.p,
            ) {
                o == StepOutcome::Yielded(k) && final(self).pos == k.p && final(self).last
                    == Some(k.p) && !final(self).exhausted
            } else {
                *final(self) == *old(self) && o == StepOutcome::Fail(BchError::OrderViolation)
            })),
    {
        if self.exhausted {
            return StepOutcome::Exhausted;
        }
        match resp {
            PeekResult::Restart => StepOutcome::Retry,
            PeekResult::Empty => {
                self.exhausted = true;
                StepOutcome::Exhausted
            },
            PeekResult::Fail(e) => StepOutcome::Fail(BchError::Engine { errno: e }),
            PeekResult::Key(k) => {
                if self.pos.le(&k.p) {
                    self.pos = k.p;
                    self.last = Some(k.p);
                    StepOutcome::Yielded(k)
                } else {
                    StepOutcome::Fail(BchError::OrderViolation)
                }
            },
        }
    }

    /// Move strictly past the most recently yielded position.  Without a
    /// prior successful peek this has no effect.  Advancing past the
    /// maximum position exhausts the cursor.
    pub fn advance(&mut self)
        ensures
            final(self).trans == old(self).trans,
            final(self).btree == old(self).btree,
            final(self).level == old(self).level,
            final(self).locks == old(self).locks,
            final(self).flags == old(self).flags,
            old(self).last is None ==> *final(self) == *old(self),
            old(self).last matches Some(p) ==> final(self).last is None && (if p
                == spec_spos_max() {
                final(self).exhausted && final(self).pos == old(self).pos
            } else {
                final(self).pos == spec_pos_succ(p) && final(self).exhausted == old(self).exhausted
            }),
    {
        match self.last {
            None => {},
            Some(p) => {
                match p.succ() {
                    Some(next) => {
                        self.pos = next;
                        self.last = None;
                    },
                    None => {
                        self.exhausted = true;
                        self.last = None;
                    },
                }
            },
        }
    }
}

/// The outcome of a bounded, optionally filtered traversal over a sequence
/// of peek events, starting with floor `pos`: the keys yielded in order,
/// or the failure that stopped the scan.  Transient conflicts are retried
/// in place; a key strictly past `end` stops the scan; a rejected key is
/// advanced past; the event sequence running out mid-scan is reported as
/// truncation.
pub open spec fn scan_spec(
    rs: Seq<PeekResult>,
    pos: Bpos,
    end: Bpos,
    filter: Option<u8>,
) -> Result<Seq<Bkey>, BchError>
    decreases rs.len(),
{
    if rs.len() == 0 {
        Err(BchError::Truncated)
    } else {
        match rs.first() {
            PeekResult::Restart => scan_spec(rs.drop_first(), pos, end, filter),
            PeekResult::Empty => Ok(Seq::empty()),
            PeekResult::Fail(e) => Err(BchError::Engine { errno: e }),
            PeekResult::Key(k) => {
                if !pos_le(pos, k.p) {
                    Err(BchError::OrderViolation)
                } else if pos_lt(end, k.p) {
                    Ok(Seq::empty())
                } else {
                    let keep = match filter {
                        Some(t) => k.type_ == t,
                        None => true,
                    };
                    if k.p == spec_spos_max() {
                        if keep {
                            Ok(seq![k])
                        } else {
                            Ok(Seq::empty())
                        }
                    } else {
                        match scan_spec(rs.drop_first(), spec_pos_succ(k.p), end, filter) {
                            Ok(rest) => if keep {
                                Ok(seq![k] + rest)
                            } else {
                                Ok(rest)
                            },
                            Err(e) => Err(e),
                        }
                    }
                }
            },
        }
    }
}

/// Run a bounded, optionally filtered traversal, one recorded peek event
/// per engine call, until the scan stops past `end`, exhausts, or fails.
#[verifier::loop_isolation(false)]
pub fn scan(
    iter: &mut BtreeIter,
    responses: &Vec<PeekResult>,
    end: Bpos,
    filter: Option<u8>,
) -> (r: Result<Vec<Bkey>, BchError>)
    requires
        !old(iter).exhausted,
        old(iter).last is None,
    ensures
        match r {
            Ok(v) => scan_spec(responses@, old(iter).pos, end, filter) == Ok::<
                Seq<Bkey>,
                BchError,
            >(v@),
            Err(e) => scan_spec(responses@, old(iter).pos, end, filter) == Err::<
                Seq<Bkey>,
                BchError,
            >(e),
        },
{
    let ghost full = scan_spec(responses@, old(iter).pos, end, filter);
    let mut out: Vec<Bkey> = Vec::new();
    let mut i: usize = 0;
    proof {
        assert(responses@.skip(0) =~= responses@);
        match scan_spec(responses@, iter.pos, end, filter) {
            Ok(rest) => {
                assert(Seq::<Bkey>::empty() + rest =~= rest);
            },
            Err(_) => {},
        }
    }
    loop
        invariant
            i <= responses@.len(),
            !iter.exhausted,
            iter.last is None,
            match scan_spec(responses@.skip(i as int), iter.pos, end, filter) {
                Ok(rest) => full == Ok::<Seq<Bkey>, BchError>(out@ + rest),
                Err(e) => full == Err::<Seq<Bkey>, BchError>(e),
            },
        decreases responses@.len() - i,
    {
        let ghost pre = responses@.skip(i as int);
        if i >= responses.len() {
            assert(pre.len() == 0);
            return Err(BchError::Truncated);
        }
        let resp = responses[i];
        proof {
            assert(pre.first() == responses@[i as int]);
            assert(pre.drop_first() =~= responses@.skip(i as int + 1));
        }
        i = i + 1;
        match iter.peek_step(resp) {
            StepOutcome::Retry => {},
            StepOutcome::Exhausted => {
                assert(out@ + Seq::<Bkey>::empty() =~= out@);
                return Ok(out);
            },
            StepOutcome::Fail(e) => {
                return Err(e);
            },
            StepOutcome::Yielded(k) => {
                if end.lt(&k.p) {
                    assert(out@ + Seq::<Bkey>::empty() =~= out@);
                    return Ok(out);
                }
                let keep = match filter {
                    Some(t) => k.type_ == t,
                    None => true,
                };
                let ghost out0 = out@;
                if keep {
                    out.push(k);
                }
                iter.advance();
                if iter.exhausted {
                    proof {
                        if keep {
                            assert(out@ =~= out0 + seq![k]);
                        } else {
                            assert(out0 + Seq::<Bkey>::empty() =~= out0);
                        }
                    }
                    return Ok(out);
                }
                proof {
                    let rest = scan_result_or_empty(responses@.skip(i as int), iter.pos, end, filter);
                    if keep {
                        assert(out@ + rest =~= out0 + (seq![k] + rest));
                    }
                }
            },
        }
    }
}

/// The yielded keys of a scan outcome, or the empty sequence on failure.
pub open spec fn scan_result_or_empty(
    rs: Seq<PeekResult>,
    pos: Bpos,
    end: Bpos,
    filter: Option<u8>,
) -> Seq<Bkey> {
    match scan_spec(rs, pos, end, filter) {
        Ok(s) => s,
        Err(_) => Seq::empty(),
    }
}

/// The peek events of `rs` with every transient conflict removed.
pub open spec fn strip_restarts(rs: Seq<PeekResult>) -> Seq<PeekResult>
    decreases rs.len(),
{
    if rs.len() == 0 {
        Seq::empty()
    } else if rs.first() is Restart {
        strip_restarts(rs.drop_first())
    } else {
        seq![rs.first()] + strip_restarts(rs.drop_first())
    }
}

/// The event sequence a conflict-free engine serves from the key sequence
/// `ks`: each key in order, then exhaustion.
pub open spec fn keys_responses(ks: Seq<Bkey>) -> Seq<PeekResult> {
    ks.map_values(|k: Bkey| PeekResult::Key(k)).push(PeekResult::Empty)
}

/// `rs` is a serving of the key sequence `ks`: transient conflicts aside,
/// the engine reported exactly the keys of `ks` in order, then exhaustion.
pub open spec fn models(rs: Seq<PeekResult>, ks: Seq<Bkey>) -> bool {
    strip_restarts(rs) == keys_responses(ks)
}

/// The positions of `ks` are strictly increasing.
pub open spec fn strictly_increasing(ks: Seq<Bkey>) -> bool {
    forall|i: int, j: int| 0 <= i < j < ks.len() ==> pos_lt(ks[i].p, ks[j].p)
}

/// The keys of `ks` whose position is at or below `end`, in order.
pub open spec fn keys_within(ks: Seq<Bkey>, end: Bpos) -> Seq<Bkey>
    decreases ks.len(),
{
    if ks.len() == 0 {
        Seq::empty()
    } else {
        let rest = keys_within(ks.drop_first(), end);
        if pos_le(ks.first().p, end) {
            seq![ks.first()] + rest
        } else {
            rest
        }
    }
}

/// The keys of `ks` whose discriminant is `t`, in order.
pub open spec fn type_filter(ks: Seq<Bkey>, t: u8) -> Seq<Bkey>
    decreases ks.len(),
{
    if ks.len() == 0 {
        Seq::empty()
    } else {
        let rest = type_filter(ks.drop_first(), t);
        if ks.first().type_ == t {
            seq![ks.first()] + rest
        } else {
            rest
        }
    }
}

/// A scan is deaf to transient conflicts: its outcome over any event
/// sequence equals its outcome over the same events with every conflict
/// removed.
pub proof fn lemma_scan_ignores_restarts(rs: Seq<PeekResult>, pos: Bpos, end: Bpos, filter: Option<
    u8,
>)
    ensures
        scan_spec(rs, pos, end, filter) == scan_spec(strip_restarts(rs), pos, end, filter),
    decreases rs.len(),
{
    if rs.len() == 0 {
    } else if rs.first() is Restart {
        lemma_scan_ignores_restarts(rs.drop_first(), pos, end, filter);
    } else {
        let s = strip_restarts(rs);
        assert(s.len() > 0);
        assert(s.first() == rs.first());
        assert(s.drop_first() =~= strip_restarts(rs.drop_first()));
        match rs.first() {
            PeekResult::Key(k) => {
                if pos_le(pos, k.p) && !pos_lt(end, k.p) && k.p != spec_spos_max() {
                    lemma_scan_ignores_restarts(rs.drop_first(), spec_pos_succ(k.p), end, filter);
                } else {
                    lemma_scan_ignores_restarts(rs.drop_first(), pos, end, filter);
                }
            },
            _ => {},
        }
    }
}

/// Restart idempotence: two event sequences that differ only in injected
/// transient conflicts give identical scan outcomes, so however many times
/// a peek had to retry, the yielded keys are what a conflict-free run
/// would have yielded.
pub proof fn lemma_restart_idempotent(
    rs1: Seq<PeekResult>,
    rs2: Seq<PeekResult>,
    pos: Bpos,
    end: Bpos,
    filter: Option<u8>,
)
    requires
        strip_restarts(rs1) == strip_restarts(rs2),
    ensures
        scan_spec(rs1, pos, end, filter) == scan_spec(rs2, pos, end, filter),
{
    lemma_scan_ignores_restarts(rs1, pos, end, filter);
    lemma_scan_ignores_restarts(rs2, pos, end, filter);
}

proof fn lemma_keys_within_empty(ks: Seq<Bkey>, end: Bpos)
    requires
        forall|i: int| 0 <= i < ks.len() ==> !pos_le(ks[i].p, end),
    ensures
        keys_within(ks, end) == Seq::<Bkey>::empty(),
    decreases ks.len(),
{
    if ks.len() > 0 {
        assert(forall|i: int|
            0 <= i < ks.drop_first().len() ==> ks.drop_first()[i] == ks[i + 1]);
        lemma_keys_within_empty(ks.drop_first(), end);
    }
}

proof fn lemma_keys_within_all(ks: Seq<Bkey>, end: Bpos)
    requires
        forall|i: int| 0 <= i < ks.len() ==> pos_le(ks[i].p, end),
    ensures
        keys_within(ks, end) == ks,
    decreases ks.len(),
{
    if ks.len() > 0 {
        assert(forall|i: int|
            0 <= i < ks.drop_first().len() ==> ks.drop_first()[i] == ks[i + 1]);
        lemma_keys_within_all(ks.drop_first(), end);
        assert(seq![ks.first()] + ks.drop_first() =~= ks);
    }
}

/// The conflict-free core of the bounded-scan law: over the events a
/// conflict-free engine serves from a strictly increasing key sequence
/// whose keys all lie at or after the start floor, an unfiltered scan
/// yields exactly the keys at or below the bound, in order.
proof fn lemma_scan_serves_keys(ks: Seq<Bkey>, pos: Bpos, end: Bpos)
    requires
        strictly_increasing(ks),
        forall|i: int| 0 <= i < ks.len() ==> pos_le(pos, ks[i].p),
    ensures
        scan_spec(keys_responses(ks), pos, end, None) == Ok::<Seq<Bkey>, BchError>(
            keys_within(ks, end),
        ),
    decreases ks.len(),
{
    let rs = keys_responses(ks);
    assert(rs.len() == ks.len() + 1);
    if ks.len() == 0 {
        assert(rs.first() == PeekResult::Empty);
    } else {
        let k = ks.first();
        assert(rs.first() == PeekResult::Key(k));
        assert(pos_le(pos, k.p));
        if pos_lt(end, k.p) {
            assert forall|i: int| 0 <= i < ks.len() implies !pos_le(ks[i].p, end) by {
                if i > 0 {
                    lemma_pos_order_trans(end, k.p, ks[i].p);
                }
            }
            lemma_keys_within_empty(ks, end);
        } else if k.p == spec_spos_max() {
            if ks.len() > 1 {
                assert(pos_lt(ks[0].p, ks[1].p));
                lemma_pos_bounds(ks[1].p);
                assert(false);
            }
            assert(ks.drop_first().len() == 0);
            lemma_keys_within_empty(ks.drop_first(), end);
            assert(keys_within(ks, end) == seq![k] + Seq::<Bkey>::empty());
            assert(seq![k] + Seq::<Bkey>::empty() =~= seq![k]);
        } else {
            let rest = ks.drop_first();
            assert(forall|i: int| 0 <= i < rest.len() ==> rest[i] == ks[i + 1]);
            assert(rs.drop_first() =~= keys_responses(rest));
            assert forall|i: int, j: int| 0 <= i < j < rest.len() implies pos_lt(
                rest[i].p,
                rest[j].p,
            ) by {
                assert(pos_lt(ks[i + 1].p, ks[j + 1].p));
            }
            assert forall|i: int| 0 <= i < rest.len() implies pos_le(
                spec_pos_succ(k.p),
                rest[i].p,
            ) by {
                assert(pos_lt(ks[0].p, ks[i + 1].p));
                lemma_pos_succ_least(k.p, ks[i + 1].p);
            }
            lemma_scan_serves_keys(rest, spec_pos_succ(k.p), end);
            assert(keys_within(ks, end) == seq![k] + keys_within(rest, end));
        }
    }
}

/// Bounded scan: against a key-space served as the strictly increasing
/// sequence `ks`, every key of `ks` at or after the start floor, an
/// unfiltered scan bounded by `end` yields exactly the keys with position
/// at or below `end`, in order, and none beyond — whether or not `end`
/// coincides with a stored key's position, and however many transient
/// conflicts were injected along the way.
pub proof fn lemma_scan_bounded(rs: Seq<PeekResult>, ks: Seq<Bkey>, pos: Bpos, end: Bpos)
    requires
        models(rs, ks),
        strictly_increasing(ks),
        forall|i: int| 0 <= i < ks.len() ==> pos_le(pos, ks[i].p),
    ensures
        scan_spec(rs, pos, end, None) == Ok::<Seq<Bkey>, BchError>(keys_within(ks, end)),
{
    lemma_scan_ignores_restarts(rs, pos, end, None);
    lemma_scan_serves_keys(ks, pos, end);
}

/// Complete traversal: when every key of the served sequence also lies at
/// or below the bound, the scan yields exactly that sequence in order and
/// then reports exhaustion.
pub proof fn lemma_scan_yields_all(rs: Seq<PeekResult>, ks: Seq<Bkey>, pos: Bpos, end: Bpos)
    requires
        models(rs, ks),
        strictly_increasing(ks),
        forall|i: int| 0 <= i < ks.len() ==> pos_le(pos, ks[i].p),
        forall|i: int| 0 <= i < ks.len() ==> pos_le(ks[i].p, end),
    ensures
        scan_spec(rs, pos, end, None) == Ok::<Seq<Bkey>, BchError>(ks),
{
    lemma_scan_bounded(rs, ks, pos, end);
    lemma_keys_within_all(ks, end);
}

/// A cursor never observes a position ordering violation: whatever events
/// the engine serves, a scan that returns keys returns them in strictly
/// increasing position order, every one between the start floor and the
/// bound.
pub proof fn lemma_scan_monotone(rs: Seq<PeekResult>, pos: Bpos, end: Bpos, filter: Option<u8>)
    ensures
        scan_spec(rs, pos, end, filter) matches Ok(s) ==> strictly_increasing(s) && forall|i: int|
            0 <= i < s.len() ==> pos_le(pos, #[trigger] s[i].p) && pos_le(s[i].p, end),
    decreases rs.len(),
{
    if rs.len() == 0 {
    } else {
        match rs.first() {
            PeekResult::Restart => {
                lemma_scan_monotone(rs.drop_first(), pos, end, filter);
            },
            PeekResult::Empty => {},
            PeekResult::Fail(_) => {},
            PeekResult::Key(k) => {
                if pos_le(pos, k.p) && !pos_lt(end, k.p) && k.p != spec_spos_max() {
                    let succ = spec_pos_succ(k.p);
                    lemma_pos_bounds(k.p);
                    lemma_pos_succ_least(k.p, spec_spos_max());
                    lemma_scan_monotone(rs.drop_first(), succ, end, filter);
                    match scan_spec(rs.drop_first(), succ, end, filter) {
                        Ok(rest) => {
                            assert forall|m: int| 0 <= m < rest.len() implies pos_lt(
                                k.p,
                                #[trigger] rest[m].p,
                            ) && pos_le(pos, rest[m].p) by {
                                lemma_pos_order_trans(k.p, succ, rest[m].p);
                                lemma_pos_order_trans(pos, k.p, rest[m].p);
                            }
                            let s = seq![k] + rest;
                            assert(s.drop_first() =~= rest);
                            assert forall|i: int, j: int| 0 <= i < j < s.len() implies pos_lt(
                                s[i].p,
                                s[j].p,
                            ) by {
                                if i > 0 {
                                    assert(pos_lt(rest[i - 1].p, rest[j - 1].p));
                                }
                            }
                        },
                        Err(_) => {},
                    }
                }
            },
        }
    }
}

/// Filtering: a scan filtered by key-type `t` yields exactly the `t`-typed
/// subsequence of what the unfiltered scan yields, in the same order, and
/// fails exactly when the unfiltered scan fails.  Rejected keys are still
/// advanced past, so filtering never changes cursor movement.
pub proof fn lemma_filter_refines(rs: Seq<PeekResult>, pos: Bpos, end: Bpos, t: u8)
    ensures
        match scan_spec(rs, pos, end, None) {
            Ok(s) => scan_spec(rs, pos, end, Some(t)) == Ok::<Seq<Bkey>, BchError>(
                type_filter(s, t),
            ),
            Err(e) => scan_spec(rs, pos, end, Some(t)) == Err::<Seq<Bkey>, BchError>(e),
        },
    decreases rs.len(),
{
    if rs.len() == 0 {
    } else {
        match rs.first() {
            PeekResult::Restart => {
                lemma_filter_refines(rs.drop_first(), pos, end, t);
            },
            PeekResult::Empty => {},
            PeekResult::Fail(_) => {},
            PeekResult::Key(k) => {
                if !pos_le(pos, k.p) {
                } else if pos_lt(end, k.p) {
                } else if k.p == spec_spos_max() {
                    assert(seq![k].drop_first() =~= Seq::<Bkey>::empty());
                    assert(seq![k].first() == k);
                    assert(type_filter(Seq::<Bkey>::empty(), t) == Seq::<Bkey>::empty());
                    if k.type_ == t {
                        assert(type_filter(seq![k], t) == seq![k] + Seq::<Bkey>::empty());
                        assert(seq![k] + Seq::<Bkey>::empty() =~= seq![k]);
                    } else {
                        assert(type_filter(seq![k], t) == Seq::<Bkey>::empty());
                    }
                } else {
                    lemma_filter_refines(rs.drop_first(), spec_pos_succ(k.p), end, t);
                    match scan_spec(rs.drop_first(), spec_pos_succ(k.p), end, None) {
                        Ok(s2) => {
                            assert((seq![k] + s2).first() == k);
                            assert((seq![k] + s2).drop_first() =~= s2);
                            if k.type_ == t {
                                assert(type_filter(seq![k] + s2, t) == seq![k] + type_filter(
                                    s2,
                                    t,
                                ));
                            } else {
                                assert(type_filter(seq![k] + s2, t) == type_filter(s2, t));
                            }
                        },
                        Err(_) => {},
                    }
                }
            },
        }
    }
}

} // verus!
