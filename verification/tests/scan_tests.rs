use rbcachefs::btree::{scan, BtreeIter, BtreeIterFlags, BtreeTrans, PeekResult, StepOutcome};
use rbcachefs::err::BchError;
use rbcachefs::key::Bkey;
use rbcachefs::pos::Bpos;
use rbcachefs::super_fs::bch_fs;

fn p(inode: u64, offset: u64, snapshot: u32) -> Bpos {
    Bpos { inode, offset, snapshot }
}

fn k(inode: u64, type_: u8) -> Bkey {
    Bkey { type_, p: p(inode, 0, 0), size: 8 }
}

fn flags() -> BtreeIterFlags {
    BtreeIterFlags { all_snapshots: true, prefetch: true }
}

fn run_scan(
    start: Bpos,
    end: Bpos,
    filter: Option<u8>,
    responses: Vec<PeekResult>,
) -> Result<Vec<Bkey>, BchError> {
    let fs = bch_fs { raw: 0x10000 };
    let trans = BtreeTrans::new(&fs);
    let mut iter = BtreeIter::new(&trans, 0, start, flags());
    scan(&mut iter, &responses, end, filter)
}

#[test]
fn yields_increasing_keys_in_order_then_exhausts() {
    let keys = [k(1, 1), k(2, 1), k(3, 1)];
    let responses = vec![
        PeekResult::Key(keys[0]),
        PeekResult::Key(keys[1]),
        PeekResult::Key(keys[2]),
        PeekResult::Empty,
    ];
    let got = run_scan(p(0, 0, 0), Bpos::spos_max(), None, responses);
    assert_eq!(got, Ok(vec![keys[0], keys[1], keys[2]]));
}

#[test]
fn retries_never_change_the_yielded_keys() {
    let keys = [k(1, 1), k(2, 1)];
    let plain = vec![
        PeekResult::Key(keys[0]),
        PeekResult::Key(keys[1]),
        PeekResult::Empty,
    ];
    // The same serving with transient conflicts injected before each peek.
    let with_retries = vec![
        PeekResult::Restart,
        PeekResult::Restart,
        PeekResult::Key(keys[0]),
        PeekResult::Restart,
        PeekResult::Key(keys[1]),
        PeekResult::Restart,
        PeekResult::Restart,
        PeekResult::Restart,
        PeekResult::Empty,
    ];
    let a = run_scan(p(0, 0, 0), Bpos::spos_max(), None, plain);
    let b = run_scan(p(0, 0, 0), Bpos::spos_max(), None, with_retries);
    assert_eq!(a, b);
    assert_eq!(a, Ok(vec![keys[0], keys[1]]));
}

#[test]
fn bounded_scan_stops_strictly_past_the_bound() {
    let keys = [k(1, 1), k(2, 1), k(3, 1)];
    let responses = vec![
        PeekResult::Key(keys[0]),
        PeekResult::Key(keys[1]),
        PeekResult::Key(keys[2]),
        PeekResult::Empty,
    ];
    // Bound coincides with a stored key's position: that key is included.
    let at_key = run_scan(p(0, 0, 0), p(2, 0, 0), None, responses.clone());
    assert_eq!(at_key, Ok(vec![keys[0], keys[1]]));
    // Bound between stored keys: same result, nothing beyond it.
    let between = run_scan(p(0, 0, 0), p(2, 5, 0), None, responses);
    assert_eq!(between, Ok(vec![keys[0], keys[1]]));
}

#[test]
fn filtered_scan_is_the_typed_subsequence() {
    let keys = [k(1, 7), k(2, 3), k(3, 7), k(4, 5)];
    let responses: Vec<PeekResult> = keys
        .iter()
        .map(|kk| PeekResult::Key(*kk))
        .chain([PeekResult::Empty])
        .collect();
    let unfiltered = run_scan(p(0, 0, 0), Bpos::spos_max(), None, responses.clone()).unwrap();
    let filtered = run_scan(p(0, 0, 0), Bpos::spos_max(), Some(7), responses).unwrap();
    let typed: Vec<Bkey> = unfiltered.iter().copied().filter(|kk| kk.type_ == 7).collect();
    assert_eq!(filtered, typed);
    assert_eq!(filtered, vec![keys[0], keys[2]]);
}

#[test]
fn truncated_responses_are_reported() {
    let got = run_scan(p(0, 0, 0), Bpos::spos_max(), None, vec![]);
    assert_eq!(got, Err(BchError::Truncated));
    let got2 = run_scan(
        p(0, 0, 0),
        Bpos::spos_max(),
        None,
        vec![PeekResult::Key(k(1, 1))],
    );
    assert_eq!(got2, Err(BchError::Truncated));
}

#[test]
fn nonretryable_engine_failure_propagates() {
    let got = run_scan(
        p(0, 0, 0),
        Bpos::spos_max(),
        None,
        vec![PeekResult::Key(k(1, 1)), PeekResult::Fail(5)],
    );
    assert_eq!(got, Err(BchError::Engine { errno: 5 }));
}

#[test]
fn order_violation_is_refused() {
    let got = run_scan(
        p(5, 0, 0),
        Bpos::spos_max(),
        None,
        vec![PeekResult::Key(k(1, 1)), PeekResult::Empty],
    );
    assert_eq!(got, Err(BchError::OrderViolation));
}

#[test]
fn peek_step_and_advance_transitions() {
    let fs = bch_fs { raw: 0x10000 };
    let trans = BtreeTrans::new(&fs);
    let mut iter = BtreeIter::new(&trans, 0, p(0, 0, 0), flags());

    // Advancing an unpositioned cursor has no effect.
    iter.advance();
    assert_eq!(iter.pos, p(0, 0, 0));
    assert!(!iter.exhausted);

    // A retry leaves the floor untouched.
    let o = iter.peek_step(PeekResult::Restart);
    assert_eq!(o, StepOutcome::Retry);
    assert_eq!(iter.pos, p(0, 0, 0));

    // A yielded key positions the cursor on it; advance moves past it.
    let kk = k(1, 1);
    let o = iter.peek_step(PeekResult::Key(kk));
    assert_eq!(o, StepOutcome::Yielded(kk));
    assert_eq!(iter.pos, p(1, 0, 0));
    iter.advance();
    assert_eq!(iter.pos, p(1, 0, 1));
    assert!(!iter.exhausted);

    // Advancing past the maximum position exhausts the cursor.
    let last = Bkey { type_: 1, p: Bpos::spos_max(), size: 0 };
    let o = iter.peek_step(PeekResult::Key(last));
    assert_eq!(o, StepOutcome::Yielded(last));
    iter.advance();
    assert!(iter.exhausted);
}

#[test]
fn scan_includes_a_key_at_the_maximum_position() {
    let top = Bkey { type_: 1, p: Bpos::spos_max(), size: 0 };
    let got = run_scan(
        p(0, 0, 0),
        Bpos::spos_max(),
        None,
        vec![PeekResult::Key(k(1, 1)), PeekResult::Key(top)],
    );
    assert_eq!(got, Ok(vec![k(1, 1), top]));
}

#[test]
fn peek_on_an_exhausted_cursor_yields_empty() {
    let fs = bch_fs { raw: 0x10000 };
    let trans = BtreeTrans::new(&fs);
    let mut iter = BtreeIter::new(&trans, 0, p(0, 0, 0), flags());
    assert_eq!(iter.peek_step(PeekResult::Empty), StepOutcome::Exhausted);
    assert!(iter.exhausted);
    // Once exhausted, a peek yields the empty result whatever the engine
    // event says, and the cursor does not move.
    assert_eq!(iter.peek_step(PeekResult::Key(k(1, 1))), StepOutcome::Exhausted);
    assert_eq!(iter.peek_step(PeekResult::Restart), StepOutcome::Exhausted);
    assert_eq!(iter.pos, p(0, 0, 0));
    assert!(iter.exhausted);
}
