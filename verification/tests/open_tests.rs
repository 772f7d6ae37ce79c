use rbcachefs::err::BchError;
use rbcachefs::opts::bch_opts;
use rbcachefs::super_fs::{bch_fs, marshal_devices, open_begin, read_super, read_super_opts, OpenStep};

fn dev(s: &str) -> Vec<u8> {
    s.as_bytes().to_vec()
}

#[test]
fn empty_device_list_is_rejected_before_the_engine() {
    // The decision step refuses outright: no engine call is planned.
    let step = open_begin(&Vec::new(), bch_opts::default());
    assert!(matches!(step, OpenStep::Reject(BchError::EmptyDeviceList)));
    // And the composed acquisition reports the same failure.
    let r = bch_fs::try_new(&Vec::new(), bch_opts::default(), 0x10000);
    assert!(matches!(r, Err(BchError::EmptyDeviceList)));
}

#[test]
fn nonempty_device_list_plans_an_engine_call() {
    let devices = vec![dev("/dev/a"), dev("/dev/b")];
    let step = open_begin(&devices, bch_opts::default());
    match step {
        OpenStep::Call { devices: marshalled, opts: _ } => {
            assert_eq!(marshalled.len(), 2);
            assert_eq!(marshalled[0], b"/dev/a\0".to_vec());
            assert_eq!(marshalled[1], b"/dev/b\0".to_vec());
        }
        OpenStep::Reject(_) => panic!("a nonempty list must reach the engine"),
    }
}

#[test]
fn marshalling_terminates_and_drops_unrepresentable_paths() {
    let devices = vec![dev("ab"), b"c\0d".to_vec(), dev("e")];
    let marshalled = marshal_devices(&devices);
    assert_eq!(marshalled, vec![b"ab\0".to_vec(), b"e\0".to_vec()]);
}

#[test]
fn open_failure_carries_decoded_error() {
    let devices = vec![dev("/dev/nonexistent")];
    // The engine's open returned -2 (ENOENT negated) as a word.
    let raw = (-2i64) as u64;
    let r = bch_fs::try_new(&devices, bch_opts::default(), raw);
    assert_eq!(r.err(), Some(BchError::Engine { errno: 2 }));
}

#[test]
fn open_success_owns_the_validated_handle() {
    let devices = vec![dev("/dev/a")];
    let r = bch_fs::try_new(&devices, bch_opts::default(), 0xdead0000);
    match r {
        Ok(fs) => assert_eq!(fs.raw, 0xdead0000),
        Err(_) => panic!("a word outside the error band is a handle"),
    }
}

#[test]
fn read_super_status_decoding() {
    let path = dev("/dev/a");
    let ok = read_super(&path, 0);
    match ok {
        Ok(sb) => assert_eq!(sb.path, path),
        Err(_) => panic!("status zero populates the buffer"),
    }
    let err = read_super(&path, -5);
    assert_eq!(err.err(), Some(BchError::Engine { errno: 5 }));
    let err2 = read_super_opts(&path, bch_opts::default(), -22);
    assert_eq!(err2.err(), Some(BchError::Engine { errno: 22 }));
}

#[test]
fn default_option_bag_sets_nothing() {
    let o = bch_opts::default();
    assert_eq!(o.noexcl, None);
    assert_eq!(o.nochanges, None);
    assert_eq!(o.read_only, None);
    assert_eq!(o.norecovery, None);
    assert_eq!(o.degraded, None);
    assert_eq!(o.errors, None);
    assert_eq!(o.fix_errors, None);
    assert_eq!(o.verbose, None);
}
