use rbcachefs::mount::{mount_plan, MountError, MountStep};

fn key() -> Option<Vec<u8>> {
    Some(b"passphrase-key".to_vec())
}

fn mp() -> Option<Vec<u8>> {
    Some(b"/mnt".to_vec())
}

fn opts() -> Vec<u8> {
    b"ro,degraded".to_vec()
}

#[test]
fn no_uuid_means_probe_only() {
    let step = mount_plan(false, false, false, None, None, Vec::new());
    assert!(matches!(step, MountStep::ProbeOnly));
}

#[test]
fn unmatched_identifier_is_not_found() {
    let step = mount_plan(true, false, false, key(), mp(), opts());
    assert!(matches!(step, MountStep::Fail(MountError::FilesystemNotFound)));
    assert_eq!(
        MountError::FilesystemNotFound.message(),
        "filesystem was not found"
    );
}

#[test]
fn locked_filesystem_without_key_is_refused() {
    let step = mount_plan(true, true, true, None, mp(), opts());
    assert!(matches!(step, MountStep::Fail(MountError::NoKeyAvailable)));
    assert_eq!(
        MountError::NoKeyAvailable.message(),
        "no keyoption specified for locked filesystem"
    );
}

#[test]
fn missing_mountpoint_is_refused() {
    let step = mount_plan(true, true, false, None, None, opts());
    assert!(matches!(step, MountStep::Fail(MountError::NoMountpoint)));
    assert_eq!(
        MountError::NoMountpoint.message(),
        "mountpoint option was not specified"
    );
}

#[test]
fn encrypted_mount_carries_the_key() {
    let step = mount_plan(true, true, true, key(), mp(), opts());
    match step {
        MountStep::Mount { key: k, mountpoint, options } => {
            assert_eq!(k, key());
            assert_eq!(mountpoint, b"/mnt".to_vec());
            assert_eq!(options, opts());
        }
        _ => panic!("everything was supplied: the mount proceeds"),
    }
}

#[test]
fn plain_mount_carries_no_key() {
    let step = mount_plan(true, true, false, key(), mp(), opts());
    match step {
        MountStep::Mount { key: k, mountpoint, options } => {
            assert_eq!(k, None);
            assert_eq!(mountpoint, b"/mnt".to_vec());
            assert_eq!(options, opts());
        }
        _ => panic!("everything was supplied: the mount proceeds"),
    }
}
