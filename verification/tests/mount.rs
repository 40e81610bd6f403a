use fuse3::mount::{session_args, Error, MountOption, SessionState};

#[test]
fn mount_option_render() {
    assert_eq!(MountOption::ReadOnly.render(), "ro");
    assert_eq!(MountOption::AllowOther.render(), "allow_other");
    assert_eq!(MountOption::AutoUnmount.render(), "auto_unmount");
    assert_eq!(MountOption::DefaultPermissions.render(), "default_permissions");
    assert_eq!(MountOption::FsName("myfs".to_string()).render(), "fsname=myfs");
    assert_eq!(MountOption::Subtype("fuse.myfs".to_string()).render(), "subtype=fuse.myfs");
    assert_eq!(MountOption::Custom("noatime".to_string()).render(), "noatime");
}

#[test]
fn session_arguments() {
    assert_eq!(session_args(&[]), vec!["fuse3"]);
    assert_eq!(session_args(&[MountOption::ReadOnly]), vec!["fuse3", "-o", "ro"]);
    assert_eq!(
        session_args(&[
            MountOption::ReadOnly,
            MountOption::FsName("x".to_string()),
            MountOption::Custom("".to_string()),
            MountOption::AllowOther,
        ]),
        vec!["fuse3", "-o", "ro,fsname=x,,allow_other"]
    );
}

#[test]
fn errors_in_words() {
    assert_eq!(Error::SessionNew.to_string(), "failed to create the FUSE session");
    assert_eq!(Error::Mount.to_string(), "failed to mount the FUSE session");
    assert_eq!(Error::SignalHandlers.to_string(), "failed to install FUSE signal handlers");
    assert_eq!(Error::Loop(-5).to_string(), "FUSE session loop exited with code -5");
    assert_eq!(
        Error::InvalidMountpoint("a\0b".to_string()).to_string(),
        "invalid mountpoint (contains a NUL byte): \"a\\0b\""
    );
}

#[test]
fn session_steps() {
    assert!(matches!(SessionState::created(false), Err(Error::SessionNew)));
    let mut state = SessionState::created(true).unwrap();
    assert!(!state.must_unmount());
    assert!(matches!(state.mounted(-1), Err(Error::Mount)));
    assert!(!state.must_unmount());
    assert!(state.mounted(0).is_ok());
    assert!(state.must_unmount());
    assert!(SessionState::handlers_installed(0).is_ok());
    assert!(matches!(SessionState::handlers_installed(-1), Err(Error::SignalHandlers)));
    assert!(SessionState::loop_ended(0).is_ok());
    assert!(matches!(SessionState::loop_ended(3), Err(Error::Loop(3))));
}

#[test]
fn mountpoint_with_a_nul_is_refused() {
    assert!(SessionState::check_mountpoint("/mnt").is_ok());
    match SessionState::check_mountpoint("/m\0nt") {
        Err(Error::InvalidMountpoint(mp)) => assert_eq!(mp, "/m\0nt"),
        _ => panic!("accepted"),
    }
}
