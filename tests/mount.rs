use agent::mount::{
    determine_mount_point, find_dokany, find_winfsp, MountError, MountProvider, MountSession,
    SETTLE_MILLIS,
};

#[test]
fn no_provider_gives_session_without_volume() {
    let req = MountSession::plan("R", None, None, None);
    assert!(req.command.is_none());
    let session = MountSession::establish(req, false).expect("session");
    assert_eq!(session.mount_point, "\\\\?\\GLOBALROOT\\device\\ContainerFS");
    assert_eq!(session.provider, None);
    assert!(!session.owns_helper());
}

#[test]
fn mount_point_from_drive_letter() {
    assert_eq!(determine_mount_point(Some('Z')).unwrap(), "Z:");
    assert_eq!(
        determine_mount_point(None).unwrap(),
        "\\\\?\\GLOBALROOT\\device\\ContainerFS"
    );
}

#[test]
fn helper_provider_comes_first() {
    let req = MountSession::plan(
        "C:\\c1",
        Some('X'),
        Some("C:\\winfsp\\launcher.exe".to_string()),
        Some("C:\\dokan\\dokanctl.exe".to_string()),
    );
    let cmd = req.command.clone().expect("command");
    assert_eq!(cmd.provider, MountProvider::WinFsp);
    assert_eq!(cmd.program, "C:\\winfsp\\launcher.exe");
    assert_eq!(
        cmd.args,
        vec!["--foreground", "--FileSystemName", "ContainerFS", "--MountPoint", "X:", "C:\\c1"]
    );
    let session = MountSession::establish(req, true).expect("session");
    assert_eq!(session.provider, Some(MountProvider::WinFsp));
    assert!(session.owns_helper());
    assert_eq!(SETTLE_MILLIS, 500);
}

#[test]
fn one_shot_provider_when_helper_missing() {
    let req = MountSession::plan("C:\\c1", Some('X'), None, Some("dokanctl".to_string()));
    let cmd = req.command.clone().expect("command");
    assert_eq!(cmd.provider, MountProvider::Dokany);
    assert_eq!(cmd.program, "dokanctl");
    assert_eq!(cmd.args, vec!["/m", "/r", "C:\\c1", "/l", "X:"]);
    let session = MountSession::establish(req, true).expect("session");
    assert_eq!(session.provider, Some(MountProvider::Dokany));
    assert!(!session.owns_helper());
}

#[test]
fn start_failures_are_errors() {
    let req = MountSession::plan("R", None, Some("w".to_string()), None);
    assert_eq!(MountSession::establish(req, false).unwrap_err(), MountError::HelperSpawn);
    let req = MountSession::plan("R", None, None, Some("d".to_string()));
    assert_eq!(MountSession::establish(req, false).unwrap_err(), MountError::CommandSpawn);
}

#[test]
fn override_variable_wins() {
    assert_eq!(find_winfsp(Some("C:\\w.exe".to_string())), Some("C:\\w.exe".to_string()));
    assert_eq!(find_dokany(Some("C:\\d.exe".to_string())), Some("C:\\d.exe".to_string()));
}
