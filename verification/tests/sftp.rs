use kdeconnect::sftp::{
    host_command, mount_point, mount_table_lists, Browse, BrowseAction, BrowseError,
    BrowsePreflightError, BrowseStage, CommandOutcome, RunMode, SftpInfo,
};

fn info() -> SftpInfo {
    SftpInfo {
        ip: "192.168.1.7".to_string(),
        port: 1739,
        user: "kdeconnect".to_string(),
        password: "s3cret".to_string(),
        path: Some("/storage/emulated/0".to_string()),
        multi_paths: None,
    }
}

fn ok(stdout: &str) -> CommandOutcome {
    CommandOutcome::Exited { success: true, stdout: stdout.to_string(), stderr: String::new() }
}

fn failed(stderr: &str) -> CommandOutcome {
    CommandOutcome::Exited { success: false, stdout: String::new(), stderr: stderr.to_string() }
}

fn command_of(a: &BrowseAction) -> (String, Vec<String>) {
    match a {
        BrowseAction::Run { command, .. } => (command.program.clone(), command.args.clone()),
        BrowseAction::Finish(_) => panic!("expected a command"),
    }
}

fn strs(v: &[&str]) -> Vec<String> {
    v.iter().map(|s| s.to_string()).collect()
}

#[test]
fn mount_point_under_runtime_dir() {
    assert_eq!(mount_point(Some("/run/user/1000"), "abc"), "/run/user/1000/kdeconnect-sftp/abc");
    assert_eq!(mount_point(None, "abc"), "/tmp/kdeconnect-sftp/abc");
}

#[test]
fn remote_path_choice() {
    let mut i = info();
    assert_eq!(i.remote_path(), "/storage/emulated/0");
    i.multi_paths = Some(vec!["/sdcard".to_string(), "/other".to_string()]);
    assert_eq!(i.remote_path(), "/sdcard");
    i.multi_paths = Some(vec![]);
    assert_eq!(i.remote_path(), "/storage/emulated/0");
    i.path = None;
    assert_eq!(i.remote_path(), "/");
}

#[test]
fn sshfs_arguments() {
    let i = info();
    assert_eq!(
        i.sshfs_args(&"/tmp/kdeconnect-sftp/d".to_string()),
        strs(&[
            "kdeconnect@192.168.1.7:/storage/emulated/0",
            "/tmp/kdeconnect-sftp/d",
            "-p",
            "1739",
            "-o",
            "StrictHostKeyChecking=no",
            "-o",
            "UserKnownHostsFile=/dev/null",
            "-o",
            "password_stdin",
        ])
    );
    assert_eq!(i.password_line(), "s3cret\n");
}

#[test]
fn host_commands_go_through_flatpak_spawn_in_sandbox() {
    let c = host_command(true, "mkdir", strs(&["-p", "/x"]));
    assert_eq!(c.program, "flatpak-spawn");
    assert_eq!(c.args, strs(&["--host", "mkdir", "-p", "/x"]));
    let d = host_command(false, "mkdir", strs(&["-p", "/x"]));
    assert_eq!(d.program, "mkdir");
    assert_eq!(d.args, strs(&["-p", "/x"]));
}

#[test]
fn mount_table_lookup() {
    let table = "proc /proc proc rw 0 0\nkdeconnect@1.2.3.4:/ /run/user/1000/kdeconnect-sftp/abc fuse.sshfs rw 0 0\n";
    assert!(mount_table_lists(table, "/run/user/1000/kdeconnect-sftp/abc"));
    assert!(mount_table_lists(table, "/proc"));
    assert!(!mount_table_lists(table, "proc"));
    assert!(!mount_table_lists(table, "/run/user/1000/kdeconnect-sftp"));
    assert!(!mount_table_lists("", "/x"));
    assert!(mount_table_lists("  a   /x  b\r\n", "/x"));
    assert!(!mount_table_lists("a\n/x b", "/x"));
}

#[test]
fn preflight_messages() {
    assert!(BrowsePreflightError::SshfsMissing.message().starts_with("sshfs is not installed"));
    assert!(BrowsePreflightError::FlatpakSpawnUnavailable.message().contains("org.freedesktop.Flatpak"));
    assert_eq!(BrowseError::SshfsFailed("bad".to_string()).message(), "sshfs failed: bad");
    assert_eq!(BrowseError::CommandFailed("nope".to_string()).message(), "nope");
}

#[test]
fn full_mount_outside_sandbox() {
    let (mut b, a) = Browse::new(info(), "dev1", false, Some("/run/user/1000"));
    assert_eq!(command_of(&a), ("sh".to_string(), strs(&["-c", "command -v sshfs"])));
    let a = b.step(ok("/usr/bin/sshfs\n"));
    assert_eq!(command_of(&a), ("mkdir".to_string(), strs(&["-p", "/run/user/1000/kdeconnect-sftp/dev1"])));
    let a = b.step(ok(""));
    assert_eq!(command_of(&a), ("cat".to_string(), strs(&["/proc/mounts"])));
    let a = b.step(ok("proc /proc proc rw 0 0\n"));
    match &a {
        BrowseAction::Run { command, mode: RunMode::Feed(line) } => {
            assert_eq!(command.program, "sshfs");
            assert_eq!(line, "s3cret\n");
        }
        _ => panic!("expected sshfs"),
    }
    let a = b.step(ok(""));
    assert_eq!(command_of(&a), ("xdg-open".to_string(), strs(&["/run/user/1000/kdeconnect-sftp/dev1"])));
    assert!(matches!(&a, BrowseAction::Run { mode: RunMode::Spawn, .. }));
    let a = b.step(ok(""));
    assert!(matches!(a, BrowseAction::Finish(Ok(()))));
    assert!(b.is_finished());
}

#[test]
fn already_mounted_is_opened_directly() {
    let (mut b, _) = Browse::new(info(), "dev1", false, None);
    b.step(ok(""));
    b.step(ok(""));
    let a = b.step(ok("x /tmp/kdeconnect-sftp/dev1 fuse.sshfs rw 0 0\n"));
    assert_eq!(command_of(&a).0, "xdg-open");
    assert_eq!(b.stage, BrowseStage::Opening);
}

#[test]
fn unreadable_mount_table_means_not_mounted() {
    let (mut b, _) = Browse::new(info(), "dev1", false, None);
    b.step(ok(""));
    b.step(ok(""));
    let a = b.step(CommandOutcome::Io("no cat".to_string()));
    assert_eq!(command_of(&a).0, "sshfs");
}

#[test]
fn sandbox_probes_host_first() {
    let (mut b, a) = Browse::new(info(), "d", true, None);
    assert_eq!(command_of(&a), ("flatpak-spawn".to_string(), strs(&["--host", "true"])));
    let a = b.step(ok(""));
    assert_eq!(command_of(&a), ("flatpak-spawn".to_string(), strs(&["--host", "sh", "-c", "command -v sshfs"])));
}

#[test]
fn preflight_failures() {
    let (mut b, _) = Browse::new(info(), "d", true, None);
    let a = b.step(failed(""));
    assert!(matches!(a, BrowseAction::Finish(Err(BrowseError::Preflight(BrowsePreflightError::FlatpakSpawnUnavailable)))));
    let (mut b, _) = Browse::new(info(), "d", false, None);
    let a = b.step(CommandOutcome::Io("spawn failed".to_string()));
    assert!(matches!(a, BrowseAction::Finish(Err(BrowseError::Preflight(BrowsePreflightError::SshfsMissing)))));
}

#[test]
fn command_failures_carry_trimmed_stderr() {
    let (mut b, _) = Browse::new(info(), "d", false, None);
    b.step(ok(""));
    match b.step(failed("  mkdir: permission denied\n")) {
        BrowseAction::Finish(Err(BrowseError::CommandFailed(s))) => assert_eq!(s, "mkdir: permission denied"),
        other => panic!("unexpected {:?}", other),
    }
    let (mut b, _) = Browse::new(info(), "d", false, None);
    b.step(ok(""));
    b.step(ok(""));
    b.step(ok(""));
    match b.step(failed("read: Connection reset by peer\n")) {
        BrowseAction::Finish(Err(e @ BrowseError::SshfsFailed(_))) => {
            assert_eq!(e.message(), "sshfs failed: read: Connection reset by peer")
        }
        other => panic!("unexpected {:?}", other),
    }
}

#[test]
fn io_errors_end_the_attempt() {
    let (mut b, _) = Browse::new(info(), "d", false, None);
    b.step(ok(""));
    b.step(ok(""));
    b.step(ok(""));
    b.step(ok(""));
    match b.step(CommandOutcome::Io("xdg-open missing".to_string())) {
        BrowseAction::Finish(Err(BrowseError::Io(m))) => assert_eq!(m, "xdg-open missing"),
        other => panic!("unexpected {:?}", other),
    }
}
