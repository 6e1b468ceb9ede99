//! The `kdeconnect.sftp` plugin: browsing the phone's files by mounting its
//! SFTP share with `sshfs` and opening it in the file manager.
//!
//! Every command runs on the host: inside a Flatpak sandbox a FUSE mount
//! made in the sandbox is invisible to the host, so commands go through
//! `flatpak-spawn --host` there. The caller runs the commands that
//! [`Browse`] asks for and reports back how each went; the decisions about
//! what to run next and what went wrong are made here.

use vstd::prelude::*;
use vstd::string::*;
use crate::text::{
    chars_of, decimal, decimal_string_unsigned, join_path, line_pieces, path_join, line_ranges, range_equals,
    ranges_view, trim, trim_str, word_ranges, words,
};

verus! {

/// `kdeconnect.sftp`: login info the phone sends in response to a
/// `kdeconnect.sftp.request { startBrowsing: true }`.
#[derive(Clone, Debug)]
pub struct SftpInfo {
    pub ip: String,
    pub port: u16,
    pub user: String,
    pub password: String,
    pub path: Option<String>,
    pub multi_paths: Option<Vec<String>>,
}

/// Specific, actionable reasons browsing can't proceed.
#[derive(Clone, Copy, Debug, PartialEq, Eq, Structural)]
pub enum BrowsePreflightError {
    /// `sshfs` isn't on the host.
    SshfsMissing,
    /// `flatpak-spawn --host` itself failed.
    FlatpakSpawnUnavailable,
}

impl BrowsePreflightError {
    pub open spec fn spec_message(self) -> Seq<char> {
        match self {
            BrowsePreflightError::SshfsMissing => "sshfs is not installed on this system. Install it (e.g. `sudo apt install sshfs` or `sudo dnf install fuse-sshfs`) to browse device files."@,
            BrowsePreflightError::FlatpakSpawnUnavailable => "Can't reach the host to mount the device. Check that this app's \"org.freedesktop.Flatpak\" permission hasn't been revoked (e.g. in Flatseal)."@,
        }
    }

    /// The message shown to the user, naming the fix.
    pub fn message(&self) -> (r: String)
        ensures
            r@ == self.spec_message(),
    {
        match self {
            BrowsePreflightError::SshfsMissing => "sshfs is not installed on this system. Install it (e.g. `sudo apt install sshfs` or `sudo dnf install fuse-sshfs`) to browse device files.".to_owned(),
            BrowsePreflightError::FlatpakSpawnUnavailable => "Can't reach the host to mount the device. Check that this app's \"org.freedesktop.Flatpak\" permission hasn't been revoked (e.g. in Flatseal).".to_owned(),
        }
    }
}

/// Why a browse attempt failed.
#[derive(Clone, Debug)]
pub enum BrowseError {
    Preflight(BrowsePreflightError),
    /// A host command exited unsuccessfully; its trimmed standard error.
    CommandFailed(String),
    /// `sshfs` exited unsuccessfully; its trimmed standard error.
    SshfsFailed(String),
    /// A command could not be started or talked to; the I/O error's message.
    Io(String),
}

impl BrowseError {
    pub open spec fn spec_message(self) -> Seq<char> {
        match self {
            BrowseError::Preflight(e) => e.spec_message(),
            BrowseError::CommandFailed(s) => s@,
            BrowseError::SshfsFailed(s) => "sshfs failed: "@ + s@,
            BrowseError::Io(s) => s@,
        }
    }

    /// The error's message.
    pub fn message(&self) -> (r: String)
        ensures
            r@ == self.spec_message(),
    {
        match self {
            BrowseError::Preflight(e) => e.message(),
            BrowseError::CommandFailed(s) => s.clone(),
            BrowseError::SshfsFailed(s) => {
                let mut m = "sshfs failed: ".to_owned();
                m.append(s.as_str());
                m
            },
            BrowseError::Io(s) => s.clone(),
        }
    }
}

/// A program and its arguments.
#[derive(Clone, Debug)]
pub struct HostCommand {
    pub program: String,
    pub args: Vec<String>,
}

pub open spec fn strings_view(v: Seq<String>) -> Seq<Seq<char>> {
    v.map_values(|s: String| s@)
}

impl View for HostCommand {
    type V = (Seq<char>, Seq<Seq<char>>);

    open spec fn view(&self) -> (Seq<char>, Seq<Seq<char>>) {
        (self.program@, strings_view(self.args@))
    }
}

/// `program args...` run on the host: through `flatpak-spawn --host` when
/// sandboxed, directly otherwise.
pub open spec fn host_command_view(
    in_flatpak: bool,
    program: Seq<char>,
    args: Seq<Seq<char>>,
) -> (Seq<char>, Seq<Seq<char>>) {
    if in_flatpak {
        ("flatpak-spawn"@, seq!["--host"@, program] + args)
    } else {
        (program, args)
    }
}

/// Builds a command that runs on the host.
pub fn host_command(in_flatpak: bool, program: &str, args: Vec<String>) -> (r: HostCommand)
    ensures
        r@ == host_command_view(in_flatpak, program@, strings_view(args@)),
{
    if in_flatpak {
        let mut all: Vec<String> = Vec::new();
        all.push("--host".to_owned());
        all.push(program.to_owned());
        assert(strings_view(all@) =~= seq!["--host"@, program@]);
        let n = args.len();
        let mut i: usize = 0;
        while i < n
            invariant
                n == args@.len(),
                i <= n,
                strings_view(all@) =~= seq!["--host"@, program@] + strings_view(args@).take(
                    i as int,
                ),
            decreases n - i,
        {
            let ghost old_all = all@;
            all.push(args[i].clone());
            assert(strings_view(all@) =~= strings_view(old_all).push(args@[i as int]@));
            assert(strings_view(args@).take(i + 1) =~= strings_view(args@).take(i as int).push(
                args@[i as int]@,
            ));
            i = i + 1;
        }
        assert(strings_view(args@).take(n as int) =~= strings_view(args@));
        HostCommand { program: "flatpak-spawn".to_owned(), args: all }
    } else {
        HostCommand { program: program.to_owned(), args }
    }
}

/// Where a device's share is mounted: `kdeconnect-sftp/<device>` under
/// `$XDG_RUNTIME_DIR`, or under `/tmp` when that is unset.
pub open spec fn spec_mount_point(runtime_dir: Option<Seq<char>>, device_id: Seq<char>) -> Seq<
    char,
> {
    let base = match runtime_dir {
        Some(d) => d,
        None => "/tmp"@,
    };
    path_join(path_join(base, "kdeconnect-sftp"@), device_id)
}

/// The mount point for a device, given `$XDG_RUNTIME_DIR` when it is set.
pub fn mount_point(runtime_dir: Option<&str>, device_id: &str) -> (r: String)
    ensures
        r@ == spec_mount_point(
            match runtime_dir {
                Some(d) => Some(d@),
                None => None,
            },
            device_id@,
        ),
{
    let base = match runtime_dir {
        Some(d) => d,
        None => "/tmp",
    };
    let dir = join_path(base, "kdeconnect-sftp");
    join_path(dir.as_str(), device_id)
}

/// Whether a mount table (the text of `/proc/mounts`) has a line whose
/// second field, the mount point, is `target`.
pub open spec fn spec_table_lists(table: Seq<char>, target: Seq<char>) -> bool {
    exists|k: int|
        0 <= k < line_pieces(table).len() && {
            let w = words(#[trigger] line_pieces(table)[k]);
            w.len() >= 2 && w[1] == target
        }
}

/// Whether the mount table lists `target` as a mount point.
pub fn mount_table_lists(table: &str, target: &str) -> (r: bool)
    ensures
        r == spec_table_lists(table@, target@),
{
    let cs = chars_of(table);
    let t = chars_of(target);
    let lines = line_ranges(&cs);
    let n = lines.len();
    let mut k: usize = 0;
    while k < n
        invariant
            n == lines@.len(),
            cs@ == table@,
            t@ == target@,
            ranges_view(cs@, lines@) == line_pieces(cs@),
            forall|j: int| 0 <= j < lines@.len() ==> (#[trigger] lines@[j]).0 <= lines@[j].1 <= cs@.len(),
            k <= n,
            forall|j: int|
                0 <= j < k ==> {
                    let w = words(#[trigger] line_pieces(table@)[j]);
                    !(w.len() >= 2 && w[1] == target@)
                },
        decreases n - k,
    {
        let (a, b) = lines[k];
        assert(line_pieces(table@)[k as int] == cs@.subrange(a as int, b as int));
        let ws = word_ranges(&cs, a, b);
        if ws.len() >= 2 {
            let (x, y) = ws[1];
            assert(words(cs@.subrange(a as int, b as int))[1] == cs@.subrange(x as int, y as int));
            if range_equals(&cs, x, y, &t) {
                return true;
            }
        }
        k = k + 1;
    }
    false
}

impl SftpInfo {
    /// The remote directory to mount: the first of `multi_paths`, else
    /// `path`, else the root.
    pub open spec fn spec_remote_path(self) -> Seq<char> {
        if self.multi_paths is Some && self.multi_paths->0@.len() > 0 {
            self.multi_paths->0@[0]@
        } else if self.path is Some {
            self.path->0@
        } else {
            "/"@
        }
    }

    /// The arguments of `sshfs` mounting the share at `mount`. The phone
    /// makes a fresh host key for every browse session, so there is nothing
    /// to pin and host checking is off; the password comes on stdin.
    pub open spec fn spec_sshfs_args(self, mount: Seq<char>) -> Seq<Seq<char>> {
        seq![
            self.user@ + "@"@ + self.ip@ + ":"@ + self.spec_remote_path(),
            mount,
            "-p"@,
            decimal(self.port as int),
            "-o"@,
            "StrictHostKeyChecking=no"@,
            "-o"@,
            "UserKnownHostsFile=/dev/null"@,
            "-o"@,
            "password_stdin"@,
        ]
    }

    /// The remote directory to mount.
    pub fn remote_path(&self) -> (r: String)
        ensures
            r@ == self.spec_remote_path(),
    {
        if let Some(paths) = &self.multi_paths {
            if paths.len() > 0 {
                return paths[0].clone();
            }
        }
        match &self.path {
            Some(p) => p.clone(),
            None => "/".to_owned(),
        }
    }

    /// The arguments of the `sshfs` command.
    pub fn sshfs_args(&self, mount: &String) -> (r: Vec<String>)
        ensures
            strings_view(r@) == self.spec_sshfs_args(mount@),
    {
        let mut remote = self.user.clone();
        remote.append("@");
        remote.append(self.ip.as_str());
        remote.append(":");
        let path = self.remote_path();
        remote.append(path.as_str());
        let mut v: Vec<String> = Vec::new();
        v.push(remote);
        v.push(mount.clone());
        v.push("-p".to_owned());
        v.push(decimal_string_unsigned(self.port as u64));
        v.push("-o".to_owned());
        v.push("StrictHostKeyChecking=no".to_owned());
        v.push("-o".to_owned());
        v.push("UserKnownHostsFile=/dev/null".to_owned());
        v.push("-o".to_owned());
        v.push("password_stdin".to_owned());
        assert(strings_view(v@) =~= self.spec_sshfs_args(mount@));
        v
    }

    /// The line written to `sshfs`'s standard input.
    pub fn password_line(&self) -> (r: String)
        ensures
            r@ == self.password@ + "\n"@,
    {
        let mut s = self.password.clone();
        s.append("\n");
        s
    }
}

/// How the caller runs a command and what it reports back.
#[derive(Clone, Debug)]
pub enum RunMode {
    /// Wait for it; report whether it exited successfully.
    Status,
    /// Wait for it, capturing its output.
    Output,
    /// Write this text to its standard input, then wait, capturing output.
    Feed(String),
    /// Start it and do not wait.
    Spawn,
}

/// The next thing to do.
#[derive(Debug)]
pub enum BrowseAction {
    Run { command: HostCommand, mode: RunMode },
    Finish(Result<(), BrowseError>),
}

/// How a command went. A command that could not be started or waited for
/// is `Io`; a command started in `Spawn` mode is reported as having exited
/// successfully.
#[derive(Clone, Debug)]
pub enum CommandOutcome {
    Exited { success: bool, stdout: String, stderr: String },
    Io(String),
}

/// Where a browse attempt stands: which command's outcome it waits for.
#[derive(Clone, Copy, Debug, PartialEq, Eq, Structural)]
pub enum BrowseStage {
    HostProbe,
    SshfsProbe,
    MakeDir,
    MountCheck,
    Mounting,
    Opening,
    Finished,
}

/// One attempt to browse a device's files.
#[derive(Clone, Debug)]
pub struct Browse {
    pub in_flatpak: bool,
    pub mount_point: String,
    pub info: SftpInfo,
    pub stage: BrowseStage,
}

pub open spec fn exited_ok(o: CommandOutcome) -> bool {
    o matches CommandOutcome::Exited { success, .. } && success
}

pub open spec fn host_probe_command() -> (Seq<char>, Seq<Seq<char>>) {
    ("flatpak-spawn"@, seq!["--host"@, "true"@])
}

pub open spec fn runs(act: BrowseAction, cmd: (Seq<char>, Seq<Seq<char>>), mode: RunMode) -> bool {
    act matches BrowseAction::Run { command, mode: m } && command@ == cmd && match mode {
        RunMode::Feed(s) => m matches RunMode::Feed(t) && t@ == s@,
        RunMode::Status => m is Status,
        RunMode::Output => m is Output,
        RunMode::Spawn => m is Spawn,
    }
}

pub open spec fn fails_with(act: BrowseAction, e: BrowseError) -> bool {
    act matches BrowseAction::Finish(Err(f)) && match e {
        BrowseError::Preflight(p) => f == BrowseError::Preflight(p),
        BrowseError::CommandFailed(s) => f matches BrowseError::CommandFailed(t) && t@ == s@,
        BrowseError::SshfsFailed(s) => f matches BrowseError::SshfsFailed(t) && t@ == s@,
        BrowseError::Io(s) => f matches BrowseError::Io(t) && t@ == s@,
    }
}

impl Browse {
    pub open spec fn sshfs_probe(self) -> (Seq<char>, Seq<Seq<char>>) {
        host_command_view(self.in_flatpak, "sh"@, seq!["-c"@, "command -v sshfs"@])
    }

    pub open spec fn mkdir_command(self) -> (Seq<char>, Seq<Seq<char>>) {
        host_command_view(self.in_flatpak, "mkdir"@, seq!["-p"@, self.mount_point@])
    }

    pub open spec fn mounts_command(self) -> (Seq<char>, Seq<Seq<char>>) {
        host_command_view(self.in_flatpak, "cat"@, seq!["/proc/mounts"@])
    }

    pub open spec fn sshfs_command(self) -> (Seq<char>, Seq<Seq<char>>) {
        host_command_view(
            self.in_flatpak,
            "sshfs"@,
            self.info.spec_sshfs_args(self.mount_point@),
        )
    }

    pub open spec fn open_command(self) -> (Seq<char>, Seq<Seq<char>>) {
        host_command_view(self.in_flatpak, "xdg-open"@, seq![self.mount_point@])
    }

    /// What follows `o` in stage `self.stage`: the stage after it and the
    /// action to take.
    pub open spec fn transition(self, o: CommandOutcome, next: BrowseStage, act: BrowseAction) -> bool {
        match self.stage {
            BrowseStage::HostProbe => if exited_ok(o) {
                next == BrowseStage::SshfsProbe && runs(act, self.sshfs_probe(), RunMode::Status)
            } else {
                next == BrowseStage::Finished && act == BrowseAction::Finish(
                    Err(BrowseError::Preflight(BrowsePreflightError::FlatpakSpawnUnavailable)),
                )
            },
            BrowseStage::SshfsProbe => if exited_ok(o) {
                next == BrowseStage::MakeDir && runs(act, self.mkdir_command(), RunMode::Output)
            } else {
                next == BrowseStage::Finished && act == BrowseAction::Finish(
                    Err(BrowseError::Preflight(BrowsePreflightError::SshfsMissing)),
                )
            },
            BrowseStage::MakeDir => match o {
                CommandOutcome::Exited { success, stdout, stderr } => if success {
                    next == BrowseStage::MountCheck && runs(
                        act,
                        self.mounts_command(),
                        RunMode::Output,
                    )
                } else {
                    {
                        &&& next == BrowseStage::Finished
                        &&& act matches BrowseAction::Finish(Err(BrowseError::CommandFailed(s)))
                        &&& s@ == trim(stderr@)
                    }
                },
                CommandOutcome::Io(m) => next == BrowseStage::Finished && fails_with(
                    act,
                    BrowseError::Io(m),
                ),
            },
            BrowseStage::MountCheck => if o matches CommandOutcome::Exited {
                success,
                stdout,
                ..
            } && success && spec_table_lists(stdout@, self.mount_point@) {
                next == BrowseStage::Opening && runs(act, self.open_command(), RunMode::Spawn)
            } else {
                {
                    &&& next == BrowseStage::Mounting
                    &&& act matches BrowseAction::Run { command, mode: RunMode::Feed(line) }
                    &&& command@ == self.sshfs_command()
                    &&& line@ == self.info.password@ + "\n"@
                }
            },
            BrowseStage::Mounting => match o {
                CommandOutcome::Exited { success, stdout, stderr } => if success {
                    next == BrowseStage::Opening && runs(act, self.open_command(), RunMode::Spawn)
                } else {
                    {
                        &&& next == BrowseStage::Finished
                        &&& act matches BrowseAction::Finish(Err(BrowseError::SshfsFailed(s)))
                        &&& s@ == trim(stderr@)
                    }
                },
                CommandOutcome::Io(m) => next == BrowseStage::Finished && fails_with(
                    act,
                    BrowseError::Io(m),
                ),
            },
            BrowseStage::Opening => match o {
                CommandOutcome::Exited { .. } => next == BrowseStage::Finished && act
                    == BrowseAction::Finish(Ok(())),
                CommandOutcome::Io(m) => next == BrowseStage::Finished && fails_with(
                    act,
                    BrowseError::Io(m),
                ),
            },
            BrowseStage::Finished => false,
        }
    }

    /// The first action of a browse attempt for `device_id`: reaching the
    /// host when sandboxed, else looking for `sshfs`.
    pub fn new(
        info: SftpInfo,
        device_id: &str,
        in_flatpak: bool,
        runtime_dir: Option<&str>,
    ) -> (r: (Browse, BrowseAction))
        ensures
            r.0.info == info,
            r.0.in_flatpak == in_flatpak,
            r.0.mount_point@ == spec_mount_point(
                match runtime_dir {
                    Some(d) => Some(d@),
                    None => None,
                },
                device_id@,
            ),
            in_flatpak ==> r.0.stage == BrowseStage::HostProbe && runs(
                r.1,
                host_probe_command(),
                RunMode::Status,
            ),
            !in_flatpak ==> r.0.stage == BrowseStage::SshfsProbe && runs(
                r.1,
                r.0.sshfs_probe(),
                RunMode::Status,
            ),
    {
        let mount = mount_point(runtime_dir, device_id);
        if in_flatpak {
            let mut args: Vec<String> = Vec::new();
            args.push("--host".to_owned());
            args.push("true".to_owned());
            assert(strings_view(args@) =~= seq!["--host"@, "true"@]);
            let command = HostCommand { program: "flatpak-spawn".to_owned(), args };
            (
                Browse { in_flatpak, mount_point: mount, info, stage: BrowseStage::HostProbe },
                BrowseAction::Run { command, mode: RunMode::Status },
            )
        } else {
            let b = Browse { in_flatpak, mount_point: mount, info, stage: BrowseStage::SshfsProbe };
            let command = b.sshfs_probe_command();
            (b, BrowseAction::Run { command, mode: RunMode::Status })
        }
    }

    fn sshfs_probe_command(&self) -> (r: HostCommand)
        ensures
            r@ == self.sshfs_probe(),
    {
        let mut args: Vec<String> = Vec::new();
        args.push("-c".to_owned());
        args.push("command -v sshfs".to_owned());
        assert(strings_view(args@) =~= seq!["-c"@, "command -v sshfs"@]);
        host_command(self.in_flatpak, "sh", args)
    }

    fn mkdir_command_exec(&self) -> (r: HostCommand)
        ensures
            r@ == self.mkdir_command(),
    {
        let mut args: Vec<String> = Vec::new();
        args.push("-p".to_owned());
        args.push(self.mount_point.clone());
        assert(strings_view(args@) =~= seq!["-p"@, self.mount_point@]);
        host_command(self.in_flatpak, "mkdir", args)
    }

    fn mounts_command_exec(&self) -> (r: HostCommand)
        ensures
            r@ == self.mounts_command(),
    {
        let mut args: Vec<String> = Vec::new();
        args.push("/proc/mounts".to_owned());
        assert(strings_view(args@) =~= seq!["/proc/mounts"@]);
        host_command(self.in_flatpak, "cat", args)
    }

    fn sshfs_command_exec(&self) -> (r: HostCommand)
        ensures
            r@ == self.sshfs_command(),
    {
        let args = self.info.sshfs_args(&self.mount_point);
        host_command(self.in_flatpak, "sshfs", args)
    }

    fn open_command_exec(&self) -> (r: HostCommand)
        ensures
            r@ == self.open_command(),
    {
        let mut args: Vec<String> = Vec::new();
        args.push(self.mount_point.clone());
        assert(strings_view(args@) =~= seq![self.mount_point@]);
        host_command(self.in_flatpak, "xdg-open", args)
    }

    /// Whether the attempt has finished.
    pub fn is_finished(&self) -> (r: bool)
        ensures
            r == (self.stage == BrowseStage::Finished),
    {
        match self.stage {
            BrowseStage::Finished => true,
            _ => false,
        }
    }

    /// Takes in how the last command went and says what to do next.
    pub fn step(&mut self, o: CommandOutcome) -> (r: BrowseAction)
        requires
            old(self).stage != BrowseStage::Finished,
        ensures
            final(self).in_flatpak == old(self).in_flatpak,
            final(self).mount_point == old(self).mount_point,
            final(self).info == old(self).info,
            old(self).transition(o, final(self).stage, r),
    {
        match self.stage {
            BrowseStage::HostProbe => {
                if outcome_ok(&o) {
                    self.stage = BrowseStage::SshfsProbe;
                    BrowseAction::Run { command: self.sshfs_probe_command(), mode: RunMode::Status }
                } else {
                    self.stage = BrowseStage::Finished;
                    BrowseAction::Finish(
                        Err(BrowseError::Preflight(BrowsePreflightError::FlatpakSpawnUnavailable)),
                    )
                }
            },
            BrowseStage::SshfsProbe => {
                if outcome_ok(&o) {
                    self.stage = BrowseStage::MakeDir;
                    BrowseAction::Run { command: self.mkdir_command_exec(), mode: RunMode::Output }
                } else {
                    self.stage = BrowseStage::Finished;
                    BrowseAction::Finish(
                        Err(BrowseError::Preflight(BrowsePreflightError::SshfsMissing)),
                    )
                }
            },
            BrowseStage::MakeDir => match o {
                CommandOutcome::Exited { success, stdout: _, stderr } => {
                    if success {
                        self.stage = BrowseStage::MountCheck;
                        BrowseAction::Run {
                            command: self.mounts_command_exec(),
                            mode: RunMode::Output,
                        }
                    } else {
                        self.stage = BrowseStage::Finished;
                        BrowseAction::Finish(
                            Err(BrowseError::CommandFailed(trim_str(stderr.as_str()))),
                        )
                    }
                },
                CommandOutcome::Io(m) => {
                    self.stage = BrowseStage::Finished;
                    BrowseAction::Finish(Err(BrowseError::Io(m)))
                },
            },
            BrowseStage::MountCheck => {
                let listed = match &o {
                    CommandOutcome::Exited { success, stdout, stderr: _ } => *success
                        && mount_table_lists(stdout.as_str(), self.mount_point.as_str()),
                    CommandOutcome::Io(_) => false,
                };
                if listed {
                    self.stage = BrowseStage::Opening;
                    BrowseAction::Run { command: self.open_command_exec(), mode: RunMode::Spawn }
                } else {
                    self.stage = BrowseStage::Mounting;
                    BrowseAction::Run {
                        command: self.sshfs_command_exec(),
                        mode: RunMode::Feed(self.info.password_line()),
                    }
                }
            },
            BrowseStage::Mounting => match o {
                CommandOutcome::Exited { success, stdout: _, stderr } => {
                    if success {
                        self.stage = BrowseStage::Opening;
                        BrowseAction::Run {
                            command: self.open_command_exec(),
                            mode: RunMode::Spawn,
                        }
                    } else {
                        self.stage = BrowseStage::Finished;
                        BrowseAction::Finish(
                            Err(BrowseError::SshfsFailed(trim_str(stderr.as_str()))),
                        )
                    }
                },
                CommandOutcome::Io(m) => {
                    self.stage = BrowseStage::Finished;
                    BrowseAction::Finish(Err(BrowseError::Io(m)))
                },
            },
            BrowseStage::Opening => match o {
                CommandOutcome::Exited { .. } => {
                    self.stage = BrowseStage::Finished;
                    BrowseAction::Finish(Ok(()))
                },
                CommandOutcome::Io(m) => {
                    self.stage = BrowseStage::Finished;
                    BrowseAction::Finish(Err(BrowseError::Io(m)))
                },
            },
            BrowseStage::Finished => {
                BrowseAction::Finish(Ok(()))
            },
        }
    }
}

fn outcome_ok(o: &CommandOutcome) -> (r: bool)
    ensures
        r == exited_ok(*o),
{
    match o {
        CommandOutcome::Exited { success, .. } => *success,
        CommandOutcome::Io(_) => false,
    }
}

/// How far along an attempt is.
pub open spec fn stage_rank(s: BrowseStage) -> int {
    match s {
        BrowseStage::HostProbe => 0,
        BrowseStage::SshfsProbe => 1,
        BrowseStage::MakeDir => 2,
        BrowseStage::MountCheck => 3,
        BrowseStage::Mounting => 4,
        BrowseStage::Opening => 5,
        BrowseStage::Finished => 6,
    }
}

/// Every step moves a browse attempt forward, so it finishes after at most
/// six commands, whatever they report.
pub proof fn lemma_browse_progresses(
    b: Browse,
    o: CommandOutcome,
    next: BrowseStage,
    act: BrowseAction,
)
    requires
        b.transition(o, next, act),
    ensures
        stage_rank(next) > stage_rank(b.stage),
        next == BrowseStage::Finished <==> act is Finish,
{
}


/// The preflight checks let an attempt go on only on a successful exit.
/// When the host cannot be reached (in the sandbox) the attempt ends with
/// `FlatpakSpawnUnavailable`; when the `sshfs` probe does not exit
/// successfully, whether it exited with a failure or could not run, the
/// attempt ends with `SshfsMissing`; a successful `sshfs` probe, and only
/// that, leads on to creating the mount point.
pub proof fn lemma_preflight_gates(
    b: Browse,
    o: CommandOutcome,
    next: BrowseStage,
    act: BrowseAction,
)
    requires
        b.transition(o, next, act),
    ensures
        b.stage == BrowseStage::HostProbe ==> {
            if o matches CommandOutcome::Exited { success: true, .. } {
                &&& next == BrowseStage::SshfsProbe
                &&& act matches BrowseAction::Run { command, mode: RunMode::Status }
                &&& command@.1.contains("command -v sshfs"@)
            } else {
                &&& next == BrowseStage::Finished
                &&& act matches BrowseAction::Finish(Err(BrowseError::Preflight(e)))
                &&& e == BrowsePreflightError::FlatpakSpawnUnavailable
            }
        },
        b.stage == BrowseStage::SshfsProbe ==> {
            if o matches CommandOutcome::Exited { success: true, .. } {
                &&& next == BrowseStage::MakeDir
                &&& act matches BrowseAction::Run { command, mode: RunMode::Output }
                &&& command@.1.contains("-p"@)
                &&& command@.1.contains(b.mount_point@)
            } else {
                &&& next == BrowseStage::Finished
                &&& act matches BrowseAction::Finish(Err(BrowseError::Preflight(e)))
                &&& e == BrowsePreflightError::SshfsMissing
            }
        },
        next == BrowseStage::MakeDir ==> b.stage == BrowseStage::SshfsProbe && (
        o matches CommandOutcome::Exited { success: true, .. }),
{
    if b.stage == BrowseStage::HostProbe && exited_ok(o) {
        let c = act->command@;
        if b.in_flatpak {
            assert(c.1[3] == "command -v sshfs"@);
        } else {
            assert(c.1[1] == "command -v sshfs"@);
        }
    }
    if b.stage == BrowseStage::SshfsProbe && exited_ok(o) {
        let c = act->command@;
        if b.in_flatpak {
            assert(c.1[2] == "-p"@);
            assert(c.1[3] == b.mount_point@);
        } else {
            assert(c.1[0] == "-p"@);
            assert(c.1[1] == b.mount_point@);
        }
    }
}

/// `sshfs` only runs after the mount table was read and did not list the
/// mount point; a share that is already mounted is opened as it is.
pub proof fn lemma_mounts_only_when_unmounted(
    b: Browse,
    o: CommandOutcome,
    next: BrowseStage,
    act: BrowseAction,
)
    requires
        b.transition(o, next, act),
        next == BrowseStage::Mounting,
    ensures
        b.stage == BrowseStage::MountCheck,
        !(o matches CommandOutcome::Exited { success, stdout, .. } && success && spec_table_lists(
            stdout@,
            b.mount_point@,
        )),
{
}


/// Inside a Flatpak sandbox every command of a browse attempt runs on the
/// host through `flatpak-spawn --host`; outside one, no command does.
pub proof fn lemma_commands_run_on_host(
    b: Browse,
    o: CommandOutcome,
    next: BrowseStage,
    act: BrowseAction,
)
    requires
        b.transition(o, next, act),
        act is Run,
    ensures
        b.in_flatpak ==> act->command@.0 == "flatpak-spawn"@ && act->command@.1.len() >= 2
            && act->command@.1[0] == "--host"@,
        !b.in_flatpak ==> act->command@.0 != "flatpak-spawn"@,
{
    reveal_strlit("flatpak-spawn");
    reveal_strlit("sh");
    reveal_strlit("mkdir");
    reveal_strlit("cat");
    reveal_strlit("sshfs");
    reveal_strlit("xdg-open");
    assert("flatpak-spawn"@.len() == 13);
    assert("sh"@.len() == 2);
    assert("mkdir"@.len() == 5);
    assert("cat"@.len() == 3);
    assert("sshfs"@.len() == 5);
    assert("xdg-open"@.len() == 8);
}

/// Asks the file system whether `path` exists (`std::path::Path::exists`).
/// The answer depends on the machine, so nothing is stated of it.
#[verifier::external_body]
fn path_exists(path: &str) -> bool {
    std::path::Path::new(path).exists()
}

/// True when running inside a Flatpak sandbox: the sandbox marks itself
/// with `/.flatpak-info`.
pub fn in_flatpak() -> bool {
    path_exists("/.flatpak-info")
}

} // verus!
