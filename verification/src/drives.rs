//! Destinations of a sync run: what is known of each drive, what went wrong
//! with it, and the rules by which directories are paired and named.

use crate::config::{deformatted, formatted, mountpoint_of, Config, Drive, DriveView};
use vstd::prelude::*;

verus! {

/// The stage at which a destination failed.
#[derive(Clone, Copy, Debug, PartialEq, Eq, Structural)]
pub enum DestError {
    MountError,
    SyncError,
}

impl DestError {
    /// The stage's name.
    pub open spec fn kind_text(self) -> Seq<char> {
        match self {
            DestError::MountError => "mount"@,
            DestError::SyncError => "sync"@,
        }
    }

    /// The stage's name, for messages.
    pub fn kind(&self) -> (kind: String)
        ensures
            kind@ == self.kind_text(),
    {
        match self {
            DestError::MountError => String::from_str("mount"),
            DestError::SyncError => String::from_str("sync"),
        }
    }
}

/// A destination drive, with its texts worked out once.
#[derive(Debug)]
pub struct DriveInfo {
    pub letter: String,
    pub nickname: String,
    pub base_dir: String,
    pub mountpoint: String,
    pub err: Option<DestError>,
}

impl DriveInfo {
    /// Whether this is what `drive` looks like before anything was tried
    /// with it.
    pub open spec fn describes(&self, drive: DriveView) -> bool {
        &&& self.letter@ == formatted(drive.letter)
        &&& self.nickname@ == drive.shown_nickname()
        &&& self.base_dir@ == drive.base()
        &&& self.mountpoint@ == drive.mountpoint()
        &&& self.err.is_none()
    }

    /// The destination for a drive named on the command line: no custom
    /// directory, so it is synced at its mount point.
    pub fn new(letter: String, nickname: Option<String>) -> (info: DriveInfo)
        ensures
            info.describes(
                DriveView {
                    letter: deformatted(letter@),
                    nickname: match nickname {
                        Some(name) => Some(name@),
                        None => None,
                    },
                    base_dir: None,
                },
            ),
            info.base_dir@ == mountpoint_of(deformatted(letter@)),
    {
        let drive = Drive::new(letter, nickname, None);
        make_drive_info(&drive)
    }

    /// The destination for a configured drive.
    pub fn from_drive(drive: &Drive) -> (info: DriveInfo)
        ensures
            info.describes(drive@),
    {
        make_drive_info(drive)
    }

    /// The directory that is kept alike on all drives.
    pub open spec fn shared(&self) -> Seq<char> {
        self.base_dir@ + "/synced/"@
    }

    /// The shared directory of this drive.
    pub fn synced_dir(&self) -> (dir: String)
        ensures
            dir@ == self.shared(),
    {
        let mut dir: String = self.base_dir.clone();
        dir.append("/synced/");
        dir
    }

    /// Where `subdir` of `user`'s home goes on this drive.
    pub fn local_dest_dir(&self, user: &str, subdir: &str) -> (dir: String)
        ensures
            dir@ == self.base_dir@ + "/wsl/"@ + user@ + "/"@ + subdir@ + "/"@,
    {
        let mut dir: String = self.hidden_dest_dir(user);
        dir.append(subdir);
        dir.append("/");
        dir
    }

    /// Where the hidden files of `user`'s home go on this drive.
    pub fn hidden_dest_dir(&self, user: &str) -> (dir: String)
        ensures
            dir@ == self.base_dir@ + "/wsl/"@ + user@ + "/"@,
    {
        let mut dir: String = self.base_dir.clone();
        dir.append("/wsl/");
        dir.append(user);
        dir.append("/");
        dir
    }
}

/// Works out the texts of a destination from its drive.
pub fn make_drive_info(drive: &Drive) -> (info: DriveInfo)
    ensures
        info.describes(drive@),
{
    let letter = drive.get_letter();
    let nickname = drive.get_nickname();
    let base_dir = drive.get_base_dir();
    let mountpoint = drive.get_mountpoint();
    DriveInfo { letter, nickname, base_dir, mountpoint, err: None }
}

/// The home directory of `user`, from which everything is synced.
pub fn home_dir(user: &str) -> (dir: String)
    ensures
        dir@ == "/home/"@ + user@,
{
    let mut dir: String = String::from_str("/home/");
    dir.append(user);
    dir
}

/// The directory `subdir` below `base`, written with a slash at its end.
pub fn local_source_dir(base: &str, subdir: &str) -> (dir: String)
    ensures
        dir@ == base@ + "/"@ + subdir@ + "/"@,
{
    let mut dir: String = String::from_str(base);
    dir.append("/");
    dir.append(subdir);
    dir.append("/");
    dir
}

/// The path of each of `files` below `dir`, in the same order.
pub fn hidden_file_paths(dir: &str, files: &Vec<String>) -> (paths: Vec<String>)
    ensures
        paths@.len() == files@.len(),
        forall|i: int|
            0 <= i < files@.len() ==> (#[trigger] paths@[i])@ == dir@ + "/"@ + files@[i]@,
{
    let mut paths: Vec<String> = Vec::new();
    let mut i: usize = 0;
    while i < files.len()
        invariant
            i <= files@.len(),
            paths@.len() == i,
            forall|j: int| 0 <= j < i ==> (#[trigger] paths@[j])@ == dir@ + "/"@ + files@[j]@,
        decreases files@.len() - i,
    {
        let mut path: String = String::from_str(dir);
        path.append("/");
        path.append(files[i].as_str());
        paths.push(path);
        i = i + 1;
    }
    paths
}

/// The destinations of a run: every configured drive in the order of the
/// configuration, then the drive named on the command line, if one was.
pub fn destinations(config: &Config, letter: Option<String>, nickname: Option<String>) -> (dests:
    Vec<DriveInfo>)
    ensures
        dests@.len() == config.drives@.len() + if letter.is_some() {
            1nat
        } else {
            0nat
        },
        forall|i: int|
            0 <= i < config.drives@.len() ==> (#[trigger] dests@[i]).describes(
                config.drives@[i]@,
            ),
        match letter {
            Some(given) => dests@.last().describes(
                DriveView {
                    letter: deformatted(given@),
                    nickname: match nickname {
                        Some(name) => Some(name@),
                        None => None,
                    },
                    base_dir: None,
                },
            ),
            None => true,
        },
{
    let mut dests: Vec<DriveInfo> = Vec::new();
    let mut i: usize = 0;
    while i < config.drives.len()
        invariant
            i <= config.drives@.len(),
            dests@.len() == i,
            forall|j: int| 0 <= j < i ==> (#[trigger] dests@[j]).describes(config.drives@[j]@),
        decreases config.drives@.len() - i,
    {
        dests.push(DriveInfo::from_drive(&config.drives[i]));
        i = i + 1;
    }
    if let Some(given) = letter {
        dests.push(DriveInfo::new(given, nickname));
    }
    dests
}

/// How the attempt to bring a destination up to date with the local
/// directories went.
#[derive(Clone, Copy, Debug, PartialEq, Eq, Structural)]
pub enum LocalSync {
    /// The drive could not be mounted.
    MountFailed,
    /// The drive was mounted, and a directory could not be synced.
    SyncFailed,
    /// Everything was synced.
    Done,
}

/// Notes on `dest` how its sync with the local directories went, and says
/// whether the run goes on to the next destination: a drive that cannot be
/// mounted is passed over, a failed sync ends the local syncs.
pub fn record_local_sync(dest: &mut DriveInfo, result: LocalSync) -> (go_on: bool)
    ensures
        go_on == (result != LocalSync::SyncFailed),
        final(dest).err == match result {
            LocalSync::MountFailed => Some(DestError::MountError),
            LocalSync::SyncFailed => Some(DestError::SyncError),
            LocalSync::Done => old(dest).err,
        },
        final(dest).letter == old(dest).letter,
        final(dest).nickname == old(dest).nickname,
        final(dest).base_dir == old(dest).base_dir,
        final(dest).mountpoint == old(dest).mountpoint,
{
    match result {
        LocalSync::MountFailed => {
            dest.err = Some(DestError::MountError);
            true
        },
        LocalSync::SyncFailed => {
            dest.err = Some(DestError::SyncError);
            false
        },
        LocalSync::Done => true,
    }
}

/// Whether shared directories are synced between drives at all: only where
/// there is more than one destination.
pub fn syncs_between(count: usize) -> (syncs: bool)
    ensures
        syncs == (count > 1),
{
    count > 1
}

/// What is done for an ordered pair of destinations.
#[derive(Clone, Copy, Debug, PartialEq, Eq, Structural)]
pub enum Pairing {
    /// The source failed earlier: nothing is copied from it.
    SourceFailed,
    /// Both are the same directory.
    Same,
    /// The destination failed earlier, at the stage given: the pair is
    /// passed over with a message.
    DestFailed(DestError),
    /// The source's shared directory is synced into the destination's.
    Sync,
}

/// What is done for a pair: nothing from a source that failed, nothing
/// between a directory and itself, and nothing into a destination that
/// failed.
pub open spec fn pairing_of(src: &DriveInfo, dest: &DriveInfo) -> Pairing {
    if src.err.is_some() {
        Pairing::SourceFailed
    } else if src.shared() == dest.shared() {
        Pairing::Same
    } else {
        match dest.err {
            Some(error) => Pairing::DestFailed(error),
            None => Pairing::Sync,
        }
    }
}

/// Decides what is done for the pair of `src` and `dest`.
pub fn pairing(src: &DriveInfo, dest: &DriveInfo) -> (pairing: Pairing)
    ensures
        pairing == pairing_of(src, dest),
{
    if src.err.is_some() {
        Pairing::SourceFailed
    } else if src.synced_dir() == dest.synced_dir() {
        Pairing::Same
    } else {
        match dest.err {
            Some(error) => Pairing::DestFailed(error),
            None => Pairing::Sync,
        }
    }
}

/// The texts of a list of options.
pub open spec fn texts(options: Seq<&'static str>) -> Seq<Seq<char>> {
    Seq::new(options.len(), |i: int| options[i]@)
}

/// The options under which a drive is brought up to date with the local
/// directories.
pub open spec fn local_sync_flags(dry_run: bool) -> Seq<Seq<char>> {
    let always = seq!["-a"@, "--no-links"@, "--itemize-changes"@, "--update"@, "--delete"@];
    if dry_run {
        always.push("--dry-run"@)
    } else {
        always
    }
}

/// Lists the options for a sync with the local directories.
pub fn local_sync_options(dry_run: bool) -> (options: Vec<&'static str>)
    ensures
        texts(options@) == local_sync_flags(dry_run),
{
    let mut options: Vec<&'static str> = Vec::new();
    options.push("-a");
    options.push("--no-links");
    options.push("--itemize-changes");
    options.push("--update");
    options.push("--delete");
    if dry_run {
        options.push("--dry-run");
    }
    assert(texts(options@) =~= local_sync_flags(dry_run));
    options
}

/// The options under which one shared directory is synced into another.
pub open spec fn shared_sync_flags(dry_run: bool) -> Seq<Seq<char>> {
    let always = seq!["--itemize-changes"@, "--recursive"@, "--ignore-existing"@];
    if dry_run {
        always.push("--dry-run"@)
    } else {
        always
    }
}

/// Lists the options for a sync between shared directories.
pub fn shared_sync_options(dry_run: bool) -> (options: Vec<&'static str>)
    ensures
        texts(options@) == shared_sync_flags(dry_run),
{
    let mut options: Vec<&'static str> = Vec::new();
    options.push("--itemize-changes");
    options.push("--recursive");
    options.push("--ignore-existing");
    if dry_run {
        options.push("--dry-run");
    }
    assert(texts(options@) =~= shared_sync_flags(dry_run));
    options
}

/// Whether a line of the sync's report names a file sent to the
/// destination: those lines begin with `>`.
pub fn is_transfer_line(line: &str) -> (sent: bool)
    ensures
        sent == (line@.len() > 0 && line@[0] == '>'),
{
    line.unicode_len() > 0 && line.get_char(0) == '>'
}

/// What is reported of a command that failed: what it wrote as its error,
/// or, where it wrote nothing, how it ended.
pub fn failure_text(stderr: String, status: String) -> (text: String)
    ensures
        text@ == if stderr@.len() == 0 {
            status@
        } else {
            stderr@
        },
{
    if stderr.as_str().unicode_len() == 0 {
        status
    } else {
        stderr
    }
}

} // verus!
