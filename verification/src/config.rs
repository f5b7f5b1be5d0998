//! Drives to sync with, as the configuration names them: a letter, an
//! optional nickname and an optional directory below the mount point.

use vstd::prelude::*;

verus! {

/// What `str::to_lowercase` makes of a text.
pub uninterp spec fn lowercase(text: Seq<char>) -> Seq<char>;

/// What `str::to_uppercase` makes of a text.
pub uninterp spec fn uppercase(text: Seq<char>) -> Seq<char>;

/// `str::to_lowercase`: the lowercase equivalent of `text` as Unicode
/// defines it, which depends on nothing but the text.
#[verifier::external_body]
fn to_lowercase(text: &str) -> (lower: String)
    ensures
        lower@ == lowercase(text@),
{
    text.to_lowercase()
}

/// `str::to_uppercase`: the uppercase equivalent of `text` as Unicode
/// defines it, which depends on nothing but the text.
#[verifier::external_body]
fn to_uppercase(text: &str) -> (upper: String)
    ensures
        upper@ == uppercase(text@),
{
    text.to_uppercase()
}

/// `text` without the run of `mark` at its end.
pub open spec fn trim_end(text: Seq<char>, mark: char) -> Seq<char>
    decreases text.len(),
{
    if text.len() > 0 && text.last() == mark {
        trim_end(text.drop_last(), mark)
    } else {
        text
    }
}

/// A drive letter as it is kept: lowercase, without colons at the end.
pub open spec fn deformatted(letter: Seq<char>) -> Seq<char> {
    trim_end(lowercase(letter), ':')
}

/// A drive letter as the system writes it: uppercase, one colon at the end.
pub open spec fn formatted(letter: Seq<char>) -> Seq<char> {
    trim_end(uppercase(letter), ':') + seq![':']
}

/// Where a drive with the kept letter `letter` is mounted.
pub open spec fn mountpoint_of(letter: Seq<char>) -> Seq<char> {
    "/mnt/"@ + letter
}

/// Cuts the run of `mark` off the end of `text`.
pub fn trim_end_matches(text: &str, mark: char) -> (trimmed: String)
    ensures
        trimmed@ == trim_end(text@, mark),
{
    let mut end: usize = text.unicode_len();
    proof {
        assert(text@.subrange(0, end as int) =~= text@);
    }
    while end > 0 && text.get_char(end - 1) == mark
        invariant
            end <= text@.len(),
            trim_end(text@, mark) == trim_end(text@.subrange(0, end as int), mark),
        decreases end,
    {
        proof {
            let kept = text@.subrange(0, end as int);
            assert(kept.last() == mark);
            assert(kept.drop_last() =~= text@.subrange(0, end - 1));
        }
        end = end - 1;
    }
    String::from_str(text.substring_char(0, end))
}

/// Brings a drive letter into the form in which it is kept.
pub fn deformat_drive_letter(letter: &String) -> (kept: String)
    ensures
        kept@ == deformatted(letter@),
{
    let lower: String = to_lowercase(letter.as_str());
    trim_end_matches(lower.as_str(), ':')
}

/// Brings a drive letter into the form in which the system writes it.
pub fn format_drive_letter(letter: &String) -> (shown: String)
    ensures
        shown@ == formatted(letter@),
{
    let upper: String = to_uppercase(letter.as_str());
    let mut shown: String = trim_end_matches(upper.as_str(), ':');
    shown.append(":");
    proof {
        reveal_strlit(":");
        assert(":"@ =~= seq![':']);
    }
    shown
}

/// A drive to sync with.
#[derive(Debug)]
pub struct Drive {
    /// Drive letter, as it is kept
    pub letter: String,
    /// Drive's nickname
    pub nickname: Option<String>,
    /// Custom base directory
    pub base_dir: Option<String>,
}

/// A drive as a mathematical value.
pub struct DriveView {
    pub letter: Seq<char>,
    pub nickname: Option<Seq<char>>,
    pub base_dir: Option<Seq<char>>,
}

impl DriveView {
    /// The nickname given, or the one every unnamed drive goes by.
    pub open spec fn shown_nickname(self) -> Seq<char> {
        match self.nickname {
            Some(name) => name,
            None => "External Drive"@,
        }
    }

    /// Where the drive is mounted.
    pub open spec fn mountpoint(self) -> Seq<char> {
        mountpoint_of(self.letter)
    }

    /// The directory synced into: the custom one below the mount point,
    /// without slashes at its end, or the mount point itself.
    pub open spec fn base(self) -> Seq<char> {
        match self.base_dir {
            Some(dir) => self.mountpoint() + seq!['/'] + trim_end(dir, '/'),
            None => self.mountpoint(),
        }
    }
}

impl View for Drive {
    type V = DriveView;

    open spec fn view(&self) -> DriveView {
        DriveView {
            letter: self.letter@,
            nickname: match self.nickname {
                Some(name) => Some(name@),
                None => None,
            },
            base_dir: match self.base_dir {
                Some(dir) => Some(dir@),
                None => None,
            },
        }
    }
}

impl Drive {
    /// A drive whose letter may be given in any case, with or without colon.
    pub fn new(letter: String, nickname: Option<String>, base_dir: Option<String>) -> (drive:
        Drive)
        ensures
            drive.letter@ == deformatted(letter@),
            drive.nickname == nickname,
            drive.base_dir == base_dir,
    {
        Drive { letter: deformat_drive_letter(&letter), nickname, base_dir }
    }

    /// The letter as the system writes it.
    pub fn get_letter(&self) -> (letter: String)
        ensures
            letter@ == formatted(self@.letter),
    {
        format_drive_letter(&self.letter)
    }

    /// The nickname to show.
    pub fn get_nickname(&self) -> (nickname: String)
        ensures
            nickname@ == self@.shown_nickname(),
    {
        match &self.nickname {
            Some(name) => name.clone(),
            None => String::from_str("External Drive"),
        }
    }

    /// The directory synced into.
    pub fn get_base_dir(&self) -> (base: String)
        ensures
            base@ == self@.base(),
    {
        match &self.base_dir {
            Some(dir) => {
                let mut base: String = self.get_mountpoint();
                base.append("/");
                let tail: String = trim_end_matches(dir.as_str(), '/');
                base.append(tail.as_str());
                proof {
                    reveal_strlit("/");
                    assert("/"@ =~= seq!['/']);
                }
                base
            },
            None => self.get_mountpoint(),
        }
    }

    /// Where the drive is mounted.
    pub fn get_mountpoint(&self) -> (mountpoint: String)
        ensures
            mountpoint@ == self@.mountpoint(),
    {
        let mut mountpoint: String = String::from_str("/mnt/");
        mountpoint.append(self.letter.as_str());
        mountpoint
    }
}

/// What to sync, and with which drives.
#[derive(Debug)]
pub struct Config {
    /// Directories below the home directory to sync
    pub subdirs: Vec<String>,
    /// Hidden files of the home directory to copy
    pub hidden_files: Option<Vec<String>>,
    pub drives: Vec<Drive>,
    /// Folder to upload to
    pub gd_folder_id: Option<String>,
}

} // verus!
