use loghours::config::{
    deformat_drive_letter, format_drive_letter, trim_end_matches, Config, Drive,
};
use loghours::drives::{
    destinations, failure_text, hidden_file_paths, home_dir, is_transfer_line,
    local_source_dir, local_sync_options, make_drive_info, pairing, record_local_sync,
    shared_sync_options, syncs_between, DestError, DriveInfo, LocalSync, Pairing,
};

#[test]
fn trim_end_cuts_the_whole_run() {
    assert_eq!(trim_end_matches("g:", ':'), "g");
    assert_eq!(trim_end_matches("g:::", ':'), "g");
    assert_eq!(trim_end_matches(":g", ':'), ":g");
    assert_eq!(trim_end_matches("g", ':'), "g");
    assert_eq!(trim_end_matches(":::", ':'), "");
    assert_eq!(trim_end_matches("", ':'), "");
    assert_eq!(trim_end_matches("a:b:", ':'), "a:b");
    assert_eq!(trim_end_matches("d\u{e9}j\u{e0}//", '/'), "d\u{e9}j\u{e0}");
}

#[test]
fn drive_letters_are_kept_lowercase_without_colon() {
    assert_eq!(deformat_drive_letter(&"G:".to_string()), "g");
    assert_eq!(deformat_drive_letter(&"g".to_string()), "g");
    assert_eq!(deformat_drive_letter(&"I::".to_string()), "i");
    assert_eq!(deformat_drive_letter(&"".to_string()), "");
}

#[test]
fn drive_letters_are_shown_uppercase_with_colon() {
    assert_eq!(format_drive_letter(&"g".to_string()), "G:");
    assert_eq!(format_drive_letter(&"g:".to_string()), "G:");
    assert_eq!(format_drive_letter(&"I".to_string()), "I:");
    assert_eq!(format_drive_letter(&"".to_string()), ":");
}

#[test]
fn drive_texts() {
    let drive = Drive::new("G:".to_string(), Some("Cloud".to_string()), Some("My Drive/".to_string()));
    assert_eq!(drive.letter, "g");
    assert_eq!(drive.get_letter(), "G:");
    assert_eq!(drive.get_nickname(), "Cloud");
    assert_eq!(drive.get_mountpoint(), "/mnt/g");
    assert_eq!(drive.get_base_dir(), "/mnt/g/My Drive");
}

#[test]
fn drive_defaults() {
    let drive = Drive::new("i".to_string(), None, None);
    assert_eq!(drive.get_letter(), "I:");
    assert_eq!(drive.get_nickname(), "External Drive");
    assert_eq!(drive.get_mountpoint(), "/mnt/i");
    assert_eq!(drive.get_base_dir(), "/mnt/i");
}

#[test]
fn drive_info_from_drive() {
    let drive = Drive::new("G".to_string(), None, Some("backup///".to_string()));
    let info = DriveInfo::from_drive(&drive);
    assert_eq!(info.letter, "G:");
    assert_eq!(info.nickname, "External Drive");
    assert_eq!(info.base_dir, "/mnt/g/backup");
    assert_eq!(info.mountpoint, "/mnt/g");
    assert!(info.err.is_none());
    let again = make_drive_info(&drive);
    assert_eq!(again.base_dir, info.base_dir);
    assert_eq!(info.synced_dir(), "/mnt/g/backup/synced/");
    assert_eq!(info.hidden_dest_dir("ann"), "/mnt/g/backup/wsl/ann/");
    assert_eq!(info.local_dest_dir("ann", "docs"), "/mnt/g/backup/wsl/ann/docs/");
}

#[test]
fn drive_info_for_a_named_letter() {
    let info = DriveInfo::new("K:".to_string(), Some("Stick".to_string()));
    assert_eq!(info.letter, "K:");
    assert_eq!(info.nickname, "Stick");
    assert_eq!(info.base_dir, "/mnt/k");
    assert_eq!(info.mountpoint, "/mnt/k");
    assert!(info.err.is_none());
}

#[test]
fn error_kinds() {
    assert_eq!(DestError::MountError.kind(), "mount");
    assert_eq!(DestError::SyncError.kind(), "sync");
}

#[test]
fn local_directories() {
    assert_eq!(home_dir("ann"), "/home/ann");
    assert_eq!(local_source_dir("/home/ann", "docs"), "/home/ann/docs/");
    let files = vec![".bashrc".to_string(), ".vimrc".to_string()];
    assert_eq!(
        hidden_file_paths("/home/ann", &files),
        vec!["/home/ann/.bashrc".to_string(), "/home/ann/.vimrc".to_string()]
    );
    assert!(hidden_file_paths("/home/ann", &Vec::new()).is_empty());
}

#[test]
fn destinations_follow_the_configuration() {
    let config = Config {
        subdirs: vec!["docs".to_string()],
        hidden_files: None,
        drives: vec![
            Drive::new("G:".to_string(), Some("Cloud".to_string()), Some("My Drive".to_string())),
            Drive::new("i".to_string(), None, None),
        ],
        gd_folder_id: None,
    };
    let dests = destinations(&config, Some("K".to_string()), Some("Stick".to_string()));
    assert_eq!(dests.len(), 3);
    assert_eq!(dests[0].base_dir, "/mnt/g/My Drive");
    assert_eq!(dests[1].nickname, "External Drive");
    assert_eq!(dests[2].letter, "K:");
    assert_eq!(dests[2].nickname, "Stick");
    let plain = destinations(&config, None, Some("ignored".to_string()));
    assert_eq!(plain.len(), 2);
    assert_eq!(plain[1].mountpoint, "/mnt/i");
}

#[test]
fn local_sync_results_are_recorded() {
    let mut dest = DriveInfo::new("g".to_string(), None);
    assert!(record_local_sync(&mut dest, LocalSync::Done));
    assert!(dest.err.is_none());
    assert!(record_local_sync(&mut dest, LocalSync::MountFailed));
    assert_eq!(dest.err, Some(DestError::MountError));
    assert!(record_local_sync(&mut dest, LocalSync::Done));
    assert_eq!(dest.err, Some(DestError::MountError));
    assert!(!record_local_sync(&mut dest, LocalSync::SyncFailed));
    assert_eq!(dest.err, Some(DestError::SyncError));
    assert_eq!(dest.base_dir, "/mnt/g");
}

#[test]
fn pairs_of_destinations() {
    let good = DriveInfo::new("g".to_string(), None);
    let other = DriveInfo::new("i".to_string(), None);
    let mut unmounted = DriveInfo::new("k".to_string(), None);
    record_local_sync(&mut unmounted, LocalSync::MountFailed);
    let mut unsynced = DriveInfo::new("l".to_string(), None);
    record_local_sync(&mut unsynced, LocalSync::SyncFailed);
    assert_eq!(pairing(&good, &good), Pairing::Same);
    assert_eq!(pairing(&good, &other), Pairing::Sync);
    assert_eq!(pairing(&other, &good), Pairing::Sync);
    assert_eq!(pairing(&good, &unmounted), Pairing::DestFailed(DestError::MountError));
    assert_eq!(pairing(&good, &unsynced), Pairing::DestFailed(DestError::SyncError));
    assert_eq!(pairing(&unmounted, &good), Pairing::SourceFailed);
    assert_eq!(pairing(&unmounted, &unmounted), Pairing::SourceFailed);
    assert!(!syncs_between(0));
    assert!(!syncs_between(1));
    assert!(syncs_between(2));
}

#[test]
fn sync_options() {
    assert_eq!(
        local_sync_options(false),
        vec!["-a", "--no-links", "--itemize-changes", "--update", "--delete"]
    );
    assert_eq!(
        local_sync_options(true),
        vec!["-a", "--no-links", "--itemize-changes", "--update", "--delete", "--dry-run"]
    );
    assert_eq!(
        shared_sync_options(false),
        vec!["--itemize-changes", "--recursive", "--ignore-existing"]
    );
    assert_eq!(
        shared_sync_options(true),
        vec!["--itemize-changes", "--recursive", "--ignore-existing", "--dry-run"]
    );
}

#[test]
fn report_lines_and_failures() {
    assert!(is_transfer_line(">f+++++++++ notes.txt"));
    assert!(is_transfer_line(">"));
    assert!(!is_transfer_line("cd+++++++++ docs/"));
    assert!(!is_transfer_line(" >f"));
    assert!(!is_transfer_line(""));
    assert_eq!(failure_text("no such file".to_string(), "exit status: 23".to_string()), "no such file");
    assert_eq!(failure_text("".to_string(), "exit status: 23".to_string()), "exit status: 23");
}
