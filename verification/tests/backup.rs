use vaults_bridge::backup_flow::export::{
    backup_created, backup_written, directory_picked, export_encrypted_backup, ExportStep,
};
use vaults_bridge::backup_flow::panel::{set_error, set_restore_count, set_success, BackupPanel};
use vaults_bridge::backup_flow::path::join_dir;
use vaults_bridge::backup_flow::picker::{
    backup_dir_options, backup_file_options, map_location, picked, AllowedLocations, PickOutcome,
    PickedEntry, PickerLocation, StorageLocation,
};
use vaults_bridge::backup_flow::restore::{
    backup_opened, cancel_restore, file_picked, file_read, new_pending_restore,
    pick_restore_backup, RestoreStep, MAX_BACKUP_BYTES,
};

use vaults_bridge::backup_flow::storage::{read_flags, write_flags};

fn shown(panel: &BackupPanel) -> (&str, &str, i32) {
    (panel.error.as_str(), panel.success.as_str(), panel.restore_count)
}

fn old_success() -> BackupPanel {
    let mut panel = BackupPanel::new();
    set_success(&mut panel, "earlier");
    panel
}

fn entry(path: &str, location: PickerLocation) -> PickedEntry {
    PickedEntry { path: path.to_string(), location }
}

#[test]
fn the_panel_shows_one_thing_at_a_time() {
    let mut panel = BackupPanel::new();
    assert_eq!(shown(&panel), ("", "", 0));
    set_restore_count(&mut panel, 4);
    assert_eq!(shown(&panel), ("", "", 4));
    set_error(&mut panel, "no");
    assert_eq!(shown(&panel), ("no", "", 0));
    set_success(&mut panel, "yes");
    assert_eq!(shown(&panel), ("", "yes", 0));
    set_restore_count(&mut panel, 1);
    assert_eq!(shown(&panel), ("", "", 1));
}

#[test]
fn a_count_beyond_the_field_is_cut_off() {
    let mut panel = BackupPanel::new();
    set_restore_count(&mut panel, 0x1_0000_0003);
    assert_eq!(panel.restore_count, 3);
}

#[test]
fn paths_are_joined_with_one_slash() {
    assert_eq!(join_dir("/mnt/usb", "f"), "/mnt/usb/f");
    assert_eq!(join_dir("/mnt/usb/", "f"), "/mnt/usb/f");
    assert_eq!(join_dir("/mnt/usb///", "f"), "/mnt/usb/f");
    assert_eq!(join_dir("a", "f"), "a/f");
    assert_eq!(join_dir("\u{e9}/\u{fc}/", "f"), "\u{e9}/\u{fc}/f");
    assert_eq!(join_dir("", "f"), "f");
    assert_eq!(join_dir("/", "f"), "f");
    assert_eq!(join_dir("//", "f"), "f");
}

#[test]
fn locations_are_mapped() {
    assert_eq!(map_location(PickerLocation::Internal), StorageLocation::User);
    assert_eq!(map_location(PickerLocation::Airlock), StorageLocation::Airlock);
    assert_eq!(map_location(PickerLocation::External), StorageLocation::Usb);
}

#[test]
fn the_picker_is_opened_for_a_directory_or_a_file() {
    let dir = backup_dir_options();
    assert!(!dir.hidden_allowed && dir.dirs_allowed);
    assert!(dir.dir_selection_mode && !dir.multiple_selection_mode);
    assert_eq!(dir.locations, AllowedLocations::All);
    assert_eq!(dir.extensions, None);
    let file = backup_file_options();
    assert!(!file.hidden_allowed && file.dirs_allowed);
    assert!(!file.dir_selection_mode && !file.multiple_selection_mode);
    assert_eq!(file.locations, AllowedLocations::All);
    assert_eq!(file.extensions, Some(vec!["vbpw", "json"]));
}

#[test]
fn the_first_entry_counts() {
    let answer: Result<Option<Vec<PickedEntry>>, String> = Ok(Some(vec![
        entry("/a", PickerLocation::External),
        entry("/b", PickerLocation::Internal),
    ]));
    match picked(answer) {
        PickOutcome::Chosen { path, location } => {
            assert_eq!(path, "/a");
            assert_eq!(location, StorageLocation::Usb);
        }
        _ => panic!("not chosen"),
    }
    let none: Result<Option<Vec<PickedEntry>>, String> = Ok(None);
    assert!(matches!(picked(none), PickOutcome::Dismissed));
    let empty: Result<Option<Vec<PickedEntry>>, String> = Ok(Some(Vec::new()));
    assert!(matches!(picked(empty), PickOutcome::Dismissed));
    let failed: Result<Option<Vec<PickedEntry>>, String> = Err("x".to_string());
    assert!(matches!(picked(failed), PickOutcome::Failed));
}

#[test]
fn an_export_that_succeeds() {
    let mut ui = old_success();
    assert!(matches!(
        export_encrypted_backup(true, b"correct horse", &mut ui),
        ExportStep::CreateBackup
    ));
    let backup = match backup_created(Some(vec![1, 2, 3]), &mut ui) {
        ExportStep::PickDirectory { backup } => backup,
        _ => panic!("no directory"),
    };
    let chosen = PickOutcome::Chosen { path: "/out/".to_string(), location: StorageLocation::Usb };
    let path = match directory_picked(backup, chosen, &mut ui) {
        ExportStep::WriteFile { path, location, backup } => {
            assert_eq!(location, StorageLocation::Usb);
            assert_eq!(backup, vec![1, 2, 3]);
            path
        }
        _ => panic!("no write"),
    };
    assert_eq!(path, "/out/passport-passwords-backup.vbpw");
    assert_eq!(shown(&ui), ("", "earlier", 0));
    backup_written(&path, true, &mut ui);
    assert_eq!(
        shown(&ui),
        (
            "",
            "Encrypted backup saved to /out/passport-passwords-backup.vbpw. Keep its passphrase safe.",
            0
        )
    );
}

#[test]
fn exports_that_are_refused() {
    let mut ui = old_success();
    assert!(matches!(
        export_encrypted_backup(false, b"correct horse", &mut ui),
        ExportStep::Stop
    ));
    assert_eq!(shown(&ui), ("Backup export is only available on hardware.", "", 0));

    let mut ui = old_success();
    assert!(matches!(export_encrypted_backup(true, b"elevenbytes", &mut ui), ExportStep::Stop));
    assert_eq!(shown(&ui), ("Use a backup passphrase of at least 12 characters.", "", 0));
    assert!(matches!(
        export_encrypted_backup(true, b"twelve bytes", &mut ui),
        ExportStep::CreateBackup
    ));

    let mut ui = old_success();
    assert!(matches!(backup_created(None, &mut ui), ExportStep::Stop));
    assert_eq!(shown(&ui), ("Could not create encrypted backup.", "", 0));

    let mut ui = old_success();
    assert!(matches!(directory_picked(vec![1], PickOutcome::Failed, &mut ui), ExportStep::Stop));
    assert_eq!(shown(&ui), ("Could not choose a backup destination.", "", 0));

    let mut ui = old_success();
    backup_written("/x", false, &mut ui);
    assert_eq!(shown(&ui), ("Could not write the backup file.", "", 0));
}

#[test]
fn dismissing_the_picker_leaves_the_panel_alone() {
    let mut ui = old_success();
    assert!(matches!(
        directory_picked(vec![1], PickOutcome::Dismissed, &mut ui),
        ExportStep::Stop
    ));
    assert_eq!(shown(&ui), ("", "earlier", 0));
    assert!(matches!(file_picked(PickOutcome::Dismissed, &mut ui), RestoreStep::Stop));
    assert_eq!(shown(&ui), ("", "earlier", 0));
}

#[test]
fn a_restore_that_waits_for_confirmation() {
    let mut ui = old_success();
    let mut pending = new_pending_restore::<u32>();
    assert_eq!(pending.records, None);
    assert!(matches!(pick_restore_backup(true, b"p", &mut ui), RestoreStep::PickFile));
    let chosen = PickOutcome::Chosen { path: "/b".to_string(), location: StorageLocation::Airlock };
    match file_picked(chosen, &mut ui) {
        RestoreStep::ReadFile { path, location } => {
            assert_eq!(path, "/b");
            assert_eq!(location, StorageLocation::Airlock);
        }
        _ => panic!("no read"),
    }
    match file_read(Some(vec![9, 9]), &mut ui) {
        RestoreStep::OpenBackup { backup } => assert_eq!(backup, vec![9, 9]),
        _ => panic!("not opened"),
    }
    assert_eq!(shown(&ui), ("", "earlier", 0));
    backup_opened(Some(vec![7, 8]), &mut pending, &mut ui);
    assert_eq!(pending.records, Some(vec![7, 8]));
    assert_eq!(shown(&ui), ("", "", 2));
    cancel_restore(&mut pending);
    assert_eq!(pending.records, None);
}

#[test]
fn restores_that_are_refused() {
    let mut ui = old_success();
    assert!(matches!(pick_restore_backup(false, b"p", &mut ui), RestoreStep::Stop));
    assert_eq!(shown(&ui), ("Backup restore is only available on hardware.", "", 0));

    let mut ui = old_success();
    assert!(matches!(pick_restore_backup(true, b"", &mut ui), RestoreStep::Stop));
    assert_eq!(shown(&ui), ("Backup passphrase is required.", "", 0));

    let mut ui = old_success();
    assert!(matches!(file_picked(PickOutcome::Failed, &mut ui), RestoreStep::Stop));
    assert_eq!(shown(&ui), ("Could not choose a backup file.", "", 0));

    let mut ui = old_success();
    assert!(matches!(file_read(None, &mut ui), RestoreStep::Stop));
    assert_eq!(shown(&ui), ("Could not read the selected backup.", "", 0));
}

#[test]
fn the_size_limit_is_inclusive() {
    assert_eq!(MAX_BACKUP_BYTES, 4194304);
    let mut ui = BackupPanel::new();
    assert!(matches!(
        file_read(Some(vec![0; MAX_BACKUP_BYTES]), &mut ui),
        RestoreStep::OpenBackup { .. }
    ));
    assert!(matches!(
        file_read(Some(vec![0; MAX_BACKUP_BYTES + 1]), &mut ui),
        RestoreStep::Stop
    ));
    assert_eq!(shown(&ui), ("Backup file is too large.", "", 0));
}

#[test]
fn a_failed_restore_keeps_what_waits() {
    let mut ui = BackupPanel::new();
    let mut pending = new_pending_restore::<u32>();
    backup_opened(Some(vec![1]), &mut pending, &mut ui);
    backup_opened(None, &mut pending, &mut ui);
    assert_eq!(pending.records, Some(vec![1]));
    assert_eq!(shown(&ui), ("Backup could not be opened. Check the passphrase.", "", 0));
    backup_opened(Some(Vec::new()), &mut pending, &mut ui);
    assert_eq!(pending.records, Some(vec![1]));
    assert_eq!(shown(&ui), ("Backup contains no passwords.", "", 0));
    backup_opened(Some(vec![2, 3]), &mut pending, &mut ui);
    assert_eq!(pending.records, Some(vec![2, 3]));
}

#[test]
fn files_are_opened_for_one_purpose() {
    let write = write_flags();
    assert!(!write.read && write.write && write.create);
    let read = read_flags();
    assert!(read.read && !read.write && !read.create);
}
