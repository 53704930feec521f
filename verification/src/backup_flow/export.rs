//! Writing an encrypted backup to a directory that the user chooses.
//!
//! Each function takes the outcome of the step before it and tells the next
//! step; the driver carries the steps out.

use vstd::prelude::*;
use vstd::string::*;

use crate::backup_flow::panel;
use crate::backup_flow::panel::{BackupPanel, PanelView};
use crate::backup_flow::path;
use crate::backup_flow::picker::{PickOutcome, PickOutcomeView, StorageLocation};

verus! {

/// Name of the backup file.
pub const BACKUP_FILE_NAME: &'static str = "passport-passwords-backup.vbpw";

/// Fewest bytes that a backup passphrase may have.
pub const MIN_PASSPHRASE_BYTES: usize = 12;

/// What the driver has to do next.
pub enum ExportStep {
    /// Have the keystore encrypt its records under the passphrase.
    CreateBackup,
    /// Let the user choose a directory for `backup`.
    PickDirectory { backup: Vec<u8> },
    /// Write `backup` to the file at `path`.
    WriteFile { path: String, location: StorageLocation, backup: Vec<u8> },
    /// The export is over.
    Stop,
}

/// Mathematical counterpart of [`ExportStep`].
pub enum ExportStepView {
    CreateBackup,
    PickDirectory { backup: Seq<u8> },
    WriteFile { path: Seq<char>, location: StorageLocation, backup: Seq<u8> },
    Stop,
}

impl View for ExportStep {
    type V = ExportStepView;

    open spec fn view(&self) -> ExportStepView {
        match *self {
            ExportStep::CreateBackup => ExportStepView::CreateBackup,
            ExportStep::PickDirectory { backup } => ExportStepView::PickDirectory {
                backup: backup@,
            },
            ExportStep::WriteFile { path, location, backup } => ExportStepView::WriteFile {
                path: path@,
                location,
                backup: backup@,
            },
            ExportStep::Stop => ExportStepView::Stop,
        }
    }
}

/// First step and panel of an export.
pub open spec fn export_started(hardware: bool, passphrase: Seq<u8>, shown: PanelView) -> (
    ExportStepView,
    PanelView,
) {
    if !hardware {
        (
            ExportStepView::Stop,
            panel::error_panel("Backup export is only available on hardware."@),
        )
    } else if passphrase.len() < MIN_PASSPHRASE_BYTES {
        (
            ExportStepView::Stop,
            panel::error_panel("Use a backup passphrase of at least 12 characters."@),
        )
    } else {
        (ExportStepView::CreateBackup, shown)
    }
}

/// Next step and panel, given the backup that the keystore created, if it could.
pub open spec fn export_created(created: Option<Seq<u8>>, shown: PanelView) -> (
    ExportStepView,
    PanelView,
) {
    match created {
        Some(backup) => (ExportStepView::PickDirectory { backup }, shown),
        None => (
            ExportStepView::Stop,
            panel::error_panel("Could not create encrypted backup."@),
        ),
    }
}

/// Next step and panel, given how choosing a directory went.
pub open spec fn export_picked(
    backup: Seq<u8>,
    outcome: PickOutcomeView,
    shown: PanelView,
) -> (ExportStepView, PanelView) {
    match outcome {
        PickOutcomeView::Chosen { path, location } => (
            ExportStepView::WriteFile {
                path: path::joined(path, BACKUP_FILE_NAME@),
                location,
                backup,
            },
            shown,
        ),
        PickOutcomeView::Dismissed => (ExportStepView::Stop, shown),
        PickOutcomeView::Failed => (
            ExportStepView::Stop,
            panel::error_panel("Could not choose a backup destination."@),
        ),
    }
}

/// What is said of a backup that was saved to `path`.
pub open spec fn saved_text(path: Seq<char>) -> Seq<char> {
    "Encrypted backup saved to "@ + path + ". Keep its passphrase safe."@
}

/// The panel at the end, given whether the file was written.
pub open spec fn export_written(path: Seq<char>, written: bool) -> PanelView {
    if written {
        panel::success_panel(saved_text(path))
    } else {
        panel::error_panel("Could not write the backup file."@)
    }
}

/// Starts an export under `passphrase`. `hardware` tells whether this runs on
/// the device; nothing can be exported elsewhere.
pub fn export_encrypted_backup(hardware: bool, passphrase: &[u8], ui: &mut BackupPanel) -> (step:
    ExportStep)
    ensures
        (step@, final(ui)@) == export_started(hardware, passphrase@, old(ui)@),
{
    if !hardware {
        panel::set_error(ui, "Backup export is only available on hardware.");
        return ExportStep::Stop;
    }
    if passphrase.len() < MIN_PASSPHRASE_BYTES {
        panel::set_error(ui, "Use a backup passphrase of at least 12 characters.");
        return ExportStep::Stop;
    }
    ExportStep::CreateBackup
}

/// Goes on once the keystore has created a backup, or could not.
pub fn backup_created(created: Option<Vec<u8>>, ui: &mut BackupPanel) -> (step: ExportStep)
    ensures
        (step@, final(ui)@) == export_created(
            match created {
                Some(backup) => Some(backup@),
                None => None,
            },
            old(ui)@,
        ),
{
    match created {
        Some(backup) => ExportStep::PickDirectory { backup },
        None => {
            panel::set_error(ui, "Could not create encrypted backup.");
            ExportStep::Stop
        },
    }
}

/// Goes on once the user has chosen a directory, or has not.
pub fn directory_picked(backup: Vec<u8>, outcome: PickOutcome, ui: &mut BackupPanel) -> (step:
    ExportStep)
    ensures
        (step@, final(ui)@) == export_picked(backup@, outcome@, old(ui)@),
{
    match outcome {
        PickOutcome::Chosen { path: dir, location } => {
            let path: String = path::join_dir(dir.as_str(), BACKUP_FILE_NAME);
            ExportStep::WriteFile { path, location, backup }
        },
        PickOutcome::Dismissed => ExportStep::Stop,
        PickOutcome::Failed => {
            panel::set_error(ui, "Could not choose a backup destination.");
            ExportStep::Stop
        },
    }
}

/// Ends the export once the file at `path` has been written, or could not be.
pub fn backup_written(path: &str, written: bool, ui: &mut BackupPanel)
    ensures
        final(ui)@ == export_written(path@, written),
{
    if written {
        let msg: String = "Encrypted backup saved to ".to_owned().concat(path).concat(
            ". Keep its passphrase safe.",
        );
        panel::set_success(ui, msg.as_str());
    } else {
        panel::set_error(ui, "Could not write the backup file.");
    }
}

/// What the world answers to the steps of one export.
pub struct ExportWorld {
    pub hardware: bool,
    pub passphrase: Seq<u8>,
    pub created: Option<Seq<u8>>,
    pub picked: PickOutcomeView,
    pub written: bool,
}

/// What one export comes to.
pub struct ExportRun {
    /// Whether the passphrase was handed to the keystore.
    pub asked_keystore: bool,
    /// The write that was asked for.
    pub write: Option<(Seq<char>, StorageLocation, Seq<u8>)>,
    /// The panel at the end.
    pub shown: PanelView,
}

/// One export from beginning to end.
pub open spec fn export_run(world: ExportWorld, shown: PanelView) -> ExportRun {
    let (first, ui1) = export_started(world.hardware, world.passphrase, shown);
    if first is CreateBackup {
        let (second, ui2) = export_created(world.created, ui1);
        match second {
            ExportStepView::PickDirectory { backup } => {
                let (third, ui3) = export_picked(backup, world.picked, ui2);
                match third {
                    ExportStepView::WriteFile { path, location, backup } => ExportRun {
                        asked_keystore: true,
                        write: Some((path, location, backup)),
                        shown: export_written(path, world.written),
                    },
                    _ => ExportRun { asked_keystore: true, write: None, shown: ui3 },
                }
            },
            _ => ExportRun { asked_keystore: true, write: None, shown: ui2 },
        }
    } else {
        ExportRun { asked_keystore: false, write: None, shown: ui1 }
    }
}

/// A passphrase that is too short never reaches the keystore, and nothing is
/// written.
pub proof fn law_short_passphrase_is_refused(world: ExportWorld, shown: PanelView)
    requires
        world.passphrase.len() < MIN_PASSPHRASE_BYTES,
    ensures
        !export_run(world, shown).asked_keystore,
        export_run(world, shown).write is None,
        export_run(world, shown).shown.error.len() > 0,
{
    reveal_strlit("Backup export is only available on hardware.");
    reveal_strlit("Use a backup passphrase of at least 12 characters.");
}

/// Only what the keystore encrypted is ever written, to the directory that the
/// user chose, under the backup's name.
pub proof fn law_only_the_backup_is_written(world: ExportWorld, shown: PanelView)
    ensures
        export_run(world, shown).write matches Some((path, location, bytes)) ==> {
            &&& world.hardware
            &&& world.passphrase.len() >= MIN_PASSPHRASE_BYTES
            &&& world.created == Some(bytes)
            &&& world.picked matches PickOutcomeView::Chosen { path: dir, location: chosen }
                && path == path::joined(dir, BACKUP_FILE_NAME@) && location == chosen
        },
{
}

/// Success is shown exactly if every step succeeded. (The panel is taken to show
/// no success beforehand.)
pub proof fn law_success_means_saved(world: ExportWorld, shown: PanelView)
    requires
        shown.success.len() == 0,
    ensures
        export_run(world, shown).shown.success.len() > 0 <==> {
            &&& world.hardware
            &&& world.passphrase.len() >= MIN_PASSPHRASE_BYTES
            &&& world.created is Some
            &&& world.picked is Chosen
            &&& world.written
        },
{
    reveal_strlit("Encrypted backup saved to ");
}

/// Unless the user dismisses the picker, an export ends with an error or a
/// success on the panel.
pub proof fn law_export_is_never_silent(world: ExportWorld, shown: PanelView)
    requires
        !(world.picked is Dismissed),
    ensures
        export_run(world, shown).shown.error.len() > 0 || export_run(
            world,
            shown,
        ).shown.success.len() > 0,
{
    reveal_strlit("Backup export is only available on hardware.");
    reveal_strlit("Use a backup passphrase of at least 12 characters.");
    reveal_strlit("Could not create encrypted backup.");
    reveal_strlit("Could not choose a backup destination.");
    reveal_strlit("Could not write the backup file.");
    reveal_strlit("Encrypted backup saved to ");
}

/// A user who dismisses the picker sees what they saw before.
pub proof fn law_dismissing_changes_nothing(world: ExportWorld, shown: PanelView)
    requires
        world.hardware,
        world.passphrase.len() >= MIN_PASSPHRASE_BYTES,
        world.created is Some,
        world.picked is Dismissed,
    ensures
        export_run(world, shown).shown == shown,
        export_run(world, shown).write is None,
{
}

/// The panel stays valid through an export.
pub proof fn law_export_keeps_panel_valid(world: ExportWorld, shown: PanelView)
    requires
        shown.valid(),
    ensures
        export_run(world, shown).shown.valid(),
{
}

/// An export goes ahead when nothing is wrong: on hardware, with a passphrase of
/// 12 bytes or more, the keystore is asked; the backup that it created is written,
/// whole, wherever the user chose, under the backup's name; and a success names
/// the path of the file.
pub proof fn law_export_goes_ahead(
    world: ExportWorld,
    shown: PanelView,
    backup: Seq<u8>,
    dir: Seq<char>,
    location: StorageLocation,
)
    requires
        world.hardware,
        world.passphrase.len() >= 12,
        world.created == Some(backup),
        world.picked == (PickOutcomeView::Chosen { path: dir, location }),
    ensures
        ({
            let run = export_run(world, shown);
            let path = path::joined(dir, "passport-passwords-backup.vbpw"@);
            &&& run.asked_keystore
            &&& run.write == Some((path, location, backup))
            &&& world.written ==> {
                &&& run.shown.success == "Encrypted backup saved to "@ + path
                    + ". Keep its passphrase safe."@
                &&& run.shown.error.len() == 0
                &&& run.shown.restore_count == 0
            }
            &&& !world.written ==> {
                &&& run.shown.error == "Could not write the backup file."@
                &&& run.shown.success.len() == 0
                &&& run.shown.restore_count == 0
            }
        }),
{
}

/// The file that is written lies in the directory that the user chose, just below
/// it.
pub proof fn law_backup_lies_in_the_chosen_directory(
    world: ExportWorld,
    shown: PanelView,
    dir: Seq<char>,
    location: StorageLocation,
)
    requires
        dir.len() > 0,
        dir.last() != '/',
        world.hardware,
        world.passphrase.len() >= 12,
        world.created is Some,
        world.picked == (PickOutcomeView::Chosen { path: dir, location }),
    ensures
        export_run(world, shown).write matches Some((path, stored, bytes)) && stored == location
            && path == dir + seq!['/'] + "passport-passwords-backup.vbpw"@,
{
    path::law_file_lies_in_the_directory(dir, "passport-passwords-backup.vbpw"@);
}

/// The keystore is asked exactly on hardware and with a passphrase of 12 bytes or
/// more.
pub proof fn law_keystore_is_asked_when_it_may_be(world: ExportWorld, shown: PanelView)
    ensures
        export_run(world, shown).asked_keystore <==> world.hardware && world.passphrase.len() >= 12,
{
}

/// The first thing that goes wrong is what the panel says, whatever it showed
/// before and whatever would have come later.
pub proof fn law_export_tells_what_went_wrong(world: ExportWorld, shown: PanelView)
    ensures
        ({
            let panel = export_run(world, shown).shown;
            let ready = world.hardware && world.passphrase.len() >= 12;
            &&& !world.hardware ==> panel == panel::error_panel(
                "Backup export is only available on hardware."@,
            )
            &&& world.hardware && world.passphrase.len() < 12 ==> panel == panel::error_panel(
                "Use a backup passphrase of at least 12 characters."@,
            )
            &&& ready && world.created is None ==> panel == panel::error_panel(
                "Could not create encrypted backup."@,
            )
            &&& ready && world.created is Some && world.picked is Failed ==> panel
                == panel::error_panel("Could not choose a backup destination."@)
        }),
{
}

/// An export that goes on leaves the panel as it was.
pub proof fn law_going_on_leaves_the_panel(
    hardware: bool,
    passphrase: Seq<u8>,
    created: Option<Seq<u8>>,
    backup: Seq<u8>,
    picked: PickOutcomeView,
    shown: PanelView,
)
    ensures
        export_started(hardware, passphrase, shown).0 !is Stop ==> export_started(
            hardware,
            passphrase,
            shown,
        ).1 == shown,
        export_created(created, shown).0 !is Stop ==> export_created(created, shown).1 == shown,
        export_picked(backup, picked, shown).0 !is Stop ==> export_picked(
            backup,
            picked,
            shown,
        ).1 == shown,
{
}

/// Each step asks for the one that follows it, and for no other: the keystore
/// comes first, then the directory, then the file. The panel plays no part.
pub proof fn law_export_steps_in_order(
    hardware: bool,
    passphrase: Seq<u8>,
    created: Option<Seq<u8>>,
    backup: Seq<u8>,
    picked: PickOutcomeView,
    shown: PanelView,
)
    ensures
        hardware && passphrase.len() >= 12 ==> export_started(hardware, passphrase, shown).0
            is CreateBackup,
        !(hardware && passphrase.len() >= 12) ==> export_started(hardware, passphrase, shown).0
            is Stop,
        created is Some ==> export_created(created, shown).0 == (ExportStepView::PickDirectory {
            backup: created->0,
        }),
        created is None ==> export_created(created, shown).0 is Stop,
        export_picked(backup, picked, shown).0 is WriteFile <==> picked is Chosen,
        export_picked(backup, picked, shown).0 is Stop <==> !(picked is Chosen),
{
}

/// The view of a step loses nothing.
pub proof fn law_export_step_view_is_faithful(step: ExportStep)
    ensures
        match step {
            ExportStep::CreateBackup => step@ is CreateBackup,
            ExportStep::PickDirectory { backup } => step@ == (ExportStepView::PickDirectory {
                backup: backup@,
            }),
            ExportStep::WriteFile { path, location, backup } => step@
                == (ExportStepView::WriteFile { path: path@, location, backup: backup@ }),
            ExportStep::Stop => step@ is Stop,
        },
{
}

/// The end of an export is told: with the file's path, whole, if it was written,
/// and as an error if it was not.
pub proof fn law_end_of_export_is_told(path: Seq<char>)
    ensures
        export_written(path, true).success == "Encrypted backup saved to "@ + path
            + ". Keep its passphrase safe."@,
        export_written(path, true).error.len() == 0,
        export_written(path, true).restore_count == 0,
        export_written(path, false).error == "Could not write the backup file."@,
        export_written(path, false).success.len() == 0,
        export_written(path, false).restore_count == 0,
{
}

} // verus!
