//! Reading an encrypted backup and holding its records until the user confirms.
//!
//! Each function takes the outcome of the step before it and tells the next
//! step; the driver carries the steps out.

use vstd::prelude::*;

use crate::backup_flow::panel;
use crate::backup_flow::panel::{BackupPanel, PanelView};
use crate::backup_flow::picker::{PickOutcome, PickOutcomeView, StorageLocation};

verus! {

/// Most bytes that a backup file may have.
pub const MAX_BACKUP_BYTES: usize = 4 * 1024 * 1024;

/// Records that wait for the user's confirmation.
pub struct PendingRestore<R> {
    pub records: Option<Vec<R>>,
}

impl<R> View for PendingRestore<R> {
    type V = Option<Seq<R>>;

    open spec fn view(&self) -> Option<Seq<R>> {
        match self.records {
            Some(records) => Some(records@),
            None => None,
        }
    }
}

/// Nothing waits.
pub fn new_pending_restore<R>() -> (pending: PendingRestore<R>)
    ensures
        pending@ == None::<Seq<R>>,
{
    PendingRestore { records: None }
}

/// What waits once a restore has been cancelled.
pub open spec fn cancelled<R>(waiting: Option<Seq<R>>) -> Option<Seq<R>> {
    None
}

/// Forgets the records that wait.
pub fn cancel_restore<R>(pending: &mut PendingRestore<R>)
    ensures
        final(pending)@ == None::<Seq<R>>,
        final(pending)@ == cancelled(old(pending)@),
{
    pending.records = None;
}

/// What the driver has to do next.
pub enum RestoreStep {
    /// Let the user choose a backup file.
    PickFile,
    /// Read the file at `path`.
    ReadFile { path: String, location: StorageLocation },
    /// Have the keystore open `backup` with the passphrase.
    OpenBackup { backup: Vec<u8> },
    /// The restore is over, or waits for confirmation.
    Stop,
}

/// Mathematical counterpart of [`RestoreStep`].
pub enum RestoreStepView {
    PickFile,
    ReadFile { path: Seq<char>, location: StorageLocation },
    OpenBackup { backup: Seq<u8> },
    Stop,
}

impl View for RestoreStep {
    type V = RestoreStepView;

    open spec fn view(&self) -> RestoreStepView {
        match *self {
            RestoreStep::PickFile => RestoreStepView::PickFile,
            RestoreStep::ReadFile { path, location } => RestoreStepView::ReadFile {
                path: path@,
                location,
            },
            RestoreStep::OpenBackup { backup } => RestoreStepView::OpenBackup { backup: backup@ },
            RestoreStep::Stop => RestoreStepView::Stop,
        }
    }
}

/// First step and panel of a restore.
pub open spec fn restore_started(hardware: bool, passphrase: Seq<u8>, shown: PanelView) -> (
    RestoreStepView,
    PanelView,
) {
    if !hardware {
        (
            RestoreStepView::Stop,
            panel::error_panel("Backup restore is only available on hardware."@),
        )
    } else if passphrase.len() == 0 {
        (RestoreStepView::Stop, panel::error_panel("Backup passphrase is required."@))
    } else {
        (RestoreStepView::PickFile, shown)
    }
}

/// Next step and panel, given how choosing a file went.
pub open spec fn restore_picked(outcome: PickOutcomeView, shown: PanelView) -> (
    RestoreStepView,
    PanelView,
) {
    match outcome {
        PickOutcomeView::Chosen { path, location } => (
            RestoreStepView::ReadFile { path, location },
            shown,
        ),
        PickOutcomeView::Dismissed => (RestoreStepView::Stop, shown),
        PickOutcomeView::Failed => (
            RestoreStepView::Stop,
            panel::error_panel("Could not choose a backup file."@),
        ),
    }
}

/// Next step and panel, given the bytes of the file, if it could be read.
pub open spec fn restore_read(read: Option<Seq<u8>>, shown: PanelView) -> (
    RestoreStepView,
    PanelView,
) {
    match read {
        Some(backup) => if backup.len() > MAX_BACKUP_BYTES {
            (RestoreStepView::Stop, panel::error_panel("Backup file is too large."@))
        } else {
            (RestoreStepView::OpenBackup { backup }, shown)
        },
        None => (
            RestoreStepView::Stop,
            panel::error_panel("Could not read the selected backup."@),
        ),
    }
}

/// What waits and what is shown, given the records of the backup, if it could
/// be opened.
pub open spec fn restore_opened<R>(opened: Option<Seq<R>>, waiting: Option<Seq<R>>) -> (
    Option<Seq<R>>,
    PanelView,
) {
    match opened {
        Some(records) => if records.len() == 0 {
            (waiting, panel::error_panel("Backup contains no passwords."@))
        } else {
            (Some(records), panel::confirm_panel(records.len() as usize))
        },
        None => (
            waiting,
            panel::error_panel("Backup could not be opened. Check the passphrase."@),
        ),
    }
}

/// Starts a restore under `passphrase`. `hardware` tells whether this runs on
/// the device; nothing can be restored elsewhere.
pub fn pick_restore_backup(hardware: bool, passphrase: &[u8], ui: &mut BackupPanel) -> (step:
    RestoreStep)
    ensures
        (step@, final(ui)@) == restore_started(hardware, passphrase@, old(ui)@),
{
    if !hardware {
        panel::set_error(ui, "Backup restore is only available on hardware.");
        return RestoreStep::Stop;
    }
    if passphrase.len() == 0 {
        panel::set_error(ui, "Backup passphrase is required.");
        return RestoreStep::Stop;
    }
    RestoreStep::PickFile
}

/// Goes on once the user has chosen a file, or has not.
pub fn file_picked(outcome: PickOutcome, ui: &mut BackupPanel) -> (step: RestoreStep)
    ensures
        (step@, final(ui)@) == restore_picked(outcome@, old(ui)@),
{
    match outcome {
        PickOutcome::Chosen { path, location } => RestoreStep::ReadFile { path, location },
        PickOutcome::Dismissed => RestoreStep::Stop,
        PickOutcome::Failed => {
            panel::set_error(ui, "Could not choose a backup file.");
            RestoreStep::Stop
        },
    }
}

/// Goes on once the file has been read, or could not be.
pub fn file_read(read: Option<Vec<u8>>, ui: &mut BackupPanel) -> (step: RestoreStep)
    ensures
        (step@, final(ui)@) == restore_read(
            match read {
                Some(backup) => Some(backup@),
                None => None,
            },
            old(ui)@,
        ),
{
    match read {
        Some(backup) => {
            if backup.len() > MAX_BACKUP_BYTES {
                panel::set_error(ui, "Backup file is too large.");
                return RestoreStep::Stop;
            }
            RestoreStep::OpenBackup { backup }
        },
        None => {
            panel::set_error(ui, "Could not read the selected backup.");
            RestoreStep::Stop
        },
    }
}

/// Ends the restore once the backup has been opened, or could not be: records
/// that were found wait for confirmation.
pub fn backup_opened<R>(
    opened: Option<Vec<R>>,
    pending: &mut PendingRestore<R>,
    ui: &mut BackupPanel,
)
    ensures
        (final(pending)@, final(ui)@) == restore_opened(
            match opened {
                Some(records) => Some(records@),
                None => None,
            },
            old(pending)@,
        ),
{
    match opened {
        Some(records) => {
            let count: usize = records.len();
            if count == 0 {
                panel::set_error(ui, "Backup contains no passwords.");
                return;
            }
            pending.records = Some(records);
            panel::set_restore_count(ui, count);
        },
        None => {
            panel::set_error(ui, "Backup could not be opened. Check the passphrase.");
        },
    }
}

/// What the world answers to the steps of one restore.
pub struct RestoreWorld<R> {
    pub hardware: bool,
    pub passphrase: Seq<u8>,
    pub picked: PickOutcomeView,
    pub read: Option<Seq<u8>>,
    pub opened: Option<Seq<R>>,
}

/// What one restore comes to.
pub struct RestoreRun<R> {
    /// The file that was asked for.
    pub read_from: Option<(Seq<char>, StorageLocation)>,
    /// The bytes that the keystore was asked to open.
    pub asked_keystore: Option<Seq<u8>>,
    /// The records that wait at the end.
    pub waiting: Option<Seq<R>>,
    /// The panel at the end.
    pub shown: PanelView,
}

/// One restore from beginning to end.
pub open spec fn restore_run<R>(
    world: RestoreWorld<R>,
    waiting: Option<Seq<R>>,
    shown: PanelView,
) -> RestoreRun<R> {
    let (first, ui1) = restore_started(world.hardware, world.passphrase, shown);
    if first is PickFile {
        let (second, ui2) = restore_picked(world.picked, ui1);
        match second {
            RestoreStepView::ReadFile { path, location } => {
                let read_from = Some((path, location));
                let (third, ui3) = restore_read(world.read, ui2);
                match third {
                    RestoreStepView::OpenBackup { backup } => {
                        let (left, ui4) = restore_opened(world.opened, waiting);
                        RestoreRun {
                            read_from,
                            asked_keystore: Some(backup),
                            waiting: left,
                            shown: ui4,
                        }
                    },
                    _ => RestoreRun { read_from, asked_keystore: None, waiting, shown: ui3 },
                }
            },
            _ => RestoreRun { read_from: None, asked_keystore: None, waiting, shown: ui2 },
        }
    } else {
        RestoreRun { read_from: None, asked_keystore: None, waiting, shown: ui1 }
    }
}

/// Only the file that the user chose is read.
pub proof fn law_only_the_chosen_file_is_read<R>(
    world: RestoreWorld<R>,
    waiting: Option<Seq<R>>,
    shown: PanelView,
)
    ensures
        restore_run(world, waiting, shown).read_from matches Some((path, location)) ==> world.picked
            == (PickOutcomeView::Chosen { path, location }),
{
}

/// The keystore is only asked to open the bytes that were read, and only if they
/// are within the limit and there is a passphrase.
pub proof fn law_only_sound_input_reaches_the_keystore<R>(
    world: RestoreWorld<R>,
    waiting: Option<Seq<R>>,
    shown: PanelView,
)
    ensures
        restore_run(world, waiting, shown).asked_keystore matches Some(bytes) ==> {
            &&& world.hardware
            &&& world.passphrase.len() > 0
            &&& world.read == Some(bytes)
            &&& bytes.len() <= MAX_BACKUP_BYTES
        },
{
}

/// Whatever goes wrong, the records that waited before still wait; they are
/// replaced only by the records of a backup that was opened and is not empty.
pub proof fn law_failed_restore_keeps_what_waits<R>(
    world: RestoreWorld<R>,
    waiting: Option<Seq<R>>,
    shown: PanelView,
)
    ensures
        restore_run(world, waiting, shown).waiting == (if restore_run(
            world,
            waiting,
            shown,
        ).asked_keystore is Some && world.opened is Some && world.opened->0.len() > 0 {
            world.opened
        } else {
            waiting
        }),
{
}

/// If records were put aside, the panel asks to confirm just as many, and shows
/// neither error nor success.
pub proof fn law_confirmation_counts_the_records<R>(
    world: RestoreWorld<R>,
    waiting: Option<Seq<R>>,
    shown: PanelView,
)
    requires
        restore_run(world, waiting, shown).asked_keystore is Some,
        world.opened is Some,
        0 < world.opened->0.len() <= i32::MAX,
    ensures
        restore_run(world, waiting, shown).waiting == world.opened,
        restore_run(world, waiting, shown).shown.restore_count == world.opened->0.len(),
        restore_run(world, waiting, shown).shown.error.len() == 0,
        restore_run(world, waiting, shown).shown.success.len() == 0,
{
}

/// A user who dismisses the picker sees what they saw before, and what waited
/// still waits.
pub proof fn law_dismissing_changes_nothing<R>(
    world: RestoreWorld<R>,
    waiting: Option<Seq<R>>,
    shown: PanelView,
)
    requires
        world.hardware,
        world.passphrase.len() > 0,
        world.picked is Dismissed,
    ensures
        restore_run(world, waiting, shown).shown == shown,
        restore_run(world, waiting, shown).waiting == waiting,
        restore_run(world, waiting, shown).read_from is None,
{
}

/// Unless the user dismisses the picker, a restore ends with an error on the
/// panel or with the records of the backup put aside.
pub proof fn law_restore_is_never_silent<R>(
    world: RestoreWorld<R>,
    waiting: Option<Seq<R>>,
    shown: PanelView,
)
    requires
        !(world.picked is Dismissed),
    ensures
        restore_run(world, waiting, shown).shown.error.len() > 0 || (world.opened is Some
            && world.opened->0.len() > 0 && restore_run(world, waiting, shown).waiting
            == world.opened),
{
    reveal_strlit("Backup restore is only available on hardware.");
    reveal_strlit("Backup passphrase is required.");
    reveal_strlit("Could not choose a backup file.");
    reveal_strlit("Backup file is too large.");
    reveal_strlit("Could not read the selected backup.");
    reveal_strlit("Backup contains no passwords.");
    reveal_strlit("Backup could not be opened. Check the passphrase.");
}

/// The panel stays valid through a restore.
pub proof fn law_restore_keeps_panel_valid<R>(
    world: RestoreWorld<R>,
    waiting: Option<Seq<R>>,
    shown: PanelView,
)
    requires
        shown.valid(),
    ensures
        restore_run(world, waiting, shown).shown.valid(),
{
}

/// A restore goes ahead when nothing is wrong: on hardware and with a passphrase,
/// the file that the user chose is read, wherever it lies; what was read, up to
/// 4 MiB, goes to the keystore, whole; and the records that the keystore found
/// wait, all of them, in order, with the panel asking to confirm them.
pub proof fn law_restore_goes_ahead<R>(
    world: RestoreWorld<R>,
    waiting: Option<Seq<R>>,
    shown: PanelView,
    path: Seq<char>,
    location: StorageLocation,
)
    requires
        world.hardware,
        world.passphrase.len() > 0,
        world.picked == (PickOutcomeView::Chosen { path, location }),
    ensures
        ({
            let run = restore_run(world, waiting, shown);
            &&& run.read_from == Some((path, location))
            &&& world.read is Some && world.read->0.len() <= 4194304 ==> {
                &&& run.asked_keystore == world.read
                &&& world.opened is Some && world.opened->0.len() > 0 ==> {
                    &&& run.waiting == world.opened
                    &&& run.shown.error.len() == 0
                    &&& run.shown.success.len() == 0
                    &&& world.opened->0.len() <= 0x7fff_ffff ==> run.shown.restore_count
                        == world.opened->0.len()
                }
            }
        }),
{
}

/// The first thing that goes wrong is what the panel says, whatever it showed
/// before and whatever would have come later.
pub proof fn law_restore_tells_what_went_wrong<R>(
    world: RestoreWorld<R>,
    waiting: Option<Seq<R>>,
    shown: PanelView,
)
    ensures
        ({
            let panel = restore_run(world, waiting, shown).shown;
            let ready = world.hardware && world.passphrase.len() > 0;
            let chosen = ready && world.picked is Chosen;
            let sound = chosen && world.read is Some && world.read->0.len() <= 4194304;
            &&& !world.hardware ==> panel == panel::error_panel(
                "Backup restore is only available on hardware."@,
            )
            &&& world.hardware && world.passphrase.len() == 0 ==> panel == panel::error_panel(
                "Backup passphrase is required."@,
            )
            &&& ready && world.picked is Failed ==> panel == panel::error_panel(
                "Could not choose a backup file."@,
            )
            &&& chosen && world.read is None ==> panel == panel::error_panel(
                "Could not read the selected backup."@,
            )
            &&& chosen && world.read is Some && world.read->0.len() > 4194304 ==> panel
                == panel::error_panel("Backup file is too large."@)
            &&& sound && world.opened is None ==> panel == panel::error_panel(
                "Backup could not be opened. Check the passphrase."@,
            )
            &&& sound && world.opened is Some && world.opened->0.len() == 0 ==> panel
                == panel::error_panel("Backup contains no passwords."@)
        }),
{
}

/// A restore that goes on leaves the panel as it was.
pub proof fn law_going_on_leaves_the_panel(
    hardware: bool,
    passphrase: Seq<u8>,
    picked: PickOutcomeView,
    read: Option<Seq<u8>>,
    shown: PanelView,
)
    ensures
        restore_started(hardware, passphrase, shown).0 !is Stop ==> restore_started(
            hardware,
            passphrase,
            shown,
        ).1 == shown,
        restore_picked(picked, shown).0 !is Stop ==> restore_picked(picked, shown).1 == shown,
        restore_read(read, shown).0 !is Stop ==> restore_read(read, shown).1 == shown,
{
}

/// Each step asks for the one that follows it, and for no other: the file is
/// chosen, then read, then opened. The panel plays no part.
pub proof fn law_restore_steps_in_order(
    hardware: bool,
    passphrase: Seq<u8>,
    picked: PickOutcomeView,
    read: Option<Seq<u8>>,
    shown: PanelView,
)
    ensures
        hardware && passphrase.len() > 0 ==> restore_started(hardware, passphrase, shown).0
            is PickFile,
        !(hardware && passphrase.len() > 0) ==> restore_started(hardware, passphrase, shown).0
            is Stop,
        match picked {
            PickOutcomeView::Chosen { path, location } => restore_picked(picked, shown).0
                == (RestoreStepView::ReadFile { path, location }),
            _ => restore_picked(picked, shown).0 is Stop,
        },
        read is Some && read->0.len() <= 4194304 ==> restore_read(read, shown).0
            == (RestoreStepView::OpenBackup { backup: read->0 }),
        !(read is Some && read->0.len() <= 4194304) ==> restore_read(read, shown).0 is Stop,
{
}

/// The view of a step loses nothing.
pub proof fn law_restore_step_view_is_faithful(step: RestoreStep)
    ensures
        match step {
            RestoreStep::PickFile => step@ is PickFile,
            RestoreStep::ReadFile { path, location } => step@ == (RestoreStepView::ReadFile {
                path: path@,
                location,
            }),
            RestoreStep::OpenBackup { backup } => step@ == (RestoreStepView::OpenBackup {
                backup: backup@,
            }),
            RestoreStep::Stop => step@ is Stop,
        },
{
}

/// The view of what waits loses nothing.
pub proof fn law_pending_view_is_faithful<R>(pending: PendingRestore<R>)
    ensures
        match pending.records {
            Some(records) => pending@ == Some(records@),
            None => pending@ is None,
        },
{
}

/// Cancelling forgets whatever waited: records that wait afterwards come from a
/// later restore.
pub proof fn law_cancelled_records_are_gone<R>(
    waiting: Option<Seq<R>>,
    world: RestoreWorld<R>,
    shown: PanelView,
)
    ensures
        cancelled(waiting) is None,
        restore_run(world, cancelled(waiting), shown).waiting is Some ==> restore_run(
            world,
            cancelled(waiting),
            shown,
        ).waiting == world.opened,
{
}

} // verus!
