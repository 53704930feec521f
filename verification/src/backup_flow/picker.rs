//! Choosing where a backup is written to or read from.

use vstd::prelude::*;

verus! {

/// Where the file picker found an entry.
#[derive(Clone, Copy, Debug, PartialEq, Eq, Structural)]
pub enum PickerLocation {
    Internal,
    Airlock,
    External,
}

/// Where the file system keeps a file.
#[derive(Clone, Copy, Debug, PartialEq, Eq, Structural)]
pub enum StorageLocation {
    User,
    Airlock,
    Usb,
}

/// The storage that a picker location stands for.
pub open spec fn storage_of(location: PickerLocation) -> StorageLocation {
    match location {
        PickerLocation::Internal => StorageLocation::User,
        PickerLocation::Airlock => StorageLocation::Airlock,
        PickerLocation::External => StorageLocation::Usb,
    }
}

/// The storage that a picker location stands for.
pub fn map_location(location: PickerLocation) -> (storage: StorageLocation)
    ensures
        storage == storage_of(location),
{
    match location {
        PickerLocation::Internal => StorageLocation::User,
        PickerLocation::Airlock => StorageLocation::Airlock,
        PickerLocation::External => StorageLocation::Usb,
    }
}

/// Different picker locations stand for different storages.
pub proof fn law_locations_stay_apart(a: PickerLocation, b: PickerLocation)
    requires
        storage_of(a) == storage_of(b),
    ensures
        a == b,
{
}

/// Locations that the picker offers.
#[derive(Clone, Copy, Debug, PartialEq, Eq, Structural)]
pub enum AllowedLocations {
    All,
}

/// How the file picker is opened.
pub struct PickerOptions {
    pub hidden_allowed: bool,
    pub dirs_allowed: bool,
    pub dir_selection_mode: bool,
    pub multiple_selection_mode: bool,
    pub locations: AllowedLocations,
    /// File name extensions on offer; all of them if `None`.
    pub extensions: Option<Vec<&'static str>>,
}

/// Options for choosing the directory that a backup is written to.
pub fn backup_dir_options() -> (options: PickerOptions)
    ensures
        !options.hidden_allowed,
        options.dirs_allowed,
        options.dir_selection_mode,
        !options.multiple_selection_mode,
        options.locations == AllowedLocations::All,
        options.extensions is None,
{
    PickerOptions {
        hidden_allowed: false,
        dirs_allowed: true,
        dir_selection_mode: true,
        multiple_selection_mode: false,
        locations: AllowedLocations::All,
        extensions: None,
    }
}

/// Options for choosing the backup file that is restored.
pub fn backup_file_options() -> (options: PickerOptions)
    ensures
        !options.hidden_allowed,
        options.dirs_allowed,
        !options.dir_selection_mode,
        !options.multiple_selection_mode,
        options.locations == AllowedLocations::All,
        options.extensions matches Some(extensions) && extensions@.len() == 2 && extensions@[0]@
            == "vbpw"@ && extensions@[1]@ == "json"@,
{
    PickerOptions {
        hidden_allowed: false,
        dirs_allowed: true,
        dir_selection_mode: false,
        multiple_selection_mode: false,
        locations: AllowedLocations::All,
        extensions: Some(vec!["vbpw", "json"]),
    }
}

/// An entry that the user selected.
pub struct PickedEntry {
    pub path: String,
    pub location: PickerLocation,
}

/// How picking went.
pub enum PickOutcome {
    /// The user chose an entry.
    Chosen { path: String, location: StorageLocation },
    /// The user chose nothing.
    Dismissed,
    /// The picker failed.
    Failed,
}

/// Mathematical counterpart of [`PickOutcome`].
pub enum PickOutcomeView {
    Chosen { path: Seq<char>, location: StorageLocation },
    Dismissed,
    Failed,
}

impl View for PickOutcome {
    type V = PickOutcomeView;

    open spec fn view(&self) -> PickOutcomeView {
        match *self {
            PickOutcome::Chosen { path, location } => PickOutcomeView::Chosen {
                path: path@,
                location,
            },
            PickOutcome::Dismissed => PickOutcomeView::Dismissed,
            PickOutcome::Failed => PickOutcomeView::Failed,
        }
    }
}

/// How picking went, by the picker's answer.
pub open spec fn answer_outcome<E>(answer: Result<Option<Vec<PickedEntry>>, E>) -> PickOutcomeView {
    match answer {
        Ok(Some(entries)) => if entries@.len() == 0 {
            PickOutcomeView::Dismissed
        } else {
            PickOutcomeView::Chosen {
                path: entries@[0].path@,
                location: storage_of(entries@[0].location),
            }
        },
        Ok(None) => PickOutcomeView::Dismissed,
        Err(_) => PickOutcomeView::Failed,
    }
}

/// Reads the picker's answer: the error is dropped, and of the selected entries,
/// if there are any, the first one counts.
pub fn picked<E>(answer: Result<Option<Vec<PickedEntry>>, E>) -> (outcome: PickOutcome)
    ensures
        outcome@ == match answer {
            Ok(Some(entries)) => if entries@.len() == 0 {
                PickOutcomeView::Dismissed
            } else {
                PickOutcomeView::Chosen {
                    path: entries@[0].path@,
                    location: storage_of(entries@[0].location),
                }
            },
            Ok(None) => PickOutcomeView::Dismissed,
            Err(_) => PickOutcomeView::Failed,
        },
        outcome@ == answer_outcome(answer),
{
    match answer {
        Ok(Some(entries)) => {
            if entries.len() == 0 {
                PickOutcome::Dismissed
            } else {
                PickOutcome::Chosen {
                    path: entries[0].path.clone(),
                    location: map_location(entries[0].location),
                }
            }
        },
        Ok(None) => PickOutcome::Dismissed,
        Err(_) => PickOutcome::Failed,
    }
}

/// Each location keeps its meaning: internal storage is the user's, the airlock is
/// the airlock, and external storage is the USB drive.
pub proof fn law_locations_keep_their_meaning(location: PickerLocation)
    ensures
        location is Internal <==> storage_of(location) is User,
        location is Airlock <==> storage_of(location) is Airlock,
        location is External <==> storage_of(location) is Usb,
{
}

/// An entry is chosen exactly if the picker gave one. It is the first one, with its
/// path as it stands, whatever follows it and wherever it lies.
pub proof fn law_first_entry_is_chosen<E>(entries: Vec<PickedEntry>)
    ensures
        answer_outcome(Ok::<Option<Vec<PickedEntry>>, E>(Some(entries))) is Chosen
            <==> entries@.len() > 0,
        answer_outcome(
            Ok::<Option<Vec<PickedEntry>>, E>(Some(entries)),
        ) matches PickOutcomeView::Chosen { path, location } ==> {
            &&& path == entries@.first().path@
            &&& location == storage_of(entries@.first().location)
        },
{
}

/// Picking fails exactly if the picker failed; with nothing selected it is
/// dismissed.
pub proof fn law_only_a_failed_picker_is_a_failure<E>(
    answer: Result<Option<Vec<PickedEntry>>, E>,
)
    ensures
        answer_outcome(answer) is Failed <==> answer is Err,
        answer_outcome(answer) is Dismissed <==> (match answer {
            Ok(Some(entries)) => entries@.len() == 0,
            Ok(None) => true,
            Err(_) => false,
        }),
{
}

/// The view of an outcome loses nothing.
pub proof fn law_pick_outcome_view_is_faithful(outcome: PickOutcome)
    ensures
        match outcome {
            PickOutcome::Chosen { path, location } => outcome@ == (PickOutcomeView::Chosen {
                path: path@,
                location,
            }),
            PickOutcome::Dismissed => outcome@ is Dismissed,
            PickOutcome::Failed => outcome@ is Failed,
        },
{
}

} // verus!
