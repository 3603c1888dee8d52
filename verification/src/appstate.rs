//! Interface-facing application state.
//!
//! The panel state mirrors the saved configuration: folders, backup type
//! and extension list, together with the modal bookkeeping of the panels.
//! The rules that guard edits — which extension strings may join the list,
//! when a save request may proceed, what a window-close request does — are
//! plain functions here; the rendering and the file I/O around them live
//! outside.

use vstd::prelude::*;
use vstd::string::StrSliceExecFns;
use vstd::string::StringExecFns;

use crate::supervisor::BackupStatus;

verus! {

/// The panels of the interface.
#[derive(Default, PartialEq, Debug)]
pub enum PanelType {
    /// Folder and filter configuration.
    #[default]
    Backup,
    /// Usage statistics.
    Analytics,
    /// Help and settings.
    Info,
}

/// Which operation an error message came from.
#[derive(Clone, PartialEq, Eq, Structural, Debug)]
pub enum ErrorSource {
    /// Validating a new extension entry.
    FileTypeValidation,
    /// Saving the configuration.
    SaveOperation,
}

/// Which kind of informational message is being shown.
#[derive(Clone, PartialEq, Eq, Structural, Debug)]
pub enum InfoSource {
    /// An operation succeeded.
    Success,
    /// The user must decide before the operation continues.
    Attention,
}

/// Result of loading the configuration store.
#[derive(Clone, Debug)]
pub enum Configuration {
    /// A default or incomplete configuration exists; the detector cannot
    /// start from it.
    Created,
    /// A complete configuration: source folder, destination folder, backup
    /// type, extension list, and whether the interface opens at startup.
    Build(String, String, String, Vec<String>, bool),
    /// The store could not be read or written.
    Error,
}

/// Classifies freshly loaded configuration fields: only when the two
/// folders and the backup type are all non-empty is the configuration
/// complete.
pub fn configuration_from_fields(
    source_folder: String,
    destination_folder: String,
    backup_type: String,
    file_types: Vec<String>,
    display: bool,
) -> (config: Configuration)
    ensures
        (source_folder@.len() == 0 || destination_folder@.len() == 0 || backup_type@.len() == 0)
            ==> config is Created,
        (source_folder@.len() > 0 && destination_folder@.len() > 0 && backup_type@.len() > 0)
            ==> (config matches Configuration::Build(s, d, b, f, disp) && s@ == source_folder@
                && d@ == destination_folder@ && b@ == backup_type@ && f == file_types
                && disp == display),
{
    if source_folder.as_str().is_empty() || destination_folder.as_str().is_empty()
        || backup_type.as_str().is_empty() {
        Configuration::Created
    } else {
        Configuration::Build(source_folder, destination_folder, backup_type, file_types, display)
    }
}

/// Greatest number of extension entries the filter may hold.
pub const MAX_FILE_TYPES: usize = 10;

/// Greatest length of one extension entry, the leading dot included.
pub const MAX_EXTENSION_LENGTH: usize = 6;

/// Why a new extension entry was rejected.
#[derive(Clone, Copy, PartialEq, Eq, Structural, Debug)]
pub enum FileTypeError {
    /// The entry is empty.
    Empty,
    /// The entry does not start with a dot.
    MissingDot,
    /// The entry is longer than [`MAX_EXTENSION_LENGTH`] characters.
    TooLong,
    /// The entry holds a character that is not ASCII alphanumeric, `-` or
    /// `_` after the dot.
    InvalidCharacters,
    /// The list already holds [`MAX_FILE_TYPES`] entries.
    TooMany,
    /// The entry is already in the list.
    AlreadyPresent,
}

/// Whether `c` may appear in an extension entry after the leading dot.
pub open spec fn spec_allowed_type_char(c: char) -> bool {
    ||| 48 <= (c as u32) && (c as u32) <= 57
    ||| 65 <= (c as u32) && (c as u32) <= 90
    ||| 97 <= (c as u32) && (c as u32) <= 122
    ||| (c as u32) == 45
    ||| (c as u32) == 95
}

/// The first rule a candidate extension entry breaks, if any, against the
/// entries already in the list.
pub open spec fn spec_file_type_issue(
    new: Seq<char>,
    existing: Seq<Seq<char>>,
) -> Option<FileTypeError> {
    if new.len() == 0 {
        Some(FileTypeError::Empty)
    } else if new[0] != '.' {
        Some(FileTypeError::MissingDot)
    } else if new.len() > MAX_EXTENSION_LENGTH as int {
        Some(FileTypeError::TooLong)
    } else if exists|i: int| 1 <= i < new.len() && !spec_allowed_type_char(new[i]) {
        Some(FileTypeError::InvalidCharacters)
    } else if existing.len() >= MAX_FILE_TYPES as int {
        Some(FileTypeError::TooMany)
    } else if existing.contains(new) {
        Some(FileTypeError::AlreadyPresent)
    } else {
        None
    }
}

/// The message shown for a rejected extension entry.
pub open spec fn spec_file_type_error_text(e: FileTypeError) -> Seq<char> {
    match e {
        FileTypeError::Empty => "File type cannot be empty."@,
        FileTypeError::MissingDot => "File type must start with a dot (e.g., .txt, .png)."@,
        FileTypeError::TooLong => "File type must be at most 6 characters long, including the dot."@,
        FileTypeError::InvalidCharacters => "File type contains invalid characters. Only alphanumeric characters, hyphens (-), and underscores (_) are allowed."@,
        FileTypeError::TooMany => "You can only add up to 10 file types."@,
        FileTypeError::AlreadyPresent => "File type is already in the list."@,
    }
}

impl FileTypeError {
    /// The message shown to the user for this rejection.
    pub fn message(&self) -> (text: String)
        ensures
            text@ == spec_file_type_error_text(*self),
    {
        match self {
            FileTypeError::Empty => String::from_str("File type cannot be empty."),
            FileTypeError::MissingDot => String::from_str(
                "File type must start with a dot (e.g., .txt, .png).",
            ),
            FileTypeError::TooLong => String::from_str(
                "File type must be at most 6 characters long, including the dot.",
            ),
            FileTypeError::InvalidCharacters => String::from_str(
                "File type contains invalid characters. Only alphanumeric characters, hyphens (-), and underscores (_) are allowed.",
            ),
            FileTypeError::TooMany => String::from_str("You can only add up to 10 file types."),
            FileTypeError::AlreadyPresent => String::from_str("File type is already in the list."),
        }
    }
}

/// Checks a candidate extension entry against the rules and the entries
/// already present, reporting the first rule it breaks.
pub fn validate_new_file_type(
    file_types: &Vec<String>,
    new_file_type: &String,
) -> (issue: Option<FileTypeError>)
    ensures
        issue == spec_file_type_issue(new_file_type@, file_types@.map_values(|s: String| s@)),
{
    let ghost new = new_file_type@;
    let ghost existing = file_types@.map_values(|s: String| s@);
    let s = new_file_type.as_str();
    let n = s.unicode_len();
    if n == 0 {
        return Some(FileTypeError::Empty);
    }
    if s.get_char(0) != '.' {
        return Some(FileTypeError::MissingDot);
    }
    if n > MAX_EXTENSION_LENGTH {
        return Some(FileTypeError::TooLong);
    }
    let mut i: usize = 1;
    while i < n
        invariant
            1 <= i <= n,
            n == new.len(),
            new == new_file_type@,
            s@ == new,
            new[0] == '.',
            new.len() <= MAX_EXTENSION_LENGTH as int,
            forall|j: int| 1 <= j < i ==> spec_allowed_type_char(new[j]),
        decreases n - i,
    {
        let c = s.get_char(i);
        let u = c as u32;
        if !((u >= 48 && u <= 57) || (u >= 65 && u <= 90) || (u >= 97 && u <= 122) || u == 45
            || u == 95) {
            assert(!spec_allowed_type_char(new[i as int]));
            return Some(FileTypeError::InvalidCharacters);
        }
        i = i + 1;
    }
    assert(!(exists|j: int| 1 <= j < new.len() && !spec_allowed_type_char(new[j])));
    if file_types.len() >= MAX_FILE_TYPES {
        return Some(FileTypeError::TooMany);
    }
    let mut i: usize = 0;
    while i < file_types.len()
        invariant
            0 <= i <= file_types@.len(),
            new == new_file_type@,
            existing == file_types@.map_values(|s: String| s@),
            new.len() > 0,
            new[0] == '.',
            new.len() <= MAX_EXTENSION_LENGTH as int,
            forall|j: int| 1 <= j < new.len() ==> spec_allowed_type_char(new[j]),
            existing.len() < MAX_FILE_TYPES as int,
            forall|j: int| 0 <= j < i ==> existing[j] != new,
        decreases file_types@.len() - i,
    {
        if file_types[i] == *new_file_type {
            assert(existing[i as int] == new);
            assert(existing.contains(new));
            return Some(FileTypeError::AlreadyPresent);
        }
        i = i + 1;
    }
    assert(!existing.contains(new));
    None
}

/// When a save request may proceed, given the two folder paths and what a
/// directory listing of each found (`None` when the folder could not be
/// read).
#[derive(Clone, Copy, PartialEq, Eq, Structural, Debug)]
pub enum SaveCheck {
    /// A folder path is empty.
    EmptyPath,
    /// Source and destination are the same folder.
    SamePath,
    /// The source folder could not be read.
    SourceUnreadable,
    /// The source folder holds nothing to back up.
    SourceEmpty,
    /// The destination already holds files; the user must confirm.
    DestinationNotEmpty,
    /// The configuration may be saved.
    Ready,
}

/// The checks run before the configuration is saved, in order: non-empty
/// paths, distinct folders, a readable and non-empty source, and a warning
/// when the destination already holds entries.
pub fn validate_save_request(
    source_folder: &String,
    destination_folder: &String,
    source_entry_count: Option<u64>,
    destination_entry_count: Option<u64>,
) -> (check: SaveCheck)
    ensures
        check == (if source_folder@.len() == 0 || destination_folder@.len() == 0 {
            SaveCheck::EmptyPath
        } else if source_folder@ == destination_folder@ {
            SaveCheck::SamePath
        } else if source_entry_count is None {
            SaveCheck::SourceUnreadable
        } else if source_entry_count == Some(0u64) {
            SaveCheck::SourceEmpty
        } else if destination_entry_count matches Some(c) && c > 0 {
            SaveCheck::DestinationNotEmpty
        } else {
            SaveCheck::Ready
        }),
{
    if source_folder.as_str().is_empty() || destination_folder.as_str().is_empty() {
        return SaveCheck::EmptyPath;
    }
    if source_folder.eq(destination_folder) {
        return SaveCheck::SamePath;
    }
    match source_entry_count {
        None => SaveCheck::SourceUnreadable,
        Some(sc) => {
            if sc == 0 {
                SaveCheck::SourceEmpty
            } else {
                match destination_entry_count {
                    Some(dc) => if dc > 0 {
                        SaveCheck::DestinationNotEmpty
                    } else {
                        SaveCheck::Ready
                    },
                    None => SaveCheck::Ready,
                }
            }
        },
    }
}

/// The configuration snapshot that is persisted.
pub struct ConfigToSave {
    /// Folder the files are read from.
    pub source_folder: String,
    /// Folder the files are written to.
    pub destination_folder: String,
    /// `"total"` or `"custom"`.
    pub backup_type: String,
    /// Extension filter for a custom backup.
    pub file_types: Vec<String>,
    /// Whether the interface opens at startup.
    pub display: bool,
}

fn clone_string_vec(v: &Vec<String>) -> (out: Vec<String>)
    ensures
        out.deep_view() == v.deep_view(),
{
    let mut out: Vec<String> = Vec::new();
    let mut i: usize = 0;
    while i < v.len()
        invariant
            0 <= i <= v@.len(),
            out@.len() == i,
            forall|j: int| 0 <= j < i ==> out@[j]@ == v@[j]@,
        decreases v@.len() - i,
    {
        let cloned_entry = v[i].clone();
        assert(cloned_entry@ == v@[i as int]@);
        out.push(cloned_entry);
        i = i + 1;
    }
    proof {
        assert(out.deep_view().len() == v.deep_view().len());
        assert forall|j: int| 0 <= j < v@.len() implies out.deep_view()[j] == v.deep_view()[j] by {
            assert(out.deep_view()[j] == out@[j]@);
            assert(v.deep_view()[j] == v@[j]@);
        }
        assert(out.deep_view() =~= v.deep_view());
    }
    out
}

/// Application state behind the interface, mirroring the saved
/// configuration plus the modal bookkeeping of the panels.
pub struct AppState {
    /// Which panel is shown.
    pub current_panel: PanelType,
    /// Folder the files are read from.
    pub source_folder: String,
    /// Folder the files are written to.
    pub destination_folder: String,
    /// `"total"` or `"custom"`.
    pub backup_type: String,
    /// Extension filter for a custom backup.
    pub file_types: Vec<String>,
    /// The extension entry being typed.
    pub new_file_type: String,
    /// Informational message, if one is shown.
    pub info_message: Option<String>,
    /// What kind of informational message it is.
    pub info_source: Option<InfoSource>,
    /// Whether the informational modal is open.
    pub show_info_modal: bool,
    /// Error message, if one is shown.
    pub error_message: Option<String>,
    /// What operation the error came from.
    pub error_source: Option<ErrorSource>,
    /// Fatal message shown before the program leaves.
    pub exit_message: Option<String>,
    /// Whether the error modal is open.
    pub show_error_modal: bool,
    /// Whether the close-confirmation modal is open.
    pub show_confirmation_modal: bool,
    /// Whether the interface is visible.
    pub display: bool,
    /// What the backup service is doing.
    pub backup_status: BackupStatus,
    /// Whether the program starts with the system.
    pub auto_start_enabled: bool,
    /// Whether the interface opens at startup.
    pub run_gui: bool,
}

impl AppState {
    /// Builds the state from a loaded configuration, or from defaults when
    /// none is usable.  `auto_start_enabled` and `run_gui` are what the
    /// surrounding system reported.
    pub fn new_from_config(
        config: Configuration,
        auto_start_enabled: bool,
        run_gui: bool,
    ) -> (state: Self)
        ensures
            state.current_panel == PanelType::Backup,
            state.new_file_type@.len() == 0,
            state.info_message is None,
            state.info_source is None,
            state.show_info_modal == false,
            state.error_message is None,
            state.error_source is None,
            state.exit_message is None,
            state.show_error_modal == false,
            state.show_confirmation_modal == false,
            state.display == true,
            state.backup_status == BackupStatus::NotStarted,
            state.auto_start_enabled == auto_start_enabled,
            state.run_gui == run_gui,
            (match config {
                Configuration::Build(s, d, b, f, _) => {
                    &&& state.source_folder@ == s@
                    &&& state.destination_folder@ == d@
                    &&& state.backup_type@ == (if b@.len() == 0 {
                        "total"@
                    } else {
                        b@
                    })
                    &&& state.file_types == f
                },
                _ => {
                    &&& state.source_folder@.len() == 0
                    &&& state.destination_folder@.len() == 0
                    &&& state.backup_type@ == "total"@
                    &&& state.file_types@.len() == 0
                },
            }),
    {
        match config {
            Configuration::Build(source_folder, destination_folder, backup_type, file_types, _) => {
                AppState {
                    current_panel: PanelType::Backup,
                    source_folder,
                    destination_folder,
                    backup_type: if backup_type.as_str().is_empty() {
                        String::from_str("total")
                    } else {
                        backup_type
                    },
                    file_types,
                    new_file_type: String::new(),
                    info_message: None,
                    info_source: None,
                    show_info_modal: false,
                    error_message: None,
                    error_source: None,
                    exit_message: None,
                    show_error_modal: false,
                    show_confirmation_modal: false,
                    display: true,
                    backup_status: BackupStatus::NotStarted,
                    auto_start_enabled,
                    run_gui,
                }
            },
            _ => {
                AppState {
                    current_panel: PanelType::Backup,
                    source_folder: String::new(),
                    destination_folder: String::new(),
                    backup_type: String::from_str("total"),
                    file_types: Vec::new(),
                    new_file_type: String::new(),
                    info_message: None,
                    info_source: None,
                    show_info_modal: false,
                    error_message: None,
                    error_source: None,
                    exit_message: None,
                    show_error_modal: false,
                    show_confirmation_modal: false,
                    display: true,
                    backup_status: BackupStatus::NotStarted,
                    auto_start_enabled,
                    run_gui,
                }
            },
        }
    }

    /// Tries to add the typed extension entry to the filter list: on
    /// success the entry joins the list and the input clears; on rejection
    /// the matching message goes to the error modal and nothing else
    /// changes.
    pub fn add_file_type(&mut self)
        ensures
            (match spec_file_type_issue(
                old(self).new_file_type@,
                old(self).file_types@.map_values(|s: String| s@),
            ) {
                Some(err) => {
                    &&& final(self).file_types.deep_view() == old(self).file_types.deep_view()
                    &&& final(self).new_file_type@ == old(self).new_file_type@
                    &&& final(self).error_message matches Some(m) && m@ == spec_file_type_error_text(
                        err,
                    )
                    &&& final(self).error_source == Some(ErrorSource::FileTypeValidation)
                    &&& final(self).show_error_modal == true
                },
                None => {
                    &&& final(self).file_types.deep_view() == old(self).file_types.deep_view().push(
                        old(self).new_file_type@,
                    )
                    &&& final(self).new_file_type@.len() == 0
                    &&& final(self).error_message is None
                    &&& final(self).error_source is None
                    &&& final(self).show_error_modal == false
                },
            }),
            final(self).current_panel == old(self).current_panel,
            final(self).source_folder == old(self).source_folder,
            final(self).destination_folder == old(self).destination_folder,
            final(self).backup_type == old(self).backup_type,
            final(self).info_message == old(self).info_message,
            final(self).info_source == old(self).info_source,
            final(self).show_info_modal == old(self).show_info_modal,
            final(self).exit_message == old(self).exit_message,
            final(self).show_confirmation_modal == old(self).show_confirmation_modal,
            final(self).display == old(self).display,
            final(self).backup_status == old(self).backup_status,
            final(self).auto_start_enabled == old(self).auto_start_enabled,
            final(self).run_gui == old(self).run_gui,
    {
        match validate_new_file_type(&self.file_types, &self.new_file_type) {
            Some(err) => {
                self.error_message = Some(err.message());
                self.error_source = Some(ErrorSource::FileTypeValidation);
                self.show_error_modal = true;
            },
            None => {
                let ghost before = self.file_types.deep_view();
                self.file_types.push(self.new_file_type.clone());
                assert(self.file_types.deep_view() =~= before.push(old(self).new_file_type@));
                self.new_file_type = String::new();
                self.error_message = None;
                self.error_source = None;
                self.show_error_modal = false;
            },
        }
    }

    /// Builds the snapshot that is persisted: a total backup clears the
    /// extension list first, and the startup flag is taken from `run_gui`.
    pub fn prepare_save(&mut self) -> (config: ConfigToSave)
        ensures
            final(self).file_types.deep_view() == (if old(self).backup_type@ == "total"@ {
                Seq::<Seq<char>>::empty()
            } else {
                old(self).file_types.deep_view()
            }),
            config.source_folder@ == old(self).source_folder@,
            config.destination_folder@ == old(self).destination_folder@,
            config.backup_type@ == old(self).backup_type@,
            config.file_types.deep_view() == final(self).file_types.deep_view(),
            config.display == old(self).run_gui,
            final(self).current_panel == old(self).current_panel,
            final(self).source_folder == old(self).source_folder,
            final(self).destination_folder == old(self).destination_folder,
            final(self).backup_type == old(self).backup_type,
            final(self).new_file_type == old(self).new_file_type,
            final(self).info_message == old(self).info_message,
            final(self).info_source == old(self).info_source,
            final(self).show_info_modal == old(self).show_info_modal,
            final(self).error_message == old(self).error_message,
            final(self).error_source == old(self).error_source,
            final(self).exit_message == old(self).exit_message,
            final(self).show_error_modal == old(self).show_error_modal,
            final(self).show_confirmation_modal == old(self).show_confirmation_modal,
            final(self).display == old(self).display,
            final(self).backup_status == old(self).backup_status,
            final(self).auto_start_enabled == old(self).auto_start_enabled,
            final(self).run_gui == old(self).run_gui,
    {
        let total = String::from_str("total");
        if self.backup_type == total {
            self.file_types.clear();
            assert(self.file_types.deep_view() =~= Seq::<Seq<char>>::empty());
        }
        ConfigToSave {
            source_folder: self.source_folder.clone(),
            destination_folder: self.destination_folder.clone(),
            backup_type: self.backup_type.clone(),
            file_types: clone_string_vec(&self.file_types),
            display: self.run_gui,
        }
    }

    /// Decides what a window-close request does: a hidden interface closes
    /// at once; a visible one opens the confirmation modal and stays.
    pub fn on_close_request(&mut self) -> (close_now: bool)
        ensures
            close_now == !old(self).display,
            final(self).show_confirmation_modal == (old(self).show_confirmation_modal || old(
                self,
            ).display),
            final(self).current_panel == old(self).current_panel,
            final(self).source_folder == old(self).source_folder,
            final(self).destination_folder == old(self).destination_folder,
            final(self).backup_type == old(self).backup_type,
            final(self).file_types == old(self).file_types,
            final(self).new_file_type == old(self).new_file_type,
            final(self).info_message == old(self).info_message,
            final(self).info_source == old(self).info_source,
            final(self).show_info_modal == old(self).show_info_modal,
            final(self).error_message == old(self).error_message,
            final(self).error_source == old(self).error_source,
            final(self).exit_message == old(self).exit_message,
            final(self).show_error_modal == old(self).show_error_modal,
            final(self).display == old(self).display,
            final(self).backup_status == old(self).backup_status,
            final(self).auto_start_enabled == old(self).auto_start_enabled,
            final(self).run_gui == old(self).run_gui,
    {
        if !self.display {
            true
        } else {
            if !self.show_confirmation_modal {
                self.show_confirmation_modal = true;
            }
            false
        }
    }
}

/// The confirmation prompt shown before a backup starts; its rendering
/// lives outside the library.
pub struct ConfirmationApp;

impl ConfirmationApp {
    /// Creates the prompt state.
    pub fn new() -> (app: Self)
        ensures
            true,
    {
        ConfirmationApp
    }
}

} // verus!
