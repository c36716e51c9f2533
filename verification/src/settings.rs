//! The settings of a session, and where they are kept.
//!
//! The caller reads and writes the file; what a read found is judged here.

use crate::commands::{Settings, SettingsView};
use crate::error::{fault_failure, io_failure, CommandError, CommandErrorView, Fault};
use vstd::prelude::*;

verus! {

/// The settings of a session that has none stored: the dark theme, stealth
/// with the printer's profile, blocking and notifications on, and no
/// interface named.
pub open spec fn default_settings_view() -> SettingsView {
    SettingsView {
        theme: "dark"@,
        stealth_enabled: true,
        device_profile: "hp_printer"@,
        blocking_enabled: true,
        notifications_enabled: true,
        network_interface: None,
    }
}

/// The settings of a session that has none stored.
pub fn default_settings() -> (r: Settings)
    ensures
        r@ == default_settings_view(),
{
    Settings {
        theme: "dark".to_owned(),
        stealth_enabled: true,
        device_profile: "hp_printer".to_owned(),
        blocking_enabled: true,
        notifications_enabled: true,
        network_interface: None,
    }
}

/// What was found where the settings are kept.
#[derive(Debug, Clone, PartialEq, Eq)]
pub enum SettingsFile {
    /// There is no file.
    Absent,
    /// There is a file, and it could not be read; with what the system said.
    Unreadable(String),
    /// The file was read and does not hold settings; with what the parser
    /// said.
    Malformed(String),
    /// The settings that the file holds.
    Stored(Settings),
}

/// What was found where the settings are kept, with texts as plain
/// sequences.
pub enum SettingsFileView {
    Absent,
    Unreadable(Seq<char>),
    Malformed(Seq<char>),
    Stored(SettingsView),
}

impl View for SettingsFile {
    type V = SettingsFileView;

    open spec fn view(&self) -> SettingsFileView {
        match self {
            SettingsFile::Absent => SettingsFileView::Absent,
            SettingsFile::Unreadable(detail) => SettingsFileView::Unreadable(detail@),
            SettingsFile::Malformed(detail) => SettingsFileView::Malformed(detail@),
            SettingsFile::Stored(settings) => SettingsFileView::Stored(settings@),
        }
    }
}

/// The settings that a session works with, given what was found where they
/// are kept: those stored, the defaults where there is no file, and a
/// failure where there is a file that cannot be read or understood.
pub open spec fn loaded(file: SettingsFileView) -> Result<SettingsView, CommandErrorView> {
    match file {
        SettingsFileView::Absent => Ok(default_settings_view()),
        SettingsFileView::Unreadable(detail) => Err(fault_failure(Fault::ReadSettings, detail)),
        SettingsFileView::Malformed(detail) => Err(fault_failure(Fault::ParseSettings, detail)),
        SettingsFileView::Stored(settings) => Ok(settings),
    }
}

/// The view of settings or of the failure to load them.
pub open spec fn loaded_view(r: Result<Settings, CommandError>) -> Result<
    SettingsView,
    CommandErrorView,
> {
    match r {
        Ok(settings) => Ok(settings@),
        Err(e) => Err(e@),
    }
}

/// The settings that a session works with, given what was found where they
/// are kept. Nothing is written where there is no file.
pub fn load_settings(file: SettingsFile) -> (r: Result<Settings, CommandError>)
    ensures
        loaded_view(r) == loaded(file@),
{
    match file {
        SettingsFile::Absent => Ok(default_settings()),
        SettingsFile::Unreadable(detail) => Err(io_failure(Fault::ReadSettings, detail.as_str())),
        SettingsFile::Malformed(detail) => Err(io_failure(Fault::ParseSettings, detail.as_str())),
        SettingsFile::Stored(settings) => Ok(settings),
    }
}

/// What a later read finds where the settings are kept, once `settings`
/// were saved there: the same settings. This is taken for granted here, not
/// shown. Writing the settings as text and reading them back from the file is
/// the caller's work, and nothing in this library says that it gives back
/// what was written.
pub open spec fn saved(settings: SettingsView) -> SettingsFileView {
    SettingsFileView::Stored(settings)
}

/// What was found stored is loaded unchanged, and where nothing was found the
/// defaults are loaded. The way through the file is not part of this: see
/// `saved`.
pub proof fn lemma_settings_loaded_as_saved(settings: SettingsView)
    ensures
        loaded(saved(settings)) == Ok::<SettingsView, CommandErrorView>(settings),
        loaded(SettingsFileView::Absent) == Ok::<SettingsView, CommandErrorView>(
            default_settings_view(),
        ),
{
}

/// The directory below the project root in which the settings are kept.
pub fn get_config_path() -> (r: String)
    ensures
        r@ == "config"@,
{
    "config".to_owned()
}

/// The name of the file in that directory that holds the settings.
pub fn settings_file_name() -> (r: String)
    ensures
        r@ == "settings.json"@,
{
    "settings.json".to_owned()
}

/// The settings with `profile_id` entered as the device profile, and all
/// else as it was.
pub fn with_device_profile(settings: Settings, profile_id: &str) -> (r: Settings)
    ensures
        r@ == (SettingsView { device_profile: profile_id@, ..settings@ }),
{
    let mut changed = settings;
    changed.device_profile = profile_id.to_owned();
    changed
}

} // verus!
