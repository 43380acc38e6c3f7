//! The launcher's state in memory: the settings and the ledger of installed
//! packages, and how the outcome of an operation changes them.
//!
//! The state in memory is the truth between operations; what is on disk is a
//! snapshot of it, written after each change.

use vstd::prelude::*;
use crate::catalog::{Localization, LocalizationView};
use crate::error::{LauncherError, LauncherErrorView};
use crate::metadata::{
    with_record,
    without_record,
    InstalledLocalization,
    InstalledMetadata,
    InstalledView,
};
use crate::settings::{AppSettings, SettingsView};
use crate::text::optional_view;

verus! {

/// The launcher's state.
#[derive(Debug)]
pub struct AppState {
    pub settings: AppSettings,
    /// The ledger, or nothing while none could be loaded.
    pub installed_metadata: Option<InstalledMetadata>,
}

/// The mathematical value of an [`AppState`].
pub struct AppStateView {
    pub settings: SettingsView,
    pub installed: Option<Seq<InstalledView>>,
}

/// The value of an optional ledger.
pub open spec fn ledger_view(ledger: Option<InstalledMetadata>) -> Option<Seq<InstalledView>> {
    match ledger {
        Some(metadata) => Some(metadata@),
        None => None,
    }
}

impl View for AppState {
    type V = AppStateView;

    open spec fn view(&self) -> AppStateView {
        AppStateView { settings: self.settings@, installed: ledger_view(self.installed_metadata) }
    }
}

/// The ledger after `localization` was installed from `source`: its entry
/// is written into the ledger, and a ledger is begun where there was none.
pub open spec fn after_install(
    installed: Option<Seq<InstalledView>>,
    localization: LocalizationView,
    source: Seq<char>,
) -> Seq<InstalledView> {
    let entry = InstalledView { id: localization.id, version: localization.version, source };
    match installed {
        Some(records) => with_record(records, entry),
        None => seq![entry],
    }
}

/// Refuses to touch the game's files while the game is running.
pub fn ensure_game_not_running(running: bool) -> (outcome: Result<(), LauncherError>)
    ensures
        running ==> (outcome matches Err(e) && e@ == LauncherErrorView::GameRunning),
        !running ==> outcome is Ok,
{
    if running {
        Err(LauncherError::GameRunning)
    } else {
        Ok(())
    }
}

impl AppState {
    /// The state at start: the settings that were loaded, or the default
    /// ones where loading failed; and the ledger, if one could be loaded.
    pub fn new(settings: Option<AppSettings>, ledger: Option<InstalledMetadata>) -> (state: Self)
        ensures
            state@.installed == ledger_view(ledger),
            state@.settings == match settings {
                Some(loaded) => loaded@,
                None => SettingsView {
                    sources: Seq::empty(),
                    selected_source: None,
                    game_directory: None,
                    language: None,
                },
            },
    {
        let settings = match settings {
            Some(loaded) => loaded,
            None => AppSettings::default(),
        };
        AppState { settings, installed_metadata: ledger }
    }

    /// The name of the selected source, from which packages are installed.
    pub fn selected_source(&self) -> (outcome: Result<String, LauncherError>)
        ensures
            match outcome {
                Ok(name) => self@.settings.selected_source == Some(name@),
                Err(e) => self@.settings.selected_source is None && e@
                    == LauncherErrorView::NoActiveSource,
            },
    {
        match &self.settings.selected_source {
            Some(name) => Ok(name.clone()),
            None => Err(LauncherError::NoActiveSource),
        }
    }

    /// Takes a new game directory, or none for the one that is detected.
    ///
    /// `valid` says whether a directory that is given is a game directory;
    /// `loaded` is the ledger found in the directory. The state changes only
    /// if the directory is valid and the ledger was loaded: then it holds
    /// the directory and the ledger.
    pub fn update_game_directory(
        &mut self,
        game_directory: Option<String>,
        valid: bool,
        loaded: Result<InstalledMetadata, LauncherError>,
    ) -> (outcome: Result<(), LauncherError>)
        ensures
            game_directory is Some && !valid ==> (outcome matches Err(e) && e@
                == LauncherErrorView::InvalidGameDirectory),
            !(game_directory is Some && !valid) ==> match loaded {
                Ok(ledger) => outcome is Ok,
                Err(reason) => outcome matches Err(e) && e@ == reason@,
            },
            outcome is Err ==> final(self)@ == old(self)@,
            outcome is Ok ==> final(self)@ == (AppStateView {
                settings: SettingsView {
                    game_directory: optional_view(game_directory),
                    ..old(self)@.settings
                },
                installed: Some(loaded->Ok_0@),
            }),
    {
        if game_directory.is_some() && !valid {
            return Err(LauncherError::InvalidGameDirectory);
        }
        match loaded {
            Ok(ledger) => {
                self.installed_metadata = Some(ledger);
                self.settings.game_directory = game_directory;
                Ok(())
            },
            Err(reason) => Err(reason),
        }
    }

    /// Takes the ledger that was loaded from the game directory; the state
    /// stays as it is where loading failed.
    pub fn load_installed_metadata(&mut self, loaded: Result<InstalledMetadata, LauncherError>) -> (outcome:
        Result<(), LauncherError>)
        ensures
            final(self)@.settings == old(self)@.settings,
            match loaded {
                Ok(ledger) => outcome is Ok && final(self)@.installed == Some(ledger@),
                Err(reason) => outcome matches Err(e) && e@ == reason@ && final(self)@.installed
                    == old(self)@.installed,
            },
    {
        match loaded {
            Ok(ledger) => {
                self.installed_metadata = Some(ledger);
                Ok(())
            },
            Err(reason) => Err(reason),
        }
    }

    /// The entries to write to the game directory, in ledger order; nothing
    /// where no ledger is loaded, and then nothing is written.
    pub fn save_installed_metadata(&self) -> (entries: Option<Vec<InstalledLocalization>>)
        ensures
            match entries {
                Some(records) => self@.installed == Some(
                    crate::metadata::records_view(records@),
                ),
                None => self@.installed is None,
            },
    {
        match &self.installed_metadata {
            Some(ledger) => Some(ledger.records()),
            None => None,
        }
    }

    /// Records that `localization` was installed from `source`.
    pub fn record_install(&mut self, localization: &Localization, source: &str)
        ensures
            final(self)@.settings == old(self)@.settings,
            final(self)@.installed == Some(
                after_install(old(self)@.installed, localization@, source@),
            ),
    {
        let ledger = match self.installed_metadata.take() {
            Some(mut ledger) => {
                ledger.insert(InstalledLocalization::of(localization, source));
                ledger
            },
            None => InstalledMetadata::with_localization(localization, source),
        };
        self.installed_metadata = Some(ledger);
    }

    /// Records that the package `id` was removed. Without a ledger there is
    /// nothing to strike it from: the state stays as it is and the failure
    /// says so.
    pub fn record_uninstall(&mut self, id: &str) -> (outcome: Result<(), LauncherError>)
        ensures
            final(self)@.settings == old(self)@.settings,
            match old(self)@.installed {
                Some(records) => outcome is Ok && final(self)@.installed == Some(
                    without_record(records, id@),
                ),
                None => outcome matches Err(e) && e@ == LauncherErrorView::NoInstalledMetadata
                    && final(self)@.installed is None,
            },
    {
        match self.installed_metadata.take() {
            Some(mut ledger) => {
                ledger.remove(id);
                self.installed_metadata = Some(ledger);
                Ok(())
            },
            None => Err(LauncherError::NoInstalledMetadata),
        }
    }

    /// Takes the outcome of installing `localization` from `source`: a
    /// success is recorded in the ledger, a failure is handed on and leaves
    /// the state as it was.
    pub fn finish_install(
        &mut self,
        outcome: Result<(), LauncherError>,
        localization: &Localization,
        source: &str,
    ) -> (result: Result<(), LauncherError>)
        ensures
            match outcome {
                Ok(_) => {
                    &&& result is Ok
                    &&& final(self)@.settings == old(self)@.settings
                    &&& final(self)@.installed == Some(
                        after_install(old(self)@.installed, localization@, source@),
                    )
                },
                Err(reason) => {
                    &&& result matches Err(e) && e@ == reason@
                    &&& final(self)@ == old(self)@
                },
            },
    {
        match outcome {
            Ok(()) => {
                self.record_install(localization, source);
                Ok(())
            },
            Err(reason) => Err(reason),
        }
    }

    /// Takes the outcome of removing the package `id`: a success is struck
    /// from the ledger, which fails where no ledger is loaded; a failure is
    /// handed on. Whatever fails leaves the state as it was.
    pub fn finish_uninstall(&mut self, outcome: Result<(), LauncherError>, id: &str) -> (result:
        Result<(), LauncherError>)
        ensures
            match outcome {
                Ok(_) => match old(self)@.installed {
                    Some(records) => result is Ok && final(self)@.settings == old(self)@.settings
                        && final(self)@.installed == Some(without_record(records, id@)),
                    None => result matches Err(e) && e@ == LauncherErrorView::NoInstalledMetadata
                        && final(self)@ == old(self)@,
                },
                Err(reason) => {
                    &&& result matches Err(e) && e@ == reason@
                    &&& final(self)@ == old(self)@
                },
            },
    {
        match outcome {
            Ok(()) => self.record_uninstall(id),
            Err(reason) => Err(reason),
        }
    }
}

} // verus!
