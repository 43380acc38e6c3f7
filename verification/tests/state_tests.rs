use limbus_launcher::catalog::{Font, Format, Localization};
use limbus_launcher::error::LauncherError;
use limbus_launcher::metadata::{InstalledLocalization, InstalledMetadata};
use limbus_launcher::settings::{
    copy_optional, same_optional, AppSettings, LocalizationSource, SourceEntry,
};
use limbus_launcher::state::{ensure_game_not_running, AppState};

fn package(id: &str, version: &str) -> Localization {
    Localization {
        id: id.to_string(),
        version: version.to_string(),
        name: String::new(),
        flag: String::new(),
        icon: String::new(),
        description: String::new(),
        authors: Vec::new(),
        url: String::new(),
        font: Font { url: String::new(), hash: String::new() },
        format: Format::New,
    }
}

fn record(id: &str, version: &str) -> InstalledLocalization {
    InstalledLocalization { id: id.to_string(), version: version.to_string(), source: "s".to_string() }
}

fn source(key: &str, url: &str) -> SourceEntry {
    SourceEntry {
        key: key.to_string(),
        source: LocalizationSource { name: format!("{} source", key), url: url.to_string() },
    }
}

#[test]
fn default_settings_are_empty() {
    let settings = AppSettings::default();
    assert!(settings.sources.is_empty());
    assert!(settings.selected_source.is_none());
    assert!(settings.game_directory.is_none());
    assert!(settings.language.is_none());
}

#[test]
fn source_lookup_takes_the_first_entry_of_a_key() {
    let mut settings = AppSettings::default();
    settings.sources.push(source("main", "https://a.example/c.json"));
    settings.sources.push(source("mirror", "https://b.example/c.json"));
    settings.sources.push(source("main", "https://c.example/c.json"));
    assert_eq!(settings.source("main").unwrap().url, "https://a.example/c.json");
    assert_eq!(settings.source("mirror").unwrap().url, "https://b.example/c.json");
    assert_eq!(settings.source("mirror").unwrap().name, "mirror source");
    assert!(settings.source("other").is_none());
}

#[test]
fn active_source_needs_a_selection_that_is_configured() {
    let mut settings = AppSettings::default();
    assert!(matches!(settings.active_source(), Err(LauncherError::NoActiveSource)));
    settings.selected_source = Some("main".to_string());
    assert!(matches!(settings.active_source(), Err(LauncherError::NoActiveSource)));
    settings.sources.push(source("main", "https://a.example/c.json"));
    let active = settings.active_source().ok().unwrap();
    assert_eq!(active.name, "main");
    assert_eq!(active.url, "https://a.example/c.json");
}

#[test]
fn change_of_selection_is_noticed() {
    let mut a = AppSettings::default();
    let mut b = AppSettings::default();
    assert!(!a.selects_other_source(&b));
    a.selected_source = Some("main".to_string());
    assert!(a.selects_other_source(&b));
    assert!(b.selects_other_source(&a));
    b.selected_source = Some("main".to_string());
    assert!(!a.selects_other_source(&b));
    b.selected_source = Some("mirror".to_string());
    assert!(a.selects_other_source(&b));
    b.selected_source = Some("main".to_string());
    b.language = Some("en".to_string());
    assert!(!a.selects_other_source(&b));
}

#[test]
fn optional_strings_are_copied_and_compared_by_value() {
    assert_eq!(copy_optional(&Some("x".to_string())), Some("x".to_string()));
    assert_eq!(copy_optional(&None), None);
    assert!(same_optional(&None, &None));
    assert!(same_optional(&Some("a".to_string()), &Some("a".to_string())));
    assert!(!same_optional(&Some("a".to_string()), &Some("b".to_string())));
    assert!(!same_optional(&Some("a".to_string()), &None));
    assert!(!same_optional(&None, &Some(String::new())));
}

#[test]
fn cloned_settings_keep_every_field() {
    let mut settings = AppSettings::default();
    settings.sources.push(source("main", "https://a.example/c.json"));
    settings.selected_source = Some("main".to_string());
    settings.game_directory = Some("/games/limbus".to_string());
    settings.language = Some("en".to_string());
    let copy = settings.clone();
    assert_eq!(copy.sources.len(), 1);
    assert_eq!(copy.sources[0].key, "main");
    assert_eq!(copy.sources[0].source.url, "https://a.example/c.json");
    assert_eq!(copy.selected_source, Some("main".to_string()));
    assert_eq!(copy.game_directory, Some("/games/limbus".to_string()));
    assert_eq!(copy.language, Some("en".to_string()));
}

#[test]
fn running_game_blocks_changes() {
    assert!(ensure_game_not_running(false).is_ok());
    assert!(matches!(ensure_game_not_running(true), Err(LauncherError::GameRunning)));
}

#[test]
fn state_starts_from_defaults_when_nothing_was_loaded() {
    let state = AppState::new(None, None);
    assert!(state.settings.sources.is_empty());
    assert!(state.settings.selected_source.is_none());
    assert!(state.installed_metadata.is_none());
    assert!(state.save_installed_metadata().is_none());
}

#[test]
fn state_starts_from_what_was_loaded() {
    let mut settings = AppSettings::default();
    settings.language = Some("kr".to_string());
    let ledger = InstalledMetadata::from_records(vec![record("en", "1")]);
    let state = AppState::new(Some(settings), Some(ledger));
    assert_eq!(state.settings.language, Some("kr".to_string()));
    assert_eq!(state.installed_metadata.as_ref().unwrap().len(), 1);
}

#[test]
fn selected_source_is_needed_to_install() {
    let mut state = AppState::new(None, None);
    assert!(matches!(state.selected_source(), Err(LauncherError::NoActiveSource)));
    state.settings.selected_source = Some("main".to_string());
    assert_eq!(state.selected_source().ok().unwrap(), "main");
}

#[test]
fn invalid_game_directory_changes_nothing() {
    let mut state = AppState::new(None, Some(InstalledMetadata::from_records(vec![record("en", "1")])));
    state.settings.game_directory = Some("/old".to_string());
    let outcome = state.update_game_directory(
        Some("/not/a/game".to_string()),
        false,
        Ok(InstalledMetadata::new()),
    );
    assert!(matches!(outcome, Err(LauncherError::InvalidGameDirectory)));
    assert_eq!(state.settings.game_directory, Some("/old".to_string()));
    assert_eq!(state.installed_metadata.as_ref().unwrap().len(), 1);
}

#[test]
fn failed_ledger_load_changes_nothing() {
    let mut state = AppState::new(None, None);
    let outcome = state.update_game_directory(
        Some("/games/limbus".to_string()),
        true,
        Err(LauncherError::Filesystem("unreadable".to_string())),
    );
    assert!(matches!(outcome, Err(LauncherError::Filesystem(_))));
    assert!(state.settings.game_directory.is_none());
    assert!(state.installed_metadata.is_none());
}

#[test]
fn valid_game_directory_is_taken_with_its_ledger() {
    let mut state = AppState::new(None, None);
    state.settings.language = Some("en".to_string());
    let ledger = InstalledMetadata::from_records(vec![record("en", "1"), record("fr", "2")]);
    assert!(state.update_game_directory(Some("/games/limbus".to_string()), true, Ok(ledger)).is_ok());
    assert_eq!(state.settings.game_directory, Some("/games/limbus".to_string()));
    assert_eq!(state.settings.language, Some("en".to_string()));
    assert_eq!(state.installed_metadata.as_ref().unwrap().len(), 2);
}

#[test]
fn detected_game_directory_needs_no_validation() {
    let mut state = AppState::new(None, None);
    state.settings.game_directory = Some("/old".to_string());
    assert!(state.update_game_directory(None, false, Ok(InstalledMetadata::new())).is_ok());
    assert!(state.settings.game_directory.is_none());
    assert_eq!(state.installed_metadata.as_ref().unwrap().len(), 0);
}

#[test]
fn loaded_ledger_replaces_the_one_in_memory() {
    let mut state = AppState::new(None, Some(InstalledMetadata::from_records(vec![record("en", "1")])));
    assert!(state
        .load_installed_metadata(Err(LauncherError::Filesystem("gone".to_string())))
        .is_err());
    assert_eq!(state.installed_metadata.as_ref().unwrap().len(), 1);
    let fresh = InstalledMetadata::from_records(vec![record("a", "1"), record("b", "1")]);
    assert!(state.load_installed_metadata(Ok(fresh)).is_ok());
    assert_eq!(state.installed_metadata.as_ref().unwrap().len(), 2);
}

#[test]
fn saved_entries_are_the_ledger_in_order() {
    let state = AppState::new(
        None,
        Some(InstalledMetadata::from_records(vec![record("b", "1"), record("a", "2")])),
    );
    let entries = state.save_installed_metadata().unwrap();
    assert_eq!(entries.len(), 2);
    assert_eq!(entries[0].id, "b");
    assert_eq!(entries[1].id, "a");
    assert_eq!(entries[1].version, "2");
}

#[test]
fn first_install_begins_a_ledger() {
    let mut state = AppState::new(None, None);
    state.record_install(&package("en", "3"), "main");
    let ledger = state.installed_metadata.as_ref().unwrap();
    assert_eq!(ledger.len(), 1);
    let entry = ledger.get("en").unwrap();
    assert_eq!(entry.version, "3");
    assert_eq!(entry.source, "main");
}

#[test]
fn later_installs_write_into_the_ledger() {
    let mut state = AppState::new(None, Some(InstalledMetadata::from_records(vec![record("en", "1")])));
    state.record_install(&package("fr", "1"), "main");
    state.record_install(&package("en", "2"), "mirror");
    let ledger = state.installed_metadata.as_ref().unwrap();
    assert_eq!(ledger.len(), 2);
    assert_eq!(ledger.get("en").unwrap().version, "2");
    assert_eq!(ledger.get("en").unwrap().source, "mirror");
    assert_eq!(ledger.get("fr").unwrap().source, "main");
}

#[test]
fn uninstall_strikes_the_entry_out() {
    let mut state = AppState::new(
        None,
        Some(InstalledMetadata::from_records(vec![record("en", "1"), record("fr", "1")])),
    );
    assert!(state.record_uninstall("en").is_ok());
    let ledger = state.installed_metadata.as_ref().unwrap();
    assert_eq!(ledger.len(), 1);
    assert!(ledger.get("en").is_none());
    assert!(state.record_uninstall("en").is_ok());
    assert_eq!(state.installed_metadata.as_ref().unwrap().len(), 1);
}

#[test]
fn uninstall_without_a_ledger_is_a_typed_failure() {
    let mut state = AppState::new(None, None);
    assert!(matches!(state.record_uninstall("en"), Err(LauncherError::NoInstalledMetadata)));
    assert!(state.installed_metadata.is_none());
    assert!(matches!(
        state.finish_uninstall(Ok(()), "en"),
        Err(LauncherError::NoInstalledMetadata)
    ));
    assert!(state.installed_metadata.is_none());
}

#[test]
fn refusal_while_the_game_runs_says_game_is_running() {
    match ensure_game_not_running(true) {
        Err(error) => assert_eq!(error.message(), "Game is running"),
        Ok(()) => panic!("a running game must block the change"),
    }
}

#[test]
fn failed_install_leaves_the_ledger_as_it_was() {
    let mut state =
        AppState::new(None, Some(InstalledMetadata::from_records(vec![record("en", "1")])));
    let failure = Err(LauncherError::Filesystem("disk full".to_string()));
    match state.finish_install(failure, &package("en", "2"), "main") {
        Err(LauncherError::Filesystem(detail)) => assert_eq!(detail, "disk full"),
        _ => panic!("the failure must be handed on"),
    }
    assert_eq!(state.installed_metadata.as_ref().unwrap().get("en").unwrap().version, "1");

    let mut empty = AppState::new(None, None);
    assert!(empty
        .finish_install(Err(LauncherError::GameRunning), &package("en", "2"), "main")
        .is_err());
    assert!(empty.installed_metadata.is_none());
}

#[test]
fn finished_install_is_recorded() {
    let mut state = AppState::new(None, None);
    assert!(state.finish_install(Ok(()), &package("en", "2"), "main").is_ok());
    let entry = state.installed_metadata.as_ref().unwrap().get("en").unwrap();
    assert_eq!(entry.version, "2");
    assert_eq!(entry.source, "main");
}

#[test]
fn failed_removal_leaves_the_ledger_as_it_was() {
    let mut state =
        AppState::new(None, Some(InstalledMetadata::from_records(vec![record("en", "1")])));
    match state.finish_uninstall(Err(LauncherError::NotInstalled("en".to_string())), "en") {
        Err(LauncherError::NotInstalled(id)) => assert_eq!(id, "en"),
        _ => panic!("the failure must be handed on"),
    }
    assert_eq!(state.installed_metadata.as_ref().unwrap().len(), 1);
    assert!(state.finish_uninstall(Ok(()), "en").is_ok());
    assert_eq!(state.installed_metadata.as_ref().unwrap().len(), 0);
}
