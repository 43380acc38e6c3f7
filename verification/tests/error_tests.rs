use limbus_launcher::error::{LauncherError, Transfer};

#[test]
fn messages_name_what_went_wrong() {
    assert_eq!(LauncherError::Parse("eof".to_string()).message(), "Failed to parse JSON: eof");
    assert_eq!(
        LauncherError::Filesystem("Failed to create FontCache directory: denied".to_string())
            .message(),
        "Failed to create FontCache directory: denied"
    );
    assert_eq!(
        LauncherError::UnknownFormat("legacy".to_string()).message(),
        "Unknown localization format: legacy"
    );
    assert_eq!(LauncherError::NotInstalled("en".to_string()).message(), "Localization 'en' not found");
    assert_eq!(LauncherError::NoActiveSource.message(), "No active source selected");
    assert_eq!(LauncherError::NoInstalledMetadata.message(), "No installed metadata found");
    assert_eq!(LauncherError::GameRunning.message(), "Game is running");
    assert_eq!(LauncherError::GameAlreadyRunning.message(), "Game is already running");
    assert_eq!(LauncherError::InvalidGameDirectory.message(), "Invalid game directory");
    assert_eq!(LauncherError::UnexpectedEvent.message(), "Unexpected workflow event");
}

fn network(transfer: Transfer) -> LauncherError {
    LauncherError::Network { transfer, url: "U".to_string(), detail: "timed out".to_string() }
}

fn interrupted(transfer: Transfer) -> LauncherError {
    LauncherError::Interrupted { transfer, url: "U".to_string(), detail: "reset".to_string() }
}

fn status(transfer: Transfer) -> LauncherError {
    LauncherError::HttpStatus {
        transfer,
        url: "U".to_string(),
        code: 404,
        reason: "404 Not Found".to_string(),
    }
}

#[test]
fn request_errors_are_worded_by_what_was_requested() {
    assert_eq!(network(Transfer::Catalog).message(), "Request error: timed out");
    assert_eq!(network(Transfer::Bundle).message(), "Request error: timed out");
    assert_eq!(network(Transfer::Font).message(), "Font download request error from U: timed out");
    assert_eq!(interrupted(Transfer::Catalog).message(), "Failed to parse JSON: reset");
    assert_eq!(interrupted(Transfer::Bundle).message(), "Failed to read chunk: reset");
    assert_eq!(
        interrupted(Transfer::Font).message(),
        "Error reading download stream from U: reset"
    );
    assert_eq!(status(Transfer::Catalog).message(), "HTTP error: 404 Not Found");
    assert_eq!(status(Transfer::Bundle).message(), "HTTP error 404 Not Found");
    assert_eq!(
        status(Transfer::Font).message(),
        "Font download from U failed with HTTP status 404 Not Found"
    );
}

#[test]
fn hash_mismatch_message_shows_both_digests() {
    let error = LauncherError::HashMismatch {
        url: "https://example.org/f.ttf".to_string(),
        expected: "aa".to_string(),
        calculated: "bb".to_string(),
        discarded: "\"/g/FontCache/aa.tmp_download\"".to_string(),
    };
    assert_eq!(
        error.message(),
        "Font hash mismatch for https://example.org/f.ttf. Expected: aa, Calculated: bb. \
         Download saved to \"/g/FontCache/aa.tmp_download\" was discarded."
    );
}

#[test]
fn missing_language_root_has_two_messages() {
    assert_eq!(
        LauncherError::MissingLanguageRoot { localize_present: false }.message(),
        "Localization format is 'compatible' but 'Localize' directory not found."
    );
    assert_eq!(
        LauncherError::MissingLanguageRoot { localize_present: true }.message(),
        "Could not find language directory with StoryData in 'Localize'."
    );
}

#[test]
fn cloned_error_has_the_same_message() {
    let error = LauncherError::HashMismatch {
        url: "u".to_string(),
        expected: "e".to_string(),
        calculated: "c".to_string(),
        discarded: "d".to_string(),
    };
    assert_eq!(error.clone().message(), error.message());
    for transfer in [Transfer::Catalog, Transfer::Bundle, Transfer::Font] {
        assert_eq!(network(transfer).clone().message(), network(transfer).message());
        assert_eq!(interrupted(transfer).clone().message(), interrupted(transfer).message());
        match status(transfer).clone() {
            LauncherError::HttpStatus { transfer: kept, url, code, reason } => {
                assert_eq!(kept, transfer);
                assert_eq!(url, "U");
                assert_eq!(code, 404);
                assert_eq!(reason, "404 Not Found");
            }
            _ => panic!("a clone keeps its variant"),
        }
    }
}
