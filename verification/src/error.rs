//! The failures the engine reports, and the message each one carries.

use vstd::prelude::*;
use crate::text::joined;

verus! {

/// What a request was made for.
#[derive(Clone, Copy, PartialEq, Eq, Structural, Debug)]
pub enum Transfer {
    /// The catalog of a source.
    Catalog,
    /// The bundle of a package.
    Bundle,
    /// A font.
    Font,
}

/// What reading an archive failed at.
#[derive(Clone, Copy, PartialEq, Eq, Structural, Debug)]
pub enum ArchiveStage {
    /// Opening the archive.
    Open,
    /// Looking an entry up.
    Entry,
    /// Reading an entry's content.
    Content,
}

/// Every way an operation of this crate can fail.
#[derive(Debug)]
pub enum LauncherError {
    /// The request never produced a response (transport failure or timeout).
    Network { transfer: Transfer, url: String, detail: String },
    /// The response broke off before its body was read.
    Interrupted { transfer: Transfer, url: String, detail: String },
    /// The server answered with a status outside the success range.
    HttpStatus { transfer: Transfer, url: String, code: u16, reason: String },
    /// The catalog document could not be decoded.
    Parse(String),
    /// A directory or file could not be created, read, copied or removed.
    Filesystem(String),
    /// The package bundle is not a readable zip archive.
    Archive { stage: ArchiveStage, detail: String },
    /// A downloaded asset does not hash to the value the catalog promised;
    /// `discarded` names the temporary file that held it.
    HashMismatch { url: String, expected: String, calculated: String, discarded: String },
    /// The package declares a format tag this crate does not know.
    UnknownFormat(String),
    /// A `compatible` bundle holds no usable language directory.
    MissingLanguageRoot { localize_present: bool },
    /// The package to remove is not installed.
    NotInstalled(String),
    /// No source is selected, or the selected one is not configured.
    NoActiveSource,
    /// The installed-package ledger has not been loaded.
    NoInstalledMetadata,
    /// The game is running, so a package must not be changed.
    GameRunning,
    /// The game is running, so it is not updated and started again.
    GameAlreadyRunning,
    /// The directory offered as the game's directory is not one.
    InvalidGameDirectory,
    /// A workflow was handed the outcome of work it had not asked for.
    UnexpectedEvent,
}

/// The mathematical value of a [`LauncherError`].
pub enum LauncherErrorView {
    Network { transfer: Transfer, url: Seq<char>, detail: Seq<char> },
    Interrupted { transfer: Transfer, url: Seq<char>, detail: Seq<char> },
    HttpStatus { transfer: Transfer, url: Seq<char>, code: u16, reason: Seq<char> },
    Parse(Seq<char>),
    Filesystem(Seq<char>),
    Archive { stage: ArchiveStage, detail: Seq<char> },
    HashMismatch {
        url: Seq<char>,
        expected: Seq<char>,
        calculated: Seq<char>,
        discarded: Seq<char>,
    },
    UnknownFormat(Seq<char>),
    MissingLanguageRoot { localize_present: bool },
    NotInstalled(Seq<char>),
    NoActiveSource,
    NoInstalledMetadata,
    GameRunning,
    GameAlreadyRunning,
    InvalidGameDirectory,
    UnexpectedEvent,
}

impl View for LauncherError {
    type V = LauncherErrorView;

    open spec fn view(&self) -> LauncherErrorView {
        match self {
            LauncherError::Network { transfer, url, detail } => LauncherErrorView::Network {
                transfer: *transfer,
                url: url@,
                detail: detail@,
            },
            LauncherError::Interrupted { transfer, url, detail } => {
                LauncherErrorView::Interrupted { transfer: *transfer, url: url@, detail: detail@ }
            },
            LauncherError::HttpStatus { transfer, url, code, reason } => {
                LauncherErrorView::HttpStatus {
                    transfer: *transfer,
                    url: url@,
                    code: *code,
                    reason: reason@,
                }
            },
            LauncherError::Parse(detail) => LauncherErrorView::Parse(detail@),
            LauncherError::Filesystem(detail) => LauncherErrorView::Filesystem(detail@),
            LauncherError::Archive { stage, detail } => LauncherErrorView::Archive {
                stage: *stage,
                detail: detail@,
            },
            LauncherError::HashMismatch { url, expected, calculated, discarded } => {
                LauncherErrorView::HashMismatch {
                    url: url@,
                    expected: expected@,
                    calculated: calculated@,
                    discarded: discarded@,
                }
            },
            LauncherError::UnknownFormat(tag) => LauncherErrorView::UnknownFormat(tag@),
            LauncherError::MissingLanguageRoot { localize_present } => {
                LauncherErrorView::MissingLanguageRoot { localize_present: *localize_present }
            },
            LauncherError::NotInstalled(id) => LauncherErrorView::NotInstalled(id@),
            LauncherError::NoActiveSource => LauncherErrorView::NoActiveSource,
            LauncherError::NoInstalledMetadata => LauncherErrorView::NoInstalledMetadata,
            LauncherError::GameRunning => LauncherErrorView::GameRunning,
            LauncherError::GameAlreadyRunning => LauncherErrorView::GameAlreadyRunning,
            LauncherError::InvalidGameDirectory => LauncherErrorView::InvalidGameDirectory,
            LauncherError::UnexpectedEvent => LauncherErrorView::UnexpectedEvent,
        }
    }
}

/// The text for a request that got no response.
pub open spec fn network_message(transfer: Transfer, url: Seq<char>, detail: Seq<char>) -> Seq<
    char,
> {
    match transfer {
        Transfer::Font => "Font download request error from "@ + url + ": "@ + detail,
        _ => "Request error: "@ + detail,
    }
}

/// The text for a response that broke off.
pub open spec fn interrupted_message(transfer: Transfer, url: Seq<char>, detail: Seq<char>) -> Seq<
    char,
> {
    match transfer {
        Transfer::Catalog => "Failed to parse JSON: "@ + detail,
        Transfer::Bundle => "Failed to read chunk: "@ + detail,
        Transfer::Font => "Error reading download stream from "@ + url + ": "@ + detail,
    }
}

/// The text for a response with a status outside the success range.
pub open spec fn status_message(transfer: Transfer, url: Seq<char>, reason: Seq<char>) -> Seq<
    char,
> {
    match transfer {
        Transfer::Catalog => "HTTP error: "@ + reason,
        Transfer::Bundle => "HTTP error "@ + reason,
        Transfer::Font => "Font download from "@ + url + " failed with HTTP status "@ + reason,
    }
}

/// The text for an archive that cannot be read.
pub open spec fn archive_message(stage: ArchiveStage, detail: Seq<char>) -> Seq<char> {
    match stage {
        ArchiveStage::Open => "Failed to read ZIP archive: "@ + detail,
        ArchiveStage::Entry => "Error reading file in zip: "@ + detail,
        ArchiveStage::Content => "Failed to copy file during extraction: "@ + detail,
    }
}

/// The text shown for an error.
pub open spec fn message_of(error: LauncherErrorView) -> Seq<char> {
    match error {
        LauncherErrorView::Network { transfer, url, detail } => network_message(
            transfer,
            url,
            detail,
        ),
        LauncherErrorView::Interrupted { transfer, url, detail } => interrupted_message(
            transfer,
            url,
            detail,
        ),
        LauncherErrorView::HttpStatus { transfer, url, code, reason } => status_message(
            transfer,
            url,
            reason,
        ),
        LauncherErrorView::Parse(detail) => "Failed to parse JSON: "@ + detail,
        LauncherErrorView::Filesystem(detail) => detail,
        LauncherErrorView::Archive { stage, detail } => archive_message(stage, detail),
        LauncherErrorView::HashMismatch { url, expected, calculated, discarded } =>
            "Font hash mismatch for "@ + url + ". Expected: "@ + expected + ", Calculated: "@
            + calculated + ". Download saved to "@ + discarded + " was discarded."@,
        LauncherErrorView::UnknownFormat(tag) => "Unknown localization format: "@ + tag,
        LauncherErrorView::MissingLanguageRoot { localize_present } => if localize_present {
            "Could not find language directory with StoryData in 'Localize'."@
        } else {
            "Localization format is 'compatible' but 'Localize' directory not found."@
        },
        LauncherErrorView::NotInstalled(id) => "Localization '"@ + id + "' not found"@,
        LauncherErrorView::NoActiveSource => "No active source selected"@,
        LauncherErrorView::NoInstalledMetadata => "No installed metadata found"@,
        LauncherErrorView::GameRunning => "Game is running"@,
        LauncherErrorView::GameAlreadyRunning => "Game is already running"@,
        LauncherErrorView::InvalidGameDirectory => "Invalid game directory"@,
        LauncherErrorView::UnexpectedEvent => "Unexpected workflow event"@,
    }
}

/// Four texts, one after the other.
fn strung(a: &str, b: &str, c: &str, d: &str) -> (whole: String)
    ensures
        whole@ == a@ + b@ + c@ + d@,
{
    let ab = joined(a, b);
    let abc = joined(ab.as_str(), c);
    joined(abc.as_str(), d)
}

impl LauncherError {
    /// The text shown for this error.
    pub fn message(&self) -> (text: String)
        ensures
            text@ == message_of(self@),
    {
        match self {
            LauncherError::Network { transfer, url, detail } => match transfer {
                Transfer::Font => strung(
                    "Font download request error from ",
                    url.as_str(),
                    ": ",
                    detail.as_str(),
                ),
                _ => joined("Request error: ", detail.as_str()),
            },
            LauncherError::Interrupted { transfer, url, detail } => match transfer {
                Transfer::Catalog => joined("Failed to parse JSON: ", detail.as_str()),
                Transfer::Bundle => joined("Failed to read chunk: ", detail.as_str()),
                Transfer::Font => strung(
                    "Error reading download stream from ",
                    url.as_str(),
                    ": ",
                    detail.as_str(),
                ),
            },
            LauncherError::HttpStatus { transfer, url, code: _, reason } => match transfer {
                Transfer::Catalog => joined("HTTP error: ", reason.as_str()),
                Transfer::Bundle => joined("HTTP error ", reason.as_str()),
                Transfer::Font => strung(
                    "Font download from ",
                    url.as_str(),
                    " failed with HTTP status ",
                    reason.as_str(),
                ),
            },
            LauncherError::Parse(detail) => joined("Failed to parse JSON: ", detail.as_str()),
            LauncherError::Filesystem(detail) => detail.clone(),
            LauncherError::Archive { stage, detail } => match stage {
                ArchiveStage::Open => joined("Failed to read ZIP archive: ", detail.as_str()),
                ArchiveStage::Entry => joined("Error reading file in zip: ", detail.as_str()),
                ArchiveStage::Content => joined(
                    "Failed to copy file during extraction: ",
                    detail.as_str(),
                ),
            },
            LauncherError::HashMismatch { url, expected, calculated, discarded } => {
                let head = strung(
                    "Font hash mismatch for ",
                    url.as_str(),
                    ". Expected: ",
                    expected.as_str(),
                );
                let body = strung(
                    head.as_str(),
                    ", Calculated: ",
                    calculated.as_str(),
                    ". Download saved to ",
                );
                let tail = joined(body.as_str(), discarded.as_str());
                joined(tail.as_str(), " was discarded.")
            },
            LauncherError::UnknownFormat(tag) => joined(
                "Unknown localization format: ",
                tag.as_str(),
            ),
            LauncherError::MissingLanguageRoot { localize_present } => {
                if *localize_present {
                    "Could not find language directory with StoryData in 'Localize'.".to_owned()
                } else {
                    "Localization format is 'compatible' but 'Localize' directory not found.".to_owned()
                }
            },
            LauncherError::NotInstalled(id) => {
                let a = joined("Localization '", id.as_str());
                joined(a.as_str(), "' not found")
            },
            LauncherError::NoActiveSource => "No active source selected".to_owned(),
            LauncherError::NoInstalledMetadata => "No installed metadata found".to_owned(),
            LauncherError::GameRunning => "Game is running".to_owned(),
            LauncherError::GameAlreadyRunning => "Game is already running".to_owned(),
            LauncherError::InvalidGameDirectory => "Invalid game directory".to_owned(),
            LauncherError::UnexpectedEvent => "Unexpected workflow event".to_owned(),
        }
    }
}

impl Clone for LauncherError {
    fn clone(&self) -> (copy: Self)
        ensures
            copy@ == self@,
    {
        match self {
            LauncherError::Network { transfer, url, detail } => LauncherError::Network {
                transfer: *transfer,
                url: url.clone(),
                detail: detail.clone(),
            },
            LauncherError::Interrupted { transfer, url, detail } => LauncherError::Interrupted {
                transfer: *transfer,
                url: url.clone(),
                detail: detail.clone(),
            },
            LauncherError::HttpStatus { transfer, url, code, reason } => {
                LauncherError::HttpStatus {
                    transfer: *transfer,
                    url: url.clone(),
                    code: *code,
                    reason: reason.clone(),
                }
            },
            LauncherError::Parse(detail) => LauncherError::Parse(detail.clone()),
            LauncherError::Filesystem(detail) => LauncherError::Filesystem(detail.clone()),
            LauncherError::Archive { stage, detail } => LauncherError::Archive {
                stage: *stage,
                detail: detail.clone(),
            },
            LauncherError::HashMismatch { url, expected, calculated, discarded } => {
                LauncherError::HashMismatch {
                    url: url.clone(),
                    expected: expected.clone(),
                    calculated: calculated.clone(),
                    discarded: discarded.clone(),
                }
            },
            LauncherError::UnknownFormat(tag) => LauncherError::UnknownFormat(tag.clone()),
            LauncherError::MissingLanguageRoot { localize_present } => {
                LauncherError::MissingLanguageRoot { localize_present: *localize_present }
            },
            LauncherError::NotInstalled(id) => LauncherError::NotInstalled(id.clone()),
            LauncherError::NoActiveSource => LauncherError::NoActiveSource,
            LauncherError::NoInstalledMetadata => LauncherError::NoInstalledMetadata,
            LauncherError::GameRunning => LauncherError::GameRunning,
            LauncherError::GameAlreadyRunning => LauncherError::GameAlreadyRunning,
            LauncherError::InvalidGameDirectory => LauncherError::InvalidGameDirectory,
            LauncherError::UnexpectedEvent => LauncherError::UnexpectedEvent,
        }
    }
}

} // verus!
