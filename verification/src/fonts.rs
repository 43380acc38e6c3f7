//! The shared font cache: which file a font is kept in, when a cached copy
//! can be trusted, and what installing a package's font takes.

use vstd::prelude::*;
use crate::catalog::{check_status, is_success_status, Font, FontView, Localization};
use crate::error::{LauncherError, LauncherErrorView, Transfer};
use crate::layout::{
    cached_font,
    cached_font_path,
    font_cache_directory,
    font_cache_path,
    font_file_name,
    font_file_name_of,
    fonts_directory,
    fonts_path,
    installed_font,
    installed_font_path,
};
use crate::text::{optional_view, same_text, strings_view};

verus! {

/// What `str::to_lowercase` makes of a string.
pub uninterp spec fn lowercased(text: Seq<char>) -> Seq<char>;

/// `str::to_lowercase`: the string with every character in its Unicode
/// lowercase form.
#[verifier::external_body]
fn lowercase(text: &str) -> (lower: String)
    ensures
        lower@ == lowercased(text@),
{
    text.to_lowercase()
}

/// What can be the extension of a path: nothing; or a string without a dot
/// that stands in the path right after a dot.
pub open spec fn may_be_extension(path: Seq<char>, found: Option<Seq<char>>) -> bool {
    match found {
        None => true,
        Some(extension) => {
            &&& !extension.contains('.')
            &&& exists|at: int|
                0 < at && at + extension.len() <= path.len() && path[at - 1] == '.'
                    && #[trigger] path.subrange(at, at + extension.len()) == extension
        },
    }
}

/// The text of `path` after its last slash.
pub open spec fn last_segment(path: Seq<char>) -> Seq<char>
    decreases path.len(),
{
    if path.len() == 0 || path.last() == '/' {
        Seq::empty()
    } else {
        last_segment(path.drop_last()).push(path.last())
    }
}

/// The text of `name` after its last dot.
pub open spec fn after_last_dot(name: Seq<char>) -> Seq<char>
    decreases name.len(),
{
    if name.len() == 0 || name.last() == '.' {
        Seq::empty()
    } else {
        after_last_dot(name.drop_last()).push(name.last())
    }
}

/// Whether a file name has a dot after its first character.
pub open spec fn has_inner_dot(name: Seq<char>) -> bool {
    exists|i: int| 1 <= i < name.len() && name[i] == '.'
}

/// Whether a path ends in a file name that every platform reads alike: the
/// path holds no backslash and does not begin with two slashes, and its
/// text after the last slash is not empty, is not `.`, and holds no colon.
pub open spec fn settled(path: Seq<char>) -> bool {
    &&& !path.contains('\\')
    &&& !(path.len() > 1 && path[0] == '/' && path[1] == '/')
    &&& last_segment(path).len() > 0
    &&& last_segment(path) != "."@
    &&& !last_segment(path).contains(':')
}

/// The extension of a settled path: the text after the last dot of its
/// file name, where the name is not `..` and has a dot after its first
/// character; none otherwise.
pub open spec fn extension_of(path: Seq<char>) -> Option<Seq<char>> {
    let name = last_segment(path);
    if name != ".."@ && has_inner_dot(name) {
        Some(after_last_dot(name))
    } else {
        None
    }
}

/// `std::path::Path::extension` of the text taken as a path: none where
/// the path has no file name, where the file name has no dot, and where
/// its only dot is its first character; the part of the file name after
/// its final dot otherwise.
///
/// Which part of a path is its file name depends on the platform where the
/// path holds a backslash, begins with two slashes, or has a colon in its
/// last part. Of such a path only [`may_be_extension`] is claimed; of a
/// settled one, the extension itself.
#[verifier::external_body]
fn path_extension(path: &str) -> (found: Option<String>)
    ensures
        may_be_extension(path@, optional_view(found)),
        settled(path@) ==> optional_view(found) == extension_of(path@),
{
    Some(std::path::Path::new(path).extension()?.to_str()?.to_owned())
}

/// An extension in lowercase, where there is one.
pub open spec fn lowered(raw: Option<Seq<char>>) -> Option<Seq<char>> {
    match raw {
        Some(extension) => Some(lowercased(extension)),
        None => None,
    }
}

/// The extension of the last component of `path`, in lowercase.
fn lowercase_extension(path: &str) -> (found: Option<String>)
    ensures
        exists|raw: Option<Seq<char>>|
            #[trigger] may_be_extension(path@, raw) && optional_view(found) == lowered(raw),
        settled(path@) ==> optional_view(found) == lowered(extension_of(path@)),
{
    match path_extension(path) {
        Some(extension) => {
            let lower = lowercase(extension.as_str());
            Some(lower)
        },
        None => {
            None
        },
    }
}

/// The extension a font is stored with, given the lowercase extension of
/// its address: `otf` for `otf`, and `ttf` for `ttf`, for anything else and
/// for none.
pub open spec fn whitelisted(lowercase: Option<Seq<char>>) -> Seq<char> {
    if lowercase == Some("otf"@) {
        "otf"@
    } else {
        "ttf"@
    }
}

/// The extension a font is stored with, given the lowercase extension of
/// its address.
pub fn whitelisted_extension(lowercase: &Option<String>) -> (extension: String)
    ensures
        extension@ == whitelisted(optional_view(*lowercase)),
{
    match lowercase {
        Some(found) => {
            if same_text(found.as_str(), "otf") {
                "otf".to_owned()
            } else {
                "ttf".to_owned()
            }
        },
        None => "ttf".to_owned(),
    }
}

/// The extension a font at a settled address is stored with: `otf` where
/// the extension of the address is `otf` in any case of letters, and `ttf`
/// otherwise.
pub open spec fn stored_extension(url: Seq<char>) -> Seq<char> {
    whitelisted(lowered(extension_of(url)))
}

/// The extension the font at `url` is stored with: `otf` where the address
/// ends in that extension, in any case of letters, and `ttf` otherwise; so
/// `ttf` for every address without a dot.
pub fn font_extension(url: &str) -> (extension: String)
    ensures
        settled(url@) ==> extension@ == stored_extension(url@),
        extension@ == "ttf"@ || extension@ == "otf"@,
        exists|raw: Option<Seq<char>>|
            #[trigger] may_be_extension(url@, raw) && extension@ == whitelisted(lowered(raw)),
        !url@.contains('.') ==> extension@ == "ttf"@,
{
    let found = lowercase_extension(url);
    proof {
        let raw = choose|raw: Option<Seq<char>>|
            #[trigger] may_be_extension(url@, raw) && optional_view(found) == lowered(raw);
        if let Some(extension) = raw {
            // An extension stands right after a dot, so the address has one.
            let at = choose|at: int|
                0 < at && at + extension.len() <= url@.len() && url@[at - 1] == '.'
                    && #[trigger] url@.subrange(at, at + extension.len()) == extension;
            assert(url@.contains('.'));
        }
    }
    whitelisted_extension(&found)
}

/// The name of the file a font is kept in, given its stored extension.
pub open spec fn font_file_of(font: FontView, extension: Seq<char>) -> Seq<char> {
    font_file_name_of(font.hash, extension)
}

/// What the caller found where a font may be.
#[derive(Debug)]
pub enum FileProbe {
    /// There is no file.
    Missing,
    /// There is a file, and its content has this digest.
    Hashed(String),
    /// There is a file, but it could not be read to the end.
    Unreadable,
}

/// The mathematical value of a [`FileProbe`].
pub enum FileProbeView {
    Missing,
    Hashed(Seq<char>),
    Unreadable,
}

impl View for FileProbe {
    type V = FileProbeView;

    open spec fn view(&self) -> FileProbeView {
        match self {
            FileProbe::Missing => FileProbeView::Missing,
            FileProbe::Hashed(hash) => FileProbeView::Hashed(hash@),
            FileProbe::Unreadable => FileProbeView::Unreadable,
        }
    }
}

/// What to do about the cached copy of a font.
#[derive(Clone, Copy, PartialEq, Eq, Structural, Debug)]
pub enum CacheDecision {
    /// The cached file is the font: use it, download nothing.
    Reuse,
    /// There is no cached file: download the font.
    Download,
    /// The cached file is not the font: remove it, then download the font.
    PurgeThenDownload,
}

/// What to do about a cached copy, given what was found in its place.
pub open spec fn cache_decision_of(found: FileProbeView, expected: Seq<char>) -> CacheDecision {
    match found {
        FileProbeView::Missing => CacheDecision::Download,
        FileProbeView::Hashed(hash) => if hash == expected {
            CacheDecision::Reuse
        } else {
            CacheDecision::PurgeThenDownload
        },
        FileProbeView::Unreadable => CacheDecision::PurgeThenDownload,
    }
}

/// Decides about the cached copy of a font with the digest `expected`.
pub fn cache_decision(found: &FileProbe, expected: &str) -> (decision: CacheDecision)
    ensures
        decision == cache_decision_of(found@, expected@),
{
    match found {
        FileProbe::Missing => CacheDecision::Download,
        FileProbe::Hashed(hash) => {
            if same_text(hash.as_str(), expected) {
                CacheDecision::Reuse
            } else {
                CacheDecision::PurgeThenDownload
            }
        },
        FileProbe::Unreadable => CacheDecision::PurgeThenDownload,
    }
}

/// Whether the font has to be copied to its place in the package: not when
/// the file there already has the expected digest.
pub open spec fn needs_copy_of(found: FileProbeView, expected: Seq<char>) -> bool {
    !(found == FileProbeView::Hashed(expected))
}

/// Decides whether the font has to be copied to its place in the package.
pub fn needs_copy(found: &FileProbe, expected: &str) -> (copy: bool)
    ensures
        copy == needs_copy_of(found@, expected@),
{
    match found {
        FileProbe::Hashed(hash) => !same_text(hash.as_str(), expected),
        _ => true,
    }
}

/// A font as it was downloaded.
#[derive(Debug)]
pub struct Download {
    /// The digest of the body.
    pub digest: String,
    /// The temporary file that holds the body, as it is shown in messages.
    pub saved_to: String,
}

/// What a server answered to a request for a font.
#[derive(Debug)]
pub enum FontResponse {
    /// No response arrived; the text says why.
    Failed(String),
    /// A response arrived with this status; `body` is what was downloaded,
    /// or the reason the body broke off.
    Answered { code: u16, reason: String, body: Result<Download, String> },
}

/// What a response to the request for the font at `url` amounts to: a
/// transport failure first, then a status outside the success range, then
/// a body that broke off, then a digest other than the expected one. The
/// font is accepted otherwise.
pub open spec fn font_outcome(
    url: Seq<char>,
    expected: Seq<char>,
    response: FontResponse,
) -> Option<LauncherErrorView> {
    match response {
        FontResponse::Failed(detail) => Some(
            LauncherErrorView::Network { transfer: Transfer::Font, url, detail: detail@ },
        ),
        FontResponse::Answered { code, reason, body } => if !is_success_status(code) {
            Some(
                LauncherErrorView::HttpStatus {
                    transfer: Transfer::Font,
                    url,
                    code,
                    reason: reason@,
                },
            )
        } else {
            match body {
                Err(detail) => Some(
                    LauncherErrorView::Interrupted {
                        transfer: Transfer::Font,
                        url,
                        detail: detail@,
                    },
                ),
                Ok(download) => if download.digest@ == expected {
                    None
                } else {
                    Some(
                        LauncherErrorView::HashMismatch {
                            url,
                            expected,
                            calculated: download.digest@,
                            discarded: download.saved_to@,
                        },
                    )
                },
            }
        },
    }
}

/// Judges a downloaded font: the temporary file may take the font's place
/// in the cache exactly when the request succeeded, the body arrived whole
/// and it has the expected digest. On every error the temporary file is to
/// be discarded.
pub fn download_and_validate_font(url: &str, expected: &str, response: FontResponse) -> (outcome:
    Result<(), LauncherError>)
    ensures
        match font_outcome(url@, expected@, response) {
            None => outcome is Ok,
            Some(failure) => outcome matches Err(e) && e@ == failure,
        },
{
    match response {
        FontResponse::Failed(detail) => Err(
            LauncherError::Network { transfer: Transfer::Font, url: url.to_owned(), detail },
        ),
        FontResponse::Answered { code, reason, body } => {
            match check_status(Transfer::Font, url, code, reason.as_str()) {
                Err(e) => Err(e),
                Ok(()) => match body {
                    Err(detail) => Err(
                        LauncherError::Interrupted {
                            transfer: Transfer::Font,
                            url: url.to_owned(),
                            detail,
                        },
                    ),
                    Ok(download) => {
                        if same_text(download.digest.as_str(), expected) {
                            Ok(())
                        } else {
                            Err(
                                LauncherError::HashMismatch {
                                    url: url.to_owned(),
                                    expected: expected.to_owned(),
                                    calculated: download.digest,
                                    discarded: download.saved_to,
                                },
                            )
                        }
                    },
                },
            }
        },
    }
}

/// One thing to do to install a font. Paths are below the game's directory.
#[derive(Debug)]
pub enum FontStep {
    /// Create the directory and its parents, if they are not there.
    CreateDirectory(Vec<String>),
    /// Remove the file.
    RemoveFile(Vec<String>),
    /// Download `url` into `destination`, by way of a temporary file beside
    /// it that takes its place only if its digest is `expected`.
    Download { url: String, destination: Vec<String>, expected: String },
    /// Copy the file, overwriting what is there.
    CopyFile { from: Vec<String>, to: Vec<String> },
}

/// The mathematical value of a [`FontStep`].
pub enum FontStepView {
    CreateDirectory(Seq<Seq<char>>),
    RemoveFile(Seq<Seq<char>>),
    Download { url: Seq<char>, destination: Seq<Seq<char>>, expected: Seq<char> },
    CopyFile { from: Seq<Seq<char>>, to: Seq<Seq<char>> },
}

impl View for FontStep {
    type V = FontStepView;

    open spec fn view(&self) -> FontStepView {
        match self {
            FontStep::CreateDirectory(path) => FontStepView::CreateDirectory(strings_view(path@)),
            FontStep::RemoveFile(path) => FontStepView::RemoveFile(strings_view(path@)),
            FontStep::Download { url, destination, expected } => FontStepView::Download {
                url: url@,
                destination: strings_view(destination@),
                expected: expected@,
            },
            FontStep::CopyFile { from, to } => FontStepView::CopyFile {
                from: strings_view(from@),
                to: strings_view(to@),
            },
        }
    }
}

/// The values of a list of steps, in order.
pub open spec fn font_steps_view(steps: Seq<FontStep>) -> Seq<FontStepView> {
    steps.map_values(|step: FontStep| step@)
}

/// The steps that bring the font into the cache.
pub open spec fn cache_steps(font: FontView, file: Seq<char>, cache: FileProbeView) -> Seq<
    FontStepView,
> {
    let download = FontStepView::Download {
        url: font.url,
        destination: cached_font_path(file),
        expected: font.hash,
    };
    match cache_decision_of(cache, font.hash) {
        CacheDecision::Reuse => Seq::empty(),
        CacheDecision::Download => seq![download],
        CacheDecision::PurgeThenDownload => seq![
            FontStepView::RemoveFile(cached_font_path(file)),
            download,
        ],
    }
}

/// The steps that bring the font from the cache into the package.
pub open spec fn copy_steps(id: Seq<char>, font: FontView, file: Seq<char>, target: FileProbeView) -> Seq<
    FontStepView,
> {
    if needs_copy_of(target, font.hash) {
        seq![
            FontStepView::CopyFile {
                from: cached_font_path(file),
                to: installed_font_path(id, file),
            },
        ]
    } else {
        Seq::empty()
    }
}

/// Everything installing a font takes, in order: the cache directory; the
/// cached copy, purged and downloaded as far as needed; the package's font
/// directory; the copy into it, if needed.
pub open spec fn font_steps(
    id: Seq<char>,
    font: FontView,
    extension: Seq<char>,
    cache: FileProbeView,
    target: FileProbeView,
) -> Seq<FontStepView> {
    let file = font_file_of(font, extension);
    seq![FontStepView::CreateDirectory(font_cache_path())] + cache_steps(font, file, cache)
        + seq![FontStepView::CreateDirectory(fonts_path(id))] + copy_steps(id, font, file, target)
}

/// The name of the file the font is kept in, in the cache and in a package.
pub fn font_file(font: &Font) -> (file: String)
    ensures
        file@ == font_file_of(font@, "ttf"@) || file@ == font_file_of(font@, "otf"@),
        exists|raw: Option<Seq<char>>|
            #[trigger] may_be_extension(font@.url, raw) && file@ == font_file_of(
                font@,
                whitelisted(lowered(raw)),
            ),
        !font@.url.contains('.') ==> file@ == font_file_of(font@, "ttf"@),
        settled(font@.url) ==> file@ == font_file_of(font@, stored_extension(font@.url)),
{
    let extension = font_extension(font.url.as_str());
    let file = font_file_name(font.hash.as_str(), extension.as_str());
    proof {
        let raw = choose|raw: Option<Seq<char>>|
            #[trigger] may_be_extension(font.url@, raw) && extension@ == whitelisted(lowered(raw));
        assert(may_be_extension(font@.url, raw));
    }
    file
}

/// Plans the install of a package's font, given the extension its file is
/// stored with, what was found in the font's place in the cache and what
/// was found in its place in the package.
pub fn plan_font_install(
    localization: &Localization,
    extension: &str,
    cache: &FileProbe,
    target: &FileProbe,
) -> (steps: Vec<FontStep>)
    ensures
        font_steps_view(steps@) == font_steps(
            localization@.id,
            localization@.font,
            extension@,
            cache@,
            target@,
        ),
{
    let id = localization.id.as_str();
    let font = &localization.font;
    let file = font_file_name(font.hash.as_str(), extension);
    let mut steps: Vec<FontStep> = Vec::new();
    steps.push(FontStep::CreateDirectory(font_cache_directory()));
    match cache_decision(cache, font.hash.as_str()) {
        CacheDecision::Reuse => {},
        CacheDecision::Download => {
            steps.push(
                FontStep::Download {
                    url: font.url.clone(),
                    destination: cached_font(file.as_str()),
                    expected: font.hash.clone(),
                },
            );
        },
        CacheDecision::PurgeThenDownload => {
            steps.push(FontStep::RemoveFile(cached_font(file.as_str())));
            steps.push(
                FontStep::Download {
                    url: font.url.clone(),
                    destination: cached_font(file.as_str()),
                    expected: font.hash.clone(),
                },
            );
        },
    }
    steps.push(FontStep::CreateDirectory(fonts_directory(id)));
    if needs_copy(target, font.hash.as_str()) {
        steps.push(
            FontStep::CopyFile {
                from: cached_font(file.as_str()),
                to: installed_font(id, file.as_str()),
            },
        );
    }
    steps
}

/// Plans the install of a package's font, given what was found in the
/// font's place in the cache and in its place in the package.
pub fn install_fonts_for_localization(
    localization: &Localization,
    cache: &FileProbe,
    target: &FileProbe,
) -> (steps: Vec<FontStep>)
    ensures
        font_steps_view(steps@) == font_steps(
            localization@.id,
            localization@.font,
            "ttf"@,
            cache@,
            target@,
        ) || font_steps_view(steps@) == font_steps(
            localization@.id,
            localization@.font,
            "otf"@,
            cache@,
            target@,
        ),
        exists|raw: Option<Seq<char>>|
            #[trigger] may_be_extension(localization@.font.url, raw) && font_steps_view(steps@)
                == font_steps(
                localization@.id,
                localization@.font,
                whitelisted(lowered(raw)),
                cache@,
                target@,
            ),
        !localization@.font.url.contains('.') ==> font_steps_view(steps@) == font_steps(
            localization@.id,
            localization@.font,
            "ttf"@,
            cache@,
            target@,
        ),
        settled(localization@.font.url) ==> font_steps_view(steps@) == font_steps(
            localization@.id,
            localization@.font,
            stored_extension(localization@.font.url),
            cache@,
            target@,
        ),
{
    let extension = font_extension(localization.font.url.as_str());
    plan_font_install(localization, extension.as_str(), cache, target)
}

/// How many downloads a list of steps asks for.
pub open spec fn downloads(steps: Seq<FontStepView>) -> nat
    decreases steps.len(),
{
    if steps.len() == 0 {
        0
    } else {
        downloads(steps.drop_last()) + if steps.last() is Download {
            1nat
        } else {
            0nat
        }
    }
}

/// A cached file with the expected digest is reused as it is: nothing is
/// removed and nothing is downloaded.
pub proof fn trusted_cache_needs_no_download(
    id: Seq<char>,
    font: FontView,
    extension: Seq<char>,
    target: FileProbeView,
)
    ensures
        ({
            let steps = font_steps(id, font, extension, FileProbeView::Hashed(font.hash), target);
            &&& downloads(steps) == 0
            &&& forall|i: int| 0 <= i < steps.len() ==> !(steps[i] is RemoveFile)
        }),
{
    let steps = font_steps(id, font, extension, FileProbeView::Hashed(font.hash), target);
    let dirs = seq![
        FontStepView::CreateDirectory(font_cache_path()),
        FontStepView::CreateDirectory(fonts_path(id)),
    ];
    assert(downloads(dirs.drop_last().drop_last()) == 0);
    assert(downloads(dirs.drop_last()) == 0);
    assert(downloads(dirs) == 0);
    if needs_copy_of(target, font.hash) {
        assert(steps.drop_last() =~= dirs);
    } else {
        assert(steps =~= dirs);
    }
}

/// A cached file with another digest is removed, and the font is downloaded
/// exactly once, after the removal.
pub proof fn stale_cache_is_purged(
    id: Seq<char>,
    font: FontView,
    extension: Seq<char>,
    found: Seq<char>,
    target: FileProbeView,
)
    requires
        found != font.hash,
    ensures
        ({
            let steps = font_steps(id, font, extension, FileProbeView::Hashed(found), target);
            let file = font_file_of(font, extension);
            &&& downloads(steps) == 1
            &&& steps[1] == FontStepView::RemoveFile(cached_font_path(file))
            &&& steps[2] == (FontStepView::Download {
                url: font.url,
                destination: cached_font_path(file),
                expected: font.hash,
            })
        }),
{
    let steps = font_steps(id, font, extension, FileProbeView::Hashed(found), target);
    let file = font_file_of(font, extension);
    let fixed = seq![
        FontStepView::CreateDirectory(font_cache_path()),
        FontStepView::RemoveFile(cached_font_path(file)),
        FontStepView::Download {
            url: font.url,
            destination: cached_font_path(file),
            expected: font.hash,
        },
        FontStepView::CreateDirectory(fonts_path(id)),
    ];
    let d3 = fixed.drop_last();
    let d2 = d3.drop_last();
    let d1 = d2.drop_last();
    assert(downloads(d1.drop_last()) == 0);
    assert(downloads(d1) == 0);
    assert(downloads(d2) == 0);
    assert(downloads(d3) == 1);
    assert(downloads(fixed) == 1);
    if needs_copy_of(target, font.hash) {
        assert(steps.drop_last() =~= fixed);
    } else {
        assert(steps =~= fixed);
    }
}

/// Installing a font that is already in the cache and in the package takes
/// nothing but making sure of the two directories: no download, no copy.
pub proof fn repeated_install_moves_nothing(id: Seq<char>, font: FontView, extension: Seq<char>)
    ensures
        font_steps(
            id,
            font,
            extension,
            FileProbeView::Hashed(font.hash),
            FileProbeView::Hashed(font.hash),
        ) == seq![
            FontStepView::CreateDirectory(font_cache_path()),
            FontStepView::CreateDirectory(fonts_path(id)),
        ],
{
}

} // verus!
