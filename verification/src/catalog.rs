//! The remote catalog: packages, their fonts and formats, and what an HTTP
//! answer from a source amounts to.

use vstd::prelude::*;
use crate::error::{LauncherError, LauncherErrorView, Transfer};
use crate::text::{copy_strings, first_index, first_index_is_first, same_text, strings_view};

verus! {

/// How a bundle lays out its payload.
#[derive(Debug)]
pub enum Format {
    /// The payload sits in a child of `Localize/` that holds `StoryData/`.
    Compatible,
    /// The payload is the bundle's root.
    New,
    /// Any other tag; such a package cannot be installed.
    Unknown(String),
}

/// The mathematical value of a [`Format`].
pub enum FormatView {
    Compatible,
    New,
    Unknown(Seq<char>),
}

impl View for Format {
    type V = FormatView;

    open spec fn view(&self) -> FormatView {
        match self {
            Format::Compatible => FormatView::Compatible,
            Format::New => FormatView::New,
            Format::Unknown(tag) => FormatView::Unknown(tag@),
        }
    }
}

/// The format a catalog tag stands for.
pub open spec fn format_of_tag(tag: Seq<char>) -> FormatView {
    if tag == "compatible"@ {
        FormatView::Compatible
    } else if tag == "new"@ {
        FormatView::New
    } else {
        FormatView::Unknown(tag)
    }
}

/// The catalog tag of a format.
pub open spec fn tag_of_format(format: FormatView) -> Seq<char> {
    match format {
        FormatView::Compatible => "compatible"@,
        FormatView::New => "new"@,
        FormatView::Unknown(tag) => tag,
    }
}

impl Format {
    /// Reads a catalog tag: `"compatible"` and `"new"` are the two known
    /// formats, every other string is kept as an unknown one.
    pub fn from_tag(tag: &str) -> (format: Format)
        ensures
            format@ == format_of_tag(tag@),
    {
        if same_text(tag, "compatible") {
            Format::Compatible
        } else if same_text(tag, "new") {
            Format::New
        } else {
            Format::Unknown(tag.to_owned())
        }
    }

    /// The tag this format is written as in a catalog.
    pub fn tag(&self) -> (tag: String)
        ensures
            tag@ == tag_of_format(self@),
    {
        match self {
            Format::Compatible => "compatible".to_owned(),
            Format::New => "new".to_owned(),
            Format::Unknown(tag) => tag.clone(),
        }
    }

    /// Whether the format is one of the two this crate can install.
    pub fn is_known(&self) -> (known: bool)
        ensures
            known == !(self@ is Unknown),
    {
        match self {
            Format::Unknown(_) => false,
            _ => true,
        }
    }

    /// Refuses a format this crate cannot install, naming its tag. An
    /// install asks this first, before it touches any file.
    pub fn ensure_known(&self) -> (outcome: Result<(), LauncherError>)
        ensures
            match self@ {
                FormatView::Unknown(tag) => outcome matches Err(e) && e@
                    == LauncherErrorView::UnknownFormat(tag),
                _ => outcome is Ok,
            },
    {
        match self {
            Format::Unknown(tag) => Err(LauncherError::UnknownFormat(tag.clone())),
            _ => Ok(()),
        }
    }
}

impl Clone for Format {
    fn clone(&self) -> (copy: Self)
        ensures
            copy@ == self@,
    {
        match self {
            Format::Compatible => Format::Compatible,
            Format::New => Format::New,
            Format::Unknown(tag) => Format::Unknown(tag.clone()),
        }
    }
}

/// Reading a tag and writing it back gives the same tag.
pub proof fn tag_round_trip(tag: Seq<char>)
    ensures
        tag_of_format(format_of_tag(tag)) == tag,
{
}

/// A format that came from a tag is written back as a tag that reads as the
/// same format.
pub proof fn format_round_trip(tag: Seq<char>)
    ensures
        format_of_tag(tag_of_format(format_of_tag(tag))) == format_of_tag(tag),
{
}

/// A shared font asset: where to download it and what it must hash to.
#[derive(Debug)]
pub struct Font {
    pub url: String,
    pub hash: String,
}

/// The mathematical value of a [`Font`].
pub struct FontView {
    pub url: Seq<char>,
    pub hash: Seq<char>,
}

impl View for Font {
    type V = FontView;

    open spec fn view(&self) -> FontView {
        FontView { url: self.url@, hash: self.hash@ }
    }
}

impl Clone for Font {
    fn clone(&self) -> (copy: Self)
        ensures
            copy@ == self@,
    {
        Font { url: self.url.clone(), hash: self.hash.clone() }
    }
}

/// One package of a catalog.
#[derive(Debug)]
pub struct Localization {
    pub id: String,
    pub version: String,
    pub name: String,
    pub flag: String,
    pub icon: String,
    pub description: String,
    pub authors: Vec<String>,
    pub url: String,
    pub font: Font,
    pub format: Format,
}

/// The mathematical value of a [`Localization`].
pub struct LocalizationView {
    pub id: Seq<char>,
    pub version: Seq<char>,
    pub name: Seq<char>,
    pub flag: Seq<char>,
    pub icon: Seq<char>,
    pub description: Seq<char>,
    pub authors: Seq<Seq<char>>,
    pub url: Seq<char>,
    pub font: FontView,
    pub format: FormatView,
}

impl View for Localization {
    type V = LocalizationView;

    open spec fn view(&self) -> LocalizationView {
        LocalizationView {
            id: self.id@,
            version: self.version@,
            name: self.name@,
            flag: self.flag@,
            icon: self.icon@,
            description: self.description@,
            authors: strings_view(self.authors@),
            url: self.url@,
            font: self.font@,
            format: self.format@,
        }
    }
}

impl Clone for Localization {
    fn clone(&self) -> (copy: Self)
        ensures
            copy@ == self@,
    {
        Localization {
            id: self.id.clone(),
            version: self.version.clone(),
            name: self.name.clone(),
            flag: self.flag.clone(),
            icon: self.icon.clone(),
            description: self.description.clone(),
            authors: copy_strings(&self.authors),
            url: self.url.clone(),
            font: self.font.clone(),
            format: self.format.clone(),
        }
    }
}

/// The values of a list of packages, in order.
pub open spec fn packages_view(packages: Seq<Localization>) -> Seq<LocalizationView> {
    packages.map_values(|package: Localization| package@)
}

/// An owned copy of a list of packages.
pub fn copy_packages(packages: &Vec<Localization>) -> (copy: Vec<Localization>)
    ensures
        packages_view(copy@) == packages_view(packages@),
{
    let mut copy: Vec<Localization> = Vec::new();
    let mut i: usize = 0;
    while i < packages.len()
        invariant
            i <= packages.len(),
            copy.len() == i,
            forall|j: int| 0 <= j < i ==> copy@[j]@ == packages@[j]@,
        decreases packages.len() - i,
    {
        copy.push(packages[i].clone());
        i += 1;
    }
    copy
}

/// The ids of a list of packages, in order.
pub open spec fn package_ids(packages: Seq<LocalizationView>) -> Seq<Seq<char>> {
    packages.map_values(|package: LocalizationView| package.id)
}

/// The position of the first package with the given id, if there is one.
pub open spec fn position_of(packages: Seq<LocalizationView>, id: Seq<char>) -> Option<int> {
    first_index(package_ids(packages), id)
}

/// Finds the first package of `packages` whose id is `id`.
pub fn find_package(packages: &Vec<Localization>, id: &str) -> (found: Option<usize>)
    ensures
        match found {
            Some(i) => i < packages.len() && position_of(packages_view(packages@), id@) == Some(
                i as int,
            ),
            None => position_of(packages_view(packages@), id@) is None,
        },
{
    let ghost all = packages_view(packages@);
    let mut i: usize = 0;
    while i < packages.len()
        invariant
            i <= packages.len(),
            all == packages_view(packages@),
            forall|j: int| 0 <= j < i ==> package_ids(all)[j] != id@,
        decreases packages.len() - i,
    {
        assert(package_ids(all)[i as int] == packages@[i as int]@.id);
        if same_text(packages[i].id.as_str(), id) {
            proof {
                first_index_is_first(package_ids(all), id@);
            }
            return Some(i);
        }
        i += 1;
    }
    proof {
        first_index_is_first(package_ids(all), id@);
    }
    None
}

/// A catalog document as a source publishes it: the full list of packages.
#[derive(Debug)]
pub struct AvailableLocalizations {
    localizations: Vec<Localization>,
}

impl View for AvailableLocalizations {
    type V = Seq<LocalizationView>;

    closed spec fn view(&self) -> Seq<LocalizationView> {
        packages_view(self.localizations@)
    }
}

impl AvailableLocalizations {
    /// A catalog document holding the given packages, in the given order.
    pub fn new(localizations: Vec<Localization>) -> (catalog: Self)
        ensures
            catalog@ == packages_view(localizations@),
    {
        AvailableLocalizations { localizations }
    }

    /// The packages of the document, in the order it lists them.
    pub fn into_localizations(self) -> (packages: Vec<Localization>)
        ensures
            packages_view(packages@) == self@,
    {
        self.localizations
    }
}

/// Whether an HTTP status code is in the success range, 200 to 299.
pub open spec fn is_success_status(code: u16) -> bool {
    200 <= code < 300
}

/// Accepts a response to a request for `url` by its status code alone.
pub fn check_status(transfer: Transfer, url: &str, code: u16, reason: &str) -> (outcome: Result<
    (),
    LauncherError,
>)
    ensures
        is_success_status(code) ==> outcome is Ok,
        !is_success_status(code) ==> (outcome matches Err(e) && e@
            == (LauncherErrorView::HttpStatus { transfer, url: url@, code, reason: reason@ })),
{
    if 200 <= code && code < 300 {
        Ok(())
    } else {
        Err(
            LauncherError::HttpStatus {
                transfer,
                url: url.to_owned(),
                code,
                reason: reason.to_owned(),
            },
        )
    }
}

/// What a source answered to a request for its catalog.
#[derive(Debug)]
pub enum CatalogResponse {
    /// No response arrived; the text says why.
    Failed(String),
    /// A response arrived with this status; `body` is the decoded document,
    /// or the decoder's complaint.
    Answered { code: u16, reason: String, body: Result<AvailableLocalizations, String> },
}

/// What a response to a request for the catalog at `url` amounts to: a
/// transport failure first, then a status outside the success range, then a
/// body that does not decode; the packages otherwise.
pub open spec fn catalog_outcome(
    url: Seq<char>,
    response: CatalogResponse,
) -> Result<Seq<LocalizationView>, LauncherErrorView> {
    match response {
        CatalogResponse::Failed(detail) => Err(
            LauncherErrorView::Network { transfer: Transfer::Catalog, url, detail: detail@ },
        ),
        CatalogResponse::Answered { code, reason, body } => if !is_success_status(code) {
            Err(
                LauncherErrorView::HttpStatus {
                    transfer: Transfer::Catalog,
                    url,
                    code,
                    reason: reason@,
                },
            )
        } else {
            match body {
                Ok(document) => Ok(document@),
                Err(detail) => Err(LauncherErrorView::Parse(detail@)),
            }
        },
    }
}

/// The value of a list of packages, or of the error in its place.
pub open spec fn fetched_view(outcome: Result<Vec<Localization>, LauncherError>) -> Result<
    Seq<LocalizationView>,
    LauncherErrorView,
> {
    match outcome {
        Ok(packages) => Ok(packages_view(packages@)),
        Err(e) => Err(e@),
    }
}

/// The packages a response to a request for the catalog at `url` stands
/// for, or the failure it amounts to.
pub fn fetch_available_localizations(url: &str, response: CatalogResponse) -> (outcome: Result<
    Vec<Localization>,
    LauncherError,
>)
    ensures
        fetched_view(outcome) == catalog_outcome(url@, response),
{
    match response {
        CatalogResponse::Failed(detail) => Err(
            LauncherError::Network { transfer: Transfer::Catalog, url: url.to_owned(), detail },
        ),
        CatalogResponse::Answered { code, reason, body } => {
            match check_status(Transfer::Catalog, url, code, reason.as_str()) {
                Err(e) => Err(e),
                Ok(()) => match body {
                    Ok(document) => Ok(document.into_localizations()),
                    Err(detail) => Err(LauncherError::Parse(detail)),
                },
            }
        },
    }
}

} // verus!
