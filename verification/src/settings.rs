//! Launcher settings: the configured sources and the choices of the user.

use vstd::prelude::*;
use crate::error::{LauncherError, LauncherErrorView};
use crate::text::{first_index, first_index_is_first, optional_view, same_text};

verus! {

/// A place that publishes a catalog.
#[derive(Debug)]
pub struct LocalizationSource {
    pub name: String,
    pub url: String,
}

/// The mathematical value of a [`LocalizationSource`].
pub struct SourceView {
    pub name: Seq<char>,
    pub url: Seq<char>,
}

impl View for LocalizationSource {
    type V = SourceView;

    open spec fn view(&self) -> SourceView {
        SourceView { name: self.name@, url: self.url@ }
    }
}

impl Clone for LocalizationSource {
    fn clone(&self) -> (copy: Self)
        ensures
            copy@ == self@,
    {
        LocalizationSource { name: self.name.clone(), url: self.url.clone() }
    }
}

/// A configured source under the key the settings know it by.
#[derive(Debug)]
pub struct SourceEntry {
    pub key: String,
    pub source: LocalizationSource,
}

/// The mathematical value of a [`SourceEntry`].
pub struct SourceEntryView {
    pub key: Seq<char>,
    pub source: SourceView,
}

impl View for SourceEntry {
    type V = SourceEntryView;

    open spec fn view(&self) -> SourceEntryView {
        SourceEntryView { key: self.key@, source: self.source@ }
    }
}

impl Clone for SourceEntry {
    fn clone(&self) -> (copy: Self)
        ensures
            copy@ == self@,
    {
        SourceEntry { key: self.key.clone(), source: self.source.clone() }
    }
}

/// An owned copy of an optional string.
pub fn copy_optional(text: &Option<String>) -> (copy: Option<String>)
    ensures
        optional_view(copy) == optional_view(*text),
{
    match text {
        Some(t) => Some(t.clone()),
        None => None,
    }
}

/// Whether two optional strings hold the same value.
pub fn same_optional(a: &Option<String>, b: &Option<String>) -> (same: bool)
    ensures
        same == (optional_view(*a) == optional_view(*b)),
{
    match (a, b) {
        (Some(x), Some(y)) => same_text(x.as_str(), y.as_str()),
        (None, None) => true,
        _ => false,
    }
}

/// What the user has configured.
#[derive(Debug)]
pub struct AppSettings {
    /// The configured sources; of two entries with one key the first counts.
    pub sources: Vec<SourceEntry>,
    pub selected_source: Option<String>,
    pub game_directory: Option<String>,
    pub language: Option<String>,
}

/// The mathematical value of [`AppSettings`].
pub struct SettingsView {
    pub sources: Seq<SourceEntryView>,
    pub selected_source: Option<Seq<char>>,
    pub game_directory: Option<Seq<char>>,
    pub language: Option<Seq<char>>,
}

/// The values of a list of sources, in order.
pub open spec fn sources_view(sources: Seq<SourceEntry>) -> Seq<SourceEntryView> {
    sources.map_values(|entry: SourceEntry| entry@)
}

/// The keys of a list of sources, in order.
pub open spec fn source_keys(sources: Seq<SourceEntryView>) -> Seq<Seq<char>> {
    sources.map_values(|entry: SourceEntryView| entry.key)
}

impl View for AppSettings {
    type V = SettingsView;

    open spec fn view(&self) -> SettingsView {
        SettingsView {
            sources: sources_view(self.sources@),
            selected_source: optional_view(self.selected_source),
            game_directory: optional_view(self.game_directory),
            language: optional_view(self.language),
        }
    }
}

/// The source that is selected and where its catalog is.
#[derive(Debug)]
pub struct ActiveSource {
    pub name: String,
    pub url: String,
}

/// The source configured under `key`, if there is one.
pub open spec fn source_under(sources: Seq<SourceEntryView>, key: Seq<char>) -> Option<SourceView> {
    match first_index(source_keys(sources), key) {
        Some(i) => Some(sources[i].source),
        None => None,
    }
}

/// The name and catalog address of the selected source: there is one when a
/// source is selected and configured under that name.
pub open spec fn active_source_of(settings: SettingsView) -> Option<(Seq<char>, Seq<char>)> {
    match settings.selected_source {
        Some(name) => match source_under(settings.sources, name) {
            Some(source) => Some((name, source.url)),
            None => None,
        },
        None => None,
    }
}

impl AppSettings {
    /// Settings with no source configured and nothing chosen.
    pub fn default() -> (settings: Self)
        ensures
            settings@ == (SettingsView {
                sources: Seq::empty(),
                selected_source: None,
                game_directory: None,
                language: None,
            }),
    {
        let settings = AppSettings {
            sources: Vec::new(),
            selected_source: None,
            game_directory: None,
            language: None,
        };
        assert(settings@.sources =~= Seq::empty());
        settings
    }

    /// The source configured under `key`, if there is one.
    pub fn source(&self, key: &str) -> (found: Option<LocalizationSource>)
        ensures
            match found {
                Some(source) => source_under(self@.sources, key@) == Some(source@),
                None => source_under(self@.sources, key@) is None,
            },
    {
        let ghost keys = source_keys(self@.sources);
        let mut i: usize = 0;
        while i < self.sources.len()
            invariant
                i <= self.sources.len(),
                keys == source_keys(self@.sources),
                forall|j: int| 0 <= j < i ==> keys[j] != key@,
            decreases self.sources.len() - i,
        {
            assert(keys[i as int] == self.sources@[i as int]@.key);
            if same_text(self.sources[i].key.as_str(), key) {
                proof {
                    first_index_is_first(keys, key@);
                }
                return Some(self.sources[i].source.clone());
            }
            i += 1;
        }
        proof {
            first_index_is_first(keys, key@);
        }
        None
    }

    /// The selected source and its catalog address, or `NoActiveSource` when
    /// none is selected or the selected one is not configured.
    pub fn active_source(&self) -> (outcome: Result<ActiveSource, LauncherError>)
        ensures
            match outcome {
                Ok(active) => active_source_of(self@) == Some((active.name@, active.url@)),
                Err(e) => active_source_of(self@) is None && e@
                    == LauncherErrorView::NoActiveSource,
            },
    {
        match &self.selected_source {
            Some(name) => match self.source(name.as_str()) {
                Some(source) => Ok(ActiveSource { name: name.clone(), url: source.url }),
                None => Err(LauncherError::NoActiveSource),
            },
            None => Err(LauncherError::NoActiveSource),
        }
    }

    /// Whether `other` selects another source than these settings do.
    pub fn selects_other_source(&self, other: &AppSettings) -> (changed: bool)
        ensures
            changed == (self@.selected_source != other@.selected_source),
    {
        !same_optional(&self.selected_source, &other.selected_source)
    }
}

impl Clone for AppSettings {
    fn clone(&self) -> (copy: Self)
        ensures
            copy@ == self@,
    {
        let mut sources: Vec<SourceEntry> = Vec::new();
        let mut i: usize = 0;
        while i < self.sources.len()
            invariant
                i <= self.sources.len(),
                sources.len() == i,
                forall|j: int| 0 <= j < i ==> sources@[j]@ == self.sources@[j]@,
            decreases self.sources.len() - i,
        {
            sources.push(self.sources[i].clone());
            i += 1;
        }
        assert(sources_view(sources@) =~= sources_view(self.sources@));
        AppSettings {
            sources,
            selected_source: copy_optional(&self.selected_source),
            game_directory: copy_optional(&self.game_directory),
            language: copy_optional(&self.language),
        }
    }
}

} // verus!
