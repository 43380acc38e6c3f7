//! Where things live under the game's directory.
//!
//! A path is a list of components below the game's directory; the caller
//! joins them to the directory it works in.

use vstd::prelude::*;
use crate::text::{joined, strings_view};

verus! {

/// `LimbusCompany_Data/Lang`, the directory that holds installed packages.
pub open spec fn lang_path() -> Seq<Seq<char>> {
    seq!["LimbusCompany_Data"@, "Lang"@]
}

/// `LimbusCompany_Data/Lang/<id>`, the directory of an installed package.
pub open spec fn package_path(id: Seq<char>) -> Seq<Seq<char>> {
    seq!["LimbusCompany_Data"@, "Lang"@, id]
}

/// `LimbusCompany_Data/Lang/<id>/Fonts`, where a package's font goes.
pub open spec fn fonts_path(id: Seq<char>) -> Seq<Seq<char>> {
    seq!["LimbusCompany_Data"@, "Lang"@, id, "Fonts"@]
}

/// `LimbusCompany_Data/Lang/<id>/Fonts/<file>`, a package's font.
pub open spec fn installed_font_path(id: Seq<char>, file: Seq<char>) -> Seq<Seq<char>> {
    seq!["LimbusCompany_Data"@, "Lang"@, id, "Fonts"@, file]
}

/// `FontCache`, the directory fonts are shared from.
pub open spec fn font_cache_path() -> Seq<Seq<char>> {
    seq!["FontCache"@]
}

/// `FontCache/<file>`, a cached font.
pub open spec fn cached_font_path(file: Seq<char>) -> Seq<Seq<char>> {
    seq!["FontCache"@, file]
}

/// `<hash>.<extension>`, the name a font is stored under.
pub open spec fn font_file_name_of(hash: Seq<char>, extension: Seq<char>) -> Seq<char> {
    hash + "."@ + extension
}

/// `limbus_loc_<id>`, the prefix of the working directory of an install.
pub open spec fn temp_prefix_of(id: Seq<char>) -> Seq<char> {
    "limbus_loc_"@ + id
}

/// The directory that holds installed packages.
pub fn lang_directory() -> (path: Vec<String>)
    ensures
        strings_view(path@) == lang_path(),
{
    let mut path: Vec<String> = Vec::new();
    path.push("LimbusCompany_Data".to_owned());
    path.push("Lang".to_owned());
    path
}

/// The directory of the installed package `id`.
pub fn package_directory(id: &str) -> (path: Vec<String>)
    ensures
        strings_view(path@) == package_path(id@),
{
    let mut path: Vec<String> = Vec::new();
    path.push("LimbusCompany_Data".to_owned());
    path.push("Lang".to_owned());
    path.push(id.to_owned());
    path
}

/// The directory the font of package `id` goes to.
pub fn fonts_directory(id: &str) -> (path: Vec<String>)
    ensures
        strings_view(path@) == fonts_path(id@),
{
    let mut path: Vec<String> = Vec::new();
    path.push("LimbusCompany_Data".to_owned());
    path.push("Lang".to_owned());
    path.push(id.to_owned());
    path.push("Fonts".to_owned());
    path
}

/// The place of the font `file` of package `id`.
pub fn installed_font(id: &str, file: &str) -> (path: Vec<String>)
    ensures
        strings_view(path@) == installed_font_path(id@, file@),
{
    let mut path: Vec<String> = Vec::new();
    path.push("LimbusCompany_Data".to_owned());
    path.push("Lang".to_owned());
    path.push(id.to_owned());
    path.push("Fonts".to_owned());
    path.push(file.to_owned());
    path
}

/// The directory fonts are shared from.
pub fn font_cache_directory() -> (path: Vec<String>)
    ensures
        strings_view(path@) == font_cache_path(),
{
    let mut path: Vec<String> = Vec::new();
    path.push("FontCache".to_owned());
    path
}

/// The place of the cached font `file`.
pub fn cached_font(file: &str) -> (path: Vec<String>)
    ensures
        strings_view(path@) == cached_font_path(file@),
{
    let mut path: Vec<String> = Vec::new();
    path.push("FontCache".to_owned());
    path.push(file.to_owned());
    path
}

/// The name a font with the given hash and extension is stored under.
pub fn font_file_name(hash: &str, extension: &str) -> (name: String)
    ensures
        name@ == font_file_name_of(hash@, extension@),
{
    let stem = joined(hash, ".");
    joined(stem.as_str(), extension)
}

/// The prefix of the name of the working directory in which package `id` is
/// unpacked.
pub fn create_temp_directory(id: &str) -> (prefix: String)
    ensures
        prefix@ == temp_prefix_of(id@),
{
    joined("limbus_loc_", id)
}

/// The name a downloaded bundle is saved under in its working directory.
pub fn bundle_file_name() -> (name: String)
    ensures
        name@ == "localization.zip"@,
{
    "localization.zip".to_owned()
}

/// Every installed package lives below the directory of installed packages,
/// in a directory of its own, and its font below that.
pub proof fn package_lives_under_lang(id: Seq<char>, file: Seq<char>)
    ensures
        lang_path().is_prefix_of(package_path(id)),
        package_path(id).is_prefix_of(fonts_path(id)),
        fonts_path(id).is_prefix_of(installed_font_path(id, file)),
        package_path(id).len() == lang_path().len() + 1,
        package_path(id).last() == id,
{
}

/// The font cache is no part of the directory of installed packages.
pub proof fn cache_is_apart_from_lang(file: Seq<char>)
    ensures
        !lang_path().is_prefix_of(cached_font_path(file)),
        !lang_path().is_prefix_of(font_cache_path()),
{
    reveal_strlit("LimbusCompany_Data");
    reveal_strlit("FontCache");
    assert("LimbusCompany_Data"@.len() != "FontCache"@.len());
}

} // verus!
