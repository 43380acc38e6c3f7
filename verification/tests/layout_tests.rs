use limbus_launcher::layout::{
    bundle_file_name, cached_font, create_temp_directory, font_cache_directory, font_file_name,
    fonts_directory, installed_font, lang_directory, package_directory,
};
use limbus_launcher::paths::join_paths;

fn path(parts: &[&str]) -> Vec<String> {
    parts.iter().map(|p| p.to_string()).collect()
}

#[test]
fn installed_packages_live_under_lang() {
    assert_eq!(lang_directory(), path(&["LimbusCompany_Data", "Lang"]));
    assert_eq!(package_directory("en"), path(&["LimbusCompany_Data", "Lang", "en"]));
    assert_eq!(fonts_directory("en"), path(&["LimbusCompany_Data", "Lang", "en", "Fonts"]));
    assert_eq!(
        installed_font("en", "abc.ttf"),
        path(&["LimbusCompany_Data", "Lang", "en", "Fonts", "abc.ttf"])
    );
}

#[test]
fn fonts_are_shared_from_the_font_cache() {
    assert_eq!(font_cache_directory(), path(&["FontCache"]));
    assert_eq!(cached_font("abc.otf"), path(&["FontCache", "abc.otf"]));
}

#[test]
fn font_file_name_joins_hash_and_extension() {
    assert_eq!(font_file_name("abc", "ttf"), "abc.ttf");
    assert_eq!(font_file_name("", "otf"), ".otf");
}

#[test]
fn working_directory_is_named_after_the_package() {
    assert_eq!(create_temp_directory("en"), "limbus_loc_en");
    assert_eq!(create_temp_directory(""), "limbus_loc_");
    assert_eq!(bundle_file_name(), "localization.zip");
}

#[test]
fn joined_path_is_the_tail_below_the_head() {
    assert_eq!(join_paths(&path(&["a", "b"]), &path(&["c"])), path(&["a", "b", "c"]));
    assert_eq!(join_paths(&path(&[]), &path(&["c", "d"])), path(&["c", "d"]));
    assert_eq!(join_paths(&path(&["a"]), &path(&[])), path(&["a"]));
    assert!(join_paths(&path(&[]), &path(&[])).is_empty());
}
