use limbus_launcher::catalog::{Font, Format, Localization};
use limbus_launcher::error::{LauncherError, Transfer};
use limbus_launcher::fonts::{
    cache_decision, download_and_validate_font, font_extension, font_file,
    install_fonts_for_localization, needs_copy, plan_font_install, whitelisted_extension,
    CacheDecision, Download, FileProbe, FontResponse, FontStep,
};

const HASH: &str = "5eb63bbbe01eeed093cb22bb8f5acdc3";

fn package(id: &str, font_url: &str) -> Localization {
    Localization {
        id: id.to_string(),
        version: "1".to_string(),
        name: String::new(),
        flag: String::new(),
        icon: String::new(),
        description: String::new(),
        authors: Vec::new(),
        url: String::new(),
        font: Font { url: font_url.to_string(), hash: HASH.to_string() },
        format: Format::New,
    }
}

fn path(parts: &[&str]) -> Vec<String> {
    parts.iter().map(|p| p.to_string()).collect()
}

fn describe(step: &FontStep) -> String {
    match step {
        FontStep::CreateDirectory(p) => format!("mkdir {}", p.join("/")),
        FontStep::RemoveFile(p) => format!("rm {}", p.join("/")),
        FontStep::Download { url, destination, expected } => {
            format!("get {} -> {} ({})", url, destination.join("/"), expected)
        }
        FontStep::CopyFile { from, to } => format!("cp {} -> {}", from.join("/"), to.join("/")),
    }
}

fn described(steps: &[FontStep]) -> Vec<String> {
    steps.iter().map(describe).collect()
}

#[test]
fn extension_is_taken_from_the_address() {
    assert_eq!(font_extension("https://example.org/fonts/main.ttf"), "ttf");
    assert_eq!(font_extension("https://example.org/fonts/main.otf"), "otf");
}

#[test]
fn extension_is_lowercased() {
    assert_eq!(font_extension("https://example.org/fonts/main.OTF"), "otf");
    assert_eq!(font_extension("https://example.org/fonts/main.Otf"), "otf");
    assert_eq!(font_extension("https://example.org/fonts/main.TTF"), "ttf");
}

#[test]
fn other_extensions_fall_back_to_ttf() {
    assert_eq!(font_extension("https://example.org/fonts/main.woff2"), "ttf");
    assert_eq!(font_extension("https://example.org/fonts/main.zip"), "ttf");
    assert_eq!(font_extension("https://example.org/fonts/main.otf?download=1"), "ttf");
    assert_eq!(font_extension("https://example.org/fonts/main.otf.bak"), "ttf");
}

#[test]
fn missing_extension_falls_back_to_ttf() {
    assert_eq!(font_extension("https://example.org/fonts/main"), "ttf");
    assert_eq!(font_extension(""), "ttf");
    assert_eq!(font_extension("otf"), "ttf");
    assert_eq!(font_extension(".otf"), "ttf");
}

#[test]
fn whitelist_knows_two_extensions() {
    assert_eq!(whitelisted_extension(&Some("otf".to_string())), "otf");
    assert_eq!(whitelisted_extension(&Some("ttf".to_string())), "ttf");
    assert_eq!(whitelisted_extension(&Some("exe".to_string())), "ttf");
    assert_eq!(whitelisted_extension(&Some("OTF".to_string())), "ttf");
    assert_eq!(whitelisted_extension(&Some(String::new())), "ttf");
    assert_eq!(whitelisted_extension(&None), "ttf");
}

#[test]
fn font_file_is_named_by_hash_and_extension() {
    let font = Font { url: "https://example.org/a/b.otf".to_string(), hash: HASH.to_string() };
    assert_eq!(font_file(&font), format!("{}.otf", HASH));
    let font = Font { url: "https://example.org/a/b".to_string(), hash: "abc".to_string() };
    assert_eq!(font_file(&font), "abc.ttf");
}

#[test]
fn cache_is_reused_only_when_the_digest_matches() {
    assert_eq!(cache_decision(&FileProbe::Hashed(HASH.to_string()), HASH), CacheDecision::Reuse);
    assert_eq!(
        cache_decision(&FileProbe::Hashed("0000".to_string()), HASH),
        CacheDecision::PurgeThenDownload
    );
    assert_eq!(
        cache_decision(&FileProbe::Hashed(HASH.to_uppercase()), HASH),
        CacheDecision::PurgeThenDownload
    );
    assert_eq!(cache_decision(&FileProbe::Unreadable, HASH), CacheDecision::PurgeThenDownload);
    assert_eq!(cache_decision(&FileProbe::Missing, HASH), CacheDecision::Download);
}

#[test]
fn copy_is_skipped_only_when_the_target_matches() {
    assert!(!needs_copy(&FileProbe::Hashed(HASH.to_string()), HASH));
    assert!(needs_copy(&FileProbe::Hashed("other".to_string()), HASH));
    assert!(needs_copy(&FileProbe::Unreadable, HASH));
    assert!(needs_copy(&FileProbe::Missing, HASH));
}

#[test]
fn download_with_the_expected_digest_is_accepted() {
    let response = FontResponse::Answered {
        code: 200,
        reason: "200 OK".to_string(),
        body: Ok(Download { digest: HASH.to_string(), saved_to: "\"f.tmp_download\"".to_string() }),
    };
    assert!(download_and_validate_font("https://example.org/f.ttf", HASH, response).is_ok());
}

#[test]
fn download_with_another_digest_is_a_hash_mismatch() {
    let response = FontResponse::Answered {
        code: 200,
        reason: "200 OK".to_string(),
        body: Ok(Download {
            digest: "d41d8cd98f00b204e9800998ecf8427e".to_string(),
            saved_to: "\"/g/FontCache/x.tmp_download\"".to_string(),
        }),
    };
    match download_and_validate_font("https://example.org/f.ttf", HASH, response) {
        Err(LauncherError::HashMismatch { url, expected, calculated, discarded }) => {
            assert_eq!(url, "https://example.org/f.ttf");
            assert_eq!(expected, HASH);
            assert_eq!(calculated, "d41d8cd98f00b204e9800998ecf8427e");
            assert_eq!(discarded, "\"/g/FontCache/x.tmp_download\"");
        }
        _ => panic!("expected a hash mismatch"),
    }
}

#[test]
fn failed_download_is_refused_before_hashes_are_compared() {
    let response = FontResponse::Answered {
        code: 404,
        reason: "404 Not Found".to_string(),
        body: Ok(Download { digest: HASH.to_string(), saved_to: String::new() }),
    };
    match download_and_validate_font("u", HASH, response) {
        Err(LauncherError::HttpStatus { transfer, url, code, reason }) => {
            assert_eq!(transfer, Transfer::Font);
            assert_eq!(url, "u");
            assert_eq!(code, 404);
            assert_eq!(reason, "404 Not Found");
        }
        _ => panic!("expected a status error"),
    }
    match download_and_validate_font("u", HASH, FontResponse::Failed("reset".to_string())) {
        Err(LauncherError::Network { transfer, url, detail }) => {
            assert_eq!(transfer, Transfer::Font);
            assert_eq!(url, "u");
            assert_eq!(detail, "reset");
        }
        _ => panic!("expected a network error"),
    }
}

#[test]
fn first_install_downloads_and_copies() {
    let steps = install_fonts_for_localization(
        &package("en", "https://example.org/f.otf"),
        &FileProbe::Missing,
        &FileProbe::Missing,
    );
    assert_eq!(
        described(&steps),
        vec![
            "mkdir FontCache".to_string(),
            format!("get https://example.org/f.otf -> FontCache/{}.otf ({})", HASH, HASH),
            "mkdir LimbusCompany_Data/Lang/en/Fonts".to_string(),
            format!("cp FontCache/{}.otf -> LimbusCompany_Data/Lang/en/Fonts/{}.otf", HASH, HASH),
        ]
    );
}

#[test]
fn valid_cache_means_no_network_call() {
    let steps = install_fonts_for_localization(
        &package("en", "https://example.org/f.ttf"),
        &FileProbe::Hashed(HASH.to_string()),
        &FileProbe::Missing,
    );
    assert_eq!(
        described(&steps),
        vec![
            "mkdir FontCache".to_string(),
            "mkdir LimbusCompany_Data/Lang/en/Fonts".to_string(),
            format!("cp FontCache/{}.ttf -> LimbusCompany_Data/Lang/en/Fonts/{}.ttf", HASH, HASH),
        ]
    );
    assert!(!steps.iter().any(|s| matches!(s, FontStep::Download { .. })));
}

#[test]
fn stale_cache_is_deleted_and_downloaded_exactly_once() {
    let steps = install_fonts_for_localization(
        &package("en", "https://example.org/f.ttf"),
        &FileProbe::Hashed("0123".to_string()),
        &FileProbe::Missing,
    );
    assert_eq!(
        described(&steps),
        vec![
            "mkdir FontCache".to_string(),
            format!("rm FontCache/{}.ttf", HASH),
            format!("get https://example.org/f.ttf -> FontCache/{}.ttf ({})", HASH, HASH),
            "mkdir LimbusCompany_Data/Lang/en/Fonts".to_string(),
            format!("cp FontCache/{}.ttf -> LimbusCompany_Data/Lang/en/Fonts/{}.ttf", HASH, HASH),
        ]
    );
    assert_eq!(steps.iter().filter(|s| matches!(s, FontStep::Download { .. })).count(), 1);
    assert_eq!(steps.iter().filter(|s| matches!(s, FontStep::RemoveFile(_))).count(), 1);
}

#[test]
fn unreadable_cache_is_deleted_and_downloaded() {
    let steps = install_fonts_for_localization(
        &package("en", "https://example.org/f.ttf"),
        &FileProbe::Unreadable,
        &FileProbe::Hashed(HASH.to_string()),
    );
    assert_eq!(
        described(&steps),
        vec![
            "mkdir FontCache".to_string(),
            format!("rm FontCache/{}.ttf", HASH),
            format!("get https://example.org/f.ttf -> FontCache/{}.ttf ({})", HASH, HASH),
            "mkdir LimbusCompany_Data/Lang/en/Fonts".to_string(),
        ]
    );
}

#[test]
fn second_install_of_the_same_package_moves_nothing() {
    let steps = install_fonts_for_localization(
        &package("en", "https://example.org/f.ttf"),
        &FileProbe::Hashed(HASH.to_string()),
        &FileProbe::Hashed(HASH.to_string()),
    );
    assert_eq!(
        described(&steps),
        vec!["mkdir FontCache".to_string(), "mkdir LimbusCompany_Data/Lang/en/Fonts".to_string()]
    );
}

#[test]
fn mismatching_target_is_overwritten() {
    let steps = install_fonts_for_localization(
        &package("kr", "https://example.org/f.ttf"),
        &FileProbe::Hashed(HASH.to_string()),
        &FileProbe::Hashed("ffff".to_string()),
    );
    assert_eq!(steps.len(), 3);
    match &steps[2] {
        FontStep::CopyFile { from, to } => {
            assert_eq!(from, &path(&["FontCache", &format!("{}.ttf", HASH)]));
            assert_eq!(
                to,
                &path(&["LimbusCompany_Data", "Lang", "kr", "Fonts", &format!("{}.ttf", HASH)])
            );
        }
        _ => panic!("expected a copy"),
    }
}

#[test]
fn plan_uses_the_extension_it_is_given() {
    let steps = plan_font_install(
        &package("en", "https://example.org/f.bin"),
        "otf",
        &FileProbe::Missing,
        &FileProbe::Missing,
    );
    match &steps[1] {
        FontStep::Download { url, destination, expected } => {
            assert_eq!(url, "https://example.org/f.bin");
            assert_eq!(destination, &path(&["FontCache", &format!("{}.otf", HASH)]));
            assert_eq!(expected, HASH);
        }
        _ => panic!("expected a download"),
    }
}

#[test]
fn broken_body_is_an_interrupted_download() {
    let response = FontResponse::Answered {
        code: 200,
        reason: "200 OK".to_string(),
        body: Err("connection closed".to_string()),
    };
    match download_and_validate_font("https://example.org/f.ttf", HASH, response) {
        Err(error) => {
            assert!(matches!(
                error,
                LauncherError::Interrupted { transfer: Transfer::Font, .. }
            ));
            assert_eq!(
                error.message(),
                "Error reading download stream from https://example.org/f.ttf: connection closed"
            );
        }
        Ok(()) => panic!("a broken body must be refused"),
    }
}

#[test]
fn extension_of_a_settled_address_is_what_follows_the_last_dot_of_its_file_name() {
    assert_eq!(font_extension("https://example.org/v1.2/font.otf"), "otf");
    assert_eq!(font_extension("https://example.org/font.otf/readme"), "ttf");
    assert_eq!(font_extension("https://example.org/a.b.OTF"), "otf");
    assert_eq!(font_extension("fonts/..."), "ttf");
    assert_eq!(font_extension("fonts/.."), "ttf");
    assert_eq!(font_extension("fonts/.otf"), "ttf");
    assert_eq!(font_extension("fonts/x.otf."), "ttf");
    assert_eq!(font_extension("x.otf"), "otf");
    assert_eq!(font_extension("/fonts/a.otf"), "otf");
    assert_eq!(font_extension("/a.OTF"), "otf");
    assert_eq!(font_extension("/fonts/a"), "ttf");
}

#[test]
fn otf_font_is_planned_as_otf() {
    let steps = install_fonts_for_localization(
        &package("en", "https://example.org/fonts/main.otf"),
        &FileProbe::Missing,
        &FileProbe::Missing,
    );
    match &steps[1] {
        FontStep::Download { destination, .. } => {
            assert_eq!(destination, &path(&["FontCache", &format!("{}.otf", HASH)]));
        }
        _ => panic!("expected a download"),
    }
    let font = Font { url: "https://example.org/fonts/main.otf".to_string(), hash: HASH.to_string() };
    assert_eq!(font_file(&font), format!("{}.otf", HASH));
}
