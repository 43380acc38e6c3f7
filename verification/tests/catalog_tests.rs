use limbus_launcher::catalog::{
    check_status, copy_packages, fetch_available_localizations, find_package,
    AvailableLocalizations, CatalogResponse, Font, Format, Localization,
};
use limbus_launcher::error::{LauncherError, Transfer};

const URL: &str = "https://example.org/catalog.json";

fn package(id: &str, version: &str) -> Localization {
    Localization {
        id: id.to_string(),
        version: version.to_string(),
        name: format!("{} name", id),
        flag: "flag.png".to_string(),
        icon: "icon.png".to_string(),
        description: "English text".to_string(),
        authors: vec!["first".to_string(), "second".to_string()],
        url: format!("https://example.org/{}.zip", id),
        font: Font {
            url: "https://example.org/font.ttf".to_string(),
            hash: "5eb63bbbe01eeed093cb22bb8f5acdc3".to_string(),
        },
        format: Format::New,
    }
}

#[test]
fn known_tags_are_read_as_known_formats() {
    assert!(matches!(Format::from_tag("compatible"), Format::Compatible));
    assert!(matches!(Format::from_tag("new"), Format::New));
}

#[test]
fn other_tags_are_kept_as_unknown_formats() {
    match Format::from_tag("legacy") {
        Format::Unknown(tag) => assert_eq!(tag, "legacy"),
        _ => panic!("an unknown tag must stay unknown"),
    }
    match Format::from_tag("") {
        Format::Unknown(tag) => assert_eq!(tag, ""),
        _ => panic!("the empty tag is unknown"),
    }
    assert!(matches!(Format::from_tag("Compatible"), Format::Unknown(_)));
    assert!(matches!(Format::from_tag("NEW"), Format::Unknown(_)));
    assert!(matches!(Format::from_tag("new "), Format::Unknown(_)));
}

#[test]
fn formats_are_written_as_their_tags() {
    assert_eq!(Format::Compatible.tag(), "compatible");
    assert_eq!(Format::New.tag(), "new");
    assert_eq!(Format::Unknown("v3".to_string()).tag(), "v3");
}

#[test]
fn tags_survive_a_round_trip() {
    for tag in ["compatible", "new", "legacy", "", "Compatible"] {
        assert_eq!(Format::from_tag(tag).tag(), tag);
    }
}

#[test]
fn only_unknown_formats_are_not_known() {
    assert!(Format::Compatible.is_known());
    assert!(Format::New.is_known());
    assert!(!Format::Unknown("x".to_string()).is_known());
}

#[test]
fn cloned_format_keeps_its_tag() {
    assert_eq!(Format::Unknown("odd".to_string()).clone().tag(), "odd");
    assert_eq!(Format::Compatible.clone().tag(), "compatible");
}

#[test]
fn find_package_returns_the_first_match() {
    let catalog = vec![package("en", "1"), package("fr", "1"), package("en", "2")];
    assert_eq!(find_package(&catalog, "en"), Some(0));
    assert_eq!(find_package(&catalog, "fr"), Some(1));
    assert_eq!(find_package(&catalog, "de"), None);
    assert_eq!(find_package(&Vec::new(), "en"), None);
}

#[test]
fn find_package_compares_whole_ids() {
    let catalog = vec![package("en-US", "1")];
    assert_eq!(find_package(&catalog, "en"), None);
    assert_eq!(find_package(&catalog, "en-US"), Some(0));
    assert_eq!(find_package(&catalog, "EN-US"), None);
}

#[test]
fn copied_packages_hold_the_same_values() {
    let catalog = vec![package("en", "1"), package("fr", "7")];
    let copy = copy_packages(&catalog);
    assert_eq!(copy.len(), 2);
    assert_eq!(copy[0].id, "en");
    assert_eq!(copy[1].id, "fr");
    assert_eq!(copy[1].version, "7");
    assert_eq!(copy[1].authors, vec!["first".to_string(), "second".to_string()]);
    assert_eq!(copy[0].font.hash, "5eb63bbbe01eeed093cb22bb8f5acdc3");
    assert_eq!(copy[0].format.tag(), "new");
}

#[test]
fn status_codes_from_200_to_299_succeed() {
    assert!(check_status(Transfer::Catalog, "u", 200, "200 OK").is_ok());
    assert!(check_status(Transfer::Bundle, "u", 204, "204 No Content").is_ok());
    assert!(check_status(Transfer::Font, "u", 299, "299").is_ok());
}

#[test]
fn status_codes_outside_the_success_range_fail() {
    for code in [0u16, 100, 199, 300, 301, 404, 500, 65535] {
        match check_status(Transfer::Bundle, "https://example.org/en.zip", code, "reason") {
            Err(LauncherError::HttpStatus { transfer, url, code: got, reason }) => {
                assert_eq!(transfer, Transfer::Bundle);
                assert_eq!(url, "https://example.org/en.zip");
                assert_eq!(got, code);
                assert_eq!(reason, "reason");
            }
            _ => panic!("status {} must be refused", code),
        }
    }
}

#[test]
fn transport_failure_is_a_network_error() {
    let outcome =
        fetch_available_localizations(URL, CatalogResponse::Failed("timed out".to_string()));
    match outcome {
        Err(LauncherError::Network { transfer, url, detail }) => {
            assert_eq!(transfer, Transfer::Catalog);
            assert_eq!(url, URL);
            assert_eq!(detail, "timed out");
        }
        _ => panic!("expected a network error"),
    }
}

#[test]
fn bad_status_wins_over_the_body() {
    let body = Ok(AvailableLocalizations::new(vec![package("en", "1")]));
    let response =
        CatalogResponse::Answered { code: 503, reason: "503 Service Unavailable".to_string(), body };
    match fetch_available_localizations(URL, response) {
        Err(LauncherError::HttpStatus { transfer, url, code, reason }) => {
            assert_eq!(transfer, Transfer::Catalog);
            assert_eq!(url, URL);
            assert_eq!(code, 503);
            assert_eq!(reason, "503 Service Unavailable");
        }
        _ => panic!("expected a status error"),
    }
}

#[test]
fn malformed_body_is_a_parse_error() {
    let response = CatalogResponse::Answered {
        code: 200,
        reason: "200 OK".to_string(),
        body: Err("missing field `id`".to_string()),
    };
    match fetch_available_localizations(URL, response) {
        Err(LauncherError::Parse(detail)) => assert_eq!(detail, "missing field `id`"),
        _ => panic!("expected a parse error"),
    }
}

#[test]
fn good_response_yields_the_packages_in_order() {
    let body = Ok(AvailableLocalizations::new(vec![package("en", "1"), package("fr", "2")]));
    let response = CatalogResponse::Answered { code: 200, reason: "200 OK".to_string(), body };
    let packages = fetch_available_localizations(URL, response).ok().unwrap();
    assert_eq!(packages.len(), 2);
    assert_eq!(packages[0].id, "en");
    assert_eq!(packages[1].id, "fr");
    assert_eq!(packages[1].version, "2");
}

#[test]
fn empty_catalog_is_a_valid_catalog() {
    let body = Ok(AvailableLocalizations::new(Vec::new()));
    let response = CatalogResponse::Answered { code: 200, reason: "200 OK".to_string(), body };
    assert_eq!(fetch_available_localizations(URL, response).ok().unwrap().len(), 0);
}

#[test]
fn catalog_document_hands_its_packages_back() {
    let document = AvailableLocalizations::new(vec![package("ko", "3")]);
    let packages = document.into_localizations();
    assert_eq!(packages.len(), 1);
    assert_eq!(packages[0].id, "ko");
}

#[test]
fn unknown_format_is_refused_by_its_tag() {
    assert!(Format::Compatible.ensure_known().is_ok());
    assert!(Format::New.ensure_known().is_ok());
    match Format::Unknown("v9".to_string()).ensure_known() {
        Err(LauncherError::UnknownFormat(tag)) => assert_eq!(tag, "v9"),
        _ => panic!("an unknown format must be refused"),
    }
}
