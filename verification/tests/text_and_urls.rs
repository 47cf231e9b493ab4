use tlm::aria_source::{AriaSource, AriaSourceError};
use tlm::text::{has_prefix, is_blank_str, is_white_space_char, join_path, skip_chars, trim};
use tlm::web_url::WebUrl;

const DEFAULT_BASE: &str = "https://files.launcher.truckersmp.com/truckersmp-launcher/linux/x64/";

#[test]
fn trim_removes_ascii_white_space() {
    assert_eq!(trim("  1.4.2\n"), "1.4.2");
    assert_eq!(trim("\t\r\n 0.9 \r\n"), "0.9");
    assert_eq!(trim("abc"), "abc");
    assert_eq!(trim(""), "");
    assert_eq!(trim(" \n\t "), "");
}

#[test]
fn trim_removes_unicode_white_space() {
    assert_eq!(trim("\u{3000}v2\u{a0}\u{2009}"), "v2");
    assert_eq!(trim("\u{85}x y\u{2029}"), "x y");
    // Zero-width space is not White_Space.
    assert_eq!(trim("\u{200b}x"), "\u{200b}x");
}

#[test]
fn trim_agrees_with_std() {
    for s in ["  a b  ", "\u{1680}z", "q\u{202f}", "\u{feff}w", " \u{205f}\u{3000} "] {
        assert_eq!(trim(s), s.trim());
    }
}

#[test]
fn white_space_agrees_with_std() {
    for n in 0u32..0x3100 {
        if let Some(c) = char::from_u32(n) {
            assert_eq!(is_white_space_char(c), c.is_whitespace(), "{n:#x}");
        }
    }
}

#[test]
fn blank_strings() {
    assert!(is_blank_str(""));
    assert!(is_blank_str("  \t"));
    assert!(!is_blank_str(" /usr/lib/libx.so "));
}

#[test]
fn prefixes() {
    assert!(has_prefix("url:https://a", "url:"));
    assert!(has_prefix("file:", "file:"));
    assert!(!has_prefix("fil", "file:"));
    assert!(!has_prefix("embedded", "url:"));
    assert!(has_prefix("anything", ""));
    assert_eq!(skip_chars("url:https://a", 4), "https://a");
    assert_eq!(skip_chars("fïle:é", 5), "é");
    assert_eq!(skip_chars("url", 4), "");
    assert_eq!(skip_chars("", 5), "");
}

#[test]
fn path_joining_matches_std() {
    assert_eq!(join_path("/home/u/.local/share/launcher", "TruckersMP-Launcher"), "/home/u/.local/share/launcher/TruckersMP-Launcher");
    assert_eq!(join_path("/opt/", "aria2c"), "/opt/aria2c");
    assert_eq!(join_path("", "versiondata"), "versiondata");
    assert_eq!(join_path("/opt", "/etc/x"), "/etc/x");
    for (d, n) in [("/a/b", "c"), ("a", "b/c"), ("/", "x"), ("", ""), ("/x/", "/y")] {
        let expected = std::path::Path::new(d).join(n);
        assert_eq!(join_path(d, n), expected.to_str().unwrap());
    }
}

#[test]
fn urls_parse_and_join() {
    let base = WebUrl::parse(DEFAULT_BASE).unwrap();
    assert_eq!(base.as_str(), DEFAULT_BASE);
    let version = base.join("version").unwrap();
    assert_eq!(version.as_str(), "https://files.launcher.truckersmp.com/truckersmp-launcher/linux/x64/version");
    let tarball = base.join("TruckersMP-Launcher.tar.gz").unwrap();
    assert_eq!(tarball.as_str(), "https://files.launcher.truckersmp.com/truckersmp-launcher/linux/x64/TruckersMP-Launcher.tar.gz");
    let no_slash = WebUrl::parse("https://example.com/a/b").unwrap();
    assert_eq!(no_slash.join("version").unwrap().as_str(), "https://example.com/a/version");
    // Parsing normalises the serialization.
    assert_eq!(WebUrl::parse("HTTPS://Example.COM").unwrap().as_str(), "https://example.com/");
}

#[test]
fn urls_refused() {
    assert_eq!(WebUrl::parse("not a url").unwrap_err(), "relative URL without a base");
    assert!(WebUrl::parse("").is_err());
    assert!(WebUrl::parse("https://exa mple.com").is_err());
}

#[test]
fn aria_sources_from_text() {
    assert!(matches!(AriaSource::from_str("embedded"), Ok(AriaSource::Embedded)));
    match AriaSource::from_str("url:https://example.com/aria2c.tar.gz") {
        Ok(AriaSource::Url(u)) => assert_eq!(u.as_str(), "https://example.com/aria2c.tar.gz"),
        other => panic!("{other:?}"),
    }
    match AriaSource::from_str("file:/tmp/aria2c.tar.gz") {
        Ok(AriaSource::File(p)) => assert_eq!(p, "/tmp/aria2c.tar.gz"),
        other => panic!("{other:?}"),
    }
    match AriaSource::from_str("url:nowhere") {
        Err(AriaSourceError::InvalidUrl(m)) => assert_eq!(m, "relative URL without a base"),
        other => panic!("{other:?}"),
    }
    assert!(matches!(AriaSource::from_str("Embedded"), Err(AriaSourceError::Unrecognized)));
    assert!(matches!(AriaSource::from_str(""), Err(AriaSourceError::Unrecognized)));
    assert!(matches!(AriaSource::from_str("ftp:x"), Err(AriaSourceError::Unrecognized)));
}

#[test]
fn aria_file_sources_are_confirmed() {
    let src = AriaSource::from_str("file:/data/a.tgz").unwrap();
    assert_eq!(src.file_path(), Some("/data/a.tgz"));
    assert!(matches!(src.confirm_file(Some(false)), Err(AriaSourceError::FileNotFound)));
    let src = AriaSource::from_str("file:/data/a.tgz").unwrap();
    assert!(matches!(src.confirm_file(None), Err(AriaSourceError::ExistsCheckFailed)));
    let src = AriaSource::from_str("file:/data/a.tgz").unwrap();
    assert!(matches!(src.confirm_file(Some(true)), Ok(AriaSource::File(p)) if p == "/data/a.tgz"));
    let src = AriaSource::from_str("embedded").unwrap();
    assert_eq!(src.file_path(), None);
    assert!(matches!(src.confirm_file(Some(false)), Ok(AriaSource::Embedded)));
}

#[test]
fn aria_sources_display() {
    assert_eq!(AriaSource::Embedded.display(), "embedded");
    assert_eq!(AriaSource::File("/x".to_string()).display(), "file:");
    let u = WebUrl::parse("https://example.com/").unwrap();
    assert_eq!(AriaSource::Url(u).display(), "url:");
}

#[test]
fn default_aria_source_round_trips() {
    let shown = AriaSource::default().display();
    assert!(matches!(AriaSource::from_str(&shown), Ok(AriaSource::Embedded)));
}

#[test]
fn displayed_url_and_file_sources_do_not_read_back() {
    let u = AriaSource::Url(WebUrl::parse("https://example.com/").unwrap());
    assert!(matches!(AriaSource::from_str(&u.display()), Err(AriaSourceError::InvalidUrl(_))));
    let f = AriaSource::File("/data/a.tgz".to_string());
    let back = AriaSource::from_str(&f.display()).unwrap();
    assert_eq!(back.file_path(), Some(""));
    assert!(matches!(back.confirm_file(Some(false)), Err(AriaSourceError::FileNotFound)));
}

#[test]
fn aria_source_error_messages() {
    assert_eq!(AriaSourceError::ExistsCheckFailed.message(), "exists check operation failed");
    assert_eq!(AriaSourceError::FileNotFound.message(), "unable to find file at given path");
    assert_eq!(AriaSourceError::Unrecognized.message(), "valid sources are 'embedded', 'url:' or 'file:'");
    assert_eq!(AriaSourceError::InvalidUrl("empty host".to_string()).message(), "empty host");
}
