use konnektoren_core::challenges::challenge_config::ChallengeConfig;
use konnektoren_core::challenges::custom::Custom;
use konnektoren_core::challenges::package::{EntryKind, Package, PackageMetadata, PackageReader, ParsedEntry};
use std::io::Write;

#[test]
fn test_package() {
    let metadata = PackageMetadata::default();
    let mut package = Package::new(metadata);
    package.add_file("test.txt".to_string(), b"test".to_vec());
    assert_eq!(package.get_file("test.txt"), Some(&b"test".to_vec()));
    assert_eq!(package.get_file_as_string("test.txt"), Some("test".to_string()));
}

#[test]
fn adding_a_file_again_replaces_it() {
    let mut package = Package::new(PackageMetadata::default());
    package.add_file("a.txt".to_string(), b"one".to_vec());
    package.add_file("b.txt".to_string(), b"two".to_vec());
    package.add_file("a.txt".to_string(), b"three".to_vec());
    assert_eq!(package.files.len(), 2);
    assert_eq!(package.get_file("a.txt"), Some(&b"three".to_vec()));
    assert_eq!(package.get_file("b.txt"), Some(&b"two".to_vec()));
    assert_eq!(package.get_file("c.txt"), None);
    package.add_file("bad.txt".to_string(), vec![b'o', 0xFF, b'k']);
    assert_eq!(package.get_file_as_string("bad.txt"), Some("o\u{FFFD}k".to_string()));
}

#[test]
fn test_challenge_config() {
    let mut metadata = PackageMetadata::default();
    let config = ChallengeConfig { tasks: 3.into(), ..Default::default() };
    metadata.config = config.clone();
    let mut package = Package::new(metadata);
    package.add_file("config.yml".to_string(), b"tasks: '3'\n".to_vec());
    assert_eq!(package.get_challenge_config(), Some(ChallengeConfig { tasks: 3.into(), ..Default::default() }));
}

fn custom_with(html: &str, css: &str, js: &str, results: Option<&str>) -> Custom {
    Custom {
        id: "custom_challenge".to_string(),
        name: "Custom Challenge".to_string(),
        description: "This is a custom challenge".to_string(),
        html: html.to_string(),
        css: css.to_string(),
        js: js.to_string(),
        results_html: results.map(|r| r.to_string()),
        ..Default::default()
    }
}

#[test]
fn test_custom_challenge() {
    let mut metadata = PackageMetadata::default();
    let custom = Custom {
        id: "custom_challenge".to_string(),
        name: "Custom Challenge".to_string(),
        description: "This is a custom challenge".to_string(),
        ..Default::default()
    };
    metadata.custom = custom.clone();
    let mut package = Package::new(metadata);
    package.add_file("challenge.yml".to_string(), b"id: custom_challenge\n".to_vec());
    assert_eq!(
        package.get_custom_challenge(),
        Some(Custom {
            id: "custom_challenge".to_string(),
            name: "Custom Challenge".to_string(),
            description: "This is a custom challenge".to_string(),
            ..Default::default()
        })
    );
}

#[test]
fn test_html_file() {
    let mut metadata = PackageMetadata::default();
    metadata.custom = custom_with("index.html", "", "", None);
    let mut package = Package::new(metadata);
    package.add_file("challenge.yml".to_string(), b"id: custom_challenge\n".to_vec());
    package.add_file("index.html".to_string(), b"<html></html>".to_vec());
    assert_eq!(package.get_html_file(), Some("<html></html>".to_string()));
}

#[test]
fn test_css_file() {
    let mut metadata = PackageMetadata::default();
    metadata.custom = custom_with("", "style.css", "", None);
    let mut package = Package::new(metadata);
    package.add_file("style.css".to_string(), b"body { color: red; }".to_vec());
    assert_eq!(package.get_css_file(), Some("body { color: red; }".to_string()));
}

#[test]
fn test_js_file() {
    let mut metadata = PackageMetadata::default();
    metadata.custom = custom_with("", "", "script.js", None);
    let mut package = Package::new(metadata);
    package.add_file("script.js".to_string(), b"console.log('Hello, world!');".to_vec());
    assert_eq!(package.get_js_file(), Some("console.log('Hello, world!');".to_string()));
}

#[test]
fn test_results_file() {
    let mut metadata = PackageMetadata::default();
    metadata.custom = custom_with("", "", "", Some("results.html"));
    let mut package = Package::new(metadata);
    package.add_file("results.html".to_string(), b"<html><body>Results</body></html>".to_vec());
    assert_eq!(package.get_results_file(), Some("<html><body>Results</body></html>".to_string()));
    let plain = Package::new(PackageMetadata::default());
    assert_eq!(plain.get_results_file(), None);
}

fn zip_of(entries: &[(&str, &[u8])]) -> Vec<u8> {
    let mut writer = zip::ZipWriter::new(std::io::Cursor::new(Vec::new()));
    let options = zip::write::SimpleFileOptions::default().compression_method(zip::CompressionMethod::Stored);
    for (name, bytes) in entries {
        writer.start_file(*name, options).unwrap();
        writer.write_all(bytes).unwrap();
    }
    writer.finish().unwrap().into_inner()
}

/// The entries read as a reader parses them, with the configuration and
/// description given as already parsed values.
fn parse_with(entries: Vec<(String, Vec<u8>)>, config: Result<ChallengeConfig, String>, custom: Result<Custom, String>) -> Vec<ParsedEntry> {
    let mut parsed = Vec::new();
    for (name, bytes) in entries {
        parsed.push(match PackageReader::entry_kind(&name) {
            EntryKind::Config => ParsedEntry::Config(config.clone()),
            EntryKind::Challenge => ParsedEntry::Challenge(custom.clone()),
            EntryKind::File => ParsedEntry::File(name, bytes),
        });
    }
    parsed
}

#[test]
fn test_package_reader() {
    let data = zip_of(&[
        ("config.yml", b"id: articles\n"),
        ("challenge.yml", b"id: articles-custom\n"),
        ("index.html", b"<html></html>"),
        ("style.css", b"body {}"),
        ("script.js", b"run();"),
        ("results.html", b"<p>done</p>"),
        ("data.json", b"{}"),
    ]);
    let read = PackageReader::read_archive(&data).unwrap();
    assert_eq!(read.failure, None);
    assert_eq!(read.entries.len(), 7);
    assert_eq!(read.entries[0], ("config.yml".to_string(), b"id: articles\n".to_vec()));
    assert_eq!(read.entries[2], ("index.html".to_string(), b"<html></html>".to_vec()));
    let config = ChallengeConfig { id: "articles".to_string(), ..ChallengeConfig::default() };
    let custom = Custom { id: "articles-custom".to_string(), ..Custom::default() };
    let parsed = parse_with(read.entries, Ok(config.clone()), Ok(custom.clone()));
    let package = PackageReader::assemble(parsed, read.failure).unwrap();
    assert_eq!(package.metadata.config, config);
    assert_eq!(package.metadata.custom, custom);
    assert_eq!(package.files.len(), 5);
    assert_eq!(package.files[0], ("index.html".to_string(), b"<html></html>".to_vec()));
    assert_eq!(package.get_file("data.json"), Some(&b"{}".to_vec()));
}

#[test]
fn package_reader_refuses_what_is_no_zip() {
    let result = PackageReader::read_archive(b"not a zip archive");
    assert!(result.unwrap_err().starts_with("Failed to create ZIP archive: "));
}

#[test]
fn entry_kinds_go_by_name() {
    assert_eq!(PackageReader::entry_kind("config.yml"), EntryKind::Config);
    assert_eq!(PackageReader::entry_kind("challenge.yml"), EntryKind::Challenge);
    assert_eq!(PackageReader::entry_kind("dir/config.yml"), EntryKind::File);
}

#[test]
fn assembling_stops_at_the_first_parse_error() {
    let parsed = vec![
        ParsedEntry::File("a.txt".to_string(), b"1".to_vec()),
        ParsedEntry::Config(Err("bad".to_string())),
        ParsedEntry::Challenge(Err("worse".to_string())),
    ];
    let result = PackageReader::assemble(parsed, Some("Failed to read file contents: x".to_string()));
    assert_eq!(result, Err("Failed to parse config.yml: bad".to_string()));
}

#[test]
fn assembling_reports_a_read_failure_after_valid_entries() {
    let parsed = vec![ParsedEntry::Config(Ok(ChallengeConfig::default()))];
    let result = PackageReader::assemble(parsed, Some("Failed to read file contents: x".to_string()));
    assert_eq!(result, Err("Failed to read file contents: x".to_string()));
}

#[test]
fn assembling_needs_a_configuration() {
    let parsed = vec![ParsedEntry::File("a.txt".to_string(), b"1".to_vec())];
    assert_eq!(PackageReader::assemble(parsed, None), Err("Missing config.yml in package".to_string()));
}

#[test]
fn assembling_keeps_the_last_file_at_a_path_and_the_default_description() {
    let parsed = vec![
        ParsedEntry::File("a.txt".to_string(), b"1".to_vec()),
        ParsedEntry::Config(Ok(ChallengeConfig::default())),
        ParsedEntry::File("a.txt".to_string(), b"2".to_vec()),
    ];
    let package = PackageReader::assemble(parsed, None).unwrap();
    assert_eq!(package.metadata.config, ChallengeConfig::default());
    assert_eq!(package.metadata.custom, Custom::default());
    assert_eq!(package.files, vec![("a.txt".to_string(), b"2".to_vec())]);
}
