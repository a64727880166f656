use daedalus::gradle::GradleSpecifier;
use daedalus::merge::merge_partial_library;
use daedalus::minecraft::{
    default_include_in_classpath, Library, LibraryDownload, LibraryDownloads, LibraryExtract, Os,
    PartialLibrary, Rule, RuleAction,
};

fn coordinate(text: &str) -> GradleSpecifier {
    GradleSpecifier::parse(text).unwrap()
}

fn library() -> Library {
    Library {
        downloads: None,
        extract: None,
        name: coordinate("net.fabricmc:intermediary:1.16.5"),
        url: None,
        natives: None,
        rules: None,
        checksums: None,
        include_in_classpath: true,
        patched: false,
        version_hashes: None,
    }
}

fn empty_partial() -> PartialLibrary {
    PartialLibrary {
        downloads: None,
        extract: None,
        name: None,
        url: None,
        natives: None,
        rules: None,
        checksums: None,
        include_in_classpath: None,
    }
}

fn file(path: &str) -> LibraryDownload {
    LibraryDownload { path: path.to_string(), sha1: format!("sha-{}", path), size: 7, url: None }
}

fn classifier_paths(lib: &Library) -> Vec<(String, String)> {
    let mut v: Vec<(String, String)> = lib
        .downloads
        .as_ref()
        .unwrap()
        .classifiers
        .as_ref()
        .unwrap()
        .iter()
        .map(|(k, d)| (k.clone(), d.path.clone()))
        .collect();
    v.sort();
    v
}

fn with_classifiers(entries: Vec<(&str, &str)>) -> Option<LibraryDownloads> {
    Some(LibraryDownloads {
        artifact: None,
        classifiers: Some(entries.into_iter().map(|(k, p)| (k.to_string(), file(p))).collect()),
    })
}

fn allow(os: Os) -> Rule {
    Rule {
        action: RuleAction::Allow,
        os: Some(daedalus::minecraft::OsRule { name: Some(os), version: None, arch: None }),
        features: None,
    }
}

#[test]
fn default_classpath_inclusion_is_true() {
    assert!(default_include_in_classpath());
}

#[test]
fn empty_partial_only_marks_patched() {
    let mut base = library();
    base.url = Some("https://maven.example".to_string());
    base.checksums = Some(vec!["abc".to_string()]);
    base.include_in_classpath = false;
    base.rules = Some(vec![allow(Os::Linux)]);
    let r = merge_partial_library(empty_partial(), base);
    assert!(r.patched);
    assert_eq!(r.url, Some("https://maven.example".to_string()));
    assert_eq!(r.checksums, Some(vec!["abc".to_string()]));
    assert!(!r.include_in_classpath);
    assert_eq!(r.rules.as_ref().unwrap().len(), 1);
    assert_eq!(r.name.group, "net.fabricmc");
    assert!(r.downloads.is_none());
    assert!(r.natives.is_none());
}

#[test]
fn classifiers_are_deep_merged() {
    let mut base = library();
    base.downloads = with_classifiers(vec![("b", "y.jar")]);
    let mut patch = empty_partial();
    patch.downloads = with_classifiers(vec![("a", "x.jar")]);
    let r = merge_partial_library(patch, base);
    assert_eq!(
        classifier_paths(&r),
        vec![("a".to_string(), "x.jar".to_string()), ("b".to_string(), "y.jar".to_string())]
    );
}

#[test]
fn classifier_on_shared_key_is_overwritten() {
    let mut base = library();
    base.downloads = with_classifiers(vec![("b", "y.jar")]);
    let mut patch = empty_partial();
    patch.downloads = with_classifiers(vec![("b", "z.jar")]);
    let r = merge_partial_library(patch, base);
    assert_eq!(classifier_paths(&r), vec![("b".to_string(), "z.jar".to_string())]);
}

#[test]
fn artifact_is_replaced_and_kept() {
    let mut base = library();
    base.downloads = Some(LibraryDownloads { artifact: Some(file("old.jar")), classifiers: None });
    let mut patch = empty_partial();
    patch.downloads = with_classifiers(vec![("natives-linux", "n.jar")]);
    let r = merge_partial_library(patch, base);
    let d = r.downloads.as_ref().unwrap();
    assert_eq!(d.artifact.as_ref().unwrap().path, "old.jar");
    assert_eq!(classifier_paths(&r), vec![("natives-linux".to_string(), "n.jar".to_string())]);

    let mut patch2 = empty_partial();
    patch2.downloads = Some(LibraryDownloads { artifact: Some(file("new.jar")), classifiers: None });
    let r2 = merge_partial_library(patch2, r);
    assert_eq!(r2.downloads.as_ref().unwrap().artifact.as_ref().unwrap().path, "new.jar");
}

#[test]
fn downloads_taken_whole_when_base_has_none() {
    let mut patch = empty_partial();
    patch.downloads = with_classifiers(vec![("a", "x.jar")]);
    let r = merge_partial_library(patch, library());
    assert_eq!(classifier_paths(&r), vec![("a".to_string(), "x.jar".to_string())]);
}

#[test]
fn natives_are_deep_merged() {
    let mut base = library();
    base.natives = Some(vec![(Os::Linux, "natives-linux".to_string()), (Os::Osx, "natives-osx".to_string())]);
    let mut patch = empty_partial();
    patch.natives = Some(vec![(Os::Osx, "natives-macos".to_string()), (Os::Windows, "natives-windows".to_string())]);
    let r = merge_partial_library(patch, base);
    let mut n = r.natives.unwrap();
    n.sort();
    assert_eq!(
        n,
        vec![
            (Os::Osx, "natives-macos".to_string()),
            (Os::Windows, "natives-windows".to_string()),
            (Os::Linux, "natives-linux".to_string()),
        ]
    );
}

#[test]
fn rules_are_appended() {
    let mut base = library();
    base.rules = Some(vec![allow(Os::Linux)]);
    let mut patch = empty_partial();
    patch.rules = Some(vec![allow(Os::Windows)]);
    let r = merge_partial_library(patch, base);
    let rules = r.rules.unwrap();
    assert_eq!(rules.len(), 2);
    assert_eq!(rules[0].os.as_ref().unwrap().name, Some(Os::Linux));
    assert_eq!(rules[1].os.as_ref().unwrap().name, Some(Os::Windows));
}

#[test]
fn simple_fields_are_replaced() {
    let mut base = library();
    base.url = Some("https://a".to_string());
    let mut patch = empty_partial();
    patch.url = Some("https://b".to_string());
    patch.name = Some(coordinate("org.lwjgl:lwjgl:3.3.1:natives-linux"));
    patch.extract = Some(LibraryExtract { exclude: Some(vec!["META-INF/".to_string()]) });
    patch.checksums = Some(vec!["c1".to_string(), "c2".to_string()]);
    patch.include_in_classpath = Some(false);
    let r = merge_partial_library(patch, base);
    assert_eq!(r.url, Some("https://b".to_string()));
    assert_eq!(r.name.artifact, "lwjgl");
    assert_eq!(r.name.classifier, Some("natives-linux".to_string()));
    assert_eq!(r.extract.unwrap().exclude, Some(vec!["META-INF/".to_string()]));
    assert_eq!(r.checksums, Some(vec!["c1".to_string(), "c2".to_string()]));
    assert!(!r.include_in_classpath);
    assert!(r.patched);
}

fn hashed(version: &str, hash: &str) -> Library {
    let mut lib = library();
    lib.version_hashes = Some(vec![(version.to_string(), hash.to_string())]);
    lib
}

#[test]
fn cas_url_literal_example() {
    let lib = hashed("1.16.5", "abc123def456");
    assert_eq!(
        lib.resolve_url("1.16.5", "https://maven.modrinth.com", 0),
        Some("https://maven.modrinth.com/v0/objects/ab/c123def456".to_string())
    );
}

#[test]
fn hash_wins_over_url() {
    let mut lib = hashed("1.20", "abcd1234");
    lib.url = Some("http://x".to_string());
    assert_eq!(
        lib.resolve_url("1.20", "https://cas.example", 12),
        Some("https://cas.example/v12/objects/ab/cd1234".to_string())
    );
}

#[test]
fn short_hash_resolves_to_nothing() {
    let mut lib = hashed("1.20", "a");
    lib.url = Some("http://x".to_string());
    assert_eq!(lib.resolve_url("1.20", "https://cas.example", 0), None);
    let empty = hashed("1.20", "");
    assert_eq!(empty.resolve_url("1.20", "https://cas.example", 0), None);
}

#[test]
fn two_character_hash_has_empty_rest() {
    let lib = hashed("1.20", "ab");
    assert_eq!(
        lib.resolve_url("1.20", "b", 4294967295),
        Some("b/v4294967295/objects/ab/".to_string())
    );
}

#[test]
fn other_version_falls_back_to_url() {
    let mut lib = hashed("1.20", "abcd1234");
    lib.url = Some("http://x".to_string());
    assert_eq!(lib.resolve_url("1.19", "https://cas.example", 0), Some("http://x".to_string()));
    let mut none = library();
    none.version_hashes = Some(vec![]);
    assert_eq!(none.resolve_url("1.19", "https://cas.example", 0), None);
    assert_eq!(library().resolve_url("1.19", "https://cas.example", 0), None);
}

#[test]
fn lookup_picks_the_requested_version() {
    let mut lib = library();
    lib.version_hashes = Some(vec![
        ("1.16.5".to_string(), "1111aaaa".to_string()),
        ("1.17.1".to_string(), "2222bbbb".to_string()),
    ]);
    assert_eq!(
        lib.resolve_url("1.17.1", "https://m", 1),
        Some("https://m/v1/objects/22/22bbbb".to_string())
    );
}
