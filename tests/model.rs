use daedalus::text::decimal_string;
use daedalus::error::Error;
use daedalus::gradle::GradleSpecifier;
use daedalus::minecraft::{LWJGLEntry, LibraryGroup, MinecraftJavaProfile, VersionType};
use daedalus::time::UtcTime;

#[test]
fn version_type_names() {
    assert_eq!(VersionType::Release.as_str(), "release");
    assert_eq!(VersionType::Snapshot.as_str(), "snapshot");
    assert_eq!(VersionType::OldAlpha.as_str(), "old_alpha");
    assert_eq!(VersionType::OldBeta.as_str(), "old_beta");
}

#[test]
fn java_profile_names() {
    assert_eq!(MinecraftJavaProfile::JreLegacy.as_str().unwrap(), "jre-legacy");
    assert_eq!(MinecraftJavaProfile::JavaRuntimeAlpha.as_str().unwrap(), "java-runtime-alpha");
    assert_eq!(MinecraftJavaProfile::JavaRuntimeBeta.as_str().unwrap(), "java-runtime-beta");
    assert_eq!(MinecraftJavaProfile::JavaRuntimeGamma.as_str().unwrap(), "java-runtime-gamma");
    assert_eq!(
        MinecraftJavaProfile::JavaRuntimeGammaSnapshot.as_str().unwrap(),
        "java-runtime-gamma-snapshot"
    );
    assert_eq!(MinecraftJavaProfile::JavaRuntimeDelta.as_str().unwrap(), "java-runtime-delta");
    assert_eq!(MinecraftJavaProfile::MinecraftJavaExe.as_str().unwrap(), "minecraft-java-exe");
    match MinecraftJavaProfile::Unknown("java-runtime-epsilon".to_string()).as_str() {
        Err(Error::InvalidMinecraftJavaProfile(v)) => assert_eq!(v, "java-runtime-epsilon"),
        other => panic!("unexpected {:?}", other),
    }
}

#[test]
fn java_profile_from_name() {
    assert!(matches!(
        MinecraftJavaProfile::try_from_str("java-runtime-gamma-snapshot"),
        Ok(MinecraftJavaProfile::JavaRuntimeGammaSnapshot)
    ));
    assert!(matches!(MinecraftJavaProfile::try_from_str("jre-legacy"), Ok(MinecraftJavaProfile::JreLegacy)));
    match MinecraftJavaProfile::try_from_str("java-runtime") {
        Err(Error::InvalidMinecraftJavaProfile(v)) => assert_eq!(v, "java-runtime"),
        other => panic!("unexpected {:?}", other),
    }
}

#[test]
fn coordinate_parts() {
    let g = GradleSpecifier::parse("org.lwjgl:lwjgl:3.3.1:natives-linux@zip").unwrap();
    assert_eq!(g.group, "org.lwjgl");
    assert_eq!(g.artifact, "lwjgl");
    assert_eq!(g.version, "3.3.1");
    assert_eq!(g.classifier, Some("natives-linux".to_string()));
    assert_eq!(g.extension, Some("zip".to_string()));
    assert_eq!(g.to_coordinate(), "org.lwjgl:lwjgl:3.3.1:natives-linux@zip");

    let plain = GradleSpecifier::parse("net.fabricmc:intermediary:1.16.5").unwrap();
    assert_eq!(plain.classifier, None);
    assert_eq!(plain.extension, None);
    assert_eq!(plain.to_coordinate(), "net.fabricmc:intermediary:1.16.5");
}

#[test]
fn malformed_coordinates_are_refused() {
    for bad in ["", "a:b", "a:b:c:d:e", "a:b:c@x@y", "net.fabricmc"] {
        match GradleSpecifier::parse(bad) {
            Err(Error::InvalidGradleSpecifier(t)) => assert_eq!(t, bad),
            other => panic!("unexpected {:?}", other),
        }
    }
}

fn group(seconds: i64) -> LibraryGroup {
    LibraryGroup {
        id: "LWJGL 3".to_string(),
        version: "3.3.1".to_string(),
        uid: "org.lwjgl3".to_string(),
        release_time: UtcTime { unix_seconds: seconds, nanos: 5 },
        type_: VersionType::Release,
        libraries: vec![],
        requires: None,
        conflicts: None,
        has_split_natives: Some(true),
    }
}

#[test]
fn fingerprint_subject_resets_release_time() {
    let s = group(1_650_000_000).into_fingerprint_subject();
    assert_eq!(s.release_time, UtcTime::epoch());
    assert_eq!(s.release_time, UtcTime { unix_seconds: 0, nanos: 0 });
    assert_eq!(s.id, "LWJGL 3");
    assert_eq!(s.has_split_natives, Some(true));
    let other = group(42).into_fingerprint_subject();
    assert_eq!(s.release_time, other.release_time);
}

#[test]
fn entry_digest_is_sha1_hex() {
    let e = LWJGLEntry::from_serialized(group(7), b"Hello World!");
    assert_eq!(e.sha1, "2ef7bde608ce5404e97d5f042f95f89f1c232871");
    assert_eq!(e.group.release_time.unix_seconds, 7);
    let f = LWJGLEntry::from_serialized(group(7), b"Hello World?");
    assert_ne!(e.sha1, f.sha1);
}

#[test]
fn decimal_rendering() {
    assert_eq!(decimal_string(0), "0");
    assert_eq!(decimal_string(7), "7");
    assert_eq!(decimal_string(10), "10");
    assert_eq!(decimal_string(4294967295), "4294967295");
}
