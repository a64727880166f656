use crate::error::Error;
use crate::gradle::GradleSpecifier;
use crate::text::same_text;
use crate::time::UtcTime;
use vstd::prelude::*;

verus! {

/// The latest version of the format the model structs deserialize to
pub const CURRENT_FORMAT_VERSION: usize = 2;

/// The version type
#[derive(Debug, Clone, Copy, PartialEq, Eq, Structural)]
pub enum VersionType {
    /// A major version, which is stable for all players to use
    Release,
    /// An experimental version, which is unstable and used for feature previews and beta testing
    Snapshot,
    /// The oldest versions before the game was released
    OldAlpha,
    /// Early versions of the game
    OldBeta,
}

impl VersionType {
    /// Converts the version type to a string
    pub fn as_str(&self) -> (r: &'static str)
        ensures
            r@ == match self {
                VersionType::Release => "release"@,
                VersionType::Snapshot => "snapshot"@,
                VersionType::OldAlpha => "old_alpha"@,
                VersionType::OldBeta => "old_beta"@,
            },
    {
        match self {
            VersionType::Release => "release",
            VersionType::Snapshot => "snapshot",
            VersionType::OldAlpha => "old_alpha",
            VersionType::OldBeta => "old_beta",
        }
    }
}

/// A game version of Minecraft
#[derive(Debug, Clone)]
pub struct Version {
    /// A unique identifier of the version
    pub id: String,
    /// The release type of the version
    pub type_: VersionType,
    /// A link to additional information about the version
    pub url: String,
    /// The latest time a file in this version was updated
    pub time: UtcTime,
    /// The time this version was released
    pub release_time: UtcTime,
    /// The SHA1 hash of the additional information about the version
    pub sha1: String,
    /// Whether the version supports the latest player safety features
    pub compliance_level: u32,
    /// (GDLauncher Provided) The link to the assets index for this version
    pub assets_index_url: Option<String>,
    /// (GDLauncher Provided) The SHA1 hash of the assets index for this version
    pub assets_index_sha1: Option<String>,
    /// (GDLauncher Provided) The java profile required to run this mc version
    pub java_profile: Option<MinecraftJavaProfile>,
}

/// Java profile required to run this mc version
#[derive(Debug, Clone)]
pub enum MinecraftJavaProfile {
    /// Java 8
    JreLegacy,
    /// Java 16
    JavaRuntimeAlpha,
    /// Java 17
    JavaRuntimeBeta,
    /// Java 17
    JavaRuntimeGamma,
    /// Java 17
    JavaRuntimeGammaSnapshot,
    /// Java 14
    MinecraftJavaExe,
    /// Java 21
    JavaRuntimeDelta,
    /// A profile name that is not one of the above, as it was read
    Unknown(String),
}

/// The wire name of each known Java profile; `None` for `Unknown`.
pub open spec fn java_profile_name(p: MinecraftJavaProfile) -> Option<Seq<char>> {
    match p {
        MinecraftJavaProfile::JreLegacy => Some("jre-legacy"@),
        MinecraftJavaProfile::JavaRuntimeAlpha => Some("java-runtime-alpha"@),
        MinecraftJavaProfile::JavaRuntimeBeta => Some("java-runtime-beta"@),
        MinecraftJavaProfile::JavaRuntimeGamma => Some("java-runtime-gamma"@),
        MinecraftJavaProfile::JavaRuntimeGammaSnapshot => Some("java-runtime-gamma-snapshot"@),
        MinecraftJavaProfile::MinecraftJavaExe => Some("minecraft-java-exe"@),
        MinecraftJavaProfile::JavaRuntimeDelta => Some("java-runtime-delta"@),
        MinecraftJavaProfile::Unknown(_) => None,
    }
}

impl MinecraftJavaProfile {
    /// Converts the java profile to its wire name; an unknown profile has none
    pub fn as_str(&self) -> (r: Result<&'static str, Error>)
        ensures
            match java_profile_name(*self) {
                Some(name) => r is Ok && r->Ok_0@ == name,
                None => match (self, r) {
                    (MinecraftJavaProfile::Unknown(v), Err(Error::InvalidMinecraftJavaProfile(e))) => e@
                        == v@,
                    _ => false,
                },
            },
    {
        match self {
            MinecraftJavaProfile::JreLegacy => Ok("jre-legacy"),
            MinecraftJavaProfile::JavaRuntimeAlpha => Ok("java-runtime-alpha"),
            MinecraftJavaProfile::JavaRuntimeBeta => Ok("java-runtime-beta"),
            MinecraftJavaProfile::JavaRuntimeGamma => Ok("java-runtime-gamma"),
            MinecraftJavaProfile::JavaRuntimeGammaSnapshot => Ok("java-runtime-gamma-snapshot"),
            MinecraftJavaProfile::JavaRuntimeDelta => Ok("java-runtime-delta"),
            MinecraftJavaProfile::MinecraftJavaExe => Ok("minecraft-java-exe"),
            MinecraftJavaProfile::Unknown(value) => Err(
                Error::InvalidMinecraftJavaProfile(value.clone()),
            ),
        }
    }

    /// Reads a java profile from its wire name; an unknown name is an error
    pub fn try_from_str(value: &str) -> (r: Result<MinecraftJavaProfile, Error>)
        ensures
            match r {
                Ok(p) => java_profile_name(p) == Some(value@),
                Err(Error::InvalidMinecraftJavaProfile(e)) => e@ == value@ && forall|
                    p: MinecraftJavaProfile,
                | java_profile_name(p) != Some(value@),
                Err(_) => false,
            },
    {
        if same_text(value, "jre-legacy") {
            Ok(MinecraftJavaProfile::JreLegacy)
        } else if same_text(value, "java-runtime-alpha") {
            Ok(MinecraftJavaProfile::JavaRuntimeAlpha)
        } else if same_text(value, "java-runtime-beta") {
            Ok(MinecraftJavaProfile::JavaRuntimeBeta)
        } else if same_text(value, "java-runtime-gamma") {
            Ok(MinecraftJavaProfile::JavaRuntimeGamma)
        } else if same_text(value, "java-runtime-gamma-snapshot") {
            Ok(MinecraftJavaProfile::JavaRuntimeGammaSnapshot)
        } else if same_text(value, "java-runtime-delta") {
            Ok(MinecraftJavaProfile::JavaRuntimeDelta)
        } else if same_text(value, "minecraft-java-exe") {
            Ok(MinecraftJavaProfile::MinecraftJavaExe)
        } else {
            Err(Error::InvalidMinecraftJavaProfile(value.to_owned()))
        }
    }
}

/// An enum representing the different types of operating systems
#[derive(Debug, Clone, Copy, PartialEq, Eq, PartialOrd, Ord, Hash, Structural)]
pub enum Os {
    /// MacOS (x86)
    Osx,
    /// M1-Based Macs
    OsxArm64,
    /// Windows (x86)
    Windows,
    /// Windows ARM
    WindowsArm64,
    /// Linux (x86) and its derivatives
    Linux,
    /// Linux ARM 64
    LinuxArm64,
    /// Linux ARM 32
    LinuxArm32,
    /// The OS is unknown
    Unknown,
}

/// The wire token of each operating system.
pub open spec fn os_token(os: Os) -> Seq<char> {
    match os {
        Os::Osx => "osx"@,
        Os::OsxArm64 => "osx-arm64"@,
        Os::Windows => "windows"@,
        Os::WindowsArm64 => "windows-arm64"@,
        Os::Linux => "linux"@,
        Os::LinuxArm64 => "linux-arm64"@,
        Os::LinuxArm32 => "linux-arm32"@,
        Os::Unknown => "unknown"@,
    }
}

impl Os {
    /// The wire token of this operating system.
    pub fn as_token(&self) -> (r: &'static str)
        ensures
            r@ == os_token(*self),
    {
        match self {
            Os::Osx => "osx",
            Os::OsxArm64 => "osx-arm64",
            Os::Windows => "windows",
            Os::WindowsArm64 => "windows-arm64",
            Os::Linux => "linux",
            Os::LinuxArm64 => "linux-arm64",
            Os::LinuxArm32 => "linux-arm32",
            Os::Unknown => "unknown",
        }
    }

    /// Reads an operating system from its wire token; a token that names none
    /// is `Unknown`, never an error.
    pub fn from_token(token: &str) -> (r: Os)
        ensures
            os_token(r) == token@ || (r == Os::Unknown && forall|o: Os| os_token(o) != token@),
    {
        if same_text(token, "osx") {
            Os::Osx
        } else if same_text(token, "osx-arm64") {
            Os::OsxArm64
        } else if same_text(token, "windows") {
            Os::Windows
        } else if same_text(token, "windows-arm64") {
            Os::WindowsArm64
        } else if same_text(token, "linux") {
            Os::Linux
        } else if same_text(token, "linux-arm64") {
            Os::LinuxArm64
        } else if same_text(token, "linux-arm32") {
            Os::LinuxArm32
        } else {
            Os::Unknown
        }
    }
}

/// No two operating systems share a token, so reading the token of an
/// operating system gives it back.
pub proof fn lemma_os_token_injective(a: Os, b: Os)
    ensures
        os_token(a) == os_token(b) ==> a == b,
{
    reveal_strlit("osx");
    reveal_strlit("osx-arm64");
    reveal_strlit("windows");
    reveal_strlit("windows-arm64");
    reveal_strlit("linux");
    reveal_strlit("linux-arm64");
    reveal_strlit("linux-arm32");
    reveal_strlit("unknown");
    if os_token(a) == os_token(b) {
        assert(os_token(a).len() == os_token(b).len());
        assert(os_token(a)[0] == os_token(b)[0]);
        if os_token(a).len() > 9 {
            assert(os_token(a)[9] == os_token(b)[9]);
        }
        if os_token(a).len() > 6 {
            assert(os_token(a)[6] == os_token(b)[6]);
        }
        if os_token(a).len() > 11 {
            assert(os_token(a)[11] == os_token(b)[11]);
        }
    }
}

impl View for Os {
    type V = Os;

    open spec fn view(&self) -> Os {
        *self
    }
}

/// The latest snapshot and release of the game
#[derive(Debug, Clone)]
pub struct LatestVersion {
    /// The version id of the latest release
    pub release: String,
    /// The version id of the latest snapshot
    pub snapshot: String,
}

/// Data of all game versions of Minecraft
#[derive(Debug, Clone)]
pub struct VersionManifest {
    /// A struct containing the latest snapshot and release of the game
    pub latest: LatestVersion,
    /// A list of game versions of Minecraft
    pub versions: Vec<Version>,
}

/// Information about the assets of the game
#[derive(Debug, Clone)]
pub struct AssetIndex {
    /// The game version ID the assets are for
    pub id: String,
    /// The SHA1 hash of the assets index
    pub sha1: String,
    /// The size of the assets index
    pub size: u32,
    /// The size of the game version's assets
    pub total_size: u32,
    /// A URL to a file which contains information about the version's assets
    pub url: String,
}

/// The type of download
#[derive(Debug, Clone, Copy, PartialEq, Eq, Hash, Structural)]
pub enum DownloadType {
    /// The download is for the game client
    Client,
    /// The download is mappings for the game
    ClientMappings,
    /// The download is for the game server
    Server,
    /// The download is mappings for the game server
    ServerMappings,
    /// The download is for the windows server
    WindowsServer,
}

/// Download information of a file
#[derive(Debug, Clone)]
pub struct Download {
    /// The SHA1 hash of the file
    pub sha1: String,
    /// The size of the file
    pub size: u32,
    /// The URL where the file can be downloaded
    pub url: String,
}

/// Download information of a library
#[derive(Debug, Clone)]
pub struct LibraryDownload {
    /// The path that the library should be saved to
    pub path: String,
    /// The SHA1 hash of the library
    pub sha1: String,
    /// The size of the library
    pub size: u32,
    /// The URL where the library can be downloaded
    pub url: Option<String>,
}

/// A list of files that should be downloaded for libraries
#[derive(Debug, Clone)]
pub struct LibraryDownloads {
    /// The primary library artifact
    pub artifact: Option<LibraryDownload>,
    /// Conditional files that may be needed to be downloaded alongside the library,
    /// keyed by classifier; no two entries share a classifier
    pub classifiers: Option<Vec<(String, LibraryDownload)>>,
}

/// The action a rule can follow
#[derive(Debug, Clone, Copy, PartialEq, Eq, Hash, Structural)]
pub enum RuleAction {
    /// The rule's status allows something to be done
    Allow,
    /// The rule's status disallows something to be done
    Disallow,
}

/// A rule which depends on what OS the user is on
#[derive(Debug, Clone)]
pub struct OsRule {
    /// The name of the OS
    pub name: Option<Os>,
    /// The version of the OS. This is normally a RegEx
    pub version: Option<String>,
    /// The architecture of the OS
    pub arch: Option<String>,
}

/// A rule which depends on the toggled features of the launcher
#[derive(Debug, Clone, Copy, PartialEq, Eq, Hash, Structural)]
pub struct FeatureRule {
    /// Whether the user is in demo mode
    pub is_demo_user: Option<bool>,
    /// Whether the user is using a custom resolution
    pub has_custom_resolution: Option<bool>,
    /// Whether the launcher has quick plays support
    pub has_quick_plays_support: Option<bool>,
    /// Whether the instance is being launched to a single-player world
    pub is_quick_play_singleplayer: Option<bool>,
    /// Whether the instance is being launched to a multi-player world
    pub is_quick_play_multiplayer: Option<bool>,
    /// Whether the instance is being launched to a realms world
    pub is_quick_play_realms: Option<bool>,
}

/// A rule deciding whether a file is downloaded, an argument is used, etc.
#[derive(Debug, Clone)]
pub struct Rule {
    /// The action the rule takes
    pub action: RuleAction,
    /// The OS rule
    pub os: Option<OsRule>,
    /// The feature rule
    pub features: Option<FeatureRule>,
}

/// Information delegating the extraction of the library
#[derive(Debug, Clone)]
pub struct LibraryExtract {
    /// Files/Folders to be excluded from the extraction of the library
    pub exclude: Option<Vec<String>>,
}

/// Information about the java version the game needs
#[derive(Debug, Clone)]
pub struct JavaVersion {
    /// The component needed for the Java installation
    pub component: String,
    /// The major Java version number
    pub major_version: u32,
}

/// A library which the game relies on to run
#[derive(Debug, Clone)]
pub struct Library {
    /// The files the library has
    pub downloads: Option<LibraryDownloads>,
    /// Rules of the extraction of the file
    pub extract: Option<LibraryExtract>,
    /// The maven name of the library
    pub name: GradleSpecifier,
    /// The URL to the repository where the library can be downloaded
    pub url: Option<String>,
    /// Native files that the library relies on, keyed by OS; no two entries share an OS
    pub natives: Option<Vec<(Os, String)>>,
    /// Rules deciding whether the library should be downloaded or not
    pub rules: Option<Vec<Rule>>,
    /// SHA1 Checksums for validating the library's integrity. Only present for forge libraries
    pub checksums: Option<Vec<String>>,
    /// Whether the library should be included in the classpath at the game's launch
    pub include_in_classpath: bool,
    /// if this library was patched or added by a patch
    pub patched: bool,
    /// Game-version-specific content hashes, keyed by game version; no two entries
    /// share a version. When present, a client looks up its game version and
    /// builds a content-addressed URL from the hash.
    pub version_hashes: Option<Vec<(String, String)>>,
}

/// A partial library which should be merged with a full library
#[derive(Debug, Clone)]
pub struct PartialLibrary {
    /// The files the library has
    pub downloads: Option<LibraryDownloads>,
    /// Rules of the extraction of the file
    pub extract: Option<LibraryExtract>,
    /// The maven name of the library
    pub name: Option<GradleSpecifier>,
    /// The URL to the repository where the library can be downloaded
    pub url: Option<String>,
    /// Native files that the library relies on
    pub natives: Option<Vec<(Os, String)>>,
    /// Rules deciding whether the library should be downloaded or not
    pub rules: Option<Vec<Rule>>,
    /// SHA1 Checksums for validating the library's integrity. Only present for forge libraries
    pub checksums: Option<Vec<String>>,
    /// Whether the library should be included in the classpath at the game's launch
    pub include_in_classpath: Option<bool>,
}

/// Whether a library is put on the classpath when its record does not say.
pub fn default_include_in_classpath() -> (r: bool)
    ensures
        r,
{
    true
}

/// A dependency rule, either suggests or equals
#[derive(Debug, Clone)]
pub enum DependencyRule {
    /// A rule to specify the version exactly
    Equals(String),
    /// A rule to suggest a soft requirement
    Suggests(String),
}

/// A library dependency
#[derive(Debug, Clone)]
pub struct Dependency {
    /// A group name that identifies a library group this dependency refers to, ie. `"lwjgl"`
    pub name: String,
    /// a component uid like `"org.lwjgl"`
    pub uid: String,
    /// a rule to specify the version exactly
    pub rule: Option<DependencyRule>,
}

/// A container for an argument or multiple arguments
#[derive(Debug, Clone)]
pub enum ArgumentValue {
    /// The container has one argument
    Single(String),
    /// The container has multiple arguments
    Many(Vec<String>),
}

/// A command line argument passed to a program
#[derive(Debug, Clone)]
pub enum Argument {
    /// An argument which is applied no matter what
    Normal(String),
    /// An argument which is only applied if certain conditions are met
    Ruled {
        /// The rules deciding whether the argument(s) is used or not
        rules: Vec<Rule>,
        /// The container of the argument(s) that should be applied accordingly
        value: ArgumentValue,
    },
}

/// The type of argument
#[derive(Debug, Clone, Copy, PartialEq, Eq, Hash, Structural)]
pub enum ArgumentType {
    /// The argument is passed to the game
    Game,
    /// The argument is passed to the JVM
    Jvm,
    /// Default JVM arguments that users can customize
    DefaultUserJvm,
}

/// Java Logging type
#[derive(Debug, Clone, Copy, PartialEq, Eq, Hash, Structural)]
pub enum LoggingType {
    /// Log4j XML config file
    Log4j2Xml,
}

/// Java Logging config names
#[derive(Debug, Clone, Copy, PartialEq, Eq, Hash, Structural)]
pub enum LoggingConfigName {
    /// Client logging config
    Client,
}

/// Java Logging artifact for download
#[derive(Debug, Clone)]
pub struct LoggingArtifact {
    /// The Name of the artifact
    pub id: String,
    /// The Sha1 hash of the file
    pub sha1: String,
    /// The Size of the file
    pub size: u32,
    /// The url where this file can be reached
    pub url: String,
}

/// Java Logging configuration
#[derive(Debug, Clone)]
pub struct LoggingConfig {
    /// Logging config file
    pub file: LoggingArtifact,
    /// JVM config arg
    pub argument: String,
    /// Logging type
    pub type_: LoggingType,
}

/// Information about grouping of libraries
#[derive(Debug, Clone)]
pub struct LibraryGroup {
    /// The version ID of the version
    pub id: String,
    /// The version string for this group
    pub version: String,
    /// The uid aka maven package group id of this group
    pub uid: String,
    /// The time that the version was released
    pub release_time: UtcTime,
    /// The type of version
    pub type_: VersionType,
    /// The library listing for this group
    pub libraries: Vec<Library>,
    /// libraries required by this group
    pub requires: Option<Vec<Dependency>>,
    /// libraries that conflict with this group
    pub conflicts: Option<Vec<Dependency>>,
    /// group has libs with split natives
    pub has_split_natives: Option<bool>,
}

/// A pairing of a library group with the SHA-1 of its JSON representation
#[derive(Debug, Clone)]
pub struct LWJGLEntry {
    /// The sha1 of the group's json representation
    pub sha1: String,
    /// LibraryGroup for the entry
    pub group: LibraryGroup,
}

/// An asset of the game
#[derive(Debug, Clone)]
pub struct Asset {
    /// The SHA1 hash of the asset file
    pub hash: String,
    /// The size of the asset file
    pub size: u32,
}

/// An index containing all assets the game needs
#[derive(Debug, Clone)]
pub struct AssetsIndex {
    /// The filename and asset of each entry; no two entries share a filename
    pub objects: Vec<(String, Asset)>,
    /// If the index should be reconstructed at a virtual path
    pub map_virtual: bool,
    /// If the index should be reconstructed in the instance's resource directory
    pub map_to_resources: bool,
}

} // verus!
