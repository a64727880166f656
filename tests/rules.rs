use daedalus::gradle::GradleSpecifier;
use daedalus::minecraft::Library;
use daedalus::minecraft::{Argument, ArgumentValue, FeatureRule, Os, OsRule, Rule, RuleAction};
use daedalus::rules::{evaluate, ExecutionContext};

fn ctx() -> ExecutionContext {
    ExecutionContext {
        os: Os::Linux,
        os_version: Some("6.1.0-generic".to_string()),
        arch: Some("x86_64".to_string()),
        features: vec!["has_custom_resolution".to_string()],
    }
}

fn os_rule(action: RuleAction, name: Option<Os>) -> Rule {
    Rule {
        action,
        os: Some(OsRule { name, version: None, arch: None }),
        features: None,
    }
}

fn no_features() -> FeatureRule {
    FeatureRule {
        is_demo_user: None,
        has_custom_resolution: None,
        has_quick_plays_support: None,
        is_quick_play_singleplayer: None,
        is_quick_play_multiplayer: None,
        is_quick_play_realms: None,
    }
}

#[test]
fn empty_rules_include() {
    assert!(evaluate(&vec![], &ctx()));
    let mut other = ctx();
    other.os = Os::Unknown;
    other.features = vec![];
    assert!(evaluate(&vec![], &other));
}

#[test]
fn last_match_wins_disallow_after_allow() {
    let rules = vec![
        os_rule(RuleAction::Allow, Some(Os::Linux)),
        os_rule(RuleAction::Disallow, Some(Os::Linux)),
    ];
    assert!(!evaluate(&rules, &ctx()));
}

#[test]
fn last_match_wins_allow_after_disallow() {
    let rules = vec![
        os_rule(RuleAction::Disallow, Some(Os::Linux)),
        os_rule(RuleAction::Allow, Some(Os::Linux)),
    ];
    assert!(evaluate(&rules, &ctx()));
}

#[test]
fn allow_all_except_one_os() {
    let rules = vec![
        Rule { action: RuleAction::Allow, os: None, features: None },
        os_rule(RuleAction::Disallow, Some(Os::Osx)),
    ];
    assert!(evaluate(&rules, &ctx()));
    let mut mac = ctx();
    mac.os = Os::Osx;
    assert!(!evaluate(&rules, &mac));
}

#[test]
fn no_matching_rule_excludes() {
    let rules = vec![os_rule(RuleAction::Allow, Some(Os::Windows))];
    assert!(!evaluate(&rules, &ctx()));
}

#[test]
fn unconditional_rule_matches_any_context() {
    let r = Rule { action: RuleAction::Disallow, os: None, features: None };
    assert!(r.matches(&ctx()));
    let other = ExecutionContext { os: Os::Unknown, os_version: None, arch: None, features: vec![] };
    assert!(r.matches(&other));
    let empty_predicates = Rule {
        action: RuleAction::Allow,
        os: Some(OsRule { name: None, version: None, arch: None }),
        features: Some(no_features()),
    };
    assert!(empty_predicates.matches(&other));
}

#[test]
fn arch_is_compared_exactly() {
    let rule = |arch: &str| Rule {
        action: RuleAction::Allow,
        os: Some(OsRule { name: None, version: None, arch: Some(arch.to_string()) }),
        features: None,
    };
    assert!(rule("x86_64").matches(&ctx()));
    assert!(!rule("x86").matches(&ctx()));
    let mut no_arch = ctx();
    no_arch.arch = None;
    assert!(!rule("x86_64").matches(&no_arch));
}

#[test]
fn os_version_is_matched_as_pattern() {
    let rule = |pattern: &str| Rule {
        action: RuleAction::Allow,
        os: Some(OsRule { name: Some(Os::Linux), version: Some(pattern.to_string()), arch: None }),
        features: None,
    };
    assert!(rule("^6\\.").matches(&ctx()));
    assert!(!rule("^10\\.").matches(&ctx()));
    assert!(!rule("(").matches(&ctx()));
    let mut unknown_version = ctx();
    unknown_version.os_version = None;
    assert!(rule("^$").matches(&unknown_version));
    assert!(!rule("^6").matches(&unknown_version));
}

#[test]
fn feature_predicates_follow_enabled_features() {
    let mut f = no_features();
    f.has_custom_resolution = Some(true);
    let r = Rule { action: RuleAction::Allow, os: None, features: Some(f) };
    assert!(r.matches(&ctx()));
    let mut off = ctx();
    off.features = vec![];
    assert!(!r.matches(&off));

    let mut demo = no_features();
    demo.is_demo_user = Some(false);
    let d = Rule { action: RuleAction::Allow, os: None, features: Some(demo) };
    assert!(d.matches(&ctx()));
    let mut demo_ctx = ctx();
    demo_ctx.features.push("is_demo_user".to_string());
    assert!(!d.matches(&demo_ctx));
}

#[test]
fn ruled_argument_applies_by_rules() {
    let plain = Argument::Normal("--demo".to_string());
    assert!(plain.applies(&ctx()));
    let ruled = Argument::Ruled {
        rules: vec![os_rule(RuleAction::Allow, Some(Os::Windows))],
        value: ArgumentValue::Single("-XX:HeapDumpPath=x".to_string()),
    };
    assert!(!ruled.applies(&ctx()));
}

#[test]
fn os_tokens_read_back() {
    let all = [
        Os::Osx,
        Os::OsxArm64,
        Os::Windows,
        Os::WindowsArm64,
        Os::Linux,
        Os::LinuxArm64,
        Os::LinuxArm32,
        Os::Unknown,
    ];
    for os in all {
        assert_eq!(Os::from_token(os.as_token()), os);
    }
    assert_eq!(Os::Osx.as_token(), "osx");
    assert_eq!(Os::LinuxArm32.as_token(), "linux-arm32");
    assert_eq!(Os::from_token("windows-arm64"), Os::WindowsArm64);
}

#[test]
fn unknown_os_token_is_unknown() {
    assert_eq!(Os::from_token("freebsd"), Os::Unknown);
    assert_eq!(Os::from_token(""), Os::Unknown);
    assert_eq!(Os::from_token("OSX"), Os::Unknown);
}

#[test]
fn library_applies_by_its_rules() {
    let mut lib = Library {
        downloads: None,
        extract: None,
        name: GradleSpecifier::parse("org.lwjgl:lwjgl:3.3.1").unwrap(),
        url: None,
        natives: None,
        rules: None,
        checksums: None,
        include_in_classpath: true,
        patched: false,
        version_hashes: None,
    };
    assert!(lib.applies(&ctx()));
    lib.rules = Some(vec![]);
    assert!(lib.applies(&ctx()));
    lib.rules = Some(vec![os_rule(RuleAction::Allow, Some(Os::Osx))]);
    assert!(!lib.applies(&ctx()));
}
