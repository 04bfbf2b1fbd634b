use meson_ext_rs::config::Config;
use meson_ext_rs::error::MesonError;
use meson_ext_rs::outcome::RunOutcome;
use meson_ext_rs::strmap::StrMap;
use meson_ext_rs::version::{decimal, parse_version_text};

fn env_of(pairs: &[(&str, &str)]) -> StrMap {
    let mut env = StrMap::new();
    for (k, v) in pairs {
        env.insert(k, v);
    }
    env
}

fn config_with_version(text: &str) -> Config {
    Config::find_system_meson("meson".to_string(), RunOutcome::Exited(0), text.as_bytes())
        .expect("Failed to get Meson version")
}

#[test]
fn test_get_version_of_meson() {
    let meson_path = "meson";
    let _version = Config::get_version_of_meson(RunOutcome::Exited(0), b"1.3.2\n")
        .expect("Failed to get Meson version");
    let config = Config::find_system_meson(meson_path.to_string(), RunOutcome::Exited(0), b"1.3.2\n")
        .expect("Failed to get Meson version");
    assert_eq!(config.meson_path(), meson_path);
}

#[test]
fn version_components_are_parsed() {
    let v = parse_version_text("1.2.3").unwrap();
    assert_eq!((v.major, v.minor, v.patch), (1, 2, 3));
    assert_eq!(v.pre, "");
    assert_eq!(v.build, "");
}

#[test]
fn version_surrounding_white_space_is_ignored() {
    let v = parse_version_text("  0.64.1\n").unwrap();
    assert_eq!((v.major, v.minor, v.patch), (0, 64, 1));
}

#[test]
fn version_pre_release_and_build_kept() {
    let v = parse_version_text("1.0.0-rc.1+build.5\n").unwrap();
    assert_eq!((v.major, v.minor, v.patch), (1, 0, 0));
    assert_eq!(v.pre, "rc.1");
    assert_eq!(v.build, "build.5");
}

#[test]
fn version_largest_components() {
    let v = parse_version_text("18446744073709551615.0.18446744073709551615").unwrap();
    assert_eq!(v.major, u64::MAX);
    assert_eq!(v.patch, u64::MAX);
    assert!(parse_version_text("18446744073709551616.0.0").is_err());
}

#[test]
fn malformed_version_is_rejected() {
    for text in ["not-a-version", "", "1.2", "01.2.3", "1.2.3-", "1.2.3-01", "v1.2.3", "1.2.3 4"] {
        assert_eq!(parse_version_text(text).unwrap_err(), MesonError::VersionParseError, "{text}");
    }
}

#[test]
fn version_query_failures() {
    assert_eq!(
        Config::get_version_of_meson(RunOutcome::LaunchFailed, b"").unwrap_err(),
        MesonError::ProcessLaunchError
    );
    assert_eq!(
        Config::get_version_of_meson(RunOutcome::Exited(2), b"1.0.0").unwrap_err(),
        MesonError::ToolExitedUnsuccessfully(2)
    );
    assert_eq!(
        Config::get_version_of_meson(RunOutcome::Signalled, b"1.0.0").unwrap_err(),
        MesonError::ToolExitedBySignal
    );
    assert_eq!(
        Config::get_version_of_meson(RunOutcome::Exited(0), &[0xff, 0xfe]).unwrap_err(),
        MesonError::InvalidUtf8
    );
    assert_eq!(
        Config::find_system_meson("meson".to_string(), RunOutcome::Exited(0), b"not-a-version")
            .err(),
        Some(MesonError::VersionParseError)
    );
}

#[test]
fn meson_version_text() {
    assert_eq!(config_with_version("1.0.0-rc.1+build.5\n").meson_version(), "1.0.0-rc.1+build.5");
    assert_eq!(config_with_version(" 0.64.10 ").meson_version(), "0.64.10");
}

#[test]
fn decimal_text() {
    assert_eq!(decimal(0), "0");
    assert_eq!(decimal(7), "7");
    assert_eq!(decimal(1024), "1024");
    assert_eq!(decimal(u64::MAX), "18446744073709551615");
}

#[test]
fn per_target_override_wins() {
    let env = env_of(&[
        ("TARGET", "x86_64-unknown-linux-gnu"),
        ("MESON", "/opt/generic/meson"),
        ("MESON_X86_64_UNKNOWN_LINUX_GNU", "/opt/x86/meson"),
    ]);
    assert_eq!(Config::find_meson_in_system(&env), "/opt/x86/meson");
    assert_eq!(
        Config::find_meson_target_specific_env(&env),
        Some("/opt/x86/meson".to_string())
    );
}

#[test]
fn resolver_fallback_is_meson() {
    assert_eq!(Config::find_meson_in_system(&StrMap::new()), "meson");
}

#[test]
fn generic_override_without_target_variable() {
    let env = env_of(&[("TARGET", "aarch64-apple-darwin"), ("MESON", "/opt/generic/meson")]);
    assert_eq!(Config::find_meson_target_specific_env(&env), None);
    assert_eq!(Config::find_meson_in_system(&env), "/opt/generic/meson");
    let env = env_of(&[("MESON_AARCH64_APPLE_DARWIN", "/x")]);
    assert_eq!(Config::find_meson_in_system(&env), "meson");
}

#[test]
fn dashes_become_underscores() {
    assert_eq!(Config::dashes_to_underscores("a-b--c"), "a_b__c");
    assert_eq!(Config::dashes_to_underscores(""), "");
}

#[test]
fn option_flags_in_setup_args() {
    let mut c = config_with_version("1.0.0");
    c.set_option("a", "1");
    c.set_option("b", "two");
    let args = c.setup_args("release", "/out/install", "/src");
    assert_eq!(
        args,
        vec!["setup", "--buildtype", "release", "-Da=1", "-Db=two", "--prefix", "/out/install", "/src"]
    );
}

#[test]
fn option_last_write_wins() {
    let mut c = config_with_version("1.0.0");
    c.set_option("a", "1");
    c.set_option("b", "x y");
    c.set_option("a", "3");
    let args = c.setup_args("", "/i", "/s");
    assert_eq!(args, vec!["setup", "-Da=3", "-Db=x y", "--prefix", "/i", "/s"]);
}

#[test]
fn native_and_cross_files_in_setup_args() {
    let mut c = config_with_version("1.0.0");
    c.set_native_file("native.ini");
    c.set_cross_file("cross.ini");
    let args = c.setup_args("debug", "/i", "/s");
    assert_eq!(
        args,
        vec![
            "setup", "--buildtype", "debug", "--native-file", "native.ini", "--cross-file",
            "cross.ini", "--prefix", "/i", "/s"
        ]
    );
}

#[test]
fn profile_resolution() {
    let mut c = config_with_version("1.0.0");
    assert_eq!(c.profile(&env_of(&[("PROFILE", "debug")])), ("debug".to_string(), false));
    assert_eq!(c.profile(&env_of(&[("PROFILE", "release")])), ("release".to_string(), false));
    assert_eq!(c.profile(&env_of(&[("PROFILE", "bench")])), ("release".to_string(), true));
    assert_eq!(c.profile(&StrMap::new()), ("release".to_string(), true));
    c.set_profile("minsize");
    assert_eq!(c.profile(&env_of(&[("PROFILE", "debug")])), ("minsize".to_string(), false));
}

#[test]
fn output_directories() {
    let mut c = config_with_version("1.0.0");
    let env = env_of(&[("OUT_DIR", "/target/out")]);
    assert_eq!(c.out_path(&env), "/target/out");
    assert_eq!(c.build_dir(&env), "/target/out/build");
    assert_eq!(c.install_dir(&env), "/target/out/install");
    c.set_out_path("/tmp/x/");
    assert_eq!(c.build_dir(&env), "/tmp/x/build");
    assert_eq!(c.install_dir(&StrMap::new()), "/tmp/x/install");
}

#[test]
fn join_path_separators() {
    assert_eq!(Config::join_path("a", "b"), "a/b");
    assert_eq!(Config::join_path("a/", "b"), "a/b");
    assert_eq!(Config::join_path("", "b"), "b");
}

#[test]
fn str_map_insert_and_get() {
    let mut m = StrMap::new();
    assert_eq!(m.get("k"), None);
    m.insert("k", "1");
    m.insert("j", "2");
    m.insert("k", "3");
    assert_eq!(m.len(), 2);
    assert_eq!(m.get("k"), Some("3".to_string()));
    assert_eq!(m.get("j"), Some("2".to_string()));
    let (k, v) = m.entry(0);
    assert_eq!((k.as_str(), v.as_str()), ("k", "3"));
}
