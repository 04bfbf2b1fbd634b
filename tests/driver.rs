use std::collections::HashSet;

use meson_ext_rs::config::Config;
use meson_ext_rs::driver::{BuildRun, Event, Invocation, Phase, Request};
use meson_ext_rs::error::MesonError;
use meson_ext_rs::outcome::RunOutcome;
use meson_ext_rs::strmap::StrMap;

fn config() -> Config {
    let mut c = Config::find_system_meson("meson".to_string(), RunOutcome::Exited(0), b"1.2.0\n")
        .unwrap();
    c.set_out_path("/out");
    c.set_profile("release");
    c
}

fn strings(v: &[&str]) -> Vec<String> {
    v.iter().map(|s| s.to_string()).collect()
}

/// Plays a whole run against a simulated file system; `exit_of` gives each
/// run's outcome from its first argument. Returns the runs made and the result.
fn play(
    run: &mut BuildRun,
    files: &mut HashSet<String>,
    exit_of: &dyn Fn(&str) -> RunOutcome,
) -> (Vec<Vec<String>>, Result<(), MesonError>) {
    let mut runs = Vec::new();
    let mut req = run.first_request();
    loop {
        let ev = match req {
            Request::CheckExists(p) => Event::Exists(files.contains(&p)),
            Request::CreateDirs(_) => Event::Created(true),
            Request::Run(inv) => {
                let outcome = exit_of(inv.args[0].as_str());
                if inv.args[0] == "setup" && outcome == RunOutcome::Exited(0) {
                    files.insert("/out/build/build.ninja".to_string());
                }
                runs.push(inv.args);
                Event::Ran(outcome)
            }
            Request::Finish(r) => return (runs, r),
        };
        req = run.step(ev);
    }
}

#[test]
fn first_requests_of_a_run() {
    let mut run = config().build("/src", &StrMap::new());
    assert_eq!(run.phase(), Phase::CheckingConfigured);
    assert_eq!(run.first_request(), Request::CheckExists("/out/build/build.ninja".to_string()));
    assert_eq!(run.step(Event::Exists(false)), Request::CreateDirs(strings(&["/out/build"])));
    assert_eq!(
        run.step(Event::Created(true)),
        Request::Run(Invocation {
            program: "meson".to_string(),
            args: strings(&[
                "setup", "--buildtype", "release", "--prefix", "/out/install", "/src"
            ]),
            cwd: "/src".to_string(),
        })
    );
    assert_eq!(
        run.step(Event::Ran(RunOutcome::Exited(0))),
        Request::CreateDirs(strings(&["/out/build", "/out/install"]))
    );
    assert_eq!(
        run.step(Event::Created(true)),
        Request::Run(Invocation {
            program: "meson".to_string(),
            args: strings(&["build", "-C", "/out/build"]),
            cwd: "/src".to_string(),
        })
    );
    assert_eq!(
        run.step(Event::Ran(RunOutcome::Exited(0))),
        Request::Run(Invocation {
            program: "meson".to_string(),
            args: strings(&["install", "-C", "/out/build"]),
            cwd: "/src".to_string(),
        })
    );
    assert_eq!(run.step(Event::Ran(RunOutcome::Exited(0))), Request::Finish(Ok(())));
    assert_eq!(run.phase(), Phase::Finished);
}

#[test]
fn second_build_skips_configure() {
    let mut files = HashSet::new();
    let ok = |_: &str| RunOutcome::Exited(0);
    let (runs, r) = play(&mut config().build("/src", &StrMap::new()), &mut files, &ok);
    assert_eq!(r, Ok(()));
    let firsts: Vec<&str> = runs.iter().map(|a| a[0].as_str()).collect();
    assert_eq!(firsts, vec!["setup", "build", "install"]);
    let (runs, r) = play(&mut config().build("/src", &StrMap::new()), &mut files, &ok);
    assert_eq!(r, Ok(()));
    let firsts: Vec<&str> = runs.iter().map(|a| a[0].as_str()).collect();
    assert_eq!(firsts, vec!["build", "install"]);
}

#[test]
fn build_exit_code_is_tagged() {
    let mut files = HashSet::new();
    let fail_build = |a: &str| if a == "build" { RunOutcome::Exited(3) } else { RunOutcome::Exited(0) };
    let (runs, r) = play(&mut config().build("/src", &StrMap::new()), &mut files, &fail_build);
    assert_eq!(r, Err(MesonError::BuildUnsuccessfully(3)));
    assert_eq!(runs.len(), 2);
    assert_ne!(r, Err(MesonError::ConfiguredUnsuccessfully(3)));
    assert_ne!(r, Err(MesonError::InstallUnsuccessfully(3)));
}

#[test]
fn configure_and_install_exit_codes_are_tagged() {
    let fail_setup = |a: &str| if a == "setup" { RunOutcome::Exited(3) } else { RunOutcome::Exited(0) };
    let (runs, r) = play(&mut config().build("/src", &StrMap::new()), &mut HashSet::new(), &fail_setup);
    assert_eq!(r, Err(MesonError::ConfiguredUnsuccessfully(3)));
    assert_eq!(runs.len(), 1);
    let fail_install =
        |a: &str| if a == "install" { RunOutcome::Exited(3) } else { RunOutcome::Exited(0) };
    let (_, r) = play(&mut config().build("/src", &StrMap::new()), &mut HashSet::new(), &fail_install);
    assert_eq!(r, Err(MesonError::InstallUnsuccessfully(3)));
}

#[test]
fn signal_termination_has_no_code() {
    for step in ["setup", "build", "install"] {
        let killed = |a: &str| if a == step { RunOutcome::Signalled } else { RunOutcome::Exited(0) };
        let (_, r) = play(&mut config().build("/src", &StrMap::new()), &mut HashSet::new(), &killed);
        assert_eq!(r, Err(MesonError::ToolExitedBySignal));
    }
}

#[test]
fn launch_failure_ends_the_run() {
    let missing = |_: &str| RunOutcome::LaunchFailed;
    let (runs, r) = play(&mut config().build("/src", &StrMap::new()), &mut HashSet::new(), &missing);
    assert_eq!(r, Err(MesonError::ProcessLaunchError));
    assert_eq!(runs.len(), 1);
}

#[test]
fn directory_creation_failure_ends_the_run() {
    let mut run = config().build("/src", &StrMap::new());
    run.step(Event::Exists(false));
    assert_eq!(
        run.step(Event::Created(false)),
        Request::Finish(Err(MesonError::DirectoryCreationError))
    );
}

#[test]
fn profile_notices_of_a_run() {
    let mut c = config();
    c.set_profile("");
    let run = c.build("/src", &StrMap::new());
    assert!(run.profile_is_empty());
    assert!(!run.warn_unknown_profile());
    let mut c = Config::find_system_meson("meson".to_string(), RunOutcome::Exited(0), b"1.2.0")
        .unwrap();
    let mut env = StrMap::new();
    env.insert("OUT_DIR", "/o");
    env.insert("PROFILE", "bench");
    c.set_option("x", "y");
    let mut run = c.build("/s", &env);
    assert!(run.warn_unknown_profile());
    assert!(!run.profile_is_empty());
    run.step(Event::Exists(false));
    match run.step(Event::Created(true)) {
        Request::Run(inv) => assert_eq!(
            inv.args,
            strings(&["setup", "--buildtype", "release", "-Dx=y", "--prefix", "/o/install", "/s"])
        ),
        other => panic!("unexpected request {other:?}"),
    }
}
