use vstd::prelude::*;
use vstd::string::*;

use crate::config::{
    build_dir_of, has_out_path, install_dir_of, join_path, profile_of, profile_warns,
    setup_args_of, Config,
};
use crate::error::MesonError;
use crate::outcome::RunOutcome;
use crate::strmap::StrMap;

verus! {

/// Where a build run stands. The run goes configure, build, install, in that
/// order, and ends at the first failure.
#[derive(Debug, Clone, Copy, PartialEq, Eq, Structural)]
pub enum Phase {
    /// Waiting to learn whether the build directory is already configured.
    CheckingConfigured,
    /// Waiting for the build directory to be created before configuring.
    CreatingConfigureDir,
    /// Waiting for the configure run.
    Configuring,
    /// Waiting for the build and install directories to be created.
    CreatingBuildDirs,
    /// Waiting for the build run.
    Building,
    /// Waiting for the install run.
    Installing,
    /// The run is over.
    Finished,
}

/// What the run reports back after carrying out a request.
#[derive(Debug, Clone, Copy, PartialEq, Eq, Structural)]
pub enum Event {
    /// Whether the file asked about exists.
    Exists(bool),
    /// Whether all the directories asked for were created.
    Created(bool),
    /// How the process asked for ended.
    Ran(RunOutcome),
}

/// A process to start: the program, its arguments, its working directory.
#[derive(Debug, PartialEq, Eq)]
pub struct Invocation {
    pub program: String,
    pub args: Vec<String>,
    pub cwd: String,
}

/// What the run needs done next.
#[derive(Debug, PartialEq, Eq)]
pub enum Request {
    /// Report whether this file exists.
    CheckExists(String),
    /// Create these directories, with their parents.
    CreateDirs(Vec<String>),
    /// Start this process and report how it ended.
    Run(Invocation),
    /// The run is over with this result.
    Finish(Result<(), MesonError>),
}

pub ghost enum RequestView {
    CheckExists(Seq<char>),
    CreateDirs(Seq<Seq<char>>),
    Run(Seq<char>, Seq<Seq<char>>, Seq<char>),
    Finish(Result<(), MesonError>),
}

impl View for Request {
    type V = RequestView;

    open spec fn view(&self) -> RequestView {
        match self {
            Request::CheckExists(p) => RequestView::CheckExists(p@),
            Request::CreateDirs(d) => RequestView::CreateDirs(d@.map_values(|s: String| s@)),
            Request::Run(i) => RequestView::Run(
                i.program@,
                i.args@.map_values(|s: String| s@),
                i.cwd@,
            ),
            Request::Finish(r) => RequestView::Finish(*r),
        }
    }
}

pub ghost struct BuildRunView {
    pub meson_path: Seq<char>,
    pub source_dir: Seq<char>,
    pub build_dir: Seq<char>,
    pub install_dir: Seq<char>,
    pub setup_args: Seq<Seq<char>>,
    pub phase: Phase,
}

/// The error for a run of `step` that did not end with code 0.
pub open spec fn run_failure(step: Phase, o: RunOutcome) -> MesonError {
    match o {
        RunOutcome::LaunchFailed => MesonError::ProcessLaunchError,
        RunOutcome::Signalled => MesonError::ToolExitedBySignal,
        RunOutcome::Exited(c) => if step == Phase::Configuring {
            MesonError::ConfiguredUnsuccessfully(c)
        } else if step == Phase::Building {
            MesonError::BuildUnsuccessfully(c)
        } else {
            MesonError::InstallUnsuccessfully(c)
        },
    }
}

/// The event that `phase` waits for is of this kind.
pub open spec fn accepts(phase: Phase, ev: Event) -> bool {
    match phase {
        Phase::CheckingConfigured => ev is Exists,
        Phase::CreatingConfigureDir | Phase::CreatingBuildDirs => ev is Created,
        Phase::Configuring | Phase::Building | Phase::Installing => ev is Ran,
        Phase::Finished => false,
    }
}

/// `<tool> <sub> -C <build_dir>`, run in the source directory.
pub open spec fn dir_run(s: BuildRunView, sub: Seq<char>) -> RequestView {
    RequestView::Run(s.meson_path, seq![sub, "-C"@, s.build_dir], s.source_dir)
}

/// The phase after `ev` and what is requested then.
pub open spec fn next(s: BuildRunView, ev: Event) -> (Phase, RequestView) {
    match (s.phase, ev) {
        (Phase::CheckingConfigured, Event::Exists(true)) => (
            Phase::CreatingBuildDirs,
            RequestView::CreateDirs(seq![s.build_dir, s.install_dir]),
        ),
        (Phase::CheckingConfigured, Event::Exists(false)) => (
            Phase::CreatingConfigureDir,
            RequestView::CreateDirs(seq![s.build_dir]),
        ),
        (Phase::CreatingConfigureDir, Event::Created(true)) => (
            Phase::Configuring,
            RequestView::Run(s.meson_path, s.setup_args, s.source_dir),
        ),
        (Phase::CreatingBuildDirs, Event::Created(true)) => (Phase::Building, dir_run(s, "build"@)),
        (Phase::Configuring, Event::Ran(RunOutcome::Exited(0))) => (
            Phase::CreatingBuildDirs,
            RequestView::CreateDirs(seq![s.build_dir, s.install_dir]),
        ),
        (Phase::Building, Event::Ran(RunOutcome::Exited(0))) => (
            Phase::Installing,
            dir_run(s, "install"@),
        ),
        (Phase::Installing, Event::Ran(RunOutcome::Exited(0))) => (
            Phase::Finished,
            RequestView::Finish(Ok(())),
        ),
        (_, Event::Created(false)) => (
            Phase::Finished,
            RequestView::Finish(Err(MesonError::DirectoryCreationError)),
        ),
        (p, Event::Ran(o)) => (Phase::Finished, RequestView::Finish(Err(run_failure(p, o)))),
        _ => (Phase::Finished, RequestView::Finish(Ok(()))),
    }
}

/// The phases that come after the configure step.
pub open spec fn after_configure(p: Phase) -> bool {
    p == Phase::CreatingBuildDirs || p == Phase::Building || p == Phase::Installing || p == Phase::Finished
}

pub open spec fn is_setup_run(r: RequestView) -> bool {
    r matches RequestView::Run(_, args, _) && args.len() > 0 && args[0] == "setup"@
}

/// A build directory found configured is not configured again: from there on
/// the run stays past the configure step and never asks for a `setup` run.
pub proof fn law_configured_skips_setup(s: BuildRunView, ev: Event)
    requires
        (s.phase == Phase::CheckingConfigured && ev == Event::Exists(true)) || (after_configure(s.phase)
            && accepts(s.phase, ev)),
    ensures
        after_configure(next(s, ev).0),
        !is_setup_run(next(s, ev).1),
{
    reveal_strlit("setup");
    reveal_strlit("build");
    reveal_strlit("install");
    assert("build"@[0] != "setup"@[0]);
    assert("install"@[0] != "setup"@[0]);
}

/// A non-zero exit code of the configure, build or install run ends the run
/// with that code, under an error that names the step.
pub proof fn law_exit_code_tagged(s: BuildRunView, code: i32)
    requires
        code != 0,
    ensures
        s.phase == Phase::Configuring ==> next(s, Event::Ran(RunOutcome::Exited(code))) == (
            Phase::Finished,
            RequestView::Finish(Err(MesonError::ConfiguredUnsuccessfully(code))),
        ),
        s.phase == Phase::Building ==> next(s, Event::Ran(RunOutcome::Exited(code))) == (
            Phase::Finished,
            RequestView::Finish(Err(MesonError::BuildUnsuccessfully(code))),
        ),
        s.phase == Phase::Installing ==> next(s, Event::Ran(RunOutcome::Exited(code))) == (
            Phase::Finished,
            RequestView::Finish(Err(MesonError::InstallUnsuccessfully(code))),
        ),
        MesonError::ConfiguredUnsuccessfully(code) != MesonError::BuildUnsuccessfully(code),
        MesonError::BuildUnsuccessfully(code) != MesonError::InstallUnsuccessfully(code),
        MesonError::ConfiguredUnsuccessfully(code) != MesonError::InstallUnsuccessfully(code),
{
}

/// A run terminated by a signal, at any step, ends the run with the signal
/// error, which carries no code.
pub proof fn law_signal_ends_run(s: BuildRunView)
    requires
        s.phase == Phase::Configuring || s.phase == Phase::Building || s.phase == Phase::Installing,
    ensures
        next(s, Event::Ran(RunOutcome::Signalled)) == (
            Phase::Finished,
            RequestView::Finish(Err(MesonError::ToolExitedBySignal)),
        ),
{
}

/// One build run of a configuration: it asks for what it needs, one request
/// at a time, and is told how each went.
pub struct BuildRun {
    meson_path: String,
    source_dir: String,
    build_dir: String,
    install_dir: String,
    setup_args: Vec<String>,
    phase: Phase,
    profile_warning: bool,
    profile_empty: bool,
}

impl View for BuildRun {
    type V = BuildRunView;

    closed spec fn view(&self) -> BuildRunView {
        BuildRunView {
            meson_path: self.meson_path@,
            source_dir: self.source_dir@,
            build_dir: self.build_dir@,
            install_dir: self.install_dir@,
            setup_args: self.setup_args@.map_values(|s: String| s@),
            phase: self.phase,
        }
    }
}

impl Config {
    /// Starts a build of the project in `source_dir` with this configuration,
    /// which it takes over.
    pub fn build(self, source_dir: &str, env: &StrMap) -> (r: BuildRun)
        requires
            has_out_path(self@, env@),
        ensures
            r@.phase == Phase::CheckingConfigured,
            r@.meson_path == self@.meson_path,
            r@.source_dir == source_dir@,
            r@.build_dir == build_dir_of(self@, env@),
            r@.install_dir == install_dir_of(self@, env@),
            r@.setup_args == setup_args_of(
                self@,
                profile_of(self@, env@),
                install_dir_of(self@, env@),
                source_dir@,
            ),
            r.profile_warning() == profile_warns(self@, env@),
            r.profile_empty() == (profile_of(self@, env@).len() == 0),
    {
        let (profile, warn) = self.profile(env);
        let build_dir = self.build_dir(env);
        let install_dir = self.install_dir(env);
        let setup_args = self.setup_args(profile.as_str(), install_dir.as_str(), source_dir);
        let empty = profile.unicode_len() == 0;
        BuildRun {
            meson_path: self.meson_path().clone(),
            source_dir: source_dir.to_string(),
            build_dir,
            install_dir,
            setup_args,
            phase: Phase::CheckingConfigured,
            profile_warning: warn,
            profile_empty: empty,
        }
    }
}

fn string_vec_view_push(v: &mut Vec<String>, s: String)
    ensures
        final(v)@.map_values(|x: String| x@) == old(v)@.map_values(|x: String| x@).push(s@),
{
    v.push(s);
    assert(final(v)@.map_values(|x: String| x@) =~= old(v)@.map_values(|x: String| x@).push(s@));
}

impl BuildRun {
    pub closed spec fn profile_warning(&self) -> bool {
        self.profile_warning
    }

    pub closed spec fn profile_empty(&self) -> bool {
        self.profile_empty
    }

    /// Whether the profile came from a `PROFILE` value other than `debug` or
    /// `release` (or from none), so that `release` was used.
    pub fn warn_unknown_profile(&self) -> (r: bool)
        ensures
            r == self.profile_warning(),
    {
        self.profile_warning
    }

    /// Whether the profile is empty, so that no `--buildtype` is passed.
    pub fn profile_is_empty(&self) -> (r: bool)
        ensures
            r == self.profile_empty(),
    {
        self.profile_empty
    }

    pub fn phase(&self) -> (r: Phase)
        ensures
            r == self@.phase,
    {
        self.phase
    }

    /// The file whose presence shows that the build directory is configured.
    pub fn sentinel(&self) -> (r: String)
        ensures
            r@ == join_path(self@.build_dir, "build.ninja"@),
    {
        proof {
            reveal_strlit("build.ninja");
        }
        Config::join_path(self.build_dir.as_str(), "build.ninja")
    }

    /// The first request of a run: whether the build directory is configured.
    pub fn first_request(&self) -> (r: Request)
        ensures
            r@ == RequestView::CheckExists(join_path(self@.build_dir, "build.ninja"@)),
    {
        Request::CheckExists(self.sentinel())
    }

    fn dir_run(&self, sub: &str) -> (r: Request)
        ensures
            r@ == dir_run(self@, sub@),
    {
        let mut args: Vec<String> = Vec::new();
        string_vec_view_push(&mut args, sub.to_string());
        string_vec_view_push(&mut args, String::from_str("-C"));
        string_vec_view_push(&mut args, self.build_dir.clone());
        proof {
            reveal_strlit("-C");
        }
        assert(args@.map_values(|x: String| x@) =~= seq![sub@, "-C"@, self@.build_dir]);
        Request::Run(
            Invocation { program: self.meson_path.clone(), args, cwd: self.source_dir.clone() },
        )
    }

    fn create_dirs(&self, with_install: bool) -> (r: Request)
        ensures
            r@ == RequestView::CreateDirs(
                if with_install {
                    seq![self@.build_dir, self@.install_dir]
                } else {
                    seq![self@.build_dir]
                },
            ),
    {
        let mut dirs: Vec<String> = Vec::new();
        string_vec_view_push(&mut dirs, self.build_dir.clone());
        if with_install {
            string_vec_view_push(&mut dirs, self.install_dir.clone());
        }
        proof {
            let v = dirs@.map_values(|x: String| x@);
            if with_install {
                assert(v =~= seq![self@.build_dir, self@.install_dir]);
            } else {
                assert(v =~= seq![self@.build_dir]);
            }
        }
        Request::CreateDirs(dirs)
    }

    fn finish(&mut self, r: Result<(), MesonError>) -> (req: Request)
        ensures
            final(self)@ == (BuildRunView { phase: Phase::Finished, ..old(self)@ }),
            final(self).profile_warning() == old(self).profile_warning(),
            final(self).profile_empty() == old(self).profile_empty(),
            req@ == RequestView::Finish(r),
    {
        self.phase = Phase::Finished;
        Request::Finish(r)
    }

    fn fail_run(&mut self, o: RunOutcome) -> (req: Request)
        requires
            o != RunOutcome::Exited(0),
        ensures
            final(self)@ == (BuildRunView { phase: Phase::Finished, ..old(self)@ }),
            final(self).profile_warning() == old(self).profile_warning(),
            final(self).profile_empty() == old(self).profile_empty(),
            req@ == RequestView::Finish(Err(run_failure(old(self)@.phase, o))),
    {
        let e = match o {
            RunOutcome::LaunchFailed => MesonError::ProcessLaunchError,
            RunOutcome::Signalled => MesonError::ToolExitedBySignal,
            RunOutcome::Exited(c) => match self.phase {
                Phase::Configuring => MesonError::ConfiguredUnsuccessfully(c),
                Phase::Building => MesonError::BuildUnsuccessfully(c),
                _ => MesonError::InstallUnsuccessfully(c),
            },
        };
        self.finish(Err(e))
    }

    /// Takes in how the last request went and returns the next one.
    pub fn step(&mut self, ev: Event) -> (r: Request)
        requires
            accepts(old(self)@.phase, ev),
        ensures
            final(self)@ == (BuildRunView { phase: next(old(self)@, ev).0, ..old(self)@ }),
            r@ == next(old(self)@, ev).1,
            final(self).profile_warning() == old(self).profile_warning(),
            final(self).profile_empty() == old(self).profile_empty(),
    {
        match (self.phase, ev) {
            (Phase::CheckingConfigured, Event::Exists(configured)) => {
                if configured {
                    self.phase = Phase::CreatingBuildDirs;
                    self.create_dirs(true)
                } else {
                    self.phase = Phase::CreatingConfigureDir;
                    self.create_dirs(false)
                }
            },
            (Phase::CreatingConfigureDir, Event::Created(true)) => {
                self.phase = Phase::Configuring;
                let mut args: Vec<String> = Vec::new();
                let n = self.setup_args.len();
                let mut i: usize = 0;
                while i < n
                    invariant
                        n == self.setup_args@.len(),
                        i <= n,
                        args@.map_values(|x: String| x@) =~= self.setup_args@.subrange(
                            0,
                            i as int,
                        ).map_values(|x: String| x@),
                    decreases n - i,
                {
                    string_vec_view_push(&mut args, self.setup_args[i].clone());
                    assert(self.setup_args@.subrange(0, i + 1).map_values(|x: String| x@)
                        =~= self.setup_args@.subrange(0, i as int).map_values(|x: String| x@).push(
                        self.setup_args@[i as int]@,
                    ));
                    i = i + 1;
                }
                assert(self.setup_args@.subrange(0, n as int) =~= self.setup_args@);
                Request::Run(
                    Invocation {
                        program: self.meson_path.clone(),
                        args,
                        cwd: self.source_dir.clone(),
                    },
                )
            },
            (Phase::CreatingBuildDirs, Event::Created(true)) => {
                self.phase = Phase::Building;
                proof {
                    reveal_strlit("build");
                }
                self.dir_run("build")
            },
            (_, Event::Created(false)) => self.finish(Err(MesonError::DirectoryCreationError)),
            (Phase::Configuring, Event::Ran(RunOutcome::Exited(0))) => {
                self.phase = Phase::CreatingBuildDirs;
                self.create_dirs(true)
            },
            (Phase::Building, Event::Ran(RunOutcome::Exited(0))) => {
                self.phase = Phase::Installing;
                proof {
                    reveal_strlit("install");
                }
                self.dir_run("install")
            },
            (Phase::Installing, Event::Ran(RunOutcome::Exited(0))) => self.finish(Ok(())),
            (_, Event::Ran(o)) => self.fail_run(o),
            _ => self.finish(Ok(())),
        }
    }
}

} // verus!
