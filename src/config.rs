use vstd::prelude::*;
use vstd::string::*;
use vstd::utf8::*;

use crate::error::MesonError;
use crate::outcome::RunOutcome;
use crate::strmap::{lookup, with_entry, StrMap};
use crate::version::{parse_version_text, version_display, version_parse_result, Version};

verus! {

/// The Unicode upper-case mapping of a text.
pub uninterp spec fn upper_of(s: Seq<char>) -> Seq<char>;

/// Relies on `str::to_uppercase`: the result depends on the characters alone.
#[verifier::external_body]
fn to_upper(s: &str) -> (r: String)
    ensures
        r@ == upper_of(s@),
{
    s.to_uppercase()
}

pub open spec fn dashes_to_underscores(s: Seq<char>) -> Seq<char> {
    s.map_values(|c: char| if c == '-' { '_' } else { c })
}

/// The variable that overrides the tool for one target triple.
pub open spec fn target_var_name(target: Seq<char>) -> Seq<char> {
    seq!['M', 'E', 'S', 'O', 'N', '_'] + dashes_to_underscores(upper_of(target))
}

/// The per-target override, when `TARGET` and the variable it names are both set.
pub open spec fn target_override(env: Seq<(Seq<char>, Seq<char>)>) -> Option<Seq<char>> {
    match lookup(env, "TARGET"@) {
        Some(t) => lookup(env, target_var_name(t)),
        None => None,
    }
}

/// The tool to run: the per-target override, else `MESON`, else `meson`.
pub open spec fn resolved_meson(env: Seq<(Seq<char>, Seq<char>)>) -> Seq<char> {
    match target_override(env) {
        Some(p) => p,
        None => match lookup(env, "MESON"@) {
            Some(p) => p,
            None => "meson"@,
        },
    }
}

/// `base` joined with the relative component `name`.
pub open spec fn join_path(base: Seq<char>, name: Seq<char>) -> Seq<char> {
    if base.len() == 0 || base.last() == '/' {
        base + name
    } else {
        base + seq!['/'] + name
    }
}

/// The build profile chosen from the `PROFILE` value: `debug` and `release`
/// as they are, anything else (or nothing) as `release`.
pub open spec fn profile_from_env(value: Option<Seq<char>>) -> Seq<char> {
    if value == Some("debug"@) {
        "debug"@
    } else {
        "release"@
    }
}

/// A per-target override that is set wins over `MESON` and the default.
pub proof fn law_target_override_wins(env: Seq<(Seq<char>, Seq<char>)>, target: Seq<char>, path: Seq<char>)
    requires
        lookup(env, "TARGET"@) == Some(target),
        lookup(env, target_var_name(target)) == Some(path),
    ensures
        resolved_meson(env) == path,
{
}

/// Without a per-target override, `MESON` wins over the default.
pub proof fn law_generic_override(env: Seq<(Seq<char>, Seq<char>)>, path: Seq<char>)
    requires
        target_override(env) is None,
        lookup(env, "MESON"@) == Some(path),
    ensures
        resolved_meson(env) == path,
{
}

/// With no variable set, the tool is the plain command `meson`.
pub proof fn law_resolver_fallback()
    ensures
        resolved_meson(Seq::<(Seq<char>, Seq<char>)>::empty()) == "meson"@,
{
}

/// The configure arguments hold, after `setup` and the optional
/// `--buildtype <profile>`, one `-D<key>=<value>` per option, in order, with
/// key and value unchanged.
pub proof fn law_option_flags(c: ConfigView, profile: Seq<char>, install_dir: Seq<char>, source_dir: Seq<char>, i: int)
    requires
        0 <= i < c.options.len(),
    ensures
        setup_args_of(c, profile, install_dir, source_dir)[1 + (if profile.len() == 0 { 0int } else { 2int }) + i]
            == seq!['-', 'D'] + c.options[i].0 + seq!['='] + c.options[i].1,
        setup_args_of(c, profile, install_dir, source_dir).len() == 4 + (if profile.len() == 0 { 0int } else { 2int })
            + c.options.len() + (if c.native_file is Some { 2int } else { 0int })
            + (if c.cross_file is Some { 2int } else { 0int }),
{
}

pub struct ConfigView {
    pub meson_path: Seq<char>,
    pub version: Version,
    pub native_file: Option<Seq<char>>,
    pub cross_file: Option<Seq<char>>,
    pub out_path: Option<Seq<char>>,
    pub options: Seq<(Seq<char>, Seq<char>)>,
    pub profile: Option<Seq<char>>,
}

pub open spec fn opt_view(o: Option<String>) -> Option<Seq<char>> {
    match o {
        Some(s) => Some(s@),
        None => None,
    }
}

/// The output directory: the one set explicitly, else `OUT_DIR`.
pub open spec fn out_path_of(c: ConfigView, env: Seq<(Seq<char>, Seq<char>)>) -> Seq<char> {
    match c.out_path {
        Some(p) => p,
        None => lookup(env, "OUT_DIR"@).unwrap(),
    }
}

pub open spec fn has_out_path(c: ConfigView, env: Seq<(Seq<char>, Seq<char>)>) -> bool {
    c.out_path is Some || lookup(env, "OUT_DIR"@) is Some
}

pub open spec fn build_dir_of(c: ConfigView, env: Seq<(Seq<char>, Seq<char>)>) -> Seq<char> {
    join_path(out_path_of(c, env), "build"@)
}

pub open spec fn install_dir_of(c: ConfigView, env: Seq<(Seq<char>, Seq<char>)>) -> Seq<char> {
    join_path(out_path_of(c, env), "install"@)
}

/// The profile used: the one set explicitly, else the one read from `PROFILE`.
pub open spec fn profile_of(c: ConfigView, env: Seq<(Seq<char>, Seq<char>)>) -> Seq<char> {
    match c.profile {
        Some(p) => p,
        None => profile_from_env(lookup(env, "PROFILE"@)),
    }
}

/// A profile read from `PROFILE` that is neither `debug` nor `release` (or
/// absent) calls for a warning.
pub open spec fn profile_warns(c: ConfigView, env: Seq<(Seq<char>, Seq<char>)>) -> bool {
    c.profile is None && lookup(env, "PROFILE"@) != Some("debug"@) && lookup(env, "PROFILE"@)
        != Some("release"@)
}

/// The flag `-D<key>=<value>`.
pub open spec fn option_flag(p: (Seq<char>, Seq<char>)) -> Seq<char> {
    seq!['-', 'D'] + p.0 + seq!['='] + p.1
}

pub open spec fn flag_pair(flag: Seq<char>, value: Option<Seq<char>>) -> Seq<Seq<char>> {
    match value {
        Some(v) => seq![flag, v],
        None => Seq::empty(),
    }
}

/// `setup [--buildtype <profile>] [-D<k>=<v>]... [--native-file <f>]
/// [--cross-file <f>] --prefix <install_dir> <source_dir>`.
pub open spec fn setup_args_of(
    c: ConfigView,
    profile: Seq<char>,
    install_dir: Seq<char>,
    source_dir: Seq<char>,
) -> Seq<Seq<char>> {
    seq!["setup"@] + (if profile.len() == 0 {
        Seq::empty()
    } else {
        seq!["--buildtype"@, profile]
    }) + c.options.map_values(|p: (Seq<char>, Seq<char>)| option_flag(p)) + flag_pair(
        "--native-file"@,
        c.native_file,
    ) + flag_pair("--cross-file"@, c.cross_file) + seq!["--prefix"@, install_dir, source_dir]
}

/// What the version query yields for how the tool ended and what it printed.
pub open spec fn version_query_result(
    query: RunOutcome,
    stdout: Seq<u8>,
    r: Result<Version, MesonError>,
) -> bool {
    match query {
        RunOutcome::LaunchFailed => r == Err::<Version, MesonError>(MesonError::ProcessLaunchError),
        RunOutcome::Signalled => r == Err::<Version, MesonError>(MesonError::ToolExitedBySignal),
        RunOutcome::Exited(code) => if code != 0 {
            r == Err::<Version, MesonError>(MesonError::ToolExitedUnsuccessfully(code))
        } else if !valid_utf8(stdout) {
            r == Err::<Version, MesonError>(MesonError::InvalidUtf8)
        } else {
            version_parse_result(decode_utf8(stdout), r)
        },
    }
}

/// The configuration of a Meson build: the tool to run, its version, and the
/// options to pass to it.
pub struct Config {
    meson_path: String,
    meson_version: Version,
    native_file: Option<String>,
    cross_file: Option<String>,
    out_path: Option<String>,
    options: StrMap,
    profile: Option<String>,
}

impl View for Config {
    type V = ConfigView;

    closed spec fn view(&self) -> ConfigView {
        ConfigView {
            meson_path: self.meson_path@,
            version: self.meson_version,
            native_file: opt_view(self.native_file),
            cross_file: opt_view(self.cross_file),
            out_path: opt_view(self.out_path),
            options: self.options@,
            profile: opt_view(self.profile),
        }
    }
}

impl Config {
    pub closed spec fn wf(&self) -> bool {
        self.options.wf()
    }

    /// `s` with each `-` replaced by `_`.
    pub fn dashes_to_underscores(s: &str) -> (r: String)
        ensures
            r@ == dashes_to_underscores(s@),
    {
        let n = s.unicode_len();
        let mut r = String::new();
        let mut i: usize = 0;
        assert(s@.subrange(0, 0) =~= Seq::<char>::empty());
        while i < n
            invariant
                n == s@.len(),
                i <= n,
                r@ == dashes_to_underscores(s@.subrange(0, i as int)),
            decreases n - i,
        {
            let c = s.get_char(i);
            proof {
                reveal_strlit("_");
            }
            if c == '-' {
                r.append("_");
            } else {
                let piece = s.substring_char(i, i + 1);
                assert(piece@ =~= seq![c]);
                r.append(piece);
            }
            assert(dashes_to_underscores(s@.subrange(0, i + 1)) =~= dashes_to_underscores(
                s@.subrange(0, i as int),
            ) + seq![if c == '-' { '_' } else { c }]);
            i = i + 1;
        }
        assert(s@.subrange(0, n as int) =~= s@);
        r
    }

    /// The per-target override of the tool: the variable `MESON_<TARGET>`,
    /// with `TARGET` upper-cased and `-` written as `_`.
    pub fn find_meson_target_specific_env(env: &StrMap) -> (r: Option<String>)
        ensures
            opt_view(r) == target_override(env@),
    {
        match env.get("TARGET") {
            Some(target) => {
                let upper = to_upper(target.as_str());
                let mut name = String::from_str("MESON_");
                let snake = Config::dashes_to_underscores(upper.as_str());
                name.append(snake.as_str());
                proof {
                    reveal_strlit("MESON_");
                }
                assert(name@ =~= target_var_name(target@));
                env.get(name.as_str())
            },
            None => None,
        }
    }

    /// The tool to run: the per-target override wins over `MESON`, which wins
    /// over the plain command name `meson`.
    pub fn find_meson_in_system(env: &StrMap) -> (r: String)
        ensures
            r@ == resolved_meson(env@),
    {
        match Config::find_meson_target_specific_env(env) {
            Some(p) => p,
            None => match env.get("MESON") {
                Some(p) => p,
                None => String::from_str("meson"),
            },
        }
    }

    /// The version that the tool reported, from how its `--version` run
    /// ended and the bytes it printed.
    pub fn get_version_of_meson(query: RunOutcome, stdout: &[u8]) -> (r: Result<
        Version,
        MesonError,
    >)
        ensures
            version_query_result(query, stdout@, r),
    {
        match query {
            RunOutcome::LaunchFailed => Err(MesonError::ProcessLaunchError),
            RunOutcome::Signalled => Err(MesonError::ToolExitedBySignal),
            RunOutcome::Exited(code) => {
                if code != 0 {
                    return Err(MesonError::ToolExitedUnsuccessfully(code));
                }
                match crate::version::decode_utf8_text(stdout) {
                    Some(text) => parse_version_text(text),
                    None => Err(MesonError::InvalidUtf8),
                }
            },
        }
    }

    /// A configuration for the tool at `meson_path`, whose `--version` run
    /// ended as `query` after printing `stdout`; nothing else is set.
    pub fn find_system_meson(meson_path: String, query: RunOutcome, stdout: &[u8]) -> (r: Result<
        Config,
        MesonError,
    >)
        ensures
            match r {
                Ok(c) => {
                    &&& c.wf()
                    &&& version_query_result(query, stdout@, Ok(c@.version))
                    &&& c@.meson_path == meson_path@
                    &&& c@.native_file is None && c@.cross_file is None
                    &&& c@.out_path is None && c@.profile is None
                    &&& c@.options.len() == 0
                },
                Err(e) => version_query_result(query, stdout@, Err(e)),
            },
    {
        let version = Config::get_version_of_meson(query, stdout)?;
        Ok(
            Config {
                meson_path,
                meson_version: version,
                native_file: None,
                cross_file: None,
                out_path: None,
                options: StrMap::new(),
                profile: None,
            },
        )
    }

    /// The tool's version as text, `major.minor.patch[-pre][+build]`.
    pub fn meson_version(&self) -> (r: String)
        ensures
            r@ == version_display(self@.version),
    {
        self.meson_version.to_text()
    }

    /// The tool that this configuration runs.
    pub fn meson_path(&self) -> (r: &String)
        ensures
            r@ == self@.meson_path,
    {
        &self.meson_path
    }

    /// Whether an output directory was set explicitly.
    pub fn out_path_is_set(&self) -> (r: bool)
        ensures
            r == self@.out_path is Some,
    {
        self.out_path.is_some()
    }

    pub fn set_native_file(&mut self, file: &str)
        ensures
            final(self)@ == (ConfigView { native_file: Some(file@), ..old(self)@ }),
            final(self).wf() == old(self).wf(),
    {
        self.native_file = Some(file.to_string());
    }

    pub fn set_cross_file(&mut self, file: &str)
        ensures
            final(self)@ == (ConfigView { cross_file: Some(file@), ..old(self)@ }),
            final(self).wf() == old(self).wf(),
    {
        self.cross_file = Some(file.to_string());
    }

    /// Sets the output directory; the build directory is `<path>/build`.
    pub fn set_out_path(&mut self, path: &str)
        ensures
            final(self)@ == (ConfigView { out_path: Some(path@), ..old(self)@ }),
            final(self).wf() == old(self).wf(),
    {
        self.out_path = Some(path.to_string());
    }

    /// Sets the option `key` to `value`, replacing an earlier value of `key`.
    pub fn set_option(&mut self, key: &str, value: &str)
        requires
            old(self).wf(),
        ensures
            final(self).wf(),
            final(self)@ == (ConfigView {
                options: with_entry(old(self)@.options, key@, value@),
                ..old(self)@
            }),
            lookup(final(self)@.options, key@) == Some(value@),
            forall|k: Seq<char>|
                k != key@ ==> lookup(final(self)@.options, k) == lookup(old(self)@.options, k),
    {
        self.options.insert(key, value);
    }

    /// Sets the profile passed as `--buildtype`.
    pub fn set_profile(&mut self, profile: &str)
        ensures
            final(self)@ == (ConfigView { profile: Some(profile@), ..old(self)@ }),
            final(self).wf() == old(self).wf(),
    {
        self.profile = Some(profile.to_string());
    }

    /// The output directory: the one set, else `OUT_DIR` of `env`.
    pub fn out_path(&self, env: &StrMap) -> (r: String)
        requires
            has_out_path(self@, env@),
        ensures
            r@ == out_path_of(self@, env@),
    {
        match &self.out_path {
            Some(p) => p.clone(),
            None => env.get("OUT_DIR").unwrap(),
        }
    }

    /// `base` joined with the relative component `name`.
    pub fn join_path(base: &str, name: &str) -> (r: String)
        ensures
            r@ == join_path(base@, name@),
    {
        let n = base.unicode_len();
        let mut r = String::from_str(base);
        if n > 0 && base.get_char(n - 1) != '/' {
            r.append("/");
        }
        r.append(name);
        proof {
            reveal_strlit("/");
        }
        r
    }

    pub fn build_dir(&self, env: &StrMap) -> (r: String)
        requires
            has_out_path(self@, env@),
        ensures
            r@ == build_dir_of(self@, env@),
    {
        let out = self.out_path(env);
        proof {
            reveal_strlit("build");
        }
        Config::join_path(out.as_str(), "build")
    }

    pub fn install_dir(&self, env: &StrMap) -> (r: String)
        requires
            has_out_path(self@, env@),
        ensures
            r@ == install_dir_of(self@, env@),
    {
        let out = self.out_path(env);
        proof {
            reveal_strlit("install");
        }
        Config::join_path(out.as_str(), "install")
    }

    /// The profile to build with, and whether `PROFILE` held a value that is
    /// neither `debug` nor `release` (or none) so that `release` was chosen.
    pub fn profile(&self, env: &StrMap) -> (r: (String, bool))
        ensures
            r.0@ == profile_of(self@, env@),
            r.1 == profile_warns(self@, env@),
    {
        proof {
            reveal_strlit("debug");
            reveal_strlit("release");
        }
        match &self.profile {
            Some(p) => (p.clone(), false),
            None => {
                let debug = String::from_str("debug");
                let release = String::from_str("release");
                match env.get("PROFILE") {
                    Some(v) => {
                        if v == debug {
                            (debug, false)
                        } else if v == release {
                            (release, false)
                        } else {
                            (release, true)
                        }
                    },
                    None => (release, true),
                }
            },
        }
    }

    /// The `-D<key>=<value>` flag of one option.
    fn option_flag(key: &String, value: &String) -> (r: String)
        ensures
            r@ == option_flag((key@, value@)),
    {
        let mut f = String::from_str("-D");
        f.append(key.as_str());
        f.append("=");
        f.append(value.as_str());
        proof {
            reveal_strlit("-D");
            reveal_strlit("=");
        }
        assert(f@ =~= option_flag((key@, value@)));
        f
    }

    /// The arguments of the configure run: `setup`, `--buildtype <profile>`
    /// when `profile` is not empty, one `-D<key>=<value>` per option in order,
    /// the native and cross files when set, `--prefix <install_dir>`, and the
    /// source directory.
    pub fn setup_args(&self, profile: &str, install_dir: &str, source_dir: &str) -> (r: Vec<String>)
        ensures
            r@.map_values(|a: String| a@) == setup_args_of(self@, profile@, install_dir@, source_dir@),
    {
        let ghost c = self@;
        proof {
            reveal_strlit("setup");
            reveal_strlit("--buildtype");
        }
        let mut args: Vec<String> = Vec::new();
        args.push(String::from_str("setup"));
        if profile.unicode_len() > 0 {
            args.push(String::from_str("--buildtype"));
            args.push(profile.to_string());
        }
        let ghost head = args@.map_values(|a: String| a@);
        assert(head =~= seq!["setup"@] + (if profile@.len() == 0 {
            Seq::<Seq<char>>::empty()
        } else {
            seq!["--buildtype"@, profile@]
        }));
        assert(c.options.subrange(0, 0).map_values(|p: (Seq<char>, Seq<char>)| option_flag(p))
            =~= Seq::<Seq<char>>::empty());
        assert(head + Seq::<Seq<char>>::empty() =~= head);
        let n = self.options.len();
        let mut i: usize = 0;
        while i < n
            invariant
                n == c.options.len(),
                c == self@,
                i <= n,
                args@.map_values(|a: String| a@) == head + c.options.subrange(0, i as int).map_values(
                    |p: (Seq<char>, Seq<char>)| option_flag(p),
                ),
            decreases n - i,
        {
            let (k, v) = self.options.entry(i);
            let f = Config::option_flag(k, v);
            let ghost before = args@.map_values(|a: String| a@);
            args.push(f);
            assert(args@.map_values(|a: String| a@) =~= before.push(f@));
            assert(c.options.subrange(0, i + 1).map_values(|p: (Seq<char>, Seq<char>)| option_flag(p))
                =~= c.options.subrange(0, i as int).map_values(
                |p: (Seq<char>, Seq<char>)| option_flag(p),
            ).push(option_flag(c.options[i as int])));
            assert(c.options.subrange(0, i + 1) =~= c.options.subrange(0, i as int).push(
                c.options[i as int],
            ));
            assert(args@.map_values(|a: String| a@) =~= head + c.options.subrange(
                0,
                i + 1,
            ).map_values(|p: (Seq<char>, Seq<char>)| option_flag(p)));
            i = i + 1;
        }
        assert(c.options.subrange(0, n as int) =~= c.options);
        let ghost mid = args@.map_values(|a: String| a@);
        assert(mid == head + c.options.map_values(|p: (Seq<char>, Seq<char>)| option_flag(p)));
        if let Some(f) = &self.native_file {
            args.push(String::from_str("--native-file"));
            args.push(f.clone());
        }
        let ghost mid2 = args@.map_values(|a: String| a@);
        assert(mid2 =~= mid + flag_pair("--native-file"@, c.native_file));
        if let Some(f) = &self.cross_file {
            args.push(String::from_str("--cross-file"));
            args.push(f.clone());
        }
        let ghost mid3 = args@.map_values(|a: String| a@);
        assert(mid3 =~= mid2 + flag_pair("--cross-file"@, c.cross_file));
        args.push(String::from_str("--prefix"));
        args.push(install_dir.to_string());
        args.push(source_dir.to_string());
        proof {
            reveal_strlit("--prefix");
        }
        assert(args@.map_values(|a: String| a@) =~= mid3 + seq!["--prefix"@, install_dir@, source_dir@]);
        assert(args@.map_values(|a: String| a@) =~= setup_args_of(
            c,
            profile@,
            install_dir@,
            source_dir@,
        ));
        args
    }
}

} // verus!
