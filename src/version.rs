use vstd::prelude::*;
use vstd::string::*;
use vstd::utf8::*;

use crate::error::MesonError;

verus! {

/// A semantic version as reported by the tool: `major.minor.patch`, with the
/// text of the pre-release and build-metadata parts (empty when absent).
#[derive(Debug, Clone)]
pub struct Version {
    pub major: u64,
    pub minor: u64,
    pub patch: u64,
    pub pre: String,
    pub build: String,
}

pub open spec fn is_digit(c: char) -> bool {
    '0' <= c && c <= '9'
}

pub open spec fn is_ident_char(c: char) -> bool {
    is_digit(c) || ('a' <= c && c <= 'z') || ('A' <= c && c <= 'Z') || c == '-'
}

pub open spec fn all_digits(s: Seq<char>) -> bool {
    forall|i: int| 0 <= i < s.len() ==> is_digit(#[trigger] s[i])
}

pub open spec fn digit_value(c: char) -> nat {
    (c as u32 - '0' as u32) as nat
}

/// The number that a string of decimal digits denotes.
pub open spec fn dec_value(d: Seq<char>) -> nat
    decreases d.len(),
{
    if d.len() == 0 {
        0
    } else {
        dec_value(d.drop_last()) * 10 + digit_value(d.last())
    }
}

/// A version number component: decimal digits, no leading zero, fits in `u64`.
pub open spec fn valid_number(d: Seq<char>) -> bool {
    &&& d.len() > 0
    &&& all_digits(d)
    &&& d.len() > 1 ==> d[0] != '0'
    &&& dec_value(d) <= u64::MAX
}

/// Dot-separated, non-empty identifiers of `[0-9A-Za-z-]`; in a pre-release
/// part a purely numeric identifier longer than one digit has no leading zero.
#[verifier::opaque]
pub open spec fn valid_identifiers(s: Seq<char>, pre: bool) -> bool {
    &&& s.len() > 0
    &&& forall|i: int| 0 <= i < s.len() ==> is_ident_char(#[trigger] s[i]) || s[i] == '.'
    &&& s[0] != '.'
    &&& s.last() != '.'
    &&& forall|i: int| 0 <= i < s.len() - 1 && #[trigger] s[i] == '.' ==> s[i + 1] != '.'
    &&& pre ==> forall|i: int, j: int|
        0 <= i < j <= s.len() && j - i > 1 && (i == 0 || s[i - 1] == '.') && (j == s.len()
            || s[j] == '.') && #[trigger] all_digits(s.subrange(i, j)) ==> s[i] != '0'
}

pub open spec fn valid_pre(pre: Seq<char>) -> bool {
    pre.len() == 0 || valid_identifiers(pre, true)
}

pub open spec fn valid_build(build: Seq<char>) -> bool {
    build.len() == 0 || valid_identifiers(build, false)
}

pub open spec fn suffix_text(pre: Seq<char>, build: Seq<char>) -> Seq<char> {
    (if pre.len() == 0 {
        Seq::<char>::empty()
    } else {
        seq!['-'] + pre
    }) + (if build.len() == 0 {
        Seq::<char>::empty()
    } else {
        seq!['+'] + build
    })
}

/// `major.minor.patch[-pre][+build]`, each number given by its digits.
pub open spec fn version_text(
    major: Seq<char>,
    minor: Seq<char>,
    patch: Seq<char>,
    pre: Seq<char>,
    build: Seq<char>,
) -> Seq<char> {
    major + seq!['.'] + minor + seq!['.'] + patch + suffix_text(pre, build)
}

/// `s` is the semantic-version text of exactly these components.
pub open spec fn is_version_of(
    s: Seq<char>,
    major: u64,
    minor: u64,
    patch: u64,
    pre: Seq<char>,
    build: Seq<char>,
) -> bool {
    exists|a: Seq<char>, b: Seq<char>, c: Seq<char>|
        {
            &&& valid_number(a) && valid_number(b) && valid_number(c)
            &&& dec_value(a) == major && dec_value(b) == minor && dec_value(c) == patch
            &&& valid_pre(pre) && valid_build(build)
            &&& s == #[trigger] version_text(a, b, c, pre, build)
        }
}

pub open spec fn is_version_text(s: Seq<char>) -> bool {
    exists|major: u64, minor: u64, patch: u64, pre: Seq<char>, build: Seq<char>|
        is_version_of(s, major, minor, patch, pre, build)
}

/// Unicode `White_Space`.
pub open spec fn is_white(c: char) -> bool {
    ('\u{9}' <= c && c <= '\u{d}') || c == ' ' || c == '\u{85}' || c == '\u{a0}' || c == '\u{1680}'
        || ('\u{2000}' <= c && c <= '\u{200a}') || c == '\u{2028}' || c == '\u{2029}' || c
        == '\u{202f}' || c == '\u{205f}' || c == '\u{3000}'
}

pub open spec fn all_white(s: Seq<char>) -> bool {
    forall|i: int| 0 <= i < s.len() ==> is_white(#[trigger] s[i])
}

pub open spec fn trim_start(s: Seq<char>) -> Seq<char>
    decreases s.len(),
{
    if s.len() > 0 && is_white(s[0]) {
        trim_start(s.drop_first())
    } else {
        s
    }
}

pub open spec fn trim_end(s: Seq<char>) -> Seq<char>
    decreases s.len(),
{
    if s.len() > 0 && is_white(s.last()) {
        trim_end(s.drop_last())
    } else {
        s
    }
}

/// `s` without leading and trailing white space.
pub open spec fn trimmed(s: Seq<char>) -> Seq<char> {
    trim_end(trim_start(s))
}

/// What the version query yields for the text it printed.
pub open spec fn version_parse_result(s: Seq<char>, r: Result<Version, MesonError>) -> bool {
    match r {
        Ok(v) => is_version_of(trimmed(s), v.major, v.minor, v.patch, v.pre@, v.build@),
        Err(e) => e == MesonError::VersionParseError && !is_version_text(trimmed(s)),
    }
}

#[verifier::external_type_specification]
#[verifier::external_body]
pub struct ExSemverError(semver::Error);

/// Relies on `semver::Version::parse` (semver 1.0): it accepts exactly
/// `major.minor.patch[-pre][+build]` as described by `is_version_of`, and the
/// parsed `pre` / `build` keep the text they were parsed from.
#[verifier::external_body]
fn semver_parse(text: &str) -> (r: Result<Version, semver::Error>)
    ensures
        r is Ok <==> is_version_text(text@),
        r matches Ok(v) ==> is_version_of(text@, v.major, v.minor, v.patch, v.pre@, v.build@),
{
    let v = semver::Version::parse(text)?;
    Ok(
        Version {
            major: v.major,
            minor: v.minor,
            patch: v.patch,
            pre: v.pre.as_str().to_string(),
            build: v.build.as_str().to_string(),
        },
    )
}

/// Relies on `str::trim`: removes leading and trailing Unicode white space.
#[verifier::external_body]
fn trim_text(s: &str) -> (r: &str)
    ensures
        r@ == trimmed(s@),
{
    s.trim()
}

/// Relies on `core::str::from_utf8`: succeeds exactly on valid UTF-8 and
/// then holds the decoded characters.
#[verifier::external_body]
pub(crate) fn decode_utf8_text(b: &[u8]) -> (r: Option<&str>)
    ensures
        r is Some <==> valid_utf8(b@),
        r matches Some(s) ==> s@ == decode_utf8(b@),
{
    core::str::from_utf8(b).ok()
}

/// Parses the version banner printed by the tool; surrounding white space is ignored.
pub fn parse_version_text(text: &str) -> (r: Result<Version, MesonError>)
    ensures
        version_parse_result(text@, r),
{
    let t = trim_text(text);
    match semver_parse(t) {
        Ok(v) => Ok(v),
        Err(_) => Err(MesonError::VersionParseError),
    }
}

proof fn lemma_trim_start_white_prefix(ws: Seq<char>, t: Seq<char>)
    requires
        all_white(ws),
    ensures
        trim_start(ws + t) == trim_start(t),
    decreases ws.len(),
{
    if ws.len() > 0 {
        assert((ws + t).drop_first() =~= ws.drop_first() + t);
        lemma_trim_start_white_prefix(ws.drop_first(), t);
    } else {
        assert(ws + t =~= t);
    }
}

proof fn lemma_trim_end_white_suffix(t: Seq<char>, ws: Seq<char>)
    requires
        all_white(ws),
    ensures
        trim_end(t + ws) == trim_end(t),
    decreases ws.len(),
{
    if ws.len() > 0 {
        assert((t + ws).drop_last() =~= t + ws.drop_last());
        lemma_trim_end_white_suffix(t, ws.drop_last());
    } else {
        assert(t + ws =~= t);
    }
}

/// Trimming removes exactly the white space around text that starts and ends
/// with other characters.
proof fn lemma_trimmed_around(ws1: Seq<char>, t: Seq<char>, ws2: Seq<char>)
    requires
        all_white(ws1),
        all_white(ws2),
        t.len() > 0,
        !is_white(t[0]),
        !is_white(t.last()),
    ensures
        trimmed(ws1 + t + ws2) == t,
{
    assert(ws1 + t + ws2 =~= ws1 + (t + ws2));
    lemma_trim_start_white_prefix(ws1, t + ws2);
    assert((t + ws2)[0] == t[0]);
    assert(trim_start(t + ws2) == t + ws2);
    lemma_trim_end_white_suffix(t, ws2);
}

/// Two ways of splitting one text into a run of `f`-characters and a rest that
/// does not start with one agree.
proof fn lemma_split_unique(
    x: Seq<char>,
    p: Seq<char>,
    y: Seq<char>,
    q: Seq<char>,
    f: spec_fn(char) -> bool,
)
    requires
        x + p == y + q,
        forall|i: int| 0 <= i < x.len() ==> f(#[trigger] x[i]),
        forall|i: int| 0 <= i < y.len() ==> f(#[trigger] y[i]),
        p.len() == 0 || !f(p[0]),
        q.len() == 0 || !f(q[0]),
    ensures
        x == y,
        p == q,
{
    let s = x + p;
    if x.len() < y.len() {
        assert(s[x.len() as int] == y[x.len() as int]);
        assert(s[x.len() as int] == p[0]);
    } else if y.len() < x.len() {
        assert(s[y.len() as int] == x[y.len() as int]);
        assert((y + q)[y.len() as int] == q[0]);
    }
    assert(x =~= s.subrange(0, x.len() as int));
    assert(y =~= (y + q).subrange(0, y.len() as int));
    assert(p =~= s.subrange(x.len() as int, s.len() as int));
    assert(q =~= (y + q).subrange(y.len() as int, s.len() as int));
}

proof fn lemma_suffix_unique(pre: Seq<char>, build: Seq<char>, pre2: Seq<char>, build2: Seq<char>)
    requires
        valid_pre(pre),
        valid_build(build),
        valid_pre(pre2),
        valid_build(build2),
        suffix_text(pre, build) == suffix_text(pre2, build2),
    ensures
        pre == pre2,
        build == build2,
{
    let bp = if build.len() == 0 {
        Seq::<char>::empty()
    } else {
        seq!['+'] + build
    };
    let bp2 = if build2.len() == 0 {
        Seq::<char>::empty()
    } else {
        seq!['+'] + build2
    };
    let s = suffix_text(pre, build);
    reveal(valid_identifiers);
    if pre.len() > 0 && pre2.len() > 0 {
        assert(s =~= seq!['-'] + (pre + bp));
        assert(s =~= seq!['-'] + (pre2 + bp2));
        assert(pre + bp =~= s.drop_first());
        assert(pre2 + bp2 =~= s.drop_first());
        let f = |c: char| c != '+';
        lemma_split_unique(pre, bp, pre2, bp2, f);
    } else if pre.len() > 0 {
        assert(s[0] == '-');
        assert(s =~= bp2);
    } else if pre2.len() > 0 {
        assert(s =~= bp);
        assert(suffix_text(pre2, build2)[0] == '-');
    } else {
        assert(s =~= bp);
        assert(s =~= bp2);
    }
    if build.len() > 0 && build2.len() > 0 {
        assert(build =~= bp.drop_first());
        assert(build2 =~= bp2.drop_first());
    }
}

#[verifier::spinoff_prover]
#[verifier::rlimit(50)]
proof fn lemma_version_text_unique(
    a: Seq<char>,
    b: Seq<char>,
    c: Seq<char>,
    pre: Seq<char>,
    build: Seq<char>,
    a2: Seq<char>,
    b2: Seq<char>,
    c2: Seq<char>,
    pre2: Seq<char>,
    build2: Seq<char>,
)
    requires
        valid_number(a) && valid_number(b) && valid_number(c),
        valid_number(a2) && valid_number(b2) && valid_number(c2),
        valid_pre(pre) && valid_build(build) && valid_pre(pre2) && valid_build(build2),
        version_text(a, b, c, pre, build) == version_text(a2, b2, c2, pre2, build2),
    ensures
        a == a2 && b == b2 && c == c2 && pre == pre2 && build == build2,
{
    let f = |ch: char| is_digit(ch);
    let sx = suffix_text(pre, build);
    let sx2 = suffix_text(pre2, build2);
    let r1 = seq!['.'] + b + seq!['.'] + c + sx;
    let r2 = seq!['.'] + b2 + seq!['.'] + c2 + sx2;
    assert(version_text(a, b, c, pre, build) =~= a + r1);
    assert(version_text(a2, b2, c2, pre2, build2) =~= a2 + r2);
    lemma_split_unique(a, r1, a2, r2, f);
    let t1 = seq!['.'] + c + sx;
    let t2 = seq!['.'] + c2 + sx2;
    assert(r1.drop_first() =~= b + t1);
    assert(r2.drop_first() =~= b2 + t2);
    lemma_split_unique(b, t1, b2, t2, f);
    assert(t1.drop_first() =~= c + sx);
    assert(t2.drop_first() =~= c2 + sx2);
    assert(sx.len() == 0 || sx[0] == '-' || sx[0] == '+');
    assert(sx2.len() == 0 || sx2[0] == '-' || sx2[0] == '+');
    lemma_split_unique(c, sx, c2, sx2, f);
    lemma_suffix_unique(pre, build, pre2, build2);
}

/// Parsing the banner `X.Y.Z[-pre][+build]`, surrounded by any white space,
/// succeeds and yields major `X`, minor `Y`, patch `Z` and the given
/// pre-release and build texts.
pub proof fn law_version_components(
    ws1: Seq<char>,
    x: Seq<char>,
    y: Seq<char>,
    z: Seq<char>,
    pre: Seq<char>,
    build: Seq<char>,
    ws2: Seq<char>,
    r: Result<Version, MesonError>,
)
    requires
        all_white(ws1),
        all_white(ws2),
        valid_number(x),
        valid_number(y),
        valid_number(z),
        valid_pre(pre),
        valid_build(build),
        version_parse_result(ws1 + version_text(x, y, z, pre, build) + ws2, r),
    ensures
        r is Ok,
        r->Ok_0.major == dec_value(x),
        r->Ok_0.minor == dec_value(y),
        r->Ok_0.patch == dec_value(z),
        r->Ok_0.pre@ == pre,
        r->Ok_0.build@ == build,
{
    let t = version_text(x, y, z, pre, build);
    let sx = suffix_text(pre, build);
    assert(t[0] == x[0]);
    assert(is_digit(t[0]));
    if sx.len() > 0 {
        reveal(valid_identifiers);
        assert(t.last() == sx.last());
        if build.len() > 0 {
            assert(sx.last() == build.last());
            assert(is_ident_char(build[build.len() - 1]) || build[build.len() - 1] == '.');
        } else {
            assert(sx.last() == pre.last());
            assert(is_ident_char(pre[pre.len() - 1]) || pre[pre.len() - 1] == '.');
        }
    } else {
        assert(t.last() == z.last());
    }
    lemma_trimmed_around(ws1, t, ws2);
    assert(is_version_of(t, dec_value(x) as u64, dec_value(y) as u64, dec_value(z) as u64, pre, build));
    match r {
        Ok(v) => {
            let (a, b, c) = choose|a: Seq<char>, b: Seq<char>, c: Seq<char>|
                {
                    &&& valid_number(a) && valid_number(b) && valid_number(c)
                    &&& dec_value(a) == v.major && dec_value(b) == v.minor && dec_value(c) == v.patch
                    &&& valid_pre(v.pre@) && valid_build(v.build@)
                    &&& t == #[trigger] version_text(a, b, c, v.pre@, v.build@)
                };
            lemma_version_text_unique(a, b, c, v.pre@, v.build@, x, y, z, pre, build);
        },
        Err(_) => {},
    }
}

/// Text that, once trimmed, does not start with a digit is rejected with
/// `VersionParseError`.
pub proof fn law_non_version_rejected(s: Seq<char>, r: Result<Version, MesonError>)
    requires
        trimmed(s).len() == 0 || !is_digit(trimmed(s)[0]),
        version_parse_result(s, r),
    ensures
        r == Err::<Version, MesonError>(MesonError::VersionParseError),
{
    if r is Ok {
        let v = r->Ok_0;
        let t = trimmed(s);
        let (a, b, c) = choose|a: Seq<char>, b: Seq<char>, c: Seq<char>|
            {
                &&& valid_number(a) && valid_number(b) && valid_number(c)
                &&& dec_value(a) == v.major && dec_value(b) == v.minor && dec_value(c) == v.patch
                &&& valid_pre(v.pre@) && valid_build(v.build@)
                &&& t == #[trigger] version_text(a, b, c, v.pre@, v.build@)
            };
        assert(t[0] == a[0]);
    }
}

pub open spec fn digit_char(d: nat) -> char {
    seq!['0', '1', '2', '3', '4', '5', '6', '7', '8', '9'][d as int]
}

/// The decimal digits of `n`, without leading zeros.
pub open spec fn dec_digits(n: nat) -> Seq<char>
    decreases n,
{
    if n < 10 {
        seq![digit_char(n)]
    } else {
        dec_digits(n / 10) + seq![digit_char(n % 10)]
    }
}

/// The decimal text of `n`.
pub fn decimal(n: u64) -> (r: String)
    ensures
        r@ == dec_digits(n as nat),
    decreases n,
{
    let digits = "0123456789";
    proof {
        reveal_strlit("0123456789");
    }
    let d = (n % 10) as usize;
    let last = digits.substring_char(d, d + 1);
    assert(last@ =~= seq![digit_char(d as nat)]);
    if n < 10 {
        String::from_str(last)
    } else {
        let mut s = decimal(n / 10);
        s.append(last);
        s
    }
}

/// The text of a version, as `major.minor.patch[-pre][+build]`.
pub open spec fn version_display(v: Version) -> Seq<char> {
    version_text(
        dec_digits(v.major as nat),
        dec_digits(v.minor as nat),
        dec_digits(v.patch as nat),
        v.pre@,
        v.build@,
    )
}

impl Version {
    /// The version written out as `major.minor.patch[-pre][+build]`.
    pub fn to_text(&self) -> (r: String)
        ensures
            r@ == version_display(*self),
    {
        let mut s = decimal(self.major);
        s.append(".");
        let minor = decimal(self.minor);
        s.append(minor.as_str());
        s.append(".");
        let patch = decimal(self.patch);
        s.append(patch.as_str());
        if self.pre.unicode_len() > 0 {
            s.append("-");
            s.append(self.pre.as_str());
        }
        if self.build.unicode_len() > 0 {
            s.append("+");
            s.append(self.build.as_str());
        }
        proof {
            reveal_strlit(".");
            reveal_strlit("-");
            reveal_strlit("+");
        }
        assert(s@ =~= version_display(*self));
        s
    }
}

} // verus!
