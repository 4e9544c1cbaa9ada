//! Platform catalog: the supported packaging targets, each identified by a
//! canonical token of the form `<os>-<cpu>[-<abi>]`, with strict parsing.

use vstd::prelude::*;
use crate::text::{
    find_char_from, first_at, lemma_first_at_bounds, lemma_first_at_hit, lemma_first_at_miss,
    str_eq,
};

verus! {

/// Operating-system family of a packaging target.
#[derive(Clone, Copy, Debug, PartialEq, Eq, Structural, Hash)]
pub enum NodePlatform {
    Win32,
    Darwin,
    Linux,
    Android,
    Freebsd,
}

/// CPU architecture of a packaging target.
#[derive(Clone, Copy, Debug, PartialEq, Eq, Structural, Hash)]
pub enum NodeArch {
    X64,
    Ia32,
    Arm64,
    Arm,
}

/// The token that names an operating-system family.
pub open spec fn os_token(p: NodePlatform) -> Seq<char> {
    match p {
        NodePlatform::Win32 => "win32"@,
        NodePlatform::Darwin => "darwin"@,
        NodePlatform::Linux => "linux"@,
        NodePlatform::Android => "android"@,
        NodePlatform::Freebsd => "freebsd"@,
    }
}

/// The token that names a CPU architecture.
pub open spec fn arch_token(a: NodeArch) -> Seq<char> {
    match a {
        NodeArch::X64 => "x64"@,
        NodeArch::Ia32 => "ia32"@,
        NodeArch::Arm64 => "arm64"@,
        NodeArch::Arm => "arm"@,
    }
}

/// The operating-system family a token names, if any.
pub open spec fn spec_os_of(t: Seq<char>) -> Option<NodePlatform> {
    if t == "win32"@ {
        Some(NodePlatform::Win32)
    } else if t == "darwin"@ {
        Some(NodePlatform::Darwin)
    } else if t == "linux"@ {
        Some(NodePlatform::Linux)
    } else if t == "android"@ {
        Some(NodePlatform::Android)
    } else if t == "freebsd"@ {
        Some(NodePlatform::Freebsd)
    } else {
        None
    }
}

/// The CPU architecture a token names, if any.
pub open spec fn spec_arch_of(t: Seq<char>) -> Option<NodeArch> {
    if t == "x64"@ {
        Some(NodeArch::X64)
    } else if t == "ia32"@ {
        Some(NodeArch::Ia32)
    } else if t == "arm64"@ {
        Some(NodeArch::Arm64)
    } else if t == "arm"@ {
        Some(NodeArch::Arm)
    } else {
        None
    }
}

impl NodePlatform {
    /// The token that names this family, e.g. in manifests' `os` lists.
    pub fn token_str(&self) -> (r: &'static str)
        ensures
            r@ == os_token(*self),
    {
        match self {
            NodePlatform::Win32 => "win32",
            NodePlatform::Darwin => "darwin",
            NodePlatform::Linux => "linux",
            NodePlatform::Android => "android",
            NodePlatform::Freebsd => "freebsd",
        }
    }

    /// Native extension of a dynamic library on this family, dot included.
    pub fn cdylib_ext(&self) -> (r: &'static str)
        ensures
            r@ == cdylib_ext_spec(*self),
    {
        match self {
            NodePlatform::Win32 => ".dll",
            NodePlatform::Darwin => ".dylib",
            NodePlatform::Linux => ".so",
            NodePlatform::Android => ".so",
            NodePlatform::Freebsd => ".so",
        }
    }
}

/// Native extension of a dynamic library, per family.
pub open spec fn cdylib_ext_spec(p: NodePlatform) -> Seq<char> {
    match p {
        NodePlatform::Win32 => ".dll"@,
        NodePlatform::Darwin => ".dylib"@,
        _ => ".so"@,
    }
}

impl NodeArch {
    /// The token that names this architecture, e.g. in manifests' `cpu` lists.
    pub fn token_str(&self) -> (r: &'static str)
        ensures
            r@ == arch_token(*self),
    {
        match self {
            NodeArch::X64 => "x64",
            NodeArch::Ia32 => "ia32",
            NodeArch::Arm64 => "arm64",
            NodeArch::Arm => "arm",
        }
    }
}

fn os_of_token(t: &str) -> (r: Option<NodePlatform>)
    ensures
        r == spec_os_of(t@),
{
    if str_eq(t, "win32") {
        Some(NodePlatform::Win32)
    } else if str_eq(t, "darwin") {
        Some(NodePlatform::Darwin)
    } else if str_eq(t, "linux") {
        Some(NodePlatform::Linux)
    } else if str_eq(t, "android") {
        Some(NodePlatform::Android)
    } else if str_eq(t, "freebsd") {
        Some(NodePlatform::Freebsd)
    } else {
        None
    }
}

fn arch_of_token(t: &str) -> (r: Option<NodeArch>)
    ensures
        r == spec_arch_of(t@),
{
    if str_eq(t, "x64") {
        Some(NodeArch::X64)
    } else if str_eq(t, "ia32") {
        Some(NodeArch::Ia32)
    } else if str_eq(t, "arm64") {
        Some(NodeArch::Arm64)
    } else if str_eq(t, "arm") {
        Some(NodeArch::Arm)
    } else {
        None
    }
}

/// Mathematical model of a packaging target: the structured fields
/// together with the token that names it.
#[verifier::ext_equal]
pub struct PlatformModel {
    pub platform: NodePlatform,
    pub arch: NodeArch,
    pub abi: Option<Seq<char>>,
    pub token: Seq<char>,
}

/// The canonical token built back from structured fields.
pub open spec fn canonical_parts(
    platform: NodePlatform,
    arch: NodeArch,
    abi: Option<Seq<char>>,
) -> Seq<char> {
    os_token(platform) + seq!['-'] + arch_token(arch) + match abi {
        Some(a) => seq!['-'] + a,
        None => Seq::<char>::empty(),
    }
}

/// A well-formed target: its token is the canonical form of its fields,
/// and the ABI qualifier, when present, holds no separator.
pub open spec fn wf_model(m: PlatformModel) -> bool {
    &&& m.token == canonical_parts(m.platform, m.arch, m.abi)
    &&& match m.abi {
        Some(a) => !a.contains('-'),
        None => true,
    }
}

/// One packaging target.
#[derive(Clone, Debug)]
pub struct PlatformDetail {
    pub platform: NodePlatform,
    pub arch: NodeArch,
    pub abi: Option<String>,
    /// Canonical identifier `<os>-<cpu>[-<abi>]`; the key under which the
    /// target is named and matched everywhere.
    pub platform_arch_abi: String,
}

impl View for PlatformDetail {
    type V = PlatformModel;

    open spec fn view(&self) -> PlatformModel {
        PlatformModel {
            platform: self.platform,
            arch: self.arch,
            abi: match self.abi {
                Some(a) => Some(a@),
                None => None,
            },
            token: self.platform_arch_abi@,
        }
    }
}

impl DeepView for PlatformDetail {
    type V = PlatformModel;

    open spec fn deep_view(&self) -> PlatformModel {
        self.view()
    }
}

impl PartialEq for PlatformDetail {
    /// Two targets are equal exactly when their canonical tokens are.
    fn eq(&self, other: &PlatformDetail) -> (r: bool) {
        str_eq(self.platform_arch_abi.as_str(), other.platform_arch_abi.as_str())
    }
}

impl vstd::std_specs::cmp::PartialEqSpecImpl for PlatformDetail {
    open spec fn obeys_eq_spec() -> bool {
        true
    }

    open spec fn eq_spec(&self, other: &PlatformDetail) -> bool {
        self.platform_arch_abi@ == other.platform_arch_abi@
    }
}

impl PlatformDetail {
    /// A copy of this target.
    pub fn clone_detail(&self) -> (r: PlatformDetail)
        ensures
            r@ == self@,
    {
        PlatformDetail {
            platform: self.platform,
            arch: self.arch,
            abi: match &self.abi {
                Some(a) => Some(a.clone()),
                None => None,
            },
            platform_arch_abi: self.platform_arch_abi.clone(),
        }
    }

    /// The canonical token, as a fresh string.
    pub fn to_token_string(&self) -> (r: String)
        ensures
            r@ == self@.token,
    {
        self.platform_arch_abi.clone()
    }
}

/// A rejected platform token.
#[derive(Clone, Debug, PartialEq, Eq)]
pub enum PlatformError {
    /// The token does not have two or three `-`-separated segments.
    InvalidPlatformFormat,
    /// A segment names no known component; carries the offending token
    /// and the accepted tokens for that position.
    UnknownPlatformComponent { token: String, accepted: Vec<String> },
}

/// What strict parsing makes of a token.
#[verifier::ext_equal]
pub enum ParseOutcome {
    Detail(PlatformModel),
    BadFormat,
    UnknownOs(Seq<char>),
    UnknownCpu(Seq<char>),
}

/// Strict parse of a platform token: two segments give `{os, cpu}`,
/// three give `{os, cpu, abi}`, any other count is a format error;
/// an unrecognized os or cpu segment is reported as such.
pub open spec fn spec_parse(s: Seq<char>) -> ParseOutcome {
    let n = s.len() as int;
    let p1 = first_at(s, 0, '-');
    let p2 = first_at(s, p1 + 1, '-');
    let p3 = first_at(s, p2 + 1, '-');
    if p1 == n || p3 < n {
        ParseOutcome::BadFormat
    } else {
        let os_t = s.take(p1);
        let cpu_t = s.subrange(p1 + 1, p2);
        match spec_os_of(os_t) {
            None => ParseOutcome::UnknownOs(os_t),
            Some(os) => match spec_arch_of(cpu_t) {
                None => ParseOutcome::UnknownCpu(cpu_t),
                Some(cpu) => ParseOutcome::Detail(
                    PlatformModel {
                        platform: os,
                        arch: cpu,
                        abi: if p2 == n {
                            None
                        } else {
                            Some(s.subrange(p2 + 1, n))
                        },
                        token: s,
                    },
                ),
            },
        }
    }
}

/// Accepted operating-system tokens, in the order they are reported.
pub open spec fn os_accepted_tokens() -> Seq<Seq<char>> {
    seq!["win32"@, "darwin"@, "linux"@, "android"@, "freebsd"@]
}

/// Accepted CPU tokens, in the order they are reported.
pub open spec fn arch_accepted_tokens() -> Seq<Seq<char>> {
    seq!["x64"@, "ia32"@, "arm64"@, "arm"@]
}

fn os_accepted() -> (r: Vec<String>)
    ensures
        r.deep_view() =~= os_accepted_tokens(),
{
    let mut v: Vec<String> = Vec::new();
    v.push(String::from_str("win32"));
    v.push(String::from_str("darwin"));
    v.push(String::from_str("linux"));
    v.push(String::from_str("android"));
    v.push(String::from_str("freebsd"));
    v
}

fn arch_accepted() -> (r: Vec<String>)
    ensures
        r.deep_view() =~= arch_accepted_tokens(),
{
    let mut v: Vec<String> = Vec::new();
    v.push(String::from_str("x64"));
    v.push(String::from_str("ia32"));
    v.push(String::from_str("arm64"));
    v.push(String::from_str("arm"));
    v
}

/// Parses a platform token into its structured target, strictly:
/// a segment count outside two or three is a format error, an
/// unrecognized os or cpu segment names the offending token.
pub fn parse_node_platform(s: &str) -> (r: Result<PlatformDetail, PlatformError>)
    ensures
        match spec_parse(s@) {
            ParseOutcome::BadFormat => r matches Err(PlatformError::InvalidPlatformFormat),
            ParseOutcome::UnknownOs(t) => r matches Err(
                PlatformError::UnknownPlatformComponent { token, accepted },
            ) && token@ == t && accepted.deep_view() =~= os_accepted_tokens(),
            ParseOutcome::UnknownCpu(t) => r matches Err(
                PlatformError::UnknownPlatformComponent { token, accepted },
            ) && token@ == t && accepted.deep_view() =~= arch_accepted_tokens(),
            ParseOutcome::Detail(m) => r matches Ok(p) && p@ =~= m && wf_model(p@),
        },
{
    let n = s.unicode_len();
    let p1 = find_char_from(s, 0, '-');
    proof {
        lemma_first_at_bounds(s@, 0, '-');
    }
    if p1 == n {
        return Err(PlatformError::InvalidPlatformFormat);
    }
    let p2 = find_char_from(s, p1 + 1, '-');
    proof {
        lemma_first_at_bounds(s@, p1 + 1 as int, '-');
    }
    let p3 = if p2 < n {
        find_char_from(s, p2 + 1, '-')
    } else {
        n
    };
    proof {
        if p2 < s@.len() {
            lemma_first_at_bounds(s@, p2 + 1 as int, '-');
        }
    }
    if p3 < n {
        return Err(PlatformError::InvalidPlatformFormat);
    }
    let os_t = s.substring_char(0, p1);
    let cpu_t = s.substring_char(p1 + 1, p2);
    let os = match os_of_token(os_t) {
        Some(v) => v,
        None => {
            return Err(
                PlatformError::UnknownPlatformComponent {
                    token: String::from_str(os_t),
                    accepted: os_accepted(),
                },
            );
        },
    };
    let arch = match arch_of_token(cpu_t) {
        Some(v) => v,
        None => {
            return Err(
                PlatformError::UnknownPlatformComponent {
                    token: String::from_str(cpu_t),
                    accepted: arch_accepted(),
                },
            );
        },
    };
    let abi = if p2 < n {
        Some(String::from_str(s.substring_char(p2 + 1, n)))
    } else {
        None
    };
    let detail = PlatformDetail {
        platform: os,
        arch,
        abi,
        platform_arch_abi: String::from_str(s),
    };
    proof {
        lemma_parse_success_wf(s@, detail@);
    }
    Ok(detail)
}

/// A successful strict parse yields a well-formed target whose token is
/// the input itself.
proof fn lemma_parse_success_wf(s: Seq<char>, m: PlatformModel)
    requires
        spec_parse(s) == ParseOutcome::Detail(m),
    ensures
        wf_model(m),
        m.token == s,
{
    let n = s.len() as int;
    let p1 = first_at(s, 0, '-');
    let p2 = first_at(s, p1 + 1, '-');
    let p3 = first_at(s, p2 + 1, '-');
    lemma_first_at_bounds(s, 0, '-');
    assert(p1 < n);
    lemma_first_at_bounds(s, p1 + 1, '-');
    if p2 < n {
        lemma_first_at_bounds(s, p2 + 1, '-');
    }
    let os_t = s.take(p1);
    let cpu_t = s.subrange(p1 + 1, p2);
    lemma_os_of_inverts(os_t);
    lemma_arch_of_inverts(cpu_t);
    if p2 == n {
        assert(s =~= os_t + seq!['-'] + cpu_t);
    } else {
        let abi_t = s.subrange(p2 + 1, n);
        assert(s =~= os_t + seq!['-'] + cpu_t + (seq!['-'] + abi_t));
        assert(!abi_t.contains('-'));
    }
}

/// Every operating-system token is recognized, and holds no separator.
proof fn lemma_os_tokens()
    ensures
        forall|p: NodePlatform| spec_os_of(#[trigger] os_token(p)) == Some(p),
        forall|p: NodePlatform| !(#[trigger] os_token(p)).contains('-'),
{
    reveal_strlit("win32");
    reveal_strlit("darwin");
    reveal_strlit("linux");
    reveal_strlit("android");
    reveal_strlit("freebsd");
    assert forall|p: NodePlatform|
        spec_os_of(#[trigger] os_token(p)) == Some(p) && !os_token(p).contains('-') by {
        let t = os_token(p);
        assert(forall|i: int| 0 <= i < t.len() ==> t[i] != '-');
        match p {
            NodePlatform::Win32 => {},
            NodePlatform::Darwin => {
                assert(t != "win32"@);
            },
            NodePlatform::Linux => {
                assert(t[0] == 'l' && "win32"@[0] == 'w');
                assert(t != "win32"@ && t != "darwin"@);
            },
            NodePlatform::Android => {
                assert(t != "win32"@ && t != "darwin"@ && t != "linux"@);
            },
            NodePlatform::Freebsd => {
                assert(t[0] == 'f' && "android"@[0] == 'a');
                assert(t != "win32"@ && t != "darwin"@ && t != "linux"@ && t != "android"@);
            },
        }
    }
}

/// Every architecture token is recognized, and holds no separator.
proof fn lemma_arch_tokens()
    ensures
        forall|a: NodeArch| spec_arch_of(#[trigger] arch_token(a)) == Some(a),
        forall|a: NodeArch| !(#[trigger] arch_token(a)).contains('-'),
{
    reveal_strlit("x64");
    reveal_strlit("ia32");
    reveal_strlit("arm64");
    reveal_strlit("arm");
    assert forall|a: NodeArch|
        spec_arch_of(#[trigger] arch_token(a)) == Some(a) && !arch_token(a).contains('-') by {
        let t = arch_token(a);
        assert(forall|i: int| 0 <= i < t.len() ==> t[i] != '-');
        match a {
            NodeArch::X64 => {},
            NodeArch::Ia32 => {
                assert(t != "x64"@);
            },
            NodeArch::Arm64 => {
                assert(t != "x64"@ && t != "ia32"@);
            },
            NodeArch::Arm => {
                assert(t[0] == 'a' && "x64"@[0] == 'x');
                assert(t != "x64"@ && t != "ia32"@ && t != "arm64"@);
            },
        }
    }
}

/// Round-trip stability: parsing the canonical token of any well-formed
/// target yields back exactly that target.
pub proof fn lemma_canonical_roundtrip(m: PlatformModel)
    requires
        wf_model(m),
    ensures
        spec_parse(m.token) == ParseOutcome::Detail(m),
{
    lemma_os_tokens();
    lemma_arch_tokens();
    let s = m.token;
    let n = s.len() as int;
    let oa = os_token(m.platform);
    let ab = arch_token(m.arch);
    let ol = oa.len() as int;
    let al = ab.len() as int;
    match m.abi {
        None => {
            assert(s =~= oa + seq!['-'] + ab);
            assert(s[ol] == '-');
            assert(forall|j: int| 0 <= j < ol ==> s[j] == oa[j] && s[j] != '-');
            lemma_first_at_hit(s, 0, ol, '-');
            assert(forall|j: int| ol + 1 <= j < n ==> s[j] == ab[j - ol - 1] && s[j] != '-');
            lemma_first_at_miss(s, ol + 1, '-');
            assert(first_at(s, n + 1, '-') == n);
            assert(s.take(ol) =~= oa);
            assert(s.subrange(ol + 1, n) =~= ab);
            assert(spec_parse(s) =~= ParseOutcome::Detail(m));
        },
        Some(c) => {
            let cl = c.len() as int;
            assert(s =~= oa + seq!['-'] + ab + (seq!['-'] + c));
            assert(s[ol] == '-');
            assert(forall|j: int| 0 <= j < ol ==> s[j] == oa[j] && s[j] != '-');
            lemma_first_at_hit(s, 0, ol, '-');
            assert(s[ol + 1 + al] == '-');
            assert(forall|j: int| ol + 1 <= j < ol + 1 + al ==> s[j] == ab[j - ol - 1] && s[j]
                != '-');
            lemma_first_at_hit(s, ol + 1, ol + 1 + al, '-');
            assert(forall|j: int| ol + al + 2 <= j < n ==> s[j] == c[j - ol - al - 2] && s[j]
                != '-');
            lemma_first_at_miss(s, ol + al + 2, '-');
            assert(s.take(ol) =~= oa);
            assert(s.subrange(ol + 1, ol + 1 + al) =~= ab);
            assert(s.subrange(ol + al + 2, n) =~= c);
            assert(spec_parse(s) =~= ParseOutcome::Detail(m));
        },
    }
}

/// Round-trip stability of parsing itself: a token that parses yields
/// a target whose own token parses back to exactly the same target.
pub proof fn lemma_parse_roundtrip(s: Seq<char>, m: PlatformModel)
    requires
        spec_parse(s) == ParseOutcome::Detail(m),
    ensures
        m.token == s,
        spec_parse(m.token) == ParseOutcome::Detail(m),
{
    lemma_parse_success_wf(s, m);
    lemma_canonical_roundtrip(m);
}

/// A token accepted as an operating system is that system's own token.
proof fn lemma_os_of_inverts(t: Seq<char>)
    ensures
        match spec_os_of(t) {
            Some(p) => t == os_token(p),
            None => true,
        },
{
}

/// A token accepted as an architecture is that architecture's own token.
proof fn lemma_arch_of_inverts(t: Seq<char>)
    ensures
        match spec_arch_of(t) {
            Some(a) => t == arch_token(a),
            None => true,
        },
{
}

/// The tokens of the full fixed catalog, in its published order.
pub open spec fn catalog() -> Seq<Seq<char>> {
    seq![
        "win32-x64-msvc"@,
        "darwin-x64"@,
        "linux-x64-gnu"@,
        "linux-x64-musl"@,
        "win32-ia32-msvc"@,
        "linux-arm64-gnu"@,
        "linux-arm-gnueabihf"@,
        "darwin-arm64"@,
        "android-arm64"@,
        "freebsd-x64"@,
        "linux-arm64-musl"@,
        "win32-arm64-msvc"@,
    ]
}

/// The canonical tokens of every supported target.
pub fn possible_strings() -> (r: Vec<&'static str>)
    ensures
        r.deep_view() =~= catalog(),
{
    let mut v: Vec<&'static str> = Vec::new();
    v.push("win32-x64-msvc");
    v.push("darwin-x64");
    v.push("linux-x64-gnu");
    v.push("linux-x64-musl");
    v.push("win32-ia32-msvc");
    v.push("linux-arm64-gnu");
    v.push("linux-arm-gnueabihf");
    v.push("darwin-arm64");
    v.push("android-arm64");
    v.push("freebsd-x64");
    v.push("linux-arm64-musl");
    v.push("win32-arm64-msvc");
    v
}

fn mk_detail(
    platform: NodePlatform,
    arch: NodeArch,
    abi: Option<&str>,
    token: &str,
) -> (r: PlatformDetail)
    requires
        token@ == canonical_parts(
            platform,
            arch,
            match abi {
                Some(a) => Some(a@),
                None => None,
            },
        ),
        match abi {
            Some(a) => !a@.contains('-'),
            None => true,
        },
    ensures
        wf_model(r@),
        r@.token == token@,
        r@.platform == platform,
        r@.arch == arch,
{
    PlatformDetail {
        platform,
        arch,
        abi: match abi {
            Some(a) => Some(String::from_str(a)),
            None => None,
        },
        platform_arch_abi: String::from_str(token),
    }
}

/// The full fixed catalog of supported targets; the default platform set
/// whenever a caller does not restrict it.
pub fn all_node_platforms() -> (r: Vec<PlatformDetail>)
    ensures
        r@.len() == catalog().len(),
        forall|i: int|
            0 <= i < r@.len() ==> wf_model(#[trigger] r@[i]@) && r@[i]@.token == catalog()[i],
{
    proof {
        reveal_strlit("win32");
        reveal_strlit("darwin");
        reveal_strlit("linux");
        reveal_strlit("android");
        reveal_strlit("freebsd");
        reveal_strlit("x64");
        reveal_strlit("ia32");
        reveal_strlit("arm64");
        reveal_strlit("arm");
        reveal_strlit("msvc");
        reveal_strlit("gnu");
        reveal_strlit("musl");
        reveal_strlit("gnueabihf");
        reveal_strlit("win32-x64-msvc");
        reveal_strlit("darwin-x64");
        reveal_strlit("linux-x64-gnu");
        reveal_strlit("linux-x64-musl");
        reveal_strlit("win32-ia32-msvc");
        reveal_strlit("linux-arm64-gnu");
        reveal_strlit("linux-arm-gnueabihf");
        reveal_strlit("darwin-arm64");
        reveal_strlit("android-arm64");
        reveal_strlit("freebsd-x64");
        reveal_strlit("linux-arm64-musl");
        reveal_strlit("win32-arm64-msvc");
        assert(!"msvc"@.contains('-') && !"gnu"@.contains('-') && !"musl"@.contains('-')
            && !"gnueabihf"@.contains('-')) by {
            assert(forall|i: int| 0 <= i < "msvc"@.len() ==> "msvc"@[i] != '-');
            assert(forall|i: int| 0 <= i < "gnu"@.len() ==> "gnu"@[i] != '-');
            assert(forall|i: int| 0 <= i < "musl"@.len() ==> "musl"@[i] != '-');
            assert(forall|i: int| 0 <= i < "gnueabihf"@.len() ==> "gnueabihf"@[i] != '-');
        }
        assert("win32-x64-msvc"@ =~= canonical_parts(
            NodePlatform::Win32, NodeArch::X64, Some("msvc"@)));
        assert("darwin-x64"@ =~= canonical_parts(
            NodePlatform::Darwin, NodeArch::X64, None));
        assert("linux-x64-gnu"@ =~= canonical_parts(
            NodePlatform::Linux, NodeArch::X64, Some("gnu"@)));
        assert("linux-x64-musl"@ =~= canonical_parts(
            NodePlatform::Linux, NodeArch::X64, Some("musl"@)));
        assert("win32-ia32-msvc"@ =~= canonical_parts(
            NodePlatform::Win32, NodeArch::Ia32, Some("msvc"@)));
        assert("linux-arm64-gnu"@ =~= canonical_parts(
            NodePlatform::Linux, NodeArch::Arm64, Some("gnu"@)));
        assert("linux-arm-gnueabihf"@ =~= canonical_parts(
            NodePlatform::Linux, NodeArch::Arm, Some("gnueabihf"@)));
        assert("darwin-arm64"@ =~= canonical_parts(
            NodePlatform::Darwin, NodeArch::Arm64, None));
        assert("android-arm64"@ =~= canonical_parts(
            NodePlatform::Android, NodeArch::Arm64, None));
        assert("freebsd-x64"@ =~= canonical_parts(
            NodePlatform::Freebsd, NodeArch::X64, None));
        assert("linux-arm64-musl"@ =~= canonical_parts(
            NodePlatform::Linux, NodeArch::Arm64, Some("musl"@)));
        assert("win32-arm64-msvc"@ =~= canonical_parts(
            NodePlatform::Win32, NodeArch::Arm64, Some("msvc"@)));
    }
    let mut v: Vec<PlatformDetail> = Vec::new();
    v.push(mk_detail(NodePlatform::Win32, NodeArch::X64, Some("msvc"), "win32-x64-msvc"));
    v.push(mk_detail(NodePlatform::Darwin, NodeArch::X64, None, "darwin-x64"));
    v.push(mk_detail(NodePlatform::Linux, NodeArch::X64, Some("gnu"), "linux-x64-gnu"));
    v.push(mk_detail(NodePlatform::Linux, NodeArch::X64, Some("musl"), "linux-x64-musl"));
    v.push(mk_detail(NodePlatform::Win32, NodeArch::Ia32, Some("msvc"), "win32-ia32-msvc"));
    v.push(mk_detail(NodePlatform::Linux, NodeArch::Arm64, Some("gnu"), "linux-arm64-gnu"));
    v.push(mk_detail(NodePlatform::Linux, NodeArch::Arm, Some("gnueabihf"), "linux-arm-gnueabihf"));
    v.push(mk_detail(NodePlatform::Darwin, NodeArch::Arm64, None, "darwin-arm64"));
    v.push(mk_detail(NodePlatform::Android, NodeArch::Arm64, None, "android-arm64"));
    v.push(mk_detail(NodePlatform::Freebsd, NodeArch::X64, None, "freebsd-x64"));
    v.push(mk_detail(NodePlatform::Linux, NodeArch::Arm64, Some("musl"), "linux-arm64-musl"));
    v.push(mk_detail(NodePlatform::Win32, NodeArch::Arm64, Some("msvc"), "win32-arm64-msvc"));
    v
}

} // verus!
