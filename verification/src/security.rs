//! The path-safety classifier.
//!
//! Given a directory path, the platform identity, and two injected facts —
//! whether the path resolves to a directory on the filesystem, and the user's
//! home directory — the classifier decides whether destructive operations
//! against that path are safe, at what risk level, and why. The rules are
//! evaluated in a fixed order; the existence, type, system-directory and
//! traversal rules block and short-circuit, the remaining rules only append
//! advisory warnings whose count determines the risk level.
//!
//! The filesystem probe and the home-directory lookup are deliberately not
//! performed here: the caller passes both in as plain values, so the decision
//! logic is a pure function that can be exercised against any platform's rule
//! set on any host.

use vstd::prelude::*;

use crate::platform::Platform;
use crate::strutil::{contains_seq, contains_substring, eq_concat3, starts_with, str_eq};

verus! {

/// Ordered classification of how dangerous an operation against a path is
/// judged to be: `Safe < Low < Medium < High < Critical`.
#[derive(Debug, Clone, Copy, PartialEq, Eq, Structural)]
pub enum RiskLevel {
    Safe,
    Low,
    Medium,
    High,
    Critical,
}

/// Position of a risk level in the `Safe < Low < Medium < High < Critical`
/// order.
pub open spec fn risk_rank(level: RiskLevel) -> nat {
    match level {
        RiskLevel::Safe => 0,
        RiskLevel::Low => 1,
        RiskLevel::Medium => 2,
        RiskLevel::High => 3,
        RiskLevel::Critical => 4,
    }
}

/// What the filesystem reports about a path: absent, present but not a
/// directory, or a directory. A probe failure (for example, permission
/// denied) is conservatively reported as `Missing`.
#[derive(Debug, Clone, Copy, PartialEq, Eq, Structural)]
pub enum PathStatus {
    Missing,
    NotDirectory,
    Directory,
}

/// The complete output of one classification call.
#[derive(Debug, Clone)]
pub struct PathValidation {
    pub is_safe: bool,
    pub risk_level: RiskLevel,
    pub warnings: Vec<String>,
    pub blocked_reasons: Vec<String>,
}

/// The verdict record under the name the UI-facing commands use for it.
pub type SafetyValidation = PathValidation;

/// A verdict as the specification sees it: each string list is a sequence
/// of character sequences.
#[verifier::ext_equal]
pub struct VerdictView {
    pub is_safe: bool,
    pub risk_level: RiskLevel,
    pub warnings: Seq<Seq<char>>,
    pub blocked_reasons: Seq<Seq<char>>,
}

impl View for PathValidation {
    type V = VerdictView;

    open spec fn view(&self) -> VerdictView {
        VerdictView {
            is_safe: self.is_safe,
            risk_level: self.risk_level,
            warnings: self.warnings.deep_view(),
            blocked_reasons: self.blocked_reasons.deep_view(),
        }
    }
}

/// The home-directory fact as the specification sees it.
pub open spec fn spec_home_view(home: &Option<String>) -> Option<Seq<char>> {
    match home {
        Some(h) => Some(h@),
        None => None,
    }
}

// ------------------------------------------------------------------
// Finding messages
// ------------------------------------------------------------------

pub open spec fn msg_path_missing() -> Seq<char> {
    "Path does not exist"@
}

pub open spec fn msg_not_directory() -> Seq<char> {
    "Path is not a directory"@
}

pub open spec fn msg_system_directory() -> Seq<char> {
    "System directory access is blocked"@
}

pub open spec fn msg_traversal() -> Seq<char> {
    "Path contains traversal patterns"@
}

pub open spec fn msg_sensitive_directory() -> Seq<char> {
    "User sensitive directory - review operations carefully"@
}

pub open spec fn msg_application_directory() -> Seq<char> {
    "Application directory - may affect installed programs"@
}

pub open spec fn msg_deep_path() -> Seq<char> {
    "Very deep directory path - may cause performance issues"@
}

pub open spec fn msg_special_characters() -> Seq<char> {
    "Path contains special characters that may cause issues"@
}

pub open spec fn msg_long_path() -> Seq<char> {
    "Very long path - may cause system limitations"@
}

// ------------------------------------------------------------------
// Rule predicates
// ------------------------------------------------------------------

/// The path starts with an entry of the Windows system-directory deny list.
pub open spec fn spec_windows_system_prefix(path: Seq<char>) -> bool {
    ||| "C:\\Windows"@.is_prefix_of(path)
    ||| "C:\\Program Files"@.is_prefix_of(path)
    ||| "C:\\Program Files (x86)"@.is_prefix_of(path)
    ||| "C:\\ProgramData"@.is_prefix_of(path)
    ||| "C:\\System32"@.is_prefix_of(path)
    ||| "C:\\SysWOW64"@.is_prefix_of(path)
}

/// The path starts with an entry of the POSIX system-directory deny list.
pub open spec fn spec_posix_system_prefix(path: Seq<char>) -> bool {
    ||| "/bin"@.is_prefix_of(path)
    ||| "/sbin"@.is_prefix_of(path)
    ||| "/usr/bin"@.is_prefix_of(path)
    ||| "/usr/sbin"@.is_prefix_of(path)
    ||| "/etc"@.is_prefix_of(path)
    ||| "/boot"@.is_prefix_of(path)
    ||| "/sys"@.is_prefix_of(path)
    ||| "/proc"@.is_prefix_of(path)
    ||| "/dev"@.is_prefix_of(path)
    ||| "/lib"@.is_prefix_of(path)
    ||| "/lib64"@.is_prefix_of(path)
    ||| "/usr/lib"@.is_prefix_of(path)
    ||| "/usr/lib64"@.is_prefix_of(path)
    ||| "/var/log"@.is_prefix_of(path)
}

/// The path falls under the deny list of the given platform.
pub open spec fn spec_is_system_directory(path: Seq<char>, platform: Platform) -> bool {
    if platform == Platform::Windows {
        spec_windows_system_prefix(path)
    } else {
        spec_posix_system_prefix(path)
    }
}

/// The raw path contains one of the traversal patterns `..`, `./` or `.\`.
pub open spec fn spec_contains_traversal(path: Seq<char>) -> bool {
    contains_seq(path, ".."@) || contains_seq(path, "./"@) || contains_seq(path, ".\\"@)
}

/// The path separator used when joining home with a well-known subdirectory.
pub open spec fn spec_separator(platform: Platform) -> Seq<char> {
    if platform == Platform::Windows {
        "\\"@
    } else {
        "/"@
    }
}

/// The path equals the user's home directory or one of its well-known
/// sensitive subdirectories.
pub open spec fn spec_is_user_sensitive(
    path: Seq<char>,
    home: Option<Seq<char>>,
    platform: Platform,
) -> bool {
    match home {
        None => false,
        Some(h) => {
            let sep = spec_separator(platform);
            ||| path == h
            ||| path == h + sep + "Documents"@
            ||| path == h + sep + "Desktop"@
            ||| path == h + sep + "Pictures"@
            ||| path == h + sep + "Videos"@
            ||| path == h + sep + "Music"@
            ||| path == h + sep + "Downloads"@
            ||| path == h + sep + ".ssh"@
            ||| path == h + sep + ".gnupg"@
            ||| path == h + sep + ".config"@
            ||| path == h + sep + ".local"@
        },
    }
}

/// The path contains one of the well-known application-directory names.
pub open spec fn spec_is_application_directory(path: Seq<char>) -> bool {
    ||| contains_seq(path, "node_modules"@)
    ||| contains_seq(path, ".git"@)
    ||| contains_seq(path, "target"@)
    ||| contains_seq(path, "build"@)
    ||| contains_seq(path, "dist"@)
    ||| contains_seq(path, ".vscode"@)
    ||| contains_seq(path, ".idea"@)
}

/// The character separates path components on the given platform.
pub open spec fn spec_is_separator(c: char, platform: Platform) -> bool {
    c == '/' || (platform == Platform::Windows && c == '\\')
}

/// A path component (a maximal nonempty run of non-separator characters)
/// begins at position `i`.
pub open spec fn spec_component_starts_at(path: Seq<char>, platform: Platform, i: int) -> bool {
    &&& 0 <= i < path.len()
    &&& !spec_is_separator(path[i], platform)
    &&& (i == 0 || spec_is_separator(path[i - 1], platform))
}

/// Number of path components beginning before position `n`.
pub open spec fn spec_component_count_up_to(path: Seq<char>, platform: Platform, n: int) -> nat
    decreases n,
{
    if n <= 0 {
        0
    } else {
        spec_component_count_up_to(path, platform, n - 1) + if spec_component_starts_at(
            path,
            platform,
            n - 1,
        ) {
            1nat
        } else {
            0nat
        }
    }
}

/// Number of path components of the whole path.
pub open spec fn spec_component_count(path: Seq<char>, platform: Platform) -> nat {
    spec_component_count_up_to(path, platform, path.len() as int)
}

/// The character is outside ASCII or is one of `< > : " | ? *`.
pub open spec fn spec_is_unsafe_char(c: char) -> bool {
    ||| c as u32 >= 128
    ||| c == '<'
    ||| c == '>'
    ||| c == ':'
    ||| c == '"'
    ||| c == '|'
    ||| c == '?'
    ||| c == '*'
}

/// Some character of the path is unsafe.
pub open spec fn spec_has_special_characters(path: Seq<char>) -> bool {
    exists|i: int| 0 <= i < path.len() && #[trigger] spec_is_unsafe_char(path[i])
}

/// Longest path length that does not draw a warning on the given platform.
pub open spec fn spec_length_limit(platform: Platform) -> nat {
    if platform == Platform::Windows {
        250
    } else {
        1000
    }
}

// ------------------------------------------------------------------
// The verdict, as a specification
// ------------------------------------------------------------------

/// Risk level of a non-blocked verdict, from the number of warnings:
/// none is `Safe`, one or two are `Low`, three or more are `Medium`.
pub open spec fn spec_risk_for_warnings(count: nat) -> RiskLevel {
    if count == 0 {
        RiskLevel::Safe
    } else if count <= 2 {
        RiskLevel::Low
    } else {
        RiskLevel::Medium
    }
}

/// The advisory warnings of a non-blocked verdict, in rule-evaluation order.
pub open spec fn spec_warnings(
    path: Seq<char>,
    home: Option<Seq<char>>,
    platform: Platform,
) -> Seq<Seq<char>> {
    (if spec_is_user_sensitive(path, home, platform) {
        seq![msg_sensitive_directory()]
    } else {
        Seq::empty()
    }) + (if spec_is_application_directory(path) {
        seq![msg_application_directory()]
    } else {
        Seq::empty()
    }) + (if spec_component_count(path, platform) > 10 {
        seq![msg_deep_path()]
    } else {
        Seq::empty()
    }) + (if spec_has_special_characters(path) {
        seq![msg_special_characters()]
    } else {
        Seq::empty()
    }) + (if path.len() > spec_length_limit(platform) {
        seq![msg_long_path()]
    } else {
        Seq::empty()
    })
}

/// A verdict carrying a single blocking reason and no warnings.
pub open spec fn spec_blocked_verdict(level: RiskLevel, reason: Seq<char>) -> VerdictView {
    VerdictView {
        is_safe: false,
        risk_level: level,
        warnings: Seq::empty(),
        blocked_reasons: seq![reason],
    }
}

/// The verdict for a path, given the injected filesystem status, home
/// directory, and platform identity. This is the full specification of the
/// classifier.
pub open spec fn spec_validate_path(
    path: Seq<char>,
    status: PathStatus,
    home: Option<Seq<char>>,
    platform: Platform,
) -> VerdictView {
    if status == PathStatus::Missing {
        spec_blocked_verdict(RiskLevel::Critical, msg_path_missing())
    } else if status == PathStatus::NotDirectory {
        spec_blocked_verdict(RiskLevel::Critical, msg_not_directory())
    } else if spec_is_system_directory(path, platform) {
        spec_blocked_verdict(RiskLevel::High, msg_system_directory())
    } else if spec_contains_traversal(path) {
        spec_blocked_verdict(RiskLevel::Critical, msg_traversal())
    } else {
        let warnings = spec_warnings(path, home, platform);
        VerdictView {
            is_safe: true,
            risk_level: spec_risk_for_warnings(warnings.len()),
            warnings,
            blocked_reasons: Seq::empty(),
        }
    }
}

// ------------------------------------------------------------------
// Executable rules
// ------------------------------------------------------------------

/// The path falls under the deny list of the given platform.
pub fn is_system_directory(path: &str, platform: Platform) -> (r: bool)
    ensures
        r == spec_is_system_directory(path@, platform),
{
    if platform == Platform::Windows {
        starts_with(path, "C:\\Windows") || starts_with(path, "C:\\Program Files") || starts_with(
            path,
            "C:\\Program Files (x86)",
        ) || starts_with(path, "C:\\ProgramData") || starts_with(path, "C:\\System32")
            || starts_with(path, "C:\\SysWOW64")
    } else {
        starts_with(path, "/bin") || starts_with(path, "/sbin") || starts_with(path, "/usr/bin")
            || starts_with(path, "/usr/sbin") || starts_with(path, "/etc") || starts_with(
            path,
            "/boot",
        ) || starts_with(path, "/sys") || starts_with(path, "/proc") || starts_with(path, "/dev")
            || starts_with(path, "/lib") || starts_with(path, "/lib64") || starts_with(
            path,
            "/usr/lib",
        ) || starts_with(path, "/usr/lib64") || starts_with(path, "/var/log")
    }
}

/// The path contains one of the well-known application-directory names.
pub fn is_application_directory(path: &str) -> (r: bool)
    ensures
        r == spec_is_application_directory(path@),
{
    contains_substring(path, "node_modules") || contains_substring(path, ".git")
        || contains_substring(path, "target") || contains_substring(path, "build")
        || contains_substring(path, "dist") || contains_substring(path, ".vscode")
        || contains_substring(path, ".idea")
}

/// The character is outside ASCII or is one of `< > : " | ? *`.
fn is_unsafe_char(c: char) -> (r: bool)
    ensures
        r == spec_is_unsafe_char(c),
{
    (c as u32) >= 128 || c == '<' || c == '>' || c == ':' || c == '"' || c == '|' || c == '?' || c
        == '*'
}

/// Some character of the path is unsafe.
pub fn has_special_characters(path: &str) -> (r: bool)
    ensures
        r == spec_has_special_characters(path@),
{
    let len = path.unicode_len();
    let mut i: usize = 0;
    while i < len
        invariant
            i <= len,
            len == path@.len(),
            forall|k: int| 0 <= k < i ==> !(#[trigger] spec_is_unsafe_char(path@[k])),
        decreases len - i,
    {
        if is_unsafe_char(path.get_char(i)) {
            return true;
        }
        i = i + 1;
    }
    false
}

/// The character separates path components on the given platform.
pub fn is_separator(c: char, platform: Platform) -> (r: bool)
    ensures
        r == spec_is_separator(c, platform),
{
    c == '/' || (platform == Platform::Windows && c == '\\')
}

/// Count the path components: maximal nonempty runs of non-separator
/// characters.
pub fn component_count(path: &str, platform: Platform) -> (n: usize)
    ensures
        n == spec_component_count(path@, platform),
{
    let len = path.unicode_len();
    let mut count: usize = 0;
    let mut at_boundary: bool = true;
    let mut i: usize = 0;
    while i < len
        invariant
            i <= len,
            len == path@.len(),
            count <= i,
            count == spec_component_count_up_to(path@, platform, i as int),
            at_boundary == (i == 0 || spec_is_separator(path@[i as int - 1], platform)),
        decreases len - i,
    {
        let c = path.get_char(i);
        let sep = is_separator(c, platform);
        if !sep && at_boundary {
            count = count + 1;
        }
        at_boundary = sep;
        i = i + 1;
    }
    count
}

/// Stateless holder of the classifier's rules.
pub struct SecurityValidator;

impl SecurityValidator {
    /// Classify a directory path for destructive file operations.
    ///
    /// `status` is the injected filesystem fact about `path`, `home` the
    /// injected home directory of the current user, and `platform` the OS
    /// identity whose rule tables apply.
    pub fn validate_path(
        path: &str,
        status: PathStatus,
        home: &Option<String>,
        platform: Platform,
    ) -> (r: PathValidation)
        ensures
            r@ == spec_validate_path(path@, status, spec_home_view(home), platform),
    {
        if matches!(status, PathStatus::Missing) {
            return blocked_verdict(RiskLevel::Critical, "Path does not exist");
        }
        if matches!(status, PathStatus::NotDirectory) {
            return blocked_verdict(RiskLevel::Critical, "Path is not a directory");
        }
        if Self::is_system_directory(path, platform) {
            return blocked_verdict(RiskLevel::High, "System directory access is blocked");
        }
        if Self::contains_path_traversal(path) {
            return blocked_verdict(RiskLevel::Critical, "Path contains traversal patterns");
        }
        let ghost hv = spec_home_view(home);
        let warnings = collect_warnings(path, home, platform);
        let blocked_reasons: Vec<String> = Vec::new();
        let (is_safe, risk_level) = Self::calculate_risk_level(&warnings, &blocked_reasons);
        let r = PathValidation { is_safe, risk_level, warnings, blocked_reasons };
        proof {
            assert(r@.blocked_reasons =~~= Seq::<Seq<char>>::empty());
            assert(r@ =~~= spec_validate_path(path@, status, hv, platform));
        }
        r
    }

    /// The path falls under the deny list of the given platform.
    pub fn is_system_directory(path: &str, platform: Platform) -> (r: bool)
        ensures
            r == spec_is_system_directory(path@, platform),
    {
        is_system_directory(path, platform)
    }

    /// The path equals the user's home directory or one of its well-known
    /// sensitive subdirectories.
    pub fn is_user_sensitive_directory(
        path: &str,
        home: &Option<String>,
        platform: Platform,
    ) -> (r: bool)
        ensures
            r == spec_is_user_sensitive(path@, spec_home_view(home), platform),
    {
        match home {
            None => false,
            Some(h) => {
                let sep = if platform == Platform::Windows {
                    "\\"
                } else {
                    "/"
                };
                str_eq(path, h.as_str()) || eq_concat3(path, h.as_str(), sep, "Documents")
                    || eq_concat3(path, h.as_str(), sep, "Desktop") || eq_concat3(
                    path,
                    h.as_str(),
                    sep,
                    "Pictures",
                ) || eq_concat3(path, h.as_str(), sep, "Videos") || eq_concat3(
                    path,
                    h.as_str(),
                    sep,
                    "Music",
                ) || eq_concat3(path, h.as_str(), sep, "Downloads") || eq_concat3(
                    path,
                    h.as_str(),
                    sep,
                    ".ssh",
                ) || eq_concat3(path, h.as_str(), sep, ".gnupg") || eq_concat3(
                    path,
                    h.as_str(),
                    sep,
                    ".config",
                ) || eq_concat3(path, h.as_str(), sep, ".local")
            },
        }
    }

    /// The raw path contains one of the traversal patterns `..`, `./`, `.\`.
    pub fn contains_path_traversal(path: &str) -> (r: bool)
        ensures
            r == spec_contains_traversal(path@),
    {
        contains_substring(path, "..") || contains_substring(path, "./") || contains_substring(
            path,
            ".\\",
        )
    }

    /// Some character of the path is unsafe.
    pub fn has_unsafe_characters(path: &str) -> (r: bool)
        ensures
            r == spec_has_special_characters(path@),
    {
        has_special_characters(path)
    }

    /// The path is longer than the platform's length threshold.
    pub fn is_path_too_long(path: &str, platform: Platform) -> (r: bool)
        ensures
            r == (path@.len() > spec_length_limit(platform)),
    {
        let limit: usize = if platform == Platform::Windows {
            250
        } else {
            1000
        };
        path.unicode_len() > limit
    }

    /// Fold the findings into the overall safety flag and risk level.
    ///
    /// A non-empty list of blocking reasons forces `(false, High)`; this is
    /// the generic fallback for blocking rules that do not return their own
    /// level. Otherwise the verdict is safe and the level follows the
    /// warning count.
    pub fn calculate_risk_level(warnings: &Vec<String>, blocked_reasons: &Vec<String>) -> (r: (
        bool,
        RiskLevel,
    ))
        ensures
            r.0 == (blocked_reasons@.len() == 0),
            blocked_reasons@.len() > 0 ==> r.1 == RiskLevel::High,
            blocked_reasons@.len() == 0 ==> r.1 == spec_risk_for_warnings(warnings@.len()),
    {
        if blocked_reasons.len() > 0 {
            return (false, RiskLevel::High);
        }
        if warnings.len() == 0 {
            (true, RiskLevel::Safe)
        } else if warnings.len() <= 2 {
            (true, RiskLevel::Low)
        } else {
            (true, RiskLevel::Medium)
        }
    }
}

/// Run the advisory rules in order and collect their warnings.
fn collect_warnings(path: &str, home: &Option<String>, platform: Platform) -> (w: Vec<String>)
    ensures
        w.deep_view() == spec_warnings(path@, spec_home_view(home), platform),
{
    let ghost hv = spec_home_view(home);
    let mut warnings: Vec<String> = Vec::new();

    if SecurityValidator::is_user_sensitive_directory(path, home, platform) {
        warnings.push("User sensitive directory - review operations carefully".to_owned());
    }
    let ghost w1 = (if spec_is_user_sensitive(path@, hv, platform) {
        seq![msg_sensitive_directory()]
    } else {
        Seq::<Seq<char>>::empty()
    });
    proof {
        assert(warnings.deep_view() =~~= w1);
    }

    if is_application_directory(path) {
        warnings.push("Application directory - may affect installed programs".to_owned());
    }
    let ghost w2 = w1 + (if spec_is_application_directory(path@) {
        seq![msg_application_directory()]
    } else {
        Seq::<Seq<char>>::empty()
    });
    proof {
        assert(warnings.deep_view() =~~= w2);
    }

    if component_count(path, platform) > 10 {
        warnings.push("Very deep directory path - may cause performance issues".to_owned());
    }
    let ghost w3 = w2 + (if spec_component_count(path@, platform) > 10 {
        seq![msg_deep_path()]
    } else {
        Seq::<Seq<char>>::empty()
    });
    proof {
        assert(warnings.deep_view() =~~= w3);
    }

    if SecurityValidator::has_unsafe_characters(path) {
        warnings.push("Path contains special characters that may cause issues".to_owned());
    }
    let ghost w4 = w3 + (if spec_has_special_characters(path@) {
        seq![msg_special_characters()]
    } else {
        Seq::<Seq<char>>::empty()
    });
    proof {
        assert(warnings.deep_view() =~~= w4);
    }

    if SecurityValidator::is_path_too_long(path, platform) {
        warnings.push("Very long path - may cause system limitations".to_owned());
    }
    let ghost w5 = w4 + (if path@.len() > spec_length_limit(platform) {
        seq![msg_long_path()]
    } else {
        Seq::<Seq<char>>::empty()
    });
    proof {
        assert(warnings.deep_view() =~~= w5);
        assert(w5 =~~= spec_warnings(path@, hv, platform));
    }
    warnings
}

/// Build a blocked verdict with a single reason and no warnings.
fn blocked_verdict(level: RiskLevel, reason: &str) -> (r: PathValidation)
    ensures
        r@ == spec_blocked_verdict(level, reason@),
{
    let mut blocked_reasons: Vec<String> = Vec::new();
    blocked_reasons.push(reason.to_owned());
    let r = PathValidation {
        is_safe: false,
        risk_level: level,
        warnings: Vec::new(),
        blocked_reasons,
    };
    proof {
        assert(r@.warnings =~~= Seq::<Seq<char>>::empty());
        assert(r@.blocked_reasons =~~= seq![reason@]);
        assert(r@ =~~= spec_blocked_verdict(level, reason@));
    }
    r
}

// ------------------------------------------------------------------
// Classifier laws
// ------------------------------------------------------------------

/// A path that does not resolve on the filesystem is always blocked as
/// `Critical`, with exactly one blocking reason and no warnings.
pub proof fn lemma_missing_path_critical(
    path: Seq<char>,
    home: Option<Seq<char>>,
    platform: Platform,
)
    ensures
        spec_validate_path(path, PathStatus::Missing, home, platform) == spec_blocked_verdict(
            RiskLevel::Critical,
            msg_path_missing(),
        ),
        !spec_validate_path(path, PathStatus::Missing, home, platform).is_safe,
        spec_validate_path(path, PathStatus::Missing, home, platform).blocked_reasons.len() == 1,
{
}

/// A path that exists but is not a directory is always blocked as
/// `Critical`, with exactly one blocking reason and no warnings.
pub proof fn lemma_non_directory_critical(
    path: Seq<char>,
    home: Option<Seq<char>>,
    platform: Platform,
)
    ensures
        spec_validate_path(path, PathStatus::NotDirectory, home, platform) == spec_blocked_verdict(
            RiskLevel::Critical,
            msg_not_directory(),
        ),
        !spec_validate_path(path, PathStatus::NotDirectory, home, platform).is_safe,
        spec_validate_path(path, PathStatus::NotDirectory, home, platform).blocked_reasons.len()
            == 1,
{
}

/// A directory under a platform system directory is always blocked as
/// `High`, whatever its other properties.
pub proof fn lemma_system_directory_blocks(
    path: Seq<char>,
    home: Option<Seq<char>>,
    platform: Platform,
)
    requires
        spec_is_system_directory(path, platform),
    ensures
        spec_validate_path(path, PathStatus::Directory, home, platform) == spec_blocked_verdict(
            RiskLevel::High,
            msg_system_directory(),
        ),
{
}

/// A directory whose path carries a traversal pattern is blocked as
/// `Critical`, provided it does not already fall under the (earlier)
/// system-directory rule.
pub proof fn lemma_traversal_blocks(path: Seq<char>, home: Option<Seq<char>>, platform: Platform)
    requires
        !spec_is_system_directory(path, platform),
        spec_contains_traversal(path),
    ensures
        spec_validate_path(path, PathStatus::Directory, home, platform) == spec_blocked_verdict(
            RiskLevel::Critical,
            msg_traversal(),
        ),
{
}

/// A verdict is safe exactly when it carries no blocking reason.
pub proof fn lemma_safe_iff_no_blocked_reason(
    path: Seq<char>,
    status: PathStatus,
    home: Option<Seq<char>>,
    platform: Platform,
)
    ensures
        spec_validate_path(path, status, home, platform).is_safe == (spec_validate_path(
            path,
            status,
            home,
            platform,
        ).blocked_reasons.len() == 0),
{
}

/// A safe verdict's risk level is exactly the level its warning count maps
/// to.
pub proof fn lemma_safe_verdict_risk(
    path: Seq<char>,
    status: PathStatus,
    home: Option<Seq<char>>,
    platform: Platform,
)
    ensures
        spec_validate_path(path, status, home, platform).is_safe ==> spec_validate_path(
            path,
            status,
            home,
            platform,
        ).risk_level == spec_risk_for_warnings(
            spec_validate_path(path, status, home, platform).warnings.len(),
        ),
{
}

/// The warning-count-to-risk mapping never decreases as warnings accumulate:
/// none is `Safe`, one or two are `Low`, three or more are `Medium`.
pub proof fn lemma_risk_monotonic_in_count(c1: nat, c2: nat)
    requires
        c1 <= c2,
    ensures
        risk_rank(spec_risk_for_warnings(c1)) <= risk_rank(spec_risk_for_warnings(c2)),
{
}

/// Among safe verdicts, risk level is monotonically non-decreasing in the
/// number of warnings.
pub proof fn lemma_safe_risk_monotonic(
    path1: Seq<char>,
    status1: PathStatus,
    home1: Option<Seq<char>>,
    platform1: Platform,
    path2: Seq<char>,
    status2: PathStatus,
    home2: Option<Seq<char>>,
    platform2: Platform,
)
    requires
        spec_validate_path(path1, status1, home1, platform1).is_safe,
        spec_validate_path(path2, status2, home2, platform2).is_safe,
        spec_validate_path(path1, status1, home1, platform1).warnings.len() <= spec_validate_path(
            path2,
            status2,
            home2,
            platform2,
        ).warnings.len(),
    ensures
        risk_rank(spec_validate_path(path1, status1, home1, platform1).risk_level) <= risk_rank(
            spec_validate_path(path2, status2, home2, platform2).risk_level,
        ),
{
    lemma_safe_verdict_risk(path1, status1, home1, platform1);
    lemma_safe_verdict_risk(path2, status2, home2, platform2);
    lemma_risk_monotonic_in_count(
        spec_validate_path(path1, status1, home1, platform1).warnings.len(),
        spec_validate_path(path2, status2, home2, platform2).warnings.len(),
    );
}

/// The risk computation is order-independent: two warning lists carrying
/// the same findings in any order map to the same risk level.
pub proof fn lemma_risk_order_independent(w1: Seq<Seq<char>>, w2: Seq<Seq<char>>)
    requires
        w1.to_multiset() == w2.to_multiset(),
    ensures
        spec_risk_for_warnings(w1.len()) == spec_risk_for_warnings(w2.len()),
{
    w1.to_multiset_ensures();
    w2.to_multiset_ensures();
}

/// Classification is deterministic: any two results for the same path,
/// filesystem status, home directory and platform are identical verdicts.
pub proof fn lemma_validate_idempotent(
    r1: PathValidation,
    r2: PathValidation,
    path: Seq<char>,
    status: PathStatus,
    home: Option<Seq<char>>,
    platform: Platform,
)
    requires
        r1@ == spec_validate_path(path, status, home, platform),
        r2@ == spec_validate_path(path, status, home, platform),
    ensures
        r1@ == r2@,
{
}

/// Classify a directory path for destructive file operations.
pub fn validate_path(
    path: &str,
    status: PathStatus,
    home: &Option<String>,
    platform: Platform,
) -> (r: PathValidation)
    ensures
        r@ == spec_validate_path(path@, status, spec_home_view(home), platform),
{
    SecurityValidator::validate_path(path, status, home, platform)
}

} // verus!
