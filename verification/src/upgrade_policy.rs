//! Deciding whether a DPU should upgrade its agent, and the build versions the decision
//! compares.
//!
//! Build versions look like `v2023.09-rc1-27-gc3ce4d5d`: a `v`, a date-based (`2023.08`) or
//! semantic (`0.0.4`) version, then up to four dash-separated parts (release candidate,
//! hotfix, commit count, git hash).

use std::cmp::Ordering;
use vstd::prelude::*;

use crate::order::{flip, lemma_seq_order_equal, lemma_seq_order_flip, lemma_seq_order_transitive, seq_order, str_order};
use crate::text::{
    code_of, decimal, lemma_decimal_digits, lemma_split_join, lemma_split_none, nat_of_u32, is_ascii_char, is_digit, is_digit_spec, lemma_split_nonempty, nat_of,
    parse_unsigned, parse_unsigned_exec, push_decimal, push_str, split_char, split_seq, str_eq,
};

verus! {

/// How we decide whether a DPU should upgrade its agent.
#[derive(Debug, Copy, Clone, PartialEq, Eq, Structural)]
pub enum AgentUpgradePolicy {
    /// Never upgrade it.
    Off,
    /// Upgrade but never downgrade. Allows testing new versions manually.
    UpOnly,
    /// Upgrade or downgrade as necessary to make the versions match.
    UpDown,
}

/// The upgrade policy as it is chosen in the configuration file.
#[derive(Debug, Copy, Clone, PartialEq, Eq, Structural)]
pub enum AgentUpgradePolicyChoice {
    Off,
    UpOnly,
    UpDown,
}

/// The policy that a name stored in the database stands for; unknown names disable upgrades.
pub open spec fn policy_from_name(s: Seq<char>) -> AgentUpgradePolicy {
    if s == "Off"@ || s == "off"@ {
        AgentUpgradePolicy::Off
    } else if s == "UpOnly"@ || s == "uponly"@ || s == "up_only"@ {
        AgentUpgradePolicy::UpOnly
    } else if s == "UpDown"@ || s == "updown"@ || s == "up_down"@ {
        AgentUpgradePolicy::UpDown
    } else {
        AgentUpgradePolicy::Off
    }
}

/// The name under which a policy is displayed.
pub open spec fn policy_name(p: AgentUpgradePolicy) -> Seq<char> {
    match p {
        AgentUpgradePolicy::Off => "Off"@,
        AgentUpgradePolicy::UpOnly => "UpOnly"@,
        AgentUpgradePolicy::UpDown => "UpDown"@,
    }
}

impl<'a> From<&'a str> for AgentUpgradePolicy {
    /// Reads a policy name from the database.
    fn from(s: &'a str) -> (r: Self) {
        if str_eq(s, "Off") || str_eq(s, "off") {
            AgentUpgradePolicy::Off
        } else if str_eq(s, "UpOnly") || str_eq(s, "uponly") || str_eq(s, "up_only") {
            AgentUpgradePolicy::UpOnly
        } else if str_eq(s, "UpDown") || str_eq(s, "updown") || str_eq(s, "up_down") {
            AgentUpgradePolicy::UpDown
        } else {
            AgentUpgradePolicy::Off
        }
    }
}

impl<'a> vstd::std_specs::convert::FromSpecImpl<&'a str> for AgentUpgradePolicy {
    open spec fn obeys_from_spec() -> bool {
        true
    }

    open spec fn from_spec(s: &'a str) -> Self {
        policy_from_name(s@)
    }
}

impl From<AgentUpgradePolicyChoice> for AgentUpgradePolicy {
    /// Reads a policy from the configuration file.
    fn from(c: AgentUpgradePolicyChoice) -> (r: Self) {
        match c {
            AgentUpgradePolicyChoice::Off => AgentUpgradePolicy::Off,
            AgentUpgradePolicyChoice::UpOnly => AgentUpgradePolicy::UpOnly,
            AgentUpgradePolicyChoice::UpDown => AgentUpgradePolicy::UpDown,
        }
    }
}

impl vstd::std_specs::convert::FromSpecImpl<AgentUpgradePolicyChoice> for AgentUpgradePolicy {
    open spec fn obeys_from_spec() -> bool {
        true
    }

    open spec fn from_spec(c: AgentUpgradePolicyChoice) -> Self {
        match c {
            AgentUpgradePolicyChoice::Off => AgentUpgradePolicy::Off,
            AgentUpgradePolicyChoice::UpOnly => AgentUpgradePolicy::UpOnly,
            AgentUpgradePolicyChoice::UpDown => AgentUpgradePolicy::UpDown,
        }
    }
}

impl AgentUpgradePolicy {
    /// The policy's name, as it is displayed.
    pub fn to_string(&self) -> (r: String)
        ensures
            r@ == policy_name(*self),
    {
        match self {
            AgentUpgradePolicy::Off => String::from_str("Off"),
            AgentUpgradePolicy::UpOnly => String::from_str("UpOnly"),
            AgentUpgradePolicy::UpDown => String::from_str("UpDown"),
        }
    }
}

// ---------------------------------------------------------------------------
// Classifying characters
// ---------------------------------------------------------------------------

/// What `char::is_numeric` returns for `c` (membership in Unicode's number categories).
pub uninterp spec fn char_is_numeric(c: char) -> bool;

/// Calls `char::is_numeric`.
#[verifier::external_body]
fn is_numeric_non_ascii(c: char) -> (r: bool)
    ensures
        r == char_is_numeric(c),
{
    c.is_numeric()
}

/// Whether `c` is numeric: for ASCII characters exactly the digits `0` to `9`, for the
/// others Unicode's number categories.
pub open spec fn numeric_char(c: char) -> bool {
    if is_ascii_char(c) {
        is_digit_spec(c)
    } else {
        char_is_numeric(c)
    }
}

/// Whether `c` is numeric.
pub fn is_numeric(c: char) -> (r: bool)
    ensures
        r == numeric_char(c),
{
    if code_of(c) < 128 {
        is_digit(c)
    } else {
        is_numeric_non_ascii(c)
    }
}

// ---------------------------------------------------------------------------
// Build versions
// ---------------------------------------------------------------------------

/// A build version, borrowing its text parts from the string it was read from.
#[derive(Debug)]
pub struct BuildVersion<'a> {
    /// The main version part: a date (`2023.08`) or semver (`0.0.4`).
    pub version: &'a str,
    pub rc: &'a str,
    pub hotfix: usize,
    pub commits: usize,
    pub git_hash: &'a str,
}

/// The mathematical value of a build version.
pub struct BuildVersionView {
    pub version: Seq<char>,
    pub rc: Seq<char>,
    pub hotfix: usize,
    pub commits: usize,
    pub git_hash: Seq<char>,
}

impl<'a> View for BuildVersion<'a> {
    type V = BuildVersionView;

    open spec fn view(&self) -> BuildVersionView {
        BuildVersionView {
            version: self.version@,
            rc: self.rc@,
            hotfix: self.hotfix,
            commits: self.commits,
            git_hash: self.git_hash@,
        }
    }
}

/// Why a string is not a build version.
#[derive(Debug, Copy, Clone, PartialEq, Eq, Structural)]
pub enum BuildVersionError {
    /// The string is empty.
    Empty,
    /// The string does not start with a `v`.
    MissingLeadingV,
    /// Nothing stands between the `v` and the first dash.
    MissingVersionNumber,
    /// The version number does not start with a digit.
    NotADigit,
    /// More than five dash-separated parts; the number of parts.
    TooManyParts(usize),
    /// In a three-part version, nothing stands between the first and the second dash.
    EmptyPart,
    /// A part that is read as a count is not a valid `usize`.
    NotANumber,
}

/// The dash-separated parts of a build version after its leading `v`.
pub open spec fn version_parts(s: Seq<char>) -> Seq<Seq<char>> {
    split_seq(s.drop_first(), '-')
}

/// The value of a `usize` count as `str::parse` reads it.
pub open spec fn count_value(s: Seq<char>) -> usize {
    match parse_unsigned(s, usize::MAX as nat) {
        Some(v) => v as usize,
        None => 0,
    }
}

/// Whether `str::parse::<usize>` succeeds on `s`.
pub open spec fn is_count(s: Seq<char>) -> bool {
    parse_unsigned(s, usize::MAX as nat) is Some
}

/// Whether reading `s` as a build version gets past the checks that reject it with an
/// error: non-empty, a leading `v`, a non-empty version number starting with a digit.
pub open spec fn passes_checks(s: Seq<char>) -> bool {
    let parts = version_parts(s);
    &&& s.len() > 0
    &&& s[0] == 'v'
    &&& parts[0].len() > 0
    &&& is_digit_spec(parts[0][0])
}

/// The result of reading `s` as a build version.
pub open spec fn parse_version(s: Seq<char>) -> Result<BuildVersionView, BuildVersionError> {
    let parts = version_parts(s);
    if s.len() == 0 {
        Err(BuildVersionError::Empty)
    } else if s[0] != 'v' {
        Err(BuildVersionError::MissingLeadingV)
    } else if parts[0].len() == 0 {
        Err(BuildVersionError::MissingVersionNumber)
    } else if !is_digit_spec(parts[0][0]) {
        Err(BuildVersionError::NotADigit)
    } else if parts.len() == 1 {
        Ok(BuildVersionView { version: parts[0], rc: Seq::empty(), hotfix: 0, commits: 0, git_hash: Seq::empty() })
    } else if parts.len() == 2 {
        Ok(BuildVersionView { version: parts[0], rc: parts[1], hotfix: 0, commits: 0, git_hash: Seq::empty() })
    } else if parts.len() == 3 {
        if parts[1].len() == 0 {
            Err(BuildVersionError::EmptyPart)
        } else if numeric_char(parts[1][0]) {
            if is_count(parts[1]) {
                Ok(BuildVersionView {
                    version: parts[0],
                    rc: Seq::empty(),
                    hotfix: 0,
                    commits: count_value(parts[1]),
                    git_hash: parts[2],
                })
            } else {
                Err(BuildVersionError::NotANumber)
            }
        } else if is_count(parts[2]) {
            Ok(BuildVersionView {
                version: parts[0],
                rc: parts[1],
                hotfix: count_value(parts[2]),
                commits: 0,
                git_hash: Seq::empty(),
            })
        } else {
            Err(BuildVersionError::NotANumber)
        }
    } else if parts.len() == 4 {
        if is_count(parts[2]) {
            Ok(BuildVersionView {
                version: parts[0],
                rc: parts[1],
                hotfix: 0,
                commits: count_value(parts[2]),
                git_hash: parts[3],
            })
        } else {
            Err(BuildVersionError::NotANumber)
        }
    } else if parts.len() == 5 {
        if is_count(parts[2]) && is_count(parts[3]) {
            Ok(BuildVersionView {
                version: parts[0],
                rc: parts[1],
                hotfix: count_value(parts[2]),
                commits: count_value(parts[3]),
                git_hash: parts[4],
            })
        } else {
            Err(BuildVersionError::NotANumber)
        }
    } else {
        Err(BuildVersionError::TooManyParts(parts.len() as usize))
    }
}

/// How a build version is displayed: the release candidate and hotfix appear together or
/// not at all, the commit count only when non-zero, the hash only when non-empty.
pub open spec fn display_version(v: BuildVersionView) -> Seq<char> {
    let head = seq!['v'] + v.version;
    let with_rc = if v.rc.len() > 0 {
        head + seq!['-'] + v.rc + seq!['-'] + decimal(v.hotfix as nat)
    } else {
        head
    };
    let with_commits = if v.commits != 0 {
        with_rc + seq!['-'] + decimal(v.commits as nat)
    } else {
        with_rc
    };
    if v.git_hash.len() > 0 {
        with_commits + seq!['-'] + v.git_hash
    } else {
        with_commits
    }
}

/// Whether a version is date-based: its version part starts with `20`.
pub open spec fn is_date(v: BuildVersionView) -> bool {
    v.version.len() >= 2 && v.version[0] == '2' && v.version[1] == '0'
}

/// A `u32` as `str::parse` reads it.
pub open spec fn u32_value(s: Seq<char>) -> Option<nat> {
    parse_unsigned(s, u32::MAX as nat)
}

/// The `(major, minor, patch)` numbers of a semver version part: its first three
/// dot-separated parts, when there are at least three and each is a `u32`.
pub open spec fn semver_of(version: Seq<char>) -> Option<(nat, nat, nat)> {
    let parts = split_seq(version, '.');
    if parts.len() >= 3 && u32_value(parts[0]) is Some && u32_value(parts[1]) is Some
        && u32_value(parts[2]) is Some {
        Some((u32_value(parts[0])->0, u32_value(parts[1])->0, u32_value(parts[2])->0))
    } else {
        None
    }
}

/// The order of two numbers.
pub open spec fn nat_order(a: nat, b: nat) -> Ordering {
    if a < b {
        Ordering::Less
    } else if a > b {
        Ordering::Greater
    } else {
        Ordering::Equal
    }
}

/// The first ordering unless it is `Equal`, else the second.
pub open spec fn then_order(first: Ordering, second: Ordering) -> Ordering {
    if first == Ordering::Equal {
        second
    } else {
        first
    }
}

/// Lexicographic order of `(major, minor, patch)` triples.
pub open spec fn triple_order(a: (nat, nat, nat), b: (nat, nat, nat)) -> Ordering {
    then_order(nat_order(a.0, b.0), then_order(nat_order(a.1, b.1), nat_order(a.2, b.2)))
}

/// Order of the release candidate, hotfix and commit count, after the version part.
pub open spec fn tail_order(a: BuildVersionView, b: BuildVersionView) -> Ordering {
    then_order(
        seq_order(a.rc, b.rc),
        then_order(nat_order(nat_of(a.hotfix), nat_of(b.hotfix)), nat_order(nat_of(a.commits), nat_of(b.commits))),
    )
}

/// The order of build versions. Semver versions are newer than every date-based version;
/// two semver versions compare numerically when both read as semver; otherwise the version
/// parts compare as strings. Ties are broken by release candidate, hotfix and commit count;
/// the git hash plays no part.
pub open spec fn version_order(a: BuildVersionView, b: BuildVersionView) -> Ordering {
    if is_date(a) && !is_date(b) {
        Ordering::Less
    } else if !is_date(a) && is_date(b) {
        Ordering::Greater
    } else if !is_date(a) && !is_date(b) && semver_of(a.version) is Some && semver_of(b.version) is Some {
        then_order(triple_order(semver_of(a.version)->0, semver_of(b.version)->0), tail_order(a, b))
    } else {
        then_order(seq_order(a.version, b.version), tail_order(a, b))
    }
}

/// The message that describes a build version error.
pub open spec fn error_message(e: BuildVersionError) -> Seq<char> {
    match e {
        BuildVersionError::Empty => "Build version is empty"@,
        BuildVersionError::MissingLeadingV => "Build version should start with a 'v'"@,
        BuildVersionError::MissingVersionNumber => "Build version should have a version number after 'v'"@,
        BuildVersionError::NotADigit => "Build version should start with a digit after 'v'"@,
        BuildVersionError::TooManyParts(n) => "Invalid build version. Has "@ + decimal(n as nat) + " dash-separated parts."@,
        BuildVersionError::EmptyPart => "Build version has an empty part after the version number"@,
        BuildVersionError::NotANumber => "Build version has a count that is not a number"@,
    }
}

impl BuildVersionError {
    /// The message that describes the error.
    pub fn to_string(&self) -> (r: String)
        ensures
            r@ == error_message(*self),
    {
        match self {
            BuildVersionError::Empty => String::from_str("Build version is empty"),
            BuildVersionError::MissingLeadingV => String::from_str("Build version should start with a 'v'"),
            BuildVersionError::MissingVersionNumber => String::from_str(
                "Build version should have a version number after 'v'",
            ),
            BuildVersionError::NotADigit => String::from_str(
                "Build version should start with a digit after 'v'",
            ),
            BuildVersionError::TooManyParts(n) => {
                let mut s = String::from_str("Invalid build version. Has ");
                push_decimal(&mut s, *n as u64);
                push_str(&mut s, " dash-separated parts.");
                assert(s@ =~= error_message(*self));
                s
            },
            BuildVersionError::EmptyPart => String::from_str("Build version has an empty part after the version number"),
            BuildVersionError::NotANumber => String::from_str("Build version has a count that is not a number"),
        }
    }
}

/// Reads a `usize` count, or `None` where `s` is not one.
fn read_count(s: &str) -> (r: Option<usize>)
    ensures
        r matches Some(v) ==> is_count(s@) && v == count_value(s@),
        r is None ==> !is_count(s@),
{
    let v = parse_unsigned_exec(s, usize::MAX as u64);
    match v {
        Some(v) => Some(v as usize),
        None => None,
    }
}

/// Reads a `u32`.
fn read_u32(s: &str) -> (r: Option<u32>)
    ensures
        r matches Some(v) ==> u32_value(s@) == Some(v as nat),
        r is None ==> u32_value(s@) is None,
{
    match parse_unsigned_exec(s, u32::MAX as u64) {
        Some(v) => Some(v as u32),
        None => None,
    }
}

impl<'a> BuildVersion<'a> {
    /// Reads a build version. Its parts borrow from `s`.
    pub fn try_from(s: &'a str) -> (r: Result<BuildVersion<'a>, BuildVersionError>)
        ensures
            r matches Ok(v) ==> parse_version(s@) == Ok::<BuildVersionView, BuildVersionError>(v@),
            r matches Err(e) ==> parse_version(s@) == Err::<BuildVersionView, BuildVersionError>(e),
    {
        let n = s.unicode_len();
        if n == 0 {
            return Err(BuildVersionError::Empty);
        }
        if s.get_char(0) != 'v' {
            return Err(BuildVersionError::MissingLeadingV);
        }
        let rest = s.substring_char(1, n);
        assert(rest@ =~= s@.drop_first());
        let parts = split_char(rest, '-');
        proof {
            lemma_split_nonempty(s@.drop_first(), '-');
        }
        let first = parts[0];
        if first.unicode_len() == 0 {
            return Err(BuildVersionError::MissingVersionNumber);
        }
        if !is_digit(first.get_char(0)) {
            return Err(BuildVersionError::NotADigit);
        }
        let k = parts.len();
        proof {
            reveal_strlit("");
        }
        let ghost sp = version_parts(s@);
        assert(sp.len() == k);
        assert(first@ == sp[0]);
        assert(""@ =~= Seq::<char>::empty());
        if k == 1 {
            let r = BuildVersion { version: first, rc: "", hotfix: 0, commits: 0, git_hash: "" };
            assert(r@ == BuildVersionView { version: sp[0], rc: Seq::empty(), hotfix: 0, commits: 0, git_hash: Seq::empty() });
            assert(parse_version(s@) == Ok::<BuildVersionView, BuildVersionError>(r@));
            Ok(r)
        } else if k == 2 {
            Ok(BuildVersion { version: first, rc: parts[1], hotfix: 0, commits: 0, git_hash: "" })
        } else if k == 3 {
            if parts[1].unicode_len() == 0 {
                Err(BuildVersionError::EmptyPart)
            } else if is_numeric(parts[1].get_char(0)) {
                match read_count(parts[1]) {
                    Some(c) => Ok(BuildVersion { version: first, rc: "", hotfix: 0, commits: c, git_hash: parts[2] }),
                    None => Err(BuildVersionError::NotANumber),
                }
            } else {
                match read_count(parts[2]) {
                    Some(h) => Ok(BuildVersion { version: first, rc: parts[1], hotfix: h, commits: 0, git_hash: "" }),
                    None => Err(BuildVersionError::NotANumber),
                }
            }
        } else if k == 4 {
            match read_count(parts[2]) {
                Some(c) => Ok(BuildVersion { version: first, rc: parts[1], hotfix: 0, commits: c, git_hash: parts[3] }),
                None => Err(BuildVersionError::NotANumber),
            }
        } else if k == 5 {
            match (read_count(parts[2]), read_count(parts[3])) {
                (Some(h), Some(c)) => Ok(BuildVersion {
                    version: first,
                    rc: parts[1],
                    hotfix: h,
                    commits: c,
                    git_hash: parts[4],
                }),
                _ => Err(BuildVersionError::NotANumber),
            }
        } else {
            Err(BuildVersionError::TooManyParts(k))
        }
    }
}


/// Compares two counts.
fn count_order(a: usize, b: usize) -> (r: Ordering)
    ensures
        r == nat_order(nat_of(a), nat_of(b)),
{
    if a < b {
        Ordering::Less
    } else if a > b {
        Ordering::Greater
    } else {
        Ordering::Equal
    }
}

/// Compares two `u32` numbers.
fn number_order(a: u32, b: u32) -> (r: Ordering)
    ensures
        r == nat_order(nat_of_u32(a), nat_of_u32(b)),
{
    if a < b {
        Ordering::Less
    } else if a > b {
        Ordering::Greater
    } else {
        Ordering::Equal
    }
}

/// Chains two orderings.
fn then(first: Ordering, second: Ordering) -> (r: Ordering)
    ensures
        r == then_order(first, second),
{
    match first {
        Ordering::Equal => second,
        _ => first,
    }
}

impl<'a> BuildVersion<'a> {
    /// Whether this is a date-based version (its version part starts with `20`).
    pub fn is_date_version(&self) -> (r: bool)
        ensures
            r == is_date(self@),
    {
        let n = self.version.unicode_len();
        n >= 2 && self.version.get_char(0) == '2' && self.version.get_char(1) == '0'
    }

    /// Reads the version part as semver `X.Y.Z` into `(major, minor, patch)`.
    pub fn parse_semver(&self) -> (r: Option<(u32, u32, u32)>)
        ensures
            r matches Some(t) ==> semver_of(self.version@) == Some((t.0 as nat, t.1 as nat, t.2 as nat)),
            r is None ==> semver_of(self.version@) is None,
    {
        let parts = split_char(self.version, '.');
        if parts.len() >= 3 {
            let major = read_u32(parts[0]);
            let minor = read_u32(parts[1]);
            let patch = read_u32(parts[2]);
            match (major, minor, patch) {
                (Some(a), Some(b), Some(c)) => Some((a, b, c)),
                _ => None,
            }
        } else {
            None
        }
    }

    /// Compares the release candidate, hotfix and commit count.
    fn tail_cmp(&self, other: &Self) -> (r: Ordering)
        ensures
            r == tail_order(self@, other@),
    {
        then(str_order(self.rc, other.rc), then(count_order(self.hotfix, other.hotfix), count_order(self.commits, other.commits)))
    }

    /// Orders build versions: semver versions are newer than date-based ones.
    pub fn cmp(&self, other: &Self) -> (r: Ordering)
        ensures
            r == version_order(self@, other@),
    {
        let date_a = self.is_date_version();
        let date_b = other.is_date_version();
        if date_a && !date_b {
            return Ordering::Less;
        }
        if !date_a && date_b {
            return Ordering::Greater;
        }
        if !date_a && !date_b {
            match (self.parse_semver(), other.parse_semver()) {
                (Some(x), Some(y)) => {
                    let t = then(number_order(x.0, y.0), then(number_order(x.1, y.1), number_order(x.2, y.2)));
                    return then(t, self.tail_cmp(other));
                },
                _ => {},
            }
        }
        then(str_order(self.version, other.version), self.tail_cmp(other))
    }

    /// The version as it is displayed, e.g. `v2023.09-rc1-0-27-gc3ce4d5d`.
    pub fn to_string(&self) -> (r: String)
        ensures
            r@ == display_version(self@),
    {
        let mut s = String::new();
        s.push('v');
        push_str(&mut s, self.version);
        if self.rc.unicode_len() > 0 {
            s.push('-');
            push_str(&mut s, self.rc);
            s.push('-');
            push_decimal(&mut s, self.hotfix as u64);
        }
        if self.commits != 0 {
            s.push('-');
            push_decimal(&mut s, self.commits as u64);
        }
        if self.git_hash.unicode_len() > 0 {
            s.push('-');
            push_str(&mut s, self.git_hash);
        }
        assert(s@ =~= display_version(self@));
        s
    }
}

/// The decision of `should_upgrade`.
pub open spec fn upgrade_decision(policy: AgentUpgradePolicy, agent: Seq<char>, api: Seq<char>) -> bool {
    match policy {
        AgentUpgradePolicy::Off => false,
        AgentUpgradePolicy::UpDown => agent != api,
        AgentUpgradePolicy::UpOnly => match parse_version(agent) {
            Err(_) => true,
            Ok(a) => match parse_version(api) {
                Err(_) => false,
                Ok(b) => version_order(a, b) == Ordering::Less,
            },
        },
    }
}

impl AgentUpgradePolicy {
    /// Whether the DPU agent at `agent_version` should be upgraded (or downgraded) toward
    /// `nico_api_version`. Under `UpOnly` an invalid agent version forces an upgrade and an
    /// invalid API version prevents one.
    pub fn should_upgrade(&self, agent_version: &str, nico_api_version: &str) -> (r: bool)
        ensures
            r == upgrade_decision(*self, agent_version@, nico_api_version@),
    {
        match self {
            AgentUpgradePolicy::Off => false,
            AgentUpgradePolicy::UpOnly => {
                let agent = match BuildVersion::try_from(agent_version) {
                    Ok(bv) => bv,
                    Err(_) => {
                        return true;
                    },
                };
                let nico = match BuildVersion::try_from(nico_api_version) {
                    Ok(bv) => bv,
                    Err(_) => {
                        return false;
                    },
                };
                match agent.cmp(&nico) {
                    Ordering::Less => true,
                    _ => false,
                }
            },
            AgentUpgradePolicy::UpDown => !str_eq(agent_version, nico_api_version),
        }
    }
}

impl<'a> PartialEq for BuildVersion<'a> {
    fn eq(&self, other: &Self) -> (r: bool) {
        str_eq(self.version, other.version) && str_eq(self.rc, other.rc) && self.hotfix == other.hotfix
            && self.commits == other.commits && str_eq(self.git_hash, other.git_hash)
    }
}

impl<'a> vstd::std_specs::cmp::PartialEqSpecImpl for BuildVersion<'a> {
    open spec fn obeys_eq_spec() -> bool {
        true
    }

    open spec fn eq_spec(&self, other: &Self) -> bool {
        self@ == other@
    }
}

impl<'a> PartialOrd for BuildVersion<'a> {
    fn partial_cmp(&self, other: &Self) -> (r: Option<Ordering>) {
        Some(self.cmp(other))
    }
}

impl<'a> vstd::std_specs::cmp::PartialOrdSpecImpl for BuildVersion<'a> {
    open spec fn obeys_partial_cmp_spec() -> bool {
        true
    }

    open spec fn partial_cmp_spec(&self, other: &Self) -> Option<Ordering> {
        Some(version_order(self@, other@))
    }
}


// ---------------------------------------------------------------------------
// Laws of the build version order and of its display
// ---------------------------------------------------------------------------

/// Comparing two build versions the other way round gives the opposite answer.
pub proof fn lemma_version_order_antisymmetric(a: BuildVersionView, b: BuildVersionView)
    ensures
        version_order(b, a) == flip(version_order(a, b)),
{
    lemma_seq_order_flip(a.version, b.version);
    lemma_seq_order_flip(a.rc, b.rc);
}

/// Every build version is equal to itself in the order.
pub proof fn lemma_version_order_reflexive(a: BuildVersionView)
    ensures
        version_order(a, a) == Ordering::Equal,
{
    lemma_seq_order_equal(a.version, a.version);
    lemma_seq_order_equal(a.rc, a.rc);
}

/// Every semver version is newer than every date-based version.
pub proof fn lemma_date_before_semver(date: BuildVersionView, semver: BuildVersionView)
    requires
        is_date(date),
        !is_date(semver),
    ensures
        version_order(date, semver) == Ordering::Less,
        version_order(semver, date) == Ordering::Greater,
{
}

/// Build versions with the same version part are ordered by their release candidates,
/// then their hotfix numbers, then their commit counts; the git hash plays no part.
pub proof fn lemma_same_version_part_order(a: BuildVersionView, b: BuildVersionView)
    requires
        a.version == b.version,
    ensures
        a.rc != b.rc ==> version_order(a, b) == seq_order(a.rc, b.rc),
        a.rc == b.rc && a.hotfix < b.hotfix ==> version_order(a, b) == Ordering::Less,
        a.rc == b.rc && a.hotfix > b.hotfix ==> version_order(a, b) == Ordering::Greater,
        a.rc == b.rc && a.hotfix == b.hotfix && a.commits < b.commits ==> version_order(a, b) == Ordering::Less,
        a.rc == b.rc && a.hotfix == b.hotfix && a.commits > b.commits ==> version_order(a, b) == Ordering::Greater,
        a.rc == b.rc && a.hotfix == b.hotfix && a.commits == b.commits ==> version_order(a, b) == Ordering::Equal,
{
    lemma_seq_order_equal(a.rc, b.rc);
    lemma_seq_order_equal(a.version, b.version);
    if semver_of(a.version) is Some {
        let x = semver_of(a.version)->0;
        assert(triple_order(x, x) == Ordering::Equal);
    }
}

/// Two semver build versions are ordered by their major numbers, then their minor
/// numbers, then their patch numbers: the first of the three that differs decides, whatever
/// the later ones are; only where all three are equal do the later parts count.
pub proof fn lemma_semver_lexicographic(a: BuildVersionView, b: BuildVersionView)
    requires
        !is_date(a),
        !is_date(b),
        semver_of(a.version) is Some,
        semver_of(b.version) is Some,
    ensures
        ({
            let (x0, x1, x2) = semver_of(a.version)->0;
            let (y0, y1, y2) = semver_of(b.version)->0;
            &&& x0 < y0 ==> version_order(a, b) == Ordering::Less
            &&& x0 > y0 ==> version_order(a, b) == Ordering::Greater
            &&& x0 == y0 && x1 < y1 ==> version_order(a, b) == Ordering::Less
            &&& x0 == y0 && x1 > y1 ==> version_order(a, b) == Ordering::Greater
            &&& x0 == y0 && x1 == y1 && x2 < y2 ==> version_order(a, b) == Ordering::Less
            &&& x0 == y0 && x1 == y1 && x2 > y2 ==> version_order(a, b) == Ordering::Greater
        }),
{
}

/// Whether three orderings, of `a` against `b`, `b` against `c` and `a` against `c`, are
/// consistent with a transitive order.
pub open spec fn transitive_triple(ab: Ordering, bc: Ordering, ac: Ordering) -> bool {
    &&& (ab == Ordering::Equal && bc == Ordering::Equal) ==> ac == Ordering::Equal
    &&& (ab != Ordering::Greater && bc != Ordering::Greater && (ab == Ordering::Less || bc == Ordering::Less))
        ==> ac == Ordering::Less
    &&& (ab != Ordering::Less && bc != Ordering::Less && (ab == Ordering::Greater || bc == Ordering::Greater))
        ==> ac == Ordering::Greater
}

proof fn lemma_then_transitive(k1: Ordering, k2: Ordering, k3: Ordering, t1: Ordering, t2: Ordering, t3: Ordering)
    requires
        transitive_triple(k1, k2, k3),
        transitive_triple(t1, t2, t3),
    ensures
        transitive_triple(then_order(k1, t1), then_order(k2, t2), then_order(k3, t3)),
{
}

proof fn lemma_seq_transitive_triple(a: Seq<char>, b: Seq<char>, c: Seq<char>)
    ensures
        transitive_triple(seq_order(a, b), seq_order(b, c), seq_order(a, c)),
{
    lemma_seq_order_equal(a, b);
    lemma_seq_order_equal(b, c);
    lemma_seq_order_equal(a, c);
    if seq_order(a, b) != Ordering::Greater && seq_order(b, c) != Ordering::Greater
        && (seq_order(a, b) == Ordering::Less || seq_order(b, c) == Ordering::Less) {
        lemma_seq_order_transitive(a, b, c, Ordering::Less);
    }
    if seq_order(a, b) != Ordering::Less && seq_order(b, c) != Ordering::Less
        && (seq_order(a, b) == Ordering::Greater || seq_order(b, c) == Ordering::Greater) {
        lemma_seq_order_transitive(a, b, c, Ordering::Greater);
    }
}

proof fn lemma_tail_transitive(a: BuildVersionView, b: BuildVersionView, c: BuildVersionView)
    ensures
        transitive_triple(tail_order(a, b), tail_order(b, c), tail_order(a, c)),
{
    lemma_seq_transitive_triple(a.rc, b.rc, c.rc);
    let h1 = nat_order(nat_of(a.hotfix), nat_of(b.hotfix));
    let h2 = nat_order(nat_of(b.hotfix), nat_of(c.hotfix));
    let h3 = nat_order(nat_of(a.hotfix), nat_of(c.hotfix));
    let m1 = nat_order(nat_of(a.commits), nat_of(b.commits));
    let m2 = nat_order(nat_of(b.commits), nat_of(c.commits));
    let m3 = nat_order(nat_of(a.commits), nat_of(c.commits));
    lemma_then_transitive(h1, h2, h3, m1, m2, m3);
    lemma_then_transitive(
        seq_order(a.rc, b.rc), seq_order(b.rc, c.rc), seq_order(a.rc, c.rc),
        then_order(h1, m1), then_order(h2, m2), then_order(h3, m3),
    );
}

proof fn lemma_triple_transitive(a: (nat, nat, nat), b: (nat, nat, nat), c: (nat, nat, nat))
    ensures
        transitive_triple(triple_order(a, b), triple_order(b, c), triple_order(a, c)),
{
    lemma_then_transitive(
        nat_order(a.1, b.1), nat_order(b.1, c.1), nat_order(a.1, c.1),
        nat_order(a.2, b.2), nat_order(b.2, c.2), nat_order(a.2, c.2),
    );
    lemma_then_transitive(
        nat_order(a.0, b.0), nat_order(b.0, c.0), nat_order(a.0, c.0),
        then_order(nat_order(a.1, b.1), nat_order(a.2, b.2)),
        then_order(nat_order(b.1, c.1), nat_order(b.2, c.2)),
        then_order(nat_order(a.1, c.1), nat_order(a.2, c.2)),
    );
}

/// Whether a build version is date-based or has a semver version part; among such
/// versions the order is transitive.
pub open spec fn well_classified(v: BuildVersionView) -> bool {
    is_date(v) || semver_of(v.version) is Some
}

/// Whether a build version is date-based or has no semver version part.
pub open spec fn plain(v: BuildVersionView) -> bool {
    is_date(v) || semver_of(v.version) is None
}

/// Whether three build versions do not mix semver and non-semver versions that are not
/// date-based: either each of them is date-based or semver, or none is semver.
pub open spec fn unmixed(a: BuildVersionView, b: BuildVersionView, c: BuildVersionView) -> bool {
    (well_classified(a) && well_classified(b) && well_classified(c)) || (plain(a) && plain(b) && plain(c))
}

proof fn lemma_plain_transitive(a: BuildVersionView, b: BuildVersionView, c: BuildVersionView)
    requires
        plain(a),
        plain(b),
        plain(c),
    ensures
        transitive_triple(version_order(a, b), version_order(b, c), version_order(a, c)),
{
    lemma_tail_transitive(a, b, c);
    if is_date(a) == is_date(b) && is_date(b) == is_date(c) {
        lemma_seq_transitive_triple(a.version, b.version, c.version);
        lemma_then_transitive(
            seq_order(a.version, b.version), seq_order(b.version, c.version), seq_order(a.version, c.version),
            tail_order(a, b), tail_order(b, c), tail_order(a, c),
        );
    } else {
        if is_date(a) == is_date(b) {
            lemma_seq_transitive_triple(a.version, b.version, a.version);
        }
        if is_date(b) == is_date(c) {
            lemma_seq_transitive_triple(b.version, c.version, b.version);
        }
    }
}

/// The build version order is transitive on versions that do not mix semver and
/// non-semver versions that are not date-based.
pub proof fn lemma_version_order_transitive(a: BuildVersionView, b: BuildVersionView, c: BuildVersionView)
    requires
        unmixed(a, b, c),
    ensures
        transitive_triple(version_order(a, b), version_order(b, c), version_order(a, c)),
{
    if !(well_classified(a) && well_classified(b) && well_classified(c)) {
        lemma_plain_transitive(a, b, c);
    } else {
        lemma_tail_transitive(a, b, c);
        if is_date(a) && is_date(b) && is_date(c) {
            lemma_seq_transitive_triple(a.version, b.version, c.version);
            lemma_then_transitive(
                seq_order(a.version, b.version), seq_order(b.version, c.version), seq_order(a.version, c.version),
                tail_order(a, b), tail_order(b, c), tail_order(a, c),
            );
        } else if !is_date(a) && !is_date(b) && !is_date(c) {
            let (x, y, z) = (semver_of(a.version)->0, semver_of(b.version)->0, semver_of(c.version)->0);
            lemma_triple_transitive(x, y, z);
            lemma_then_transitive(
                triple_order(x, y), triple_order(y, z), triple_order(x, z),
                tail_order(a, b), tail_order(b, c), tail_order(a, c),
            );
        } else {
            if !is_date(a) && !is_date(b) {
                let (x, y) = (semver_of(a.version)->0, semver_of(b.version)->0);
                lemma_triple_transitive(x, y, x);
            }
            if !is_date(b) && !is_date(c) {
                let (y, z) = (semver_of(b.version)->0, semver_of(c.version)->0);
                lemma_triple_transitive(y, z, y);
            }
            if is_date(a) && is_date(b) {
                lemma_seq_transitive_triple(a.version, b.version, a.version);
            }
            if is_date(b) && is_date(c) {
                lemma_seq_transitive_triple(b.version, c.version, b.version);
            }
        }
    }
}

/// Under `UpOnly`, an agent whose version does not read as a build version is always
/// upgraded, whatever the API's version; an agent with a valid version is never moved to an
/// API version that does not read as one.
pub proof fn lemma_invalid_versions(agent: Seq<char>, api: Seq<char>)
    ensures
        parse_version(agent) is Err ==> upgrade_decision(AgentUpgradePolicy::UpOnly, agent, api),
        parse_version(agent) is Ok && parse_version(api) is Err ==> !upgrade_decision(
            AgentUpgradePolicy::UpOnly,
            agent,
            api,
        ),
{
}

/// Under `UpOnly`, an agent already at the API's valid version is not upgraded.
pub proof fn lemma_up_only_same_version(v: Seq<char>)
    requires
        parse_version(v) is Ok,
    ensures
        !upgrade_decision(AgentUpgradePolicy::UpOnly, v, v),
{
    lemma_version_order_reflexive(parse_version(v)->Ok_0);
}

/// Under `UpOnly` the agent is only moved to a strictly newer version: never downgraded.
pub proof fn lemma_up_only_never_downgrades(agent: Seq<char>, api: Seq<char>)
    requires
        parse_version(agent) is Ok,
        parse_version(api) is Ok,
        upgrade_decision(AgentUpgradePolicy::UpOnly, agent, api),
    ensures
        version_order(parse_version(api)->Ok_0, parse_version(agent)->Ok_0) == Ordering::Greater,
{
    lemma_version_order_antisymmetric(parse_version(agent)->Ok_0, parse_version(api)->Ok_0);
}

/// Under `UpDown`, the agent is moved exactly when its version differs from the API's.
pub proof fn lemma_up_down_matches_versions(agent: Seq<char>, api: Seq<char>)
    ensures
        upgrade_decision(AgentUpgradePolicy::UpDown, agent, api) == (agent != api),
        !upgrade_decision(AgentUpgradePolicy::Off, agent, api),
{
}

/// Reading back the name under which a policy is displayed gives the policy.
pub proof fn lemma_policy_name_round_trip(p: AgentUpgradePolicy)
    ensures
        policy_from_name(policy_name(p)) == p,
{
    reveal_strlit("Off");
    reveal_strlit("off");
    reveal_strlit("UpOnly");
    reveal_strlit("uponly");
    reveal_strlit("up_only");
    reveal_strlit("UpDown");
    reveal_strlit("updown");
    reveal_strlit("up_down");
    assert("Off"@.len() == 3 && "off"@.len() == 3 && "UpOnly"@.len() == 6 && "uponly"@.len() == 6);
    assert("up_only"@.len() == 7 && "UpDown"@.len() == 6 && "updown"@.len() == 6 && "up_down"@.len() == 7);
    match p {
        AgentUpgradePolicy::Off => {},
        AgentUpgradePolicy::UpOnly => {
            assert("UpOnly"@[0] != "Off"@[0] && "UpOnly"@[0] != "off"@[0]);
        },
        AgentUpgradePolicy::UpDown => {
            assert("UpDown"@[2] != "UpOnly"@[2] && "UpDown"@[0] != "uponly"@[0]);
            assert("UpDown"@[0] != "Off"@[0] && "UpDown"@[0] != "off"@[0]);
        },
    }
}


/// Whether no character of `s` is a dash.
pub open spec fn dash_free(s: Seq<char>) -> bool {
    forall|i: int| 0 <= i < s.len() ==> s[i] != '-'
}

/// Whether a build version is displayed in a form that reads back as itself: its text parts
/// hold no dash, the version part starts with a digit, a release candidate does not start
/// with a numeric character, and the hotfix, commit count and hash appear in the display
/// exactly where reading puts them back.
pub open spec fn displays_faithfully(v: BuildVersionView) -> bool {
    &&& v.version.len() > 0
    &&& is_digit_spec(v.version[0])
    &&& dash_free(v.version)
    &&& dash_free(v.rc)
    &&& dash_free(v.git_hash)
    &&& v.rc.len() == 0 ==> v.hotfix == 0 && ((v.commits == 0) == (v.git_hash.len() == 0))
    &&& v.rc.len() > 0 ==> {
        &&& !numeric_char(v.rc[0])
        &&& v.commits != 0 ==> v.git_hash.len() > 0
        &&& (v.commits == 0 && v.git_hash.len() > 0) ==> v.hotfix == 0
    }
}

proof fn lemma_decimal_count(n: usize)
    ensures
        is_count(decimal(n as nat)),
        count_value(decimal(n as nat)) == n,
        dash_free(decimal(n as nat)),
        decimal(n as nat).len() > 0,
        numeric_char(decimal(n as nat)[0]),
{
    lemma_decimal_digits(n as nat);
    let d = decimal(n as nat);
    assert(is_digit_spec(d[0]));
    assert forall|i: int| 0 <= i < d.len() implies d[i] != '-' by {
        assert(is_digit_spec(d[i]));
    }
}

/// Displaying a build version and reading the display back gives the same version, for
/// every version whose display is faithful.
pub proof fn lemma_display_reads_back(v: BuildVersionView)
    requires
        displays_faithfully(v),
    ensures
        parse_version(display_version(v)) == Ok::<BuildVersionView, BuildVersionError>(v),
{
    let s = display_version(v);
    let rest = s.drop_first();
    let sep = seq!['-'];
    lemma_decimal_count(v.hotfix);
    lemma_decimal_count(v.commits);
    let dh = decimal(v.hotfix as nat);
    let dc = decimal(v.commits as nat);
    assert(s[0] == 'v');
    assert(s =~= seq!['v'] + rest);
    if v.rc.len() == 0 {
        assert(v.rc =~= Seq::<char>::empty());
    }
    if v.git_hash.len() == 0 {
        assert(v.git_hash =~= Seq::<char>::empty());
    }
    if v.rc.len() == 0 {
        if v.commits == 0 {
            assert(rest =~= v.version);
            lemma_split_none(v.version, '-');
        } else {
            assert(rest =~= v.version + sep + (dc + sep + v.git_hash));
            lemma_split_join(v.version, dc + sep + v.git_hash, '-');
            lemma_split_join(dc, v.git_hash, '-');
            lemma_split_none(v.git_hash, '-');
            assert(split_seq(rest, '-') =~= seq![v.version, dc, v.git_hash]);
        }
    } else if v.commits == 0 {
        if v.git_hash.len() == 0 {
            assert(rest =~= v.version + sep + (v.rc + sep + dh));
            lemma_split_join(v.version, v.rc + sep + dh, '-');
            lemma_split_join(v.rc, dh, '-');
            lemma_split_none(dh, '-');
            assert(split_seq(rest, '-') =~= seq![v.version, v.rc, dh]);
        } else {
            assert(rest =~= v.version + sep + (v.rc + sep + (dh + sep + v.git_hash)));
            lemma_split_join(v.version, v.rc + sep + (dh + sep + v.git_hash), '-');
            lemma_split_join(v.rc, dh + sep + v.git_hash, '-');
            lemma_split_join(dh, v.git_hash, '-');
            lemma_split_none(v.git_hash, '-');
            assert(split_seq(rest, '-') =~= seq![v.version, v.rc, dh, v.git_hash]);
        }
    } else {
        assert(rest =~= v.version + sep + (v.rc + sep + (dh + sep + (dc + sep + v.git_hash))));
        lemma_split_join(v.version, v.rc + sep + (dh + sep + (dc + sep + v.git_hash)), '-');
        lemma_split_join(v.rc, dh + sep + (dc + sep + v.git_hash), '-');
        lemma_split_join(dh, dc + sep + v.git_hash, '-');
        lemma_split_join(dc, v.git_hash, '-');
        lemma_split_none(v.git_hash, '-');
        assert(split_seq(rest, '-') =~= seq![v.version, v.rc, dh, dc, v.git_hash]);
    }
}

} // verus!
