//! What is known of a machine's BMC, and the roles of BMC users.

use vstd::prelude::*;

use crate::errors::{ModelError, ModelErrorView};
use crate::startup::{debug_quoted, debug_string};
use crate::text::{lowercase, push_str, replace_all, replace_str, str_eq, to_lowercase};

verus! {

/// How the BMC of a machine is reached, and what it runs.
#[derive(Debug, Default, Clone, PartialEq, Eq)]
pub struct BmcInfo {
    pub machine_interface_id: Option<String>,
    pub ip: Option<String>,
    pub port: Option<u16>,
    pub mac: Option<String>,
    pub version: Option<String>,
    pub firmware_version: Option<String>,
}

impl BmcInfo {
    /// The BMC's address as it is recorded, which must be there; reading it as an IP address
    /// is left to the caller, which reports a failure with `bad_address`.
    pub fn ip_addr_text(&self) -> (r: Result<String, String>)
        ensures
            match self.ip {
                Some(ip) => r matches Ok(x) && x@ == ip@,
                None => r matches Err(e) && e@ == "Missing BMC address"@,
            },
    {
        match &self.ip {
            Some(ip) => Ok(ip.clone()),
            None => Err(String::from_str("Missing BMC address")),
        }
    }

    /// The error of a recorded BMC address that does not read as an IP address: the
    /// recorded value, as `Debug` writes it, then why it does not read.
    pub fn bad_address(&self, error: &str) -> (r: String)
        ensures
            r@ == "Bad address "@ + match self.ip {
                Some(ip) => "Some("@ + debug_quoted(ip@) + ")"@,
                None => "None"@,
            } + " "@ + error@,
    {
        let mut m = String::from_str("Bad address ");
        match &self.ip {
            Some(ip) => {
                push_str(&mut m, "Some(");
                let q = debug_string(ip.as_str());
                push_str(&mut m, q.as_str());
                push_str(&mut m, ")");
            },
            None => {
                push_str(&mut m, "None");
            },
        }
        push_str(&mut m, " ");
        push_str(&mut m, error);
        assert(m@ =~= "Bad address "@ + match self.ip {
            Some(ip) => "Some("@ + debug_quoted(ip@) + ")"@,
            None => "None"@,
        } + " "@ + error@);
        m
    }
}

/// A comparison between two version strings.
#[derive(Debug, Clone, Copy, PartialEq, Eq, Structural)]
pub enum VersionOp {
    Eq,
    Ne,
    Lt,
    Le,
    Ge,
    Gt,
}

/// What `version_compare::compare_to(a, b, op)` returns: `None` when either string is not a
/// version it can read, else whether the comparison holds.
pub uninterp spec fn version_compare_to(a: Seq<char>, b: Seq<char>, op: VersionOp) -> Option<bool>;

/// Calls `version_compare::compare_to`.
#[verifier::external_body]
fn compare_versions(a: &str, b: &str, op: VersionOp) -> (r: Option<bool>)
    ensures
        r == version_compare_to(a@, b@, op),
{
    let op = match op {
        VersionOp::Eq => version_compare::Cmp::Eq,
        VersionOp::Ne => version_compare::Cmp::Ne,
        VersionOp::Lt => version_compare::Cmp::Lt,
        VersionOp::Le => version_compare::Cmp::Le,
        VersionOp::Ge => version_compare::Cmp::Ge,
        VersionOp::Gt => version_compare::Cmp::Gt,
    };
    version_compare::compare_to(a, b, op).ok()
}

/// The firmware version as it is compared: lowercased, with every `bf-` removed.
pub open spec fn normalized_firmware(v: Seq<char>) -> Seq<char> {
    replace_all(lowercase(v), "bf-"@, ""@)
}

/// Whether a BMC with this firmware version can install a BFB image: its normalized version
/// reads as a version at least `24.10`.
pub open spec fn firmware_supports_bfb(firmware_version: Option<Seq<char>>) -> bool {
    match firmware_version {
        Some(v) => version_compare_to(normalized_firmware(v), "24.10"@, VersionOp::Ge) == Some(true),
        None => false,
    }
}

impl BmcInfo {
    /// Whether the BMC's firmware can install a BFB image.
    pub fn supports_bfb_install(&self) -> (r: bool)
        ensures
            r == firmware_supports_bfb(match self.firmware_version {
                Some(v) => Some(v@),
                None => None,
            }),
    {
        match &self.firmware_version {
            Some(v) => {
                let lower = to_lowercase(v.as_str());
                proof {
                    reveal_strlit("bf-");
                }
                let normalized = replace_str(lower.as_str(), "bf-", "");
                match compare_versions(normalized.as_str(), "24.10", VersionOp::Ge) {
                    Some(b) => b,
                    None => false,
                }
            },
            None => false,
        }
    }
}

/// The role of a BMC user.
#[derive(Debug, Copy, Clone, PartialEq, Eq, Structural)]
pub enum UserRoles {
    User,
    Administrator,
    Operator,
    Noaccess,
}

/// The name under which a role is stored.
pub open spec fn role_name(r: UserRoles) -> Seq<char> {
    match r {
        UserRoles::User => "user"@,
        UserRoles::Administrator => "administrator"@,
        UserRoles::Operator => "operator"@,
        UserRoles::Noaccess => "noaccess"@,
    }
}

/// The role stored under a name, if any.
pub open spec fn role_named(s: Seq<char>) -> Option<UserRoles> {
    if s == "user"@ {
        Some(UserRoles::User)
    } else if s == "administrator"@ {
        Some(UserRoles::Administrator)
    } else if s == "operator"@ {
        Some(UserRoles::Operator)
    } else if s == "noaccess"@ {
        Some(UserRoles::Noaccess)
    } else {
        None
    }
}

impl UserRoles {
    /// The name under which this role is stored.
    pub fn to_string(&self) -> (r: String)
        ensures
            r@ == role_name(*self),
    {
        match self {
            UserRoles::User => String::from_str("user"),
            UserRoles::Administrator => String::from_str("administrator"),
            UserRoles::Operator => String::from_str("operator"),
            UserRoles::Noaccess => String::from_str("noaccess"),
        }
    }

    /// Reads a role stored in the database; an unknown name is a conversion error that
    /// quotes it.
    pub fn from_str(input: &str) -> (r: Result<UserRoles, ModelError>)
        ensures
            role_named(input@) matches Some(x) ==> r == Ok::<UserRoles, ModelError>(x),
            role_named(input@) is None ==> (r matches Err(e) && e@ == ModelErrorView::DatabaseTypeConversionError(
                "Unknown role found in database: "@ + input@,
            )),
    {
        if str_eq(input, "user") {
            Ok(UserRoles::User)
        } else if str_eq(input, "administrator") {
            Ok(UserRoles::Administrator)
        } else if str_eq(input, "operator") {
            Ok(UserRoles::Operator)
        } else if str_eq(input, "noaccess") {
            Ok(UserRoles::Noaccess)
        } else {
            let mut m = String::from_str("Unknown role found in database: ");
            push_str(&mut m, input);
            Err(ModelError::DatabaseTypeConversionError(m))
        }
    }
}

/// Reading back the stored name of a role gives the role.
pub proof fn lemma_role_name_round_trip(r: UserRoles)
    ensures
        role_named(role_name(r)) == Some(r),
{
    reveal_strlit("user");
    reveal_strlit("administrator");
    reveal_strlit("operator");
    reveal_strlit("noaccess");
    assert("user"@.len() == 4 && "administrator"@.len() == 13 && "operator"@.len() == 8 && "noaccess"@.len() == 8);
    assert("operator"@[0] != "noaccess"@[0]);
}

} // verus!
