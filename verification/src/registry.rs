//! Registry kinds and credential resolution.
//!
//! The cloud-managed kind exchanges account credentials for a short-lived
//! token over the network; the driver performs that exchange and hands the
//! answer to [`Credentials::from_ecr_response`]. The generic kinds encode
//! username and password locally and cannot fail.

use vstd::prelude::*;

use crate::error::ExportError;

verus! {

broadcast use vstd::string::group_string_axioms;

/// The kind of registry an image is published to.
#[derive(Clone, Copy, Debug, PartialEq, Eq, Structural)]
pub enum RegistryType {
    /// A cloud-managed registry: publishing first exchanges account
    /// credentials for a short-lived authorization token.
    Amazon,
    /// A generic registry reached with an encoded username and password.
    Azure,
    /// A generic registry reached with an encoded username and password.
    Docker,
}

/// The registry kind, if any, that a keyword names.
pub open spec fn spec_registry_of(s: Seq<char>) -> Option<RegistryType> {
    if s == "amazon"@ {
        Some(RegistryType::Amazon)
    } else if s == "azure"@ {
        Some(RegistryType::Azure)
    } else if s == "docker"@ {
        Some(RegistryType::Docker)
    } else {
        None
    }
}

/// Compares two strings by their characters.
pub fn str_eq(a: &str, b: &str) -> (r: bool)
    ensures
        r == (a@ == b@),
{
    let sa = String::from_str(a);
    let sb = String::from_str(b);
    sa.eq(&sb)
}

impl RegistryType {
    /// The accepted registry kind keywords, in the order they are shown.
    pub fn variants() -> (r: [&'static str; 3])
        ensures
            r@.len() == 3,
            r@[0]@ == "amazon"@,
            r@[1]@ == "azure"@,
            r@[2]@ == "docker"@,
    {
        ["amazon", "azure", "docker"]
    }

    /// Reads a registry kind keyword.
    pub fn parse(value: &str) -> (r: Result<RegistryType, ExportError>)
        ensures
            match r {
                Ok(t) => spec_registry_of(value@) == Some(t),
                Err(e) => spec_registry_of(value@) is None && (e
                    matches ExportError::InvalidRegistryType { value: v } && v@ == value@),
            },
    {
        if str_eq(value, "amazon") {
            Ok(RegistryType::Amazon)
        } else if str_eq(value, "azure") {
            Ok(RegistryType::Azure)
        } else if str_eq(value, "docker") {
            Ok(RegistryType::Docker)
        } else {
            Err(ExportError::InvalidRegistryType { value: String::from_str(value) })
        }
    }

    /// The keyword that names this registry kind.
    pub fn as_text(&self) -> (r: String)
        ensures
            spec_registry_of(r@) == Some(*self),
    {
        proof {
            reveal_strlit("amazon");
            reveal_strlit("azure");
            reveal_strlit("docker");
            assert("azure"@.len() == 5);
            assert("amazon"@.len() == 6);
            assert("docker"@[0] == 'd');
            assert("amazon"@[0] == 'a');
        }
        match self {
            RegistryType::Amazon => String::from_str("amazon"),
            RegistryType::Azure => String::from_str("azure"),
            RegistryType::Docker => String::from_str("docker"),
        }
    }
}

/// The result of encoding `bytes-of(s)` in the standard base-64 alphabet
/// with padding, as `base64::encode` produces it.
pub uninterp spec fn base64_of(s: Seq<char>) -> Seq<char>;

/// Relies on `base64::encode`: the standard-alphabet, padded encoding of the
/// input's bytes, a function of the input alone.
#[verifier::external_body]
fn base64_encode(s: &str) -> (r: String)
    ensures
        r@ == base64_of(s@),
        s@.len() == 0 ==> r@.len() == 0,
{
    base64::encode(s)
}

/// The credential token the generic registry kinds use: the base-64
/// encoding of `username:password`.
pub open spec fn spec_basic_token(username: Seq<char>, password: Seq<char>) -> Seq<char> {
    base64_of(username + ":"@ + password)
}

/// An authentication token together with nothing else: it is held in memory
/// only and never persisted.
#[derive(Debug, Clone)]
pub struct Credentials {
    pub token: String,
}

impl Credentials {
    /// The credential for the generic registry kinds: the encoding of
    /// `username:password`. No network call occurs and this cannot fail.
    pub fn from_username_password(username: &str, password: &str) -> (r: Credentials)
        ensures
            r.token@ == spec_basic_token(username@, password@),
    {
        let joined = String::from_str(username).concat(":").concat(password);
        proof {
            reveal_strlit(":");
            assert(joined@ =~= username@ + ":"@ + password@);
        }
        Credentials { token: base64_encode(joined.as_str()) }
    }

    /// The credential from the cloud-managed kind's token exchange answer:
    /// the first authorization token, if the answer holds one.
    pub fn from_ecr_response(authorization_data: Option<Vec<Option<String>>>) -> (r: Result<
        Credentials,
        ExportError,
    >)
        ensures
            match r {
                Ok(c) => authorization_data matches Some(v) && v.len() > 0 && (v@[0] matches Some(
                    t,
                ) && c.token@ == t@),
                Err(e) => e matches ExportError::NoECRTokensReturned && match authorization_data {
                    Some(v) => v.len() == 0 || v@[0] is None,
                    None => true,
                },
            },
    {
        match authorization_data {
            Some(mut v) => {
                if v.len() == 0 {
                    Err(ExportError::NoECRTokensReturned)
                } else {
                    let first = v.remove(0);
                    match first {
                        Some(t) => Ok(Credentials { token: t }),
                        None => Err(ExportError::NoECRTokensReturned),
                    }
                }
            },
            None => Err(ExportError::NoECRTokensReturned),
        }
    }
}

} // verus!
