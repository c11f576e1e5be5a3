//! The closed set of push-network kinds and the materialized provider
//! values that the credential resolver produces.

use vstd::prelude::*;
use crate::error::Error;
use crate::payload::MessagePayload;
use crate::strutil::str_eq;

verus! {

/// The closed enumeration of push networks, plus the no-op kind used
/// outside production.
#[derive(Debug, Clone, Copy, PartialEq, Eq, Structural, Hash)]
pub enum ProviderKind {
    Apns,
    ApnsSandbox,
    Fcm,
    Noop,
}

impl ProviderKind {
    /// The kind's stable name.
    pub open spec fn spec_str(&self) -> Seq<char> {
        match self {
            ProviderKind::Apns => "apns"@,
            ProviderKind::ApnsSandbox => "apns-sandbox"@,
            ProviderKind::Fcm => "fcm"@,
            ProviderKind::Noop => "noop"@,
        }
    }

    pub fn as_str(&self) -> (r: &'static str)
        ensures
            r@ == self.spec_str(),
    {
        match self {
            ProviderKind::Apns => "apns",
            ProviderKind::ApnsSandbox => "apns-sandbox",
            ProviderKind::Fcm => "fcm",
            ProviderKind::Noop => "noop",
        }
    }

    /// Parses a kind from its name; any other string fails with
    /// `ProviderNotAvailable` carrying that string.
    pub fn from_str(s: &str) -> (r: Result<ProviderKind, Error>)
        ensures
            (spec_kind_of(s@) matches Some(k) ==> r == Ok::<ProviderKind, Error>(k)),
            (spec_kind_of(s@) is None ==> (r matches Err(Error::ProviderNotAvailable(v)) && v@
                == s@)),
            (r matches Ok(k) ==> spec_kind_of(s@) == Some(k)),
    {
        proof {
            lemma_kind_names_distinct();
        }
        if str_eq(s, "apns") {
            Ok(ProviderKind::Apns)
        } else if str_eq(s, "apns-sandbox") {
            Ok(ProviderKind::ApnsSandbox)
        } else if str_eq(s, "fcm") {
            Ok(ProviderKind::Fcm)
        } else if str_eq(s, "noop") {
            Ok(ProviderKind::Noop)
        } else {
            Err(Error::ProviderNotAvailable(s.to_owned()))
        }
    }
}

/// The kind a name parses to, if any.
pub open spec fn spec_kind_of(s: Seq<char>) -> Option<ProviderKind> {
    if s == "apns"@ {
        Some(ProviderKind::Apns)
    } else if s == "apns-sandbox"@ {
        Some(ProviderKind::ApnsSandbox)
    } else if s == "fcm"@ {
        Some(ProviderKind::Fcm)
    } else if s == "noop"@ {
        Some(ProviderKind::Noop)
    } else {
        None
    }
}

proof fn lemma_kind_names_distinct()
    ensures
        "apns"@ != "apns-sandbox"@,
        "apns"@ != "fcm"@,
        "apns"@ != "noop"@,
        "apns-sandbox"@ != "fcm"@,
        "apns-sandbox"@ != "noop"@,
        "fcm"@ != "noop"@,
{
    reveal_strlit("apns");
    reveal_strlit("apns-sandbox");
    reveal_strlit("fcm");
    reveal_strlit("noop");
    assert("apns"@.len() == 4);
    assert("apns-sandbox"@.len() == 12);
    assert("fcm"@.len() == 3);
    assert("noop"@.len() == 4);
    assert("apns"@[0] == 'a');
    assert("noop"@[0] == 'n');
}

/// The APNs endpoint a provider is bound to.
#[derive(Debug, Clone, Copy, PartialEq, Eq, Structural, Hash)]
pub enum ApnsEndpoint {
    Production,
    Sandbox,
}

/// Decoded APNs credential material for exactly one auth mode.
#[derive(Debug, Clone, PartialEq, Eq)]
pub enum ApnsAuth {
    Certificate { certificate: Vec<u8>, password: String },
    Token { pkcs8_pem: Vec<u8>, key_id: String, team_id: String },
}

/// A materialized APNs dispatcher: decoded credentials bound to one
/// endpoint and one topic.
#[derive(Debug, Clone, PartialEq, Eq)]
pub struct ApnsProvider {
    pub endpoint: ApnsEndpoint,
    pub topic: String,
    pub auth: ApnsAuth,
}

/// A materialized FCM dispatcher: the plain API key.
#[derive(Debug, Clone, PartialEq, Eq)]
pub struct FcmProvider {
    pub api_key: String,
}

/// The dispatcher that accepts any input and always succeeds; used only
/// outside production.
#[derive(Debug, Clone, PartialEq, Eq)]
pub struct NoopProvider {}

impl NoopProvider {
    pub fn new() -> (r: NoopProvider)
        ensures
            r == (NoopProvider {}),
    {
        NoopProvider {}
    }

    /// The no-op send: succeeds on every token and payload.
    pub fn send_notification(&self, _token: &str, _payload: &MessagePayload) -> (r: Result<
        (),
        Error,
    >)
        ensures
            r is Ok,
    {
        Ok(())
    }
}

/// A materialized provider: one case per push network, each carrying
/// its decoded credential state.
#[derive(Debug, Clone, PartialEq, Eq)]
pub enum Provider {
    Apns(ApnsProvider),
    Fcm(FcmProvider),
    Noop(NoopProvider),
}

impl Provider {
    /// The kind this materialized provider is bound to.
    pub open spec fn spec_kind(&self) -> ProviderKind {
        match self {
            Provider::Apns(p) => if p.endpoint is Sandbox {
                ProviderKind::ApnsSandbox
            } else {
                ProviderKind::Apns
            },
            Provider::Fcm(_) => ProviderKind::Fcm,
            Provider::Noop(_) => ProviderKind::Noop,
        }
    }

    pub fn kind(&self) -> (r: ProviderKind)
        ensures
            r == self.spec_kind(),
    {
        match self {
            Provider::Apns(p) => match p.endpoint {
                ApnsEndpoint::Sandbox => ProviderKind::ApnsSandbox,
                ApnsEndpoint::Production => ProviderKind::Apns,
            },
            Provider::Fcm(_) => ProviderKind::Fcm,
            Provider::Noop(_) => ProviderKind::Noop,
        }
    }
}

} // verus!
