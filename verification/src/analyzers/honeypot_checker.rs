//! The honeypot oracle: where to ask, and what to make of the answer.

use crate::text::{append_digits, decimal_digits, lowercase_text, same_text, to_lowercase};
use vstd::prelude::*;
use vstd::string::*;

verus! {

/// What came back from the oracle.
#[derive(Debug, Clone, Copy, PartialEq, Eq, Structural)]
pub enum OracleReply {
    /// The oracle answered: the token is a honeypot, or it is not.
    Verdict(bool),
    /// The oracle answered with a status other than success.
    Rejected,
    /// The oracle could not be reached.
    Unreachable,
}

/// What to assume of a token when the oracle gives no verdict.
#[derive(Debug, Clone, Copy, PartialEq, Eq, Structural)]
pub enum FailurePolicy {
    /// Take the token for safe.
    AssumeSafe,
    /// Leave the question open.
    Unknown,
}

/// The id of a chain whose name is given in lower case: Ethereum's for a
/// name that is not known.
pub open spec fn spec_chain_id(lower: Seq<char>) -> u32 {
    if lower == "ethereum"@ {
        1
    } else if lower == "bsc"@ {
        56
    } else if lower == "polygon"@ {
        137
    } else if lower == "solana"@ {
        101
    } else {
        1
    }
}

/// The address at which the oracle is asked about a token.
pub open spec fn spec_request_url(address: Seq<char>, chain_id: u32) -> Seq<char> {
    "https://api.honeypot.is/v2/IsHoneypot?address="@ + address + "&chainID="@ + decimal_digits(
        chain_id as nat,
    )
}

/// What is known of a token after a reply, under a policy.
pub open spec fn spec_verdict(policy: FailurePolicy, reply: OracleReply) -> Option<bool> {
    match reply {
        OracleReply::Verdict(is_honeypot) => Some(is_honeypot),
        _ => match policy {
            FailurePolicy::AssumeSafe => Some(false),
            FailurePolicy::Unknown => None,
        },
    }
}

/// Asks an oracle whether a token can be sold again.
#[derive(Debug, Clone, Copy)]
pub struct HoneypotChecker {
    /// What to assume when the oracle gives no verdict.
    pub policy: FailurePolicy,
}

impl HoneypotChecker {
    /// A checker that takes a token for safe when the oracle gives no
    /// verdict.
    pub fn new() -> (checker: HoneypotChecker)
        ensures
            checker.policy == FailurePolicy::AssumeSafe,
    {
        HoneypotChecker { policy: FailurePolicy::AssumeSafe }
    }

    /// A checker with the given policy.
    pub fn with_policy(policy: FailurePolicy) -> (checker: HoneypotChecker)
        ensures
            checker.policy == policy,
    {
        HoneypotChecker { policy }
    }

    /// The id of the chain whose name, in lower case, is `lower`.
    pub fn chain_id_of(lower: &str) -> (id: u32)
        ensures
            id == spec_chain_id(lower@),
    {
        if same_text(lower, "ethereum") {
            1
        } else if same_text(lower, "bsc") {
            56
        } else if same_text(lower, "polygon") {
            137
        } else if same_text(lower, "solana") {
            101
        } else {
            1
        }
    }

    /// The id of a chain, whatever the case of its name.
    pub fn get_chain_id(&self, chain: &str) -> (id: u32)
        ensures
            id == spec_chain_id(lowercase_text(chain@)),
    {
        let lower = to_lowercase(chain);
        HoneypotChecker::chain_id_of(lower.as_str())
    }

    /// The address at which to ask about the token `address` on `chain`.
    pub fn request_url(&self, chain: &str, address: &str) -> (url: String)
        ensures
            url@ == spec_request_url(address@, spec_chain_id(lowercase_text(chain@))),
    {
        let id = self.get_chain_id(chain);
        let mut url = String::from_str("https://api.honeypot.is/v2/IsHoneypot?address=");
        url.append(address);
        url.append("&chainID=");
        append_digits(&mut url, id as u64);
        url
    }

    /// What is known of a token after the oracle's reply: its verdict where
    /// it gave one, else what the policy says.
    pub fn check_honeypot(&self, reply: OracleReply) -> (is_honeypot: Option<bool>)
        ensures
            is_honeypot == spec_verdict(self.policy, reply),
            reply matches OracleReply::Verdict(v) ==> is_honeypot == Some(v),
            self.policy == FailurePolicy::Unknown && !(reply is Verdict) ==> is_honeypot is None,
    {
        match reply {
            OracleReply::Verdict(is_honeypot) => Some(is_honeypot),
            _ => match self.policy {
                FailurePolicy::AssumeSafe => Some(false),
                FailurePolicy::Unknown => None,
            },
        }
    }
}

} // verus!
