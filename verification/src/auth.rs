//! Authentication policy and audit log.
//!
//! The access policy is accept-all: this endpoint is a public demo, not a
//! security boundary. What matters is the audit trail — every attempt,
//! with a well-formed key or not, is recorded exactly once, and recording
//! never blocks or fails the handshake.

use vstd::prelude::*;
use vstd::string::StringExecFns;

use crate::session::str_eq;

verus! {

/// What the host read off a presented public key: its algorithm name.
/// The key material itself never reaches the policy.
#[derive(Debug)]
pub struct KeyInfo {
    pub algorithm: String,
}

/// One recorded authentication attempt, in arrival order.
#[derive(Debug)]
pub struct AuthAttempt {
    pub username: String,
    pub key_label: String,
}

/// Abstract value of an [`AuthAttempt`].
pub ghost struct AuthAttemptView {
    pub username: Seq<char>,
    pub key_label: Seq<char>,
}

impl View for AuthAttempt {
    type V = AuthAttemptView;

    open spec fn view(&self) -> AuthAttemptView {
        AuthAttemptView { username: self.username@, key_label: self.key_label@ }
    }
}

/// The decision handed back to the transport.
#[derive(Clone, Copy, PartialEq, Eq, Structural, Debug)]
pub enum AuthDecision {
    Accept,
    Reject,
}

/// The key algorithms the evaluator can name.
pub open spec fn is_known_algorithm(a: Seq<char>) -> bool {
    ||| a == "ssh-ed25519"@
    ||| a == "ssh-rsa"@
    ||| a == "ecdsa-sha2-nistp256"@
    ||| a == "ecdsa-sha2-nistp384"@
    ||| a == "ecdsa-sha2-nistp521"@
}

/// The label a key is filed under: its algorithm name when recognized,
/// otherwise a fixed marker.
pub open spec fn spec_label(a: Seq<char>) -> Seq<char> {
    if is_known_algorithm(a) {
        a
    } else {
        "unknown"@
    }
}

/// The append-only attempt log; never pruned, read by diagnostics only.
#[derive(Debug)]
pub struct AuthLog {
    entries: Vec<AuthAttempt>,
}

impl View for AuthLog {
    type V = Seq<AuthAttemptView>;

    closed spec fn view(&self) -> Seq<AuthAttemptView> {
        self.entries@.map_values(|a: AuthAttempt| a@)
    }
}

impl AuthLog {
    /// An empty log.
    pub fn new() -> (r: AuthLog)
        ensures
            r@ == Seq::<AuthAttemptView>::empty(),
    {
        let r = AuthLog { entries: Vec::new() };
        proof {
            assert(r@ =~= Seq::<AuthAttemptView>::empty());
        }
        r
    }

    /// Classifies a presented key for the log. Evaluation has no authority
    /// to reject; the label is descriptive only.
    pub fn evaluate(&self, key: &KeyInfo) -> (label: String)
        ensures
            label@ == spec_label(key.algorithm@),
    {
        if str_eq(key.algorithm.as_str(), "ssh-ed25519") || str_eq(
            key.algorithm.as_str(),
            "ssh-rsa",
        ) || str_eq(key.algorithm.as_str(), "ecdsa-sha2-nistp256") || str_eq(
            key.algorithm.as_str(),
            "ecdsa-sha2-nistp384",
        ) || str_eq(key.algorithm.as_str(), "ecdsa-sha2-nistp521") {
            key.algorithm.clone()
        } else {
            String::from_str("unknown")
        }
    }

    /// Appends one attempt. Exactly one entry per call, whatever the key
    /// looked like; nothing is ever overwritten or dropped.
    pub fn record(&mut self, username: &str, key: &KeyInfo)
        ensures
            final(self)@ == old(self)@.push(
                AuthAttemptView {
                    username: username@,
                    key_label: spec_label(key.algorithm@),
                },
            ),
    {
        let label = self.evaluate(key);
        let ghost before = self.entries@;
        self.entries.push(AuthAttempt { username: username.to_owned(), key_label: label });
        proof {
            assert(self.entries@.map_values(|a: AuthAttempt| a@) =~= before.map_values(
                |a: AuthAttempt| a@,
            ).push(self.entries@.last()@));
        }
    }

    /// Law: one authentication callback leaves exactly one new log entry
    /// and accepts, whatever key was presented — the current policy.
    /// Returns the descriptive label for the host's own logging.
    pub fn authenticate(&mut self, username: &str, key: &KeyInfo) -> (r: (String, AuthDecision))
        ensures
            r.1 == AuthDecision::Accept,
            r.0@ == spec_label(key.algorithm@),
            final(self)@ == old(self)@.push(
                AuthAttemptView {
                    username: username@,
                    key_label: spec_label(key.algorithm@),
                },
            ),
            final(self)@.len() == old(self)@.len() + 1,
    {
        let label = self.evaluate(key);
        self.record(username, key);
        (label, AuthDecision::Accept)
    }

    /// The whole log, insertion-ordered, for diagnostics; no access
    /// decision reads it.
    pub fn all_entries(&self) -> (r: &Vec<AuthAttempt>)
        ensures
            r@.map_values(|a: AuthAttempt| a@) == self@,
    {
        &self.entries
    }
}

} // verus!
