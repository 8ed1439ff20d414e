//! Pending-verification sessions and the verification operations.
//!
//! A session maps a requester to the one-time code and address from the
//! latest request; a new request overwrites any older session for the same
//! requester. Confirming consults exactly that latest pair: a missing
//! session, a wrong code, and a correct code each have their own outcome,
//! and a correct code consumes the session so a second submission finds
//! none. Sessions live in memory only; after a restart a user must request
//! a fresh code.

use std::collections::HashMap;
use vstd::prelude::*;
use vstd::string::StringExecFns;

use crate::textutil::{ends_with_spec, str_ends_with};

use rand::Rng;

verus! {

broadcast use vstd::std_specs::hash::group_hash_axioms;

/// Length of a one-time verification code.
pub const CODE_LENGTH: usize = 15;

/// A pending code/address pair for one requester.
#[derive(Debug, Clone)]
pub struct CodeEmailPair {
    pub code: String,
    pub email: String,
}

/// Result of submitting a verification code.
#[derive(Debug, Clone)]
pub enum ConfirmOutcome {
    /// The code matched; the address the requester proved control of.
    Accepted(String),
    /// A session exists but the submitted code is not its code.
    Rejected,
    /// No session is pending for this requester.
    NoSession,
}

/// Errors a verification request can be refused with.
#[derive(Debug, Clone, PartialEq, Eq)]
pub enum VerifyError {
    /// The address is not a student address.
    InvalidEmail,
    /// The address is already bound to a verified identity.
    AlreadyVerified,
}

/// An outbound transactional e-mail, as handed to the mail queue: plain
/// values only, rendered to a transport message by the host.
#[derive(Debug, Clone)]
pub struct OutboundEmail {
    /// Destination address.
    pub to: String,
    /// The requester the code belongs to.
    pub user_id: u64,
    /// The one-time code the mail carries.
    pub code: String,
    /// The full recipient field, `name <address>`.
    pub receiver: String,
}

impl OutboundEmail {
    /// Assemble the outbound mail for a verification request.
    pub fn new(to: String, user_id: u64, username: &str, code: String) -> (r: OutboundEmail)
        ensures
            r.to == to,
            r.user_id == user_id,
            r.code == code,
            r.receiver@ == username@ + " <"@ + to@ + ">"@,
    {
        let mut receiver = String::from_str(username);
        receiver.append(" <");
        receiver.append(to.as_str());
        receiver.append(">");
        OutboundEmail { to, user_id, code, receiver }
    }
}

/// A character a one-time code may consist of.
pub open spec fn is_code_char(c: char) -> bool {
    ||| '0' <= c <= '9'
    ||| 'a' <= c <= 'z'
    ||| 'A' <= c <= 'Z'
}

/// Relies on `rand::Rng::sample_iter` with `rand::distributions::Alphanumeric`,
/// whose samples are drawn uniformly from the 62 bytes `[0-9A-Za-z]`; taking
/// `CODE_LENGTH` of them gives the code. The value is random, so nothing
/// beyond its length and alphabet is promised.
#[verifier::external_body]
pub fn generate_verification_code() -> (code: String)
    ensures
        code@.len() == CODE_LENGTH,
        forall|i: int| 0 <= i < code@.len() ==> is_code_char(#[trigger] code@[i]),
{
    let code: String = rand::thread_rng()
        .sample_iter(&rand::distributions::Alphanumeric)
        .take(CODE_LENGTH)
        .map(char::from)
        .collect();
    code
}

/// The in-memory store of pending verification sessions, keyed by requester.
pub struct SessionStore {
    map: HashMap<u64, CodeEmailPair>,
}

impl View for SessionStore {
    type V = Map<u64, CodeEmailPair>;

    closed spec fn view(&self) -> Map<u64, CodeEmailPair> {
        self.map@
    }
}

impl SessionStore {
    pub fn new() -> (r: SessionStore)
        ensures
            r@ == Map::<u64, CodeEmailPair>::empty(),
    {
        SessionStore { map: HashMap::new() }
    }

    /// Open (or overwrite) the session for `user_id`: only the latest
    /// code/address pair is ever outstanding for a requester.
    pub fn begin(&mut self, user_id: u64, code: String, email: String)
        ensures
            final(self)@ == old(self)@.insert(
                user_id,
                CodeEmailPair { code, email },
            ),
    {
        self.map.insert(user_id, CodeEmailPair { code, email });
    }

    /// Judge a submitted code against the pending session, consuming the
    /// session exactly when the code matches. `Rejected` comes for any code
    /// other than the one the latest `begin` supplied; `NoSession` when no
    /// `begin` happened or the session was already consumed.
    pub fn confirm_verification(&mut self, user_id: u64, submitted: &String) -> (r:
        ConfirmOutcome)
        ensures
            match r {
                ConfirmOutcome::Accepted(addr) => {
                    &&& old(self)@.contains_key(user_id)
                    &&& old(self)@[user_id].code@ == submitted@
                    &&& addr@ == old(self)@[user_id].email@
                    &&& final(self)@ == old(self)@.remove(user_id)
                },
                ConfirmOutcome::Rejected => {
                    &&& old(self)@.contains_key(user_id)
                    &&& old(self)@[user_id].code@ != submitted@
                    &&& final(self)@ == old(self)@
                },
                ConfirmOutcome::NoSession => {
                    &&& !old(self)@.contains_key(user_id)
                    &&& final(self)@ == old(self)@
                },
            },
    {
        let entry = self.map.get(&user_id);
        match entry {
            None => ConfirmOutcome::NoSession,
            Some(pair) => {
                if pair.code == *submitted {
                    let addr = pair.email.clone();
                    self.map.remove(&user_id);
                    ConfirmOutcome::Accepted(addr)
                } else {
                    ConfirmOutcome::Rejected
                }
            },
        }
    }

    /// Drop whatever session `user_id` has, if any.
    pub fn consume(&mut self, user_id: u64)
        ensures
            final(self)@ == old(self)@.remove(user_id),
    {
        self.map.remove(&user_id);
    }

    /// Handle a verification request: reject a non-student address, refuse
    /// an address that is already verified, and otherwise open a session
    /// under a fresh one-time code and hand back the mail to enqueue. The
    /// code is random; every outcome carries a `CODE_LENGTH`-character
    /// alphanumeric code that matches the session just opened.
    pub fn request_verification(
        &mut self,
        user_id: u64,
        username: &str,
        email: String,
        already_verified: bool,
    ) -> (r: Result<OutboundEmail, VerifyError>)
        ensures
            match r {
                Ok(mail) => {
                    &&& ends_with_spec(email@, "@stud.hs-kempten.de"@)
                    &&& !already_verified
                    &&& mail.to@ == email@
                    &&& mail.user_id == user_id
                    &&& mail.code@.len() == CODE_LENGTH
                    &&& forall|i: int|
                        0 <= i < mail.code@.len() ==> is_code_char(#[trigger] mail.code@[i])
                    &&& mail.receiver@ == username@ + " <"@ + email@ + ">"@
                    &&& final(self)@ == old(self)@.insert(
                        user_id,
                        CodeEmailPair { code: mail.code, email },
                    )
                },
                Err(VerifyError::InvalidEmail) => {
                    &&& !ends_with_spec(email@, "@stud.hs-kempten.de"@)
                    &&& final(self)@ == old(self)@
                },
                Err(VerifyError::AlreadyVerified) => {
                    &&& ends_with_spec(email@, "@stud.hs-kempten.de"@)
                    &&& already_verified
                    &&& final(self)@ == old(self)@
                },
            },
    {
        if !str_ends_with(email.as_str(), "@stud.hs-kempten.de") {
            return Err(VerifyError::InvalidEmail);
        }
        if already_verified {
            return Err(VerifyError::AlreadyVerified);
        }
        let code = generate_verification_code();
        let mail = OutboundEmail::new(email.clone(), user_id, username, code.clone());
        self.begin(user_id, code, email);
        Ok(mail)
    }
}

} // verus!
