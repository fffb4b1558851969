//! Notification messages and the plaintext they are sent as. The
//! encryption oracle and the TCP relay live outside the library; the
//! rules for what may be sent, and the exact plaintext, are decided
//! here.

use vstd::prelude::*;

verus! {

/// A notification: subject and body.
#[derive(Debug, PartialEq, Eq)]
pub struct Email {
    pub subject: String,
    pub body: String,
}

/// An encrypted notification, ready for the relay.
#[derive(Debug, PartialEq, Eq)]
pub struct EmailSecure {
    pub data: String,
}

/// Why a notification was refused.
#[derive(Debug, Clone, Copy, PartialEq, Eq, Structural)]
pub enum MailError {
    /// Subject or body was empty.
    InvalidEmail,
}

/// A notification is valid when neither field is empty.
pub open spec fn email_is_valid(e: Email) -> bool {
    e.subject@.len() > 0 && e.body@.len() > 0
}

/// Plaintext form of a notification: subject and body joined by the
/// relay's separator.
pub open spec fn email_plaintext_spec(e: Email) -> Seq<char> {
    e.subject@ + "-=-"@ + e.body@
}

impl Clone for Email {
    fn clone(&self) -> (r: Email)
        ensures
            r == *self,
    {
        Email { subject: self.subject.clone(), body: self.body.clone() }
    }
}

impl Email {
    /// Builds a notification from its two fields.
    pub fn new(subject: String, body: String) -> (r: Email)
        ensures
            r.subject == subject,
            r.body == body,
    {
        Email { subject, body }
    }

    /// True when both subject and body are non-empty.
    pub fn is_valid(&self) -> (r: bool)
        ensures
            r == email_is_valid(*self),
    {
        self.subject.as_str().unicode_len() > 0 && self.body.as_str().unicode_len() > 0
    }

    /// The plaintext handed to the encryption oracle: refused with
    /// `InvalidEmail` exactly when subject or body is empty.
    pub fn plaintext(&self) -> (r: Result<String, MailError>)
        ensures
            match r {
                Ok(p) => email_is_valid(*self) && p@ == email_plaintext_spec(*self),
                Err(e) => !email_is_valid(*self) && e == MailError::InvalidEmail,
            },
    {
        if !self.is_valid() {
            return Err(MailError::InvalidEmail);
        }
        let mut out = self.subject.clone();
        out.append("-=-");
        out.append(self.body.as_str());
        Ok(out)
    }
}

} // verus!
