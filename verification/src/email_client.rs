//! The notification collaborator that delivers second-factor codes.

use vstd::prelude::*;

use crate::email::Email;

verus! {

/// A sender of notifications to an address.  Delivery is outside this
/// crate's control, so nothing is promised of the outcome; the protocol
/// treats a failure as an unexpected error.
pub trait EmailClient: Sized {
    /// Sends `content` under `subject` to `recipient`.
    fn send_email(&self, recipient: &Email, subject: &str, content: &str) -> (r: Result<
        (),
        String,
    >);
}

/// A sender that delivers nothing and always reports success, for testing.
pub struct MockEmailClient;

impl EmailClient for MockEmailClient {
    fn send_email(&self, recipient: &Email, subject: &str, content: &str) -> (r: Result<
        (),
        String,
    >)
        ensures
            r is Ok,
    {
        Ok(())
    }
}

} // verus!
