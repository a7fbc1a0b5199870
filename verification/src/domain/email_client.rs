use vstd::prelude::*;
use crate::domain::email::Email;

verus! {

/// Delivers the one-time code to the account holder. An external
/// collaborator: implementations are free to fail, and callers must
/// surface a failed delivery instead of swallowing it. The outbox is
/// the model of what has been handed to the channel, so contracts can
/// say which message a workflow sent — in particular that the code a
/// challenge stores is the code the account holder was sent.
pub trait EmailClient {
    /// Every message delivered so far: recipient, subject, body.
    spec fn outbox(&self) -> Seq<(Seq<char>, Seq<char>, Seq<char>)>;

    /// Either delivers exactly the handed message, appending it to the
    /// outbox, or fails leaving the outbox as it was. Whether delivery
    /// succeeds is the channel's to decide; no implementation owes
    /// success.
    fn send_email(&mut self, recipient: &Email, subject: &str, content: &str) -> (r: Result<
        (),
        String,
    >)
        ensures
            r is Ok ==> final(self).outbox() == old(self).outbox().push(
                (recipient@, subject@, content@),
            ),
            r is Err ==> final(self).outbox() == old(self).outbox(),
    ;
}

} // verus!
