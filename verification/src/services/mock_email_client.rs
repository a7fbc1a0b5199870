use vstd::prelude::*;
use vstd::string::StrSliceExecFns;
use crate::domain::Email;
use crate::domain::EmailClient;

verus! {

/// The outbox a recorded message list stands for.
pub closed spec fn message_views(s: Seq<(String, String, String)>) -> Seq<
    (Seq<char>, Seq<char>, Seq<char>),
> {
    s.map_values(|m: (String, String, String)| (m.0@, m.1@, m.2@))
}

/// A notifier that delivers nothing: it records each message and
/// reports success; for tests and local runs.
pub struct MockEmailClient {
    sent: Vec<(String, String, String)>,
}

impl MockEmailClient {
    pub fn new() -> (r: MockEmailClient)
        ensures
            r.outbox() == Seq::<(Seq<char>, Seq<char>, Seq<char>)>::empty(),
    {
        let r = MockEmailClient { sent: Vec::new() };
        proof {
            assert(r.outbox() =~= Seq::<(Seq<char>, Seq<char>, Seq<char>)>::empty());
        }
        r
    }

    /// The recorded messages, oldest first.
    pub fn messages(&self) -> (r: &Vec<(String, String, String)>)
        ensures
            message_views(r@) == self.outbox(),
    {
        &self.sent
    }
}

impl EmailClient for MockEmailClient {
    closed spec fn outbox(&self) -> Seq<(Seq<char>, Seq<char>, Seq<char>)> {
        message_views(self.sent@)
    }

    fn send_email(&mut self, recipient: &Email, subject: &str, content: &str) -> (r: Result<
        (),
        String,
    >) {
        let ghost old_sent = self.sent@;
        self.sent.push((recipient.as_ref().to_owned(), subject.to_owned(), content.to_owned()));
        proof {
            assert(message_views(self.sent@) =~= message_views(old_sent).push(
                (recipient@, subject@, content@),
            ));
        }
        Ok(())
    }
}

} // verus!
