use vstd::prelude::*;
use crate::token::{append_decimal, decimal_of};

verus! {

/// Appended to a username to form the recipient's mail address.
pub const ADDRESS_SUFFIX: &'static str = "@husky.neu.edu";

/// The subject line of a confirmation message.
pub const SUBJECT: &'static str = "Commencement Ticket Resell Confirmation";

/// The sender that the discarding notifier reports.
pub const MOCK_SENDER: &'static str = "mock-emailer@localhost";

/// The link that confirms `username` with `token` on `domain`.
pub open spec fn confirmation_url_of(domain: Seq<char>, username: Seq<char>, token: i64) -> Seq<char> {
    "https://"@ + domain + "/api/confirm?username="@ + username + "&token="@ + decimal_of(
        token as int,
    )
}

/// The text of the confirmation message.
pub open spec fn message_text_of(domain: Seq<char>, username: Seq<char>, token: i64) -> Seq<char> {
    "Hey "@ + username + ", thanks for registering. Login with this url "@ + confirmation_url_of(
        domain,
        username,
        token,
    )
}

/// A confirmation message, ready for a transport.
pub struct Email {
    pub to: String,
    pub from: String,
    pub subject: String,
    pub text: String,
}

/// The mail address of `username`.
pub fn recipient_address(username: &str) -> (r: String)
    ensures
        r@ == username@ + ADDRESS_SUFFIX@,
{
    let mut r = String::from_str(username);
    r.append(ADDRESS_SUFFIX);
    r
}

/// The link that confirms `username` with `token` on `domain`.
pub fn confirmation_url(domain: &str, username: &str, token: i64) -> (r: String)
    ensures
        r@ == confirmation_url_of(domain@, username@, token),
{
    let mut r = String::from_str("https://");
    r.append(domain);
    r.append("/api/confirm?username=");
    r.append(username);
    r.append("&token=");
    append_decimal(&mut r, token);
    assert(r@ =~= confirmation_url_of(domain@, username@, token));
    r
}

/// The confirmation message from `sender` to `username`.
pub fn compose_email(sender: &str, domain: &str, username: &str, token: i64) -> (r: Email)
    ensures
        r.to@ == username@ + ADDRESS_SUFFIX@,
        r.from@ == sender@,
        r.subject@ == SUBJECT@,
        r.text@ == message_text_of(domain@, username@, token),
{
    let mut text = String::from_str("Hey ");
    text.append(username);
    text.append(", thanks for registering. Login with this url ");
    let url = confirmation_url(domain, username, token);
    text.append(url.as_str());
    assert(text@ =~= message_text_of(domain@, username@, token));
    Email {
        to: recipient_address(username),
        from: String::from_str(sender),
        subject: String::from_str(SUBJECT),
        text,
    }
}

/// A notifier that sends nothing and keeps each message it would have sent.
pub struct MockNotifier {
    pub outbox: Vec<Email>,
}

impl MockNotifier {
    pub fn new() -> (r: MockNotifier)
        ensures
            r.outbox@.len() == 0,
    {
        MockNotifier { outbox: Vec::new() }
    }

    /// Records the confirmation message for `username` and reports it delivered.
    pub fn send_token(&mut self, domain: &str, username: &str, token: i64) -> (delivered: bool)
        ensures
            delivered,
            final(self).outbox@.len() == old(self).outbox@.len() + 1,
            final(self).outbox@.subrange(0, old(self).outbox@.len() as int) == old(
                self,
            ).outbox@,
            final(self).outbox@.last().to@ == username@ + ADDRESS_SUFFIX@,
            final(self).outbox@.last().from@ == MOCK_SENDER@,
            final(self).outbox@.last().subject@ == SUBJECT@,
            final(self).outbox@.last().text@ == message_text_of(domain@, username@, token),
    {
        let email = compose_email(MOCK_SENDER, domain, username, token);
        self.outbox.push(email);
        assert(self.outbox@.subrange(0, old(self).outbox@.len() as int) =~= old(self).outbox@);
        true
    }
}

} // verus!
