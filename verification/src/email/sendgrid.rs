use vstd::prelude::*;
use vstd::string::*;

use crate::email::{opt_text, Contact, ContactView, Email, EmailView, MailProvider};

verus! {

/// The recipient pairs of a mail: each address with its display name, or
/// the empty text where it has none, in order.
pub open spec fn destinations(recipients: Seq<ContactView>) -> Seq<(Seq<char>, Seq<char>)> {
    recipients.map_values(
        |c: ContactView|
            (
                c.0,
                match c.1 {
                    Some(n) => n,
                    None => Seq::empty(),
                },
            ),
    )
}

pub open spec fn pairs_view(pairs: Seq<(String, String)>) -> Seq<(Seq<char>, Seq<char>)> {
    pairs.map_values(|p: (String, String)| (p.0@, p.1@))
}

fn clone_text(s: &String) -> (r: String)
    ensures
        r@ == s@,
{
    String::from_str(s.as_str())
}

fn clone_opt_text(s: &Option<String>) -> (r: Option<String>)
    ensures
        opt_text(r) == opt_text(*s),
{
    match s {
        Some(t) => Some(clone_text(t)),
        None => None,
    }
}

fn destination_pairs(recipients: &Vec<Contact>) -> (pairs: Vec<(String, String)>)
    ensures
        pairs_view(pairs@) == destinations(recipients@.map_values(|c: Contact| c@)),
{
    proof {
        reveal_strlit("");
    }
    let ghost contacts = recipients@.map_values(|c: Contact| c@);
    let mut pairs: Vec<(String, String)> = Vec::new();
    for i in 0..recipients.len()
        invariant
            contacts == recipients@.map_values(|c: Contact| c@),
            pairs_view(pairs@) == destinations(contacts).take(i as int),
    {
        proof {
            reveal_strlit("");
        }
        let contact = &recipients[i];
        let name = match contact.name() {
            Some(n) => clone_text(n),
            None => String::from_str(""),
        };
        assert(contacts[i as int] == contact@);
        assert(name@ == (match contact@.1 {
            Some(n) => n,
            None => Seq::<char>::empty(),
        }));
        let address = String::from_str(contact.email());
        let ghost before = pairs@;
        pairs.push((address, name));
        proof {
            let d = destinations(contacts);
            assert(d.len() == contacts.len());
            assert(d[i as int] == (address@, name@));
            assert(pairs@ == before.push((address, name)));
            assert(pairs_view(pairs@) =~= pairs_view(before).push((address@, name@)));
            assert(pairs_view(pairs@) =~= d.take(i + 1));
        }
    }
    assert(destinations(contacts).take(recipients@.len() as int) =~= destinations(contacts));
    pairs
}

/// What the SendGrid mail API is sent for a mail.
pub struct SendgridMail {
    pub api_key: String,
    pub from: String,
    pub from_name: Option<String>,
    pub subject: String,
    /// Each recipient's address and display name (empty where it has none).
    pub to: Vec<(String, String)>,
    pub html: Option<String>,
}

/// Delivers mails through the SendGrid mail API.
pub struct SendgridMailProvider {
    api_key: String,
}

impl MailProvider for SendgridMailProvider {
    fn new(api_key: &str) -> (provider: Self)
        ensures
            provider.key() == api_key@,
    {
        SendgridMailProvider { api_key: String::from_str(api_key) }
    }
}

impl SendgridMailProvider {
    pub closed spec fn key(&self) -> Seq<char> {
        self.api_key@
    }

    /// The request for a mail: its sender, the sender's name where it has one,
    /// its subject, every recipient with a name (empty where it has none) and
    /// its HTML body where it has one.
    pub fn prepare(&self, email: &Email) -> (mail: SendgridMail)
        ensures
            mail.api_key@ == self.key(),
            mail.from@ == email@.sender.0,
            opt_text(mail.from_name) == email@.sender.1,
            mail.subject@ == email@.subject,
            pairs_view(mail.to@) == destinations(email@.recipients),
            opt_text(mail.html) == email@.html,
    {
        SendgridMail {
            api_key: clone_text(&self.api_key),
            from: String::from_str(email.sender().email()),
            from_name: clone_opt_text(email.sender().name()),
            subject: String::from_str(email.subject()),
            to: destination_pairs(email.recipients()),
            html: clone_opt_text(email.html()),
        }
    }
}

/// What the SendGrid v3 mail API is sent for a mail: one personalization
/// whose first recipient is `to[0]`.
pub struct SendgridV3Message {
    pub api_key: String,
    pub from: String,
    pub from_name: String,
    pub subject: String,
    /// Each recipient's address and display name (empty where it has none).
    pub to: Vec<(String, String)>,
    pub html: String,
}

/// Delivers mails through the SendGrid v3 mail API.
pub struct SendgridV3MailProvider {
    api_key: String,
}

impl MailProvider for SendgridV3MailProvider {
    fn new(api_key: &str) -> (provider: Self)
        ensures
            provider.key() == api_key@,
    {
        SendgridV3MailProvider { api_key: String::from_str(api_key) }
    }
}

impl SendgridV3MailProvider {
    pub closed spec fn key(&self) -> Seq<char> {
        self.api_key@
    }

    /// Whether the v3 API can be given the mail: it needs a recipient, a
    /// sender's name and an HTML body.
    pub open spec fn sendable(email: EmailView) -> bool {
        &&& email.recipients.len() > 0
        &&& email.sender.1 is Some
        &&& email.html is Some
    }

    /// A mail can be given to the v3 API exactly when it has at least one
    /// recipient, a sender's name and an HTML body; adding a recipient to a
    /// mail with a sender's name and a body makes it sendable.
    pub proof fn lemma_sendable_mails(email: EmailView, recipient: ContactView)
        ensures
            Self::sendable(email) <==> (email.recipients.len() >= 1 && email.sender.1 is Some
                && email.html is Some),
            email.sender.1 is Some && email.html is Some ==> Self::sendable(
                EmailView { recipients: email.recipients.push(recipient), ..email },
            ),
    {
    }

    /// Whether the v3 API can be given the mail.
    pub fn is_sendable(email: &Email) -> (sendable: bool)
        ensures
            sendable == Self::sendable(email@),
    {
        email.recipients().len() > 0 && email.sender().name().is_some() && email.html().is_some()
    }

    /// The v3 message for a mail.
    pub fn prepare(&self, email: &Email) -> (message: SendgridV3Message)
        requires
            Self::sendable(email@),
        ensures
            message.api_key@ == self.key(),
            message.from@ == email@.sender.0,
            Some(message.from_name@) == email@.sender.1,
            message.subject@ == email@.subject,
            pairs_view(message.to@) == destinations(email@.recipients),
            message.to@.len() > 0,
            Some(message.html@) == email@.html,
    {
        let from_name = match email.sender().name() {
            Some(n) => clone_text(n),
            None => {
                assert(false);
                String::new()
            },
        };
        let html = match email.html() {
            Some(h) => clone_text(h),
            None => {
                assert(false);
                String::new()
            },
        };
        let to = destination_pairs(email.recipients());
        assert(pairs_view(to@).len() == to@.len());
        assert(destinations(email@.recipients).len() == email@.recipients.len());
        SendgridV3Message {
            api_key: clone_text(&self.api_key),
            from: String::from_str(email.sender().email()),
            from_name,
            subject: String::from_str(email.subject()),
            to,
            html,
        }
    }
}

} // verus!
