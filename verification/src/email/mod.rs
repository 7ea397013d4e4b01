use vstd::prelude::*;
use vstd::string::*;

pub mod sendgrid;

verus! {

/// A mail address with an optional display name.
#[derive(Debug, Clone)]
pub struct Contact {
    email: String,
    name: Option<String>,
}

/// A contact as plain text: its address and its display name, if any.
pub type ContactView = (Seq<char>, Option<Seq<char>>);

pub open spec fn opt_text(s: Option<String>) -> Option<Seq<char>> {
    match s {
        Some(t) => Some(t@),
        None => None,
    }
}

impl View for Contact {
    type V = ContactView;

    closed spec fn view(&self) -> ContactView {
        (self.email@, opt_text(self.name))
    }
}

impl Contact {
    /// A contact with an address and a display name.
    pub fn new(email: &str, name: &str) -> (contact: Self)
        ensures
            contact@ == (email@, Some(name@)),
    {
        Contact { email: String::from_str(email), name: Some(String::from_str(name)) }
    }

    /// A contact with an address and no display name.
    pub fn from_email(email: &str) -> (contact: Self)
        ensures
            contact@ == (email@, None::<Seq<char>>),
    {
        Contact { email: String::from_str(email), name: None }
    }

    pub(crate) fn email(&self) -> (email: &str)
        ensures
            email@ == self@.0,
    {
        self.email.as_str()
    }

    pub(crate) fn name(&self) -> (name: &Option<String>)
        ensures
            opt_text(*name) == self@.1,
    {
        &self.name
    }
}

/// A mail as plain text.
pub struct EmailView {
    pub sender: ContactView,
    pub recipients: Seq<ContactView>,
    pub subject: Seq<char>,
    pub html: Option<Seq<char>>,
}

/// A mail: its sender, its recipients in the order they were added, its
/// subject and an optional HTML body.
#[derive(Debug, Clone)]
pub struct Email {
    sender: Contact,
    recipients: Vec<Contact>,
    subject: String,
    html: Option<String>,
}

impl View for Email {
    type V = EmailView;

    closed spec fn view(&self) -> EmailView {
        EmailView {
            sender: self.sender@,
            recipients: self.recipients@.map_values(|c: Contact| c@),
            subject: self.subject@,
            html: opt_text(self.html),
        }
    }
}

impl Email {
    pub(crate) fn sender(&self) -> (sender: &Contact)
        ensures
            sender@ == self@.sender,
    {
        &self.sender
    }

    pub(crate) fn recipients(&self) -> (recipients: &Vec<Contact>)
        ensures
            recipients@.map_values(|c: Contact| c@) == self@.recipients,
    {
        &self.recipients
    }

    pub(crate) fn subject(&self) -> (subject: &str)
        ensures
            subject@ == self@.subject,
    {
        self.subject.as_str()
    }

    pub(crate) fn html(&self) -> (html: &Option<String>)
        ensures
            opt_text(*html) == self@.html,
    {
        &self.html
    }

    /// A mail from the sender with no recipients, an empty subject and no body.
    pub fn new(sender: Contact) -> (email: Self)
        ensures
            email@ == (EmailView {
                sender: sender@,
                recipients: Seq::empty(),
                subject: Seq::empty(),
                html: None,
            }),
    {
        proof {
            reveal_strlit("");
        }
        let email = Email {
            sender,
            recipients: Vec::new(),
            subject: String::from_str(""),
            html: None,
        };
        assert(email@.recipients =~= Seq::<ContactView>::empty());
        assert(email@.subject =~= Seq::<char>::empty());
        email
    }

    /// The same mail with one more recipient, after the others.
    pub fn add_recipient(self, recipient: Contact) -> (email: Self)
        ensures
            email@ == (EmailView { recipients: self@.recipients.push(recipient@), ..self@ }),
    {
        let ghost old_view = self@;
        let mut email = self;
        email.recipients.push(recipient);
        assert(email@.recipients =~= old_view.recipients.push(recipient@));
        email
    }

    /// The same mail with the subject replaced.
    pub fn set_subject(self, subject: &str) -> (email: Self)
        ensures
            email@ == (EmailView { subject: subject@, ..self@ }),
    {
        let ghost old_view = self@;
        let mut email = self;
        email.subject = String::from_str(subject);
        assert(email@.recipients =~= old_view.recipients);
        email
    }

    /// The same mail with the HTML body replaced.
    pub fn set_html(self, html: &str) -> (email: Self)
        ensures
            email@ == (EmailView { html: Some(html@), ..self@ }),
    {
        let ghost old_view = self@;
        let mut email = self;
        email.html = Some(String::from_str(html));
        assert(email@.recipients =~= old_view.recipients);
        email
    }
}

/// A service that delivers mails, created from the key of its API.
pub trait MailProvider: Sized {
    fn new(api_key: &str) -> Self;
}

} // verus!
