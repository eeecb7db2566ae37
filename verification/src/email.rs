//! Email addresses and messages.

use vstd::prelude::*;
use vstd::std_specs::cmp::PartialEqSpecImpl;
use crate::domain::{Domain, DomainView};
use crate::error::{EmailAddressError, EmailAddressErrorView};
use crate::text::{
    first_occurrence, lemma_first_occurrence, lemma_first_occurrence_is, occurs, occurs_at,
    split_at_first, split_first,
};

verus! {

/// An email message: sender, subject and body.
/// The body can be plain text or HTML.
#[derive(Debug, Hash)]
pub struct Message {
    /// The sender of the message.
    pub from: String,
    /// The subject of the message.
    pub subject: String,
    /// The content of the message, plain text or HTML.
    pub body: String,
}

pub struct MessageView {
    pub from: Seq<char>,
    pub subject: Seq<char>,
    pub body: Seq<char>,
}

impl View for Message {
    type V = MessageView;

    open spec fn view(&self) -> MessageView {
        MessageView { from: self.from@, subject: self.subject@, body: self.body@ }
    }
}

impl DeepView for Message {
    type V = MessageView;

    open spec fn deep_view(&self) -> MessageView {
        self@
    }
}

impl Clone for Message {
    fn clone(&self) -> (copy: Self)
        ensures
            copy@ == self@,
    {
        Message { from: self.from.clone(), subject: self.subject.clone(), body: self.body.clone() }
    }
}

impl PartialEq for Message {
    fn eq(&self, other: &Self) -> (equal: bool)
    {
        self.from == other.from && self.subject == other.subject && self.body == other.body
    }
}

impl Eq for Message {}

impl PartialEqSpecImpl for Message {
    open spec fn obeys_eq_spec() -> bool {
        true
    }

    open spec fn eq_spec(&self, other: &Self) -> bool {
        self@ == other@
    }
}

/// An email address: the name before the `@` and the domain after it.
#[derive(Debug, Hash)]
pub struct EmailAddress {
    pub name: String,
    pub domain: Domain,
}

pub struct EmailAddressView {
    pub name: Seq<char>,
    pub domain: DomainView,
}

impl EmailAddressView {
    /// The address as text: the name, an `@`, the domain.
    pub open spec fn text(self) -> Seq<char> {
        self.name + seq!['@'] + self.domain.name
    }
}

impl View for EmailAddress {
    type V = EmailAddressView;

    open spec fn view(&self) -> EmailAddressView {
        EmailAddressView { name: self.name@, domain: self.domain@ }
    }
}

impl EmailAddress {
    /// The address that `text` denotes: what stands before its first `@` is
    /// the name, what stands after it the domain. Text without `@` denotes
    /// no address.
    pub open spec fn parse(text: Seq<char>) -> Option<EmailAddressView> {
        match split_first(text, seq!['@']) {
            Some((name, domain)) => Some(EmailAddressView { name, domain: Domain::parse(domain) }),
            None => None,
        }
    }

    /// A text that can be read as an address is the text of that address.
    pub proof fn lemma_text_of_parsed(text: Seq<char>)
        ensures
            match Self::parse(text) {
                Some(address) => address.text() == text && text.contains('@'),
                None => !text.contains('@'),
            },
    {
        if text.contains('@') {
            let i = choose|i: int| 0 <= i < text.len() && text[i] == '@';
            assert(text.subrange(i, i + 1) =~= seq!['@']);
            assert(occurs_at(text, seq!['@'], i));
        }
        if occurs(text, seq!['@']) {
            let at = first_occurrence(text, seq!['@']);
            lemma_first_occurrence(text, seq!['@']);
            assert(text.subrange(at, at + 1) == seq!['@']);
            assert(text[at] == text.subrange(at, at + 1)[0]);
            assert(text =~= text.take(at) + seq!['@'] + text.skip(at + 1));
        }
    }

    /// The text of an address is read as that address, provided that its name
    /// holds no `@` and that its domain is what the domain's name is read as.
    pub proof fn lemma_parse_of_text(address: EmailAddressView)
        requires
            !address.name.contains('@'),
            address.domain == Domain::parse(address.domain.name),
        ensures
            Self::parse(address.text()) == Some(address),
    {
        let text = address.text();
        let at = address.name.len() as int;
        assert(text.subrange(at, at + 1) =~= seq!['@']);
        assert forall|earlier: int| 0 <= earlier < at implies !occurs_at(
            text,
            seq!['@'],
            earlier,
        ) by {
            if occurs_at(text, seq!['@'], earlier) {
                assert(text.subrange(earlier, earlier + 1)[0] == '@');
                assert(address.name[earlier] == '@');
            }
        }
        lemma_first_occurrence_is(text, seq!['@'], at);
        assert(text.take(at) =~= address.name);
        assert(text.skip(at + 1) =~= address.domain.name);
    }

    /// Makes the address of `name` at `domain`.
    pub fn new(name: &str, domain: Domain) -> (address: Self)
        ensures
            address@ == (EmailAddressView { name: name@, domain: domain@ }),
            address.domain == domain,
    {
        EmailAddress { name: name.to_owned(), domain }
    }

    /// Returns the address as text.
    pub fn to_string(&self) -> (text: String)
        ensures
            text@ == self@.text(),
    {
        let domain = self.domain.to_string();
        proof {
            reveal_strlit("@");
            assert("@"@ =~= seq!['@']);
        }
        self.name.clone().concat("@").concat(domain.as_str())
    }
}

impl std::str::FromStr for EmailAddress {
    type Err = EmailAddressError;

    /// Reads an address from text. Fails on text without `@`, which the
    /// error carries.
    fn from_str(text: &str) -> (parsed: Result<Self, Self::Err>)
        ensures
            match parsed {
                Ok(address) => Self::parse(text@) == Some(address@),
                Err(error) => Self::parse(text@) is None
                    && error@ == EmailAddressErrorView::InvalidEmailAddress(text@),
            },
    {
        proof {
            reveal_strlit("@");
            assert("@"@ =~= seq!['@']);
        }
        match split_at_first(text, "@") {
            Some((name, domain)) => Ok(EmailAddress { name: name.to_owned(), domain: Domain::from(domain) }),
            None => Err(EmailAddressError::InvalidEmailAddress(text.to_owned())),
        }
    }
}

impl Clone for EmailAddress {
    fn clone(&self) -> (copy: Self)
        ensures
            copy@ == self@,
    {
        EmailAddress { name: self.name.clone(), domain: self.domain.clone() }
    }
}

impl PartialEq for EmailAddress {
    fn eq(&self, other: &Self) -> (equal: bool)
    {
        self.name == other.name && self.domain == other.domain
    }
}

impl Eq for EmailAddress {}

impl PartialEqSpecImpl for EmailAddress {
    open spec fn obeys_eq_spec() -> bool {
        true
    }

    open spec fn eq_spec(&self, other: &Self) -> bool {
        self@ == other@
    }
}

} // verus!
