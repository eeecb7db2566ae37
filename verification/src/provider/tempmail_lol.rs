//! TempMail.lol: one request makes the inbox, one request fetches its
//! messages.

use vstd::prelude::*;
use vstd::std_specs::convert::FromSpecImpl;
use crate::domain::Domain;
use crate::email::{Message, MessageView};
use crate::error::{
    InboxCreationError, InboxCreationErrorView, MessageFetcherError, MessageFetcherErrorView,
};
use crate::exchange::{
    is_success, member, status_is_success, ActionView, Action, Awaited, ClientOptions, Event,
    EventView, JsonValueView, Payload, PayloadView, Read, Request, RequestView, Shape,
};
use crate::provider::{
    Creation as AnyCreation, CreationStep, CreationStepView, CreationView as AnyCreationView,
    Fetch as AnyFetch, FetchStep, FetchStepView, FetchView as AnyFetchView, Fetcher, FetcherView,
    MessageFetcher, ProviderType,
};

verus! {

/// What TempMail.lol answers when it has made an inbox.
#[derive(Debug)]
pub struct InboxResponse {
    pub address: String,
    pub token: String,
}

pub struct InboxResponseView {
    pub address: Seq<char>,
    pub token: Seq<char>,
}

impl View for InboxResponse {
    type V = InboxResponseView;

    open spec fn view(&self) -> InboxResponseView {
        InboxResponseView { address: self.address@, token: self.token@ }
    }
}

impl DeepView for InboxResponse {
    type V = InboxResponseView;

    open spec fn deep_view(&self) -> InboxResponseView {
        self@
    }
}

/// A message as TempMail.lol hands it out.
#[derive(Debug)]
pub struct Email {
    pub from: String,
    pub subject: String,
    pub body: String,
}

pub struct EmailView {
    pub from: Seq<char>,
    pub subject: Seq<char>,
    pub body: Seq<char>,
}

impl View for Email {
    type V = EmailView;

    open spec fn view(&self) -> EmailView {
        EmailView { from: self.from@, subject: self.subject@, body: self.body@ }
    }
}

impl DeepView for Email {
    type V = EmailView;

    open spec fn deep_view(&self) -> EmailView {
        self@
    }
}

impl EmailView {
    /// The message in the form that every provider's messages are brought to.
    pub open spec fn message(self) -> MessageView {
        MessageView { from: self.from, subject: self.subject, body: self.body }
    }
}

impl From<Email> for Message {
    fn from(email: Email) -> (message: Message)
        ensures
            message@ == email@.message(),
    {
        Message { from: email.from, subject: email.subject, body: email.body }
    }
}

impl FromSpecImpl<Email> for Message {
    open spec fn obeys_from_spec() -> bool {
        true
    }

    open spec fn from_spec(email: Email) -> Message {
        Message { from: email.from, subject: email.subject, body: email.body }
    }
}

/// The messages of a list, in the order of the list.
pub open spec fn messages_of(emails: Seq<EmailView>) -> Seq<MessageView> {
    emails.map_values(|email: EmailView| email.message())
}

/// Brings the messages of a list to the common form, in the order of the list.
pub fn into_messages(emails: Vec<Email>) -> (messages: Vec<Message>)
    ensures
        messages.deep_view() == messages_of(emails.deep_view()),
{
    let ghost all = emails.deep_view();
    let mut messages: Vec<Message> = Vec::new();
    for email in iter: emails.into_iter()
        invariant
            iter.seq().len() == all.len(),
            forall|i: int| 0 <= i < all.len() ==> (#[trigger] iter.seq()[i])@ == all[i],
            messages.deep_view() == messages_of(all.take(iter.index() as int)),
    {
        let ghost before = messages.deep_view();
        let message = Message::from(email);
        messages.push(message);
        assert(messages.deep_view() =~= before.push(message@));
        assert(all.take(iter.index() + 1) =~= all.take(iter.index() as int).push(all[iter.index() as int]));
        assert(messages.deep_view() =~= messages_of(all.take(iter.index() + 1)));
    }
    assert(all.take(all.len() as int) =~= all);
    messages
}

/// The TempMail.lol provider.
#[derive(Debug)]
pub struct TempMailLolProvider {}

/// A session with TempMail.lol, known by its token.
#[derive(Debug)]
pub struct TempMailLolMessageFetcher {
    pub token: String,
}

/// The domains that TempMail.lol serves, besides custom ones.
pub open spec fn domains() -> Seq<Domain> {
    seq![
        Domain::TerribleCoffeeOrg,
        Domain::UnderseaGolfCom,
        Domain::JailBreakEverythingCom,
        Domain::Awesome47,
        Domain::ExpiredToasterOrg,
        Domain::UndeadBankCom,
    ]
}

/// The request that asks TempMail.lol for an inbox whose address begins with
/// `name`, on `domain` where one is given.
pub open spec fn create_request(name: Seq<char>, domain: Option<Seq<char>>) -> RequestView {
    let members = match domain {
        Some(domain) => seq![
            ("prefix"@, JsonValueView::Text(name)),
            ("domain"@, JsonValueView::Text(domain)),
        ],
        None => seq![("prefix"@, JsonValueView::Text(name))],
    };
    RequestView::post("https://api.tempmail.lol/v2/inbox/create"@).header(
        "ACCEPT"@,
        "application/json"@,
    ).json(members)
}

/// The request that asks TempMail.lol for the messages of a session.
pub open spec fn inbox_request(token: Seq<char>) -> RequestView {
    RequestView::get("https://api.tempmail.lol/v2/inbox"@).header(
        "ACCEPT"@,
        "application/json"@,
    ).query("token"@, token)
}

/// The first step of a creation: the client is set up, to keep cookies.
pub open spec fn creation_start(name: Seq<char>, domain: Option<Seq<char>>) -> CreationStepView {
    CreationStepView::Continue(
        AnyCreationView::TempMailLol(CreationView::Connecting(create_request(name, domain))),
        ActionView::Connect(ClientOptions { cookie_store: true, impersonate_firefox: false }),
    )
}

/// The first step of a fetch: the messages are asked for.
pub open spec fn fetch_start(token: Seq<char>) -> FetchStepView {
    FetchStepView::Continue(
        AnyFetchView::TempMailLol(Fetch::Requested),
        ActionView::Send(inbox_request(token), Read::Status),
    )
}

/// How far the creation of an inbox at TempMail.lol has come.
#[derive(Debug)]
pub enum Creation {
    /// The client is being set up; the request is sent after that.
    Connecting(Request),
    /// The request is sent; its status is awaited.
    Submitted,
    /// The provider refused; its reason is being read.
    Rejected,
    /// The provider agreed; the inbox it made is being read.
    Accepted,
}

pub enum CreationView {
    Connecting(RequestView),
    Submitted,
    Rejected,
    Accepted,
}

impl View for Creation {
    type V = CreationView;

    open spec fn view(&self) -> CreationView {
        match self {
            Creation::Connecting(request) => CreationView::Connecting(request@),
            Creation::Submitted => CreationView::Submitted,
            Creation::Rejected => CreationView::Rejected,
            Creation::Accepted => CreationView::Accepted,
        }
    }
}

impl CreationView {
    /// What the creation waits for.
    pub open spec fn awaited(self) -> Awaited {
        match self {
            CreationView::Connecting(_) => Awaited::Connected,
            CreationView::Submitted => Awaited::Status,
            CreationView::Rejected => Awaited::Text,
            CreationView::Accepted => Awaited::Json(Shape::TempMailLolInbox),
        }
    }

    /// How many events the creation can take in at most before it ends.
    pub open spec fn events_left(self) -> nat {
        match self {
            CreationView::Connecting(_) => 3,
            CreationView::Submitted => 2,
            CreationView::Rejected => 1,
            CreationView::Accepted => 1,
        }
    }

    /// Where the creation stands once `event` has come in.
    ///
    /// A failure of the HTTP layer ends the creation, except while a refusal
    /// is being read: there the refusal is reported without its reason.
    pub open spec fn next(self, event: EventView) -> CreationStepView {
        match (self, event) {
            (CreationView::Connecting(request), EventView::Connected) => CreationStepView::Continue(
                AnyCreationView::TempMailLol(CreationView::Submitted),
                ActionView::Send(request, Read::Status),
            ),
            (CreationView::Submitted, EventView::Status(status)) => if is_success(status) {
                CreationStepView::Continue(
                    AnyCreationView::TempMailLol(CreationView::Accepted),
                    ActionView::ReadJson(Shape::TempMailLolInbox),
                )
            } else {
                CreationStepView::Continue(
                    AnyCreationView::TempMailLol(CreationView::Rejected),
                    ActionView::ReadText,
                )
            },
            (CreationView::Rejected, EventView::Text(reason)) => CreationStepView::failed(
                InboxCreationErrorView::CreationError(reason),
            ),
            (CreationView::Rejected, EventView::Failed(_)) => CreationStepView::failed(
                InboxCreationErrorView::CreationError(Seq::empty()),
            ),
            (CreationView::Accepted, EventView::Json(PayloadView::TempMailLolInbox(inbox))) => {
                CreationStepView::addressed(
                    inbox.address,
                    FetcherView::TempMailLol { token: inbox.token },
                )
            },
            (_, EventView::Failed(cause)) => CreationStepView::failed(
                InboxCreationErrorView::RquestError(cause),
            ),
            _ => arbitrary(),
        }
    }
}

impl Creation {
    /// What the creation waits for.
    pub fn awaited(&self) -> (awaited: Awaited)
        ensures
            awaited == self@.awaited(),
    {
        match self {
            Creation::Connecting(_) => Awaited::Connected,
            Creation::Submitted => Awaited::Status,
            Creation::Rejected => Awaited::Text,
            Creation::Accepted => Awaited::Json(Shape::TempMailLolInbox),
        }
    }

    /// Takes in what came of the action last asked for, and says how the
    /// creation goes on.
    pub fn advance(self, event: Event) -> (step: CreationStep)
        requires
            event@.answers(self@.awaited()),
        ensures
            step@ == self@.next(event@),
    {
        match self {
            Creation::Connecting(request) => match event {
                Event::Connected => CreationStep::Continue(
                    AnyCreation::TempMailLol(Creation::Submitted),
                    Action::Send(request, Read::Status),
                ),
                Event::Failed(cause) => CreationStep::Done(Err(InboxCreationError::RquestError(cause))),
                _ => unreached(),
            },
            Creation::Submitted => match event {
                Event::Status(status) => if status_is_success(status) {
                    CreationStep::Continue(
                        AnyCreation::TempMailLol(Creation::Accepted),
                        Action::ReadJson(Shape::TempMailLolInbox),
                    )
                } else {
                    CreationStep::Continue(AnyCreation::TempMailLol(Creation::Rejected), Action::ReadText)
                },
                Event::Failed(cause) => CreationStep::Done(Err(InboxCreationError::RquestError(cause))),
                _ => unreached(),
            },
            Creation::Rejected => match event {
                Event::Text(reason) => CreationStep::Done(Err(InboxCreationError::CreationError(reason))),
                Event::Failed(_) => CreationStep::Done(
                    Err(InboxCreationError::CreationError(String::new())),
                ),
                _ => unreached(),
            },
            Creation::Accepted => match event {
                Event::Json(Payload::TempMailLolInbox(inbox)) => CreationStep::addressed(
                    inbox.address.as_str(),
                    Fetcher::TempMailLol(TempMailLolMessageFetcher { token: inbox.token }),
                ),
                Event::Failed(cause) => CreationStep::Done(Err(InboxCreationError::RquestError(cause))),
                _ => unreached(),
            },
        }
    }
}

/// How far the fetching of messages from TempMail.lol has come.
#[derive(Debug, Clone, Copy, PartialEq, Eq, Structural)]
pub enum Fetch {
    /// The messages are asked for; the status is awaited.
    Requested,
    /// The provider agreed; the messages are being read.
    Reading,
}

impl Fetch {
    /// What the fetch waits for.
    pub open spec fn spec_awaited(self) -> Awaited {
        match self {
            Fetch::Requested => Awaited::Status,
            Fetch::Reading => Awaited::Json(Shape::TempMailLolEmails),
        }
    }

    /// Where the fetch stands once `event` has come in.
    pub open spec fn next(self, event: EventView) -> FetchStepView {
        match (self, event) {
            (Fetch::Requested, EventView::Status(status)) => if is_success(status) {
                FetchStepView::Continue(
                    AnyFetchView::TempMailLol(Fetch::Reading),
                    ActionView::ReadJson(Shape::TempMailLolEmails),
                )
            } else {
                FetchStepView::failed(MessageFetcherErrorView::InvalidResponseStatus(status))
            },
            (Fetch::Reading, EventView::Json(PayloadView::TempMailLolEmails(emails))) => {
                FetchStepView::Done(Ok(messages_of(emails)))
            },
            (_, EventView::Failed(cause)) => FetchStepView::failed(
                MessageFetcherErrorView::RquestError(cause),
            ),
            _ => arbitrary(),
        }
    }

    /// What the fetch waits for.
    #[verifier::when_used_as_spec(spec_awaited)]
    pub fn awaited(self) -> (awaited: Awaited)
        ensures
            awaited == self.spec_awaited(),
    {
        match self {
            Fetch::Requested => Awaited::Status,
            Fetch::Reading => Awaited::Json(Shape::TempMailLolEmails),
        }
    }

    /// Takes in what came of the action last asked for, and says how the
    /// fetch goes on.
    pub fn advance(self, event: Event) -> (step: FetchStep)
        requires
            event@.answers(self.awaited()),
        ensures
            step@ == self.next(event@),
    {
        match self {
            Fetch::Requested => match event {
                Event::Status(status) => if status_is_success(status) {
                    FetchStep::Continue(
                        AnyFetch::TempMailLol(Fetch::Reading),
                        Action::ReadJson(Shape::TempMailLolEmails),
                    )
                } else {
                    FetchStep::Done(Err(MessageFetcherError::InvalidResponseStatus(status)))
                },
                Event::Failed(cause) => FetchStep::Done(Err(MessageFetcherError::RquestError(cause))),
                _ => unreached(),
            },
            Fetch::Reading => match event {
                Event::Json(Payload::TempMailLolEmails(emails)) => FetchStep::Done(
                    Ok(into_messages(emails)),
                ),
                Event::Failed(cause) => FetchStep::Done(Err(MessageFetcherError::RquestError(cause))),
                _ => unreached(),
            },
        }
    }
}

impl TempMailLolProvider {
    pub fn new() -> (provider: Self) {
        TempMailLolProvider {}
    }

    pub fn get_provider_type(&self) -> (provider_type: ProviderType)
        ensures
            provider_type == ProviderType::TempMailLol,
    {
        ProviderType::TempMailLol
    }

    /// Returns the domains that the provider serves, besides custom ones.
    pub fn get_domains(&self) -> (served: Vec<Domain>)
        ensures
            served@ == domains(),
    {
        let served = vec![
            Domain::TerribleCoffeeOrg,
            Domain::UnderseaGolfCom,
            Domain::JailBreakEverythingCom,
            Domain::Awesome47,
            Domain::ExpiredToasterOrg,
            Domain::UndeadBankCom,
        ];
        assert(served@ =~= domains());
        served
    }

    /// The provider never picks a domain by itself: where none is asked for,
    /// its server assigns one.
    pub fn get_random_domain(&self) -> (picked: Result<Domain, InboxCreationError>)
        ensures
            picked is Err,
            picked->Err_0@ == InboxCreationErrorView::DomainNotSupported,
    {
        Err(InboxCreationError::DomainNotSupported)
    }

    /// The provider takes any custom domain.
    pub fn support_custom_domains(&self) -> (supported: bool)
        ensures
            supported,
    {
        true
    }

    /// Begins to create the inbox of `name` on `domain`.
    pub fn new_inbox(&self, name: &str, domain: Domain) -> (step: CreationStep)
        ensures
            step@ == creation_start(name@, Some(domain.name())),
    {
        let domain = domain.to_string();
        let members = vec![member("prefix", name), member("domain", domain.as_str())];
        assert(members.deep_view() =~= seq![
            ("prefix"@, JsonValueView::Text(name@)),
            ("domain"@, JsonValueView::Text(domain@)),
        ]);
        let request = Request::post("https://api.tempmail.lol/v2/inbox/create").header(
            "ACCEPT",
            "application/json",
        ).json(members);
        CreationStep::Continue(
            AnyCreation::TempMailLol(Creation::Connecting(request)),
            Action::Connect(ClientOptions { cookie_store: true, impersonate_firefox: false }),
        )
    }

    /// Begins to create an inbox whose address begins with `name`, on a
    /// domain that the provider's server assigns.
    pub fn new_random_inbox_from_name(&self, name: &str) -> (step: CreationStep)
        ensures
            step@ == creation_start(name@, None),
    {
        let members = vec![member("prefix", name)];
        assert(members.deep_view() =~= seq![("prefix"@, JsonValueView::Text(name@))]);
        let request = Request::post("https://api.tempmail.lol/v2/inbox/create").header(
            "ACCEPT",
            "application/json",
        ).json(members);
        CreationStep::Continue(
            AnyCreation::TempMailLol(Creation::Connecting(request)),
            Action::Connect(ClientOptions { cookie_store: true, impersonate_firefox: false }),
        )
    }
}

impl MessageFetcher for TempMailLolMessageFetcher {
    open spec fn fetch_start(&self) -> FetchStepView {
        fetch_start(self.token@)
    }

    fn fetch_messages(&self) -> (step: FetchStep) {
        let request = Request::get("https://api.tempmail.lol/v2/inbox").header(
            "ACCEPT",
            "application/json",
        ).query("token", self.token.as_str());
        FetchStep::Continue(
            AnyFetch::TempMailLol(Fetch::Requested),
            Action::Send(request, Read::Status),
        )
    }
}

/// An inbox that TempMail.lol agrees to make has the address that the
/// provider reports, and a session under the token that it reports.
pub proof fn lemma_creation_ends_with_the_reported_inbox(
    name: Seq<char>,
    domain: Option<Seq<char>>,
    status: u16,
    inbox: InboxResponseView,
)
    requires
        is_success(status),
    ensures
        creation_start(name, domain).after(
            seq![
                EventView::Connected,
                EventView::Status(status),
                EventView::Json(PayloadView::TempMailLolInbox(inbox)),
            ],
        ) == CreationStepView::addressed(
            inbox.address,
            FetcherView::TempMailLol { token: inbox.token },
        ),
{
    let events = seq![
        EventView::Connected,
        EventView::Status(status),
        EventView::Json(PayloadView::TempMailLolInbox(inbox)),
    ];
    reveal_with_fuel(CreationStepView::after, 4);
    assert(events.drop_first().first() == EventView::Status(status));
    assert(events.drop_first().drop_first().first() == EventView::Json(
        PayloadView::TempMailLolInbox(inbox),
    ));
    assert(events.drop_first().drop_first().drop_first().len() == 0);
}

/// A fetch that TempMail.lol agrees to ends with the messages that the
/// provider hands out: as many, in the same order, each with its sender, its
/// subject and its body.
pub proof fn lemma_fetch_ends_with_the_messages_handed_out(
    token: Seq<char>,
    status: u16,
    emails: Seq<EmailView>,
)
    requires
        is_success(status),
    ensures
        fetch_start(token).after(
            seq![EventView::Status(status), EventView::Json(PayloadView::TempMailLolEmails(emails))],
        ) == FetchStepView::Done(Ok(messages_of(emails))),
        messages_of(emails).len() == emails.len(),
        forall|i: int|
            0 <= i < emails.len() ==> #[trigger] messages_of(emails)[i] == (MessageView {
                from: emails[i].from,
                subject: emails[i].subject,
                body: emails[i].body,
            }),
{
    let events = seq![
        EventView::Status(status),
        EventView::Json(PayloadView::TempMailLolEmails(emails)),
    ];
    reveal_with_fuel(FetchStepView::after, 3);
    assert(events.drop_first().first() == EventView::Json(PayloadView::TempMailLolEmails(emails)));
    assert(events.drop_first().drop_first().len() == 0);
}

} // verus!
