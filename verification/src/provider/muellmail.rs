//! Muellmail.com: an anonymous login for the address asked for, and
//! messages fetched by one query.

use vstd::prelude::*;
use vstd::std_specs::convert::FromSpecImpl;
use crate::domain::Domain;
use crate::email::{EmailAddress, EmailAddressView, Message, MessageView};
use crate::error::{
    InboxCreationError, InboxCreationErrorView, MessageFetcherError, MessageFetcherErrorView,
};
use crate::exchange::{
    field, member, Action, ActionView, Awaited, ClientOptions, Event, EventView, JsonValue,
    JsonValueView, Payload, PayloadView, Read, Request, RequestView, Shape,
};
use crate::provider::{
    Creation as AnyCreation, CreationStep, CreationStepView, CreationView as AnyCreationView,
    Fetch as AnyFetch, FetchStep, FetchStepView, FetchView as AnyFetchView, Fetcher, FetcherView,
    Inbox, InboxView, MessageFetcher, ProviderType,
};
use crate::text::{join, same_text};

verus! {

/// The anti-forgery token of Muellmail.
#[derive(Debug)]
pub struct CsrfResponse {
    pub csrf_token: String,
}

pub struct CsrfResponseView {
    pub csrf_token: Seq<char>,
}

impl View for CsrfResponse {
    type V = CsrfResponseView;

    open spec fn view(&self) -> CsrfResponseView {
        CsrfResponseView { csrf_token: self.csrf_token@ }
    }
}

impl DeepView for CsrfResponse {
    type V = CsrfResponseView;

    open spec fn deep_view(&self) -> CsrfResponseView {
        self@
    }
}

/// What Muellmail answers to an anonymous login: where to go next.
#[derive(Debug)]
pub struct AnonResponse {
    pub url: String,
}

pub struct AnonResponseView {
    pub url: Seq<char>,
}

impl View for AnonResponse {
    type V = AnonResponseView;

    open spec fn view(&self) -> AnonResponseView {
        AnonResponseView { url: self.url@ }
    }
}

impl DeepView for AnonResponse {
    type V = AnonResponseView;

    open spec fn deep_view(&self) -> AnonResponseView {
        self@
    }
}

/// A message as Muellmail hands it out.
#[derive(Debug)]
pub struct Email {
    pub subject: String,
    pub sender: String,
    pub html: Option<String>,
    pub text: Option<String>,
}

pub struct EmailView {
    pub subject: Seq<char>,
    pub sender: Seq<char>,
    pub html: Option<Seq<char>>,
    pub text: Option<Seq<char>>,
}

impl View for Email {
    type V = EmailView;

    open spec fn view(&self) -> EmailView {
        EmailView {
            subject: self.subject@,
            sender: self.sender@,
            html: self.html.deep_view(),
            text: self.text.deep_view(),
        }
    }
}

impl DeepView for Email {
    type V = EmailView;

    open spec fn deep_view(&self) -> EmailView {
        self@
    }
}

/// The Muellmail.com provider.
#[derive(Debug)]
pub struct MuellmailProvider {}

/// A session with Muellmail, kept by the cookies of its client.
#[derive(Debug)]
pub struct MuellmailMessageFetcher {}

/// Where Muellmail sends a visitor whose anonymous login went through.
pub const LANDING_PAGE: &'static str = "https://muellmail.com/en";

/// The GraphQL query that asks Muellmail for the messages of the session,
/// newest first.
pub const MAIL_QUERY: &'static str = r#"
                    query MailQuery {
                        emails(orderBy: {createdAt: desc}) {
                            id
                            subject
                            sender
                            senderName
                            read
                            createdAt
                            hasHtml
                            hasText
                            html
                            text
                            sizeInBytes
                            attachments {
                                id
                                emailId
                                fileName
                                headersHashed
                                contentType
                                sizeInBytes
                                createdAt
                                updatedAt
                                __typename
                            }
                            __typename
                        }
                    }
                "#;

/// The domains that Muellmail serves.
pub open spec fn domains() -> Seq<Domain> {
    seq![
        Domain::TenMinMailDe,
        Domain::TenMinutenMailXyz,
        Domain::ExistiertNet,
        Domain::FliegenderFish,
        Domain::JagaEmail,
        Domain::MdzEmail,
        Domain::MuellMailCom,
        Domain::MuelleMailCom,
        Domain::MuellMonster,
        Domain::MuellIcu,
        Domain::MuellIo,
        Domain::MuellXyz,
        Domain::MagSpamNet,
        Domain::FukaruCom,
        Domain::OidaIcu,
        Domain::PapierkorbMe,
        Domain::SpamCare,
        Domain::TonneTo,
        Domain::UltraFyi,
        Domain::WegwerfEmailDe,
        Domain::DsgvoParty,
        Domain::KnickerbockerbanDe,
        Domain::LambsauceDe,
        Domain::RamenMailDe,
        Domain::Ji5De,
        Domain::Ji6De,
        Domain::Ji7De,
        Domain::SudernDe,
        Domain::HihiLol,
        Domain::KeinDate,
        Domain::HolioDay,
        Domain::CornHolioDay,
        Domain::BungHolioDay,
        Domain::StacysMom,
    ]
}

impl EmailView {
    /// The message in the form that every provider's messages are brought to.
    /// Its body is the plain text where there is one, else the HTML, else empty.
    pub open spec fn message(self) -> MessageView {
        MessageView {
            from: self.sender,
            subject: self.subject,
            body: match (self.text, self.html) {
                (Some(text), _) => text,
                (None, Some(html)) => html,
                (None, None) => Seq::empty(),
            },
        }
    }
}

impl From<Email> for Message {
    fn from(email: Email) -> (message: Message)
        ensures
            message@ == email@.message(),
    {
        let body = match email.text {
            Some(text) => text,
            None => match email.html {
                Some(html) => html,
                None => String::new(),
            },
        };
        Message { from: email.sender, subject: email.subject, body }
    }
}

/// What `from` hands back is stated in its own contract, over views: the
/// empty body of a message without content cannot be written down as a value
/// here.
impl FromSpecImpl<Email> for Message {
    open spec fn obeys_from_spec() -> bool {
        false
    }

    open spec fn from_spec(email: Email) -> Message {
        arbitrary()
    }
}

/// The messages of a list, in the order of the list.
pub open spec fn messages_of(emails: Seq<EmailView>) -> Seq<MessageView> {
    emails.map_values(|email: EmailView| email.message())
}

/// Brings the messages of a list to the common form, in the order of the list.
pub fn into_messages(emails: Vec<Email>) -> (messages: Vec<Message>)
    ensures
        messages.deep_view() == messages_of(emails.deep_view()),
{
    let ghost all = emails.deep_view();
    let mut messages: Vec<Message> = Vec::new();
    for email in iter: emails.into_iter()
        invariant
            iter.seq().len() == all.len(),
            forall|i: int| 0 <= i < all.len() ==> (#[trigger] iter.seq()[i])@ == all[i],
            messages.deep_view() == messages_of(all.take(iter.index() as int)),
    {
        let ghost before = messages.deep_view();
        let message = Message::from(email);
        messages.push(message);
        assert(messages.deep_view() =~= before.push(message@));
        assert(all.take(iter.index() + 1) =~= all.take(iter.index() as int).push(all[iter.index() as int]));
        assert(messages.deep_view() =~= messages_of(all.take(iter.index() + 1)));
    }
    assert(all.take(all.len() as int) =~= all);
    messages
}

/// The request for the anti-forgery token.
pub open spec fn csrf_request() -> RequestView {
    RequestView::get("https://muellmail.com/api/auth/csrf"@)
}

/// The request that logs in anonymously for `address`, under the
/// anti-forgery token.
pub open spec fn login_request(address: Seq<char>, csrf_token: Seq<char>) -> RequestView {
    RequestView::post("https://muellmail.com/api/auth/callback/anon"@).form(
        seq![
            ("redirect"@, "false"@),
            ("muellmail"@, address),
            ("csrfToken"@, csrf_token),
            ("callbackUrl"@, LANDING_PAGE@),
            ("json"@, "true"@),
        ],
    )
}

/// The request that asks whether the session is alive.
pub open spec fn session_request() -> RequestView {
    RequestView::get("https://muellmail.com/api/auth/session"@)
}

/// The request that asks for the messages of the session.
pub open spec fn messages_request() -> RequestView {
    RequestView::post("https://muellmail.com/graphql"@).json(
        seq![
            ("operationName"@, JsonValueView::Text("MailQuery"@)),
            ("variables"@, JsonValueView::EmptyObject),
            ("query"@, JsonValueView::Text(MAIL_QUERY@)),
        ],
    )
}

/// The first step of a creation: the client is set up, to keep cookies and
/// to present itself as a browser.
pub open spec fn creation_start(name: Seq<char>, domain: crate::domain::DomainView) -> CreationStepView {
    CreationStepView::Continue(
        AnyCreationView::Muellmail(CreationView::Connecting(EmailAddressView { name, domain })),
        ActionView::Connect(ClientOptions { cookie_store: true, impersonate_firefox: true }),
    )
}

/// The first step of a fetch: the session is asked whether it is alive.
pub open spec fn fetch_start() -> FetchStepView {
    FetchStepView::Continue(
        AnyFetchView::Muellmail(Fetch::Session),
        ActionView::Send(session_request(), Read::Status),
    )
}

/// How far the creation of an inbox at Muellmail has come. Each stage holds
/// the address that the inbox is to have.
#[derive(Debug)]
pub enum Creation {
    /// The client is being set up.
    Connecting(EmailAddress),
    /// The anti-forgery token is asked for.
    Token(EmailAddress),
    /// The anonymous login is under way.
    Login(EmailAddress),
}

pub enum CreationView {
    Connecting(EmailAddressView),
    Token(EmailAddressView),
    Login(EmailAddressView),
}

impl View for Creation {
    type V = CreationView;

    open spec fn view(&self) -> CreationView {
        match self {
            Creation::Connecting(address) => CreationView::Connecting(address@),
            Creation::Token(address) => CreationView::Token(address@),
            Creation::Login(address) => CreationView::Login(address@),
        }
    }
}

impl CreationView {
    /// What the creation waits for.
    pub open spec fn awaited(self) -> Awaited {
        match self {
            CreationView::Connecting(_) => Awaited::Connected,
            CreationView::Token(_) => Awaited::Json(Shape::MuellmailCsrf),
            CreationView::Login(_) => Awaited::Json(Shape::MuellmailAnon),
        }
    }

    /// How many events the creation can take in at most before it ends.
    pub open spec fn events_left(self) -> nat {
        match self {
            CreationView::Connecting(_) => 3,
            CreationView::Token(_) => 2,
            CreationView::Login(_) => 1,
        }
    }

    /// Where the creation stands once `event` has come in.
    ///
    /// The login went through exactly when the provider sends the visitor on
    /// to its landing page; the inbox then has the address asked for.
    pub open spec fn next(self, event: EventView) -> CreationStepView {
        match (self, event) {
            (CreationView::Connecting(address), EventView::Connected) => CreationStepView::Continue(
                AnyCreationView::Muellmail(CreationView::Token(address)),
                ActionView::Send(csrf_request(), Read::Json(Shape::MuellmailCsrf)),
            ),
            (CreationView::Token(address), EventView::Json(PayloadView::MuellmailCsrf(csrf))) => {
                CreationStepView::Continue(
                    AnyCreationView::Muellmail(CreationView::Login(address)),
                    ActionView::Send(
                        login_request(address.text(), csrf.csrf_token),
                        Read::Json(Shape::MuellmailAnon),
                    ),
                )
            },
            (CreationView::Login(address), EventView::Json(PayloadView::MuellmailAnon(anon))) => {
                if anon.url == LANDING_PAGE@ {
                    CreationStepView::Done(
                        Ok(
                            InboxView {
                                message_fetcher: FetcherView::Muellmail,
                                email_address: address,
                            },
                        ),
                    )
                } else {
                    CreationStepView::failed(
                        InboxCreationErrorView::CreationError("Invalid response url "@ + anon.url),
                    )
                }
            },
            (_, EventView::Failed(cause)) => CreationStepView::failed(
                InboxCreationErrorView::RquestError(cause),
            ),
            _ => arbitrary(),
        }
    }
}

impl Creation {
    /// What the creation waits for.
    pub fn awaited(&self) -> (awaited: Awaited)
        ensures
            awaited == self@.awaited(),
    {
        match self {
            Creation::Connecting(_) => Awaited::Connected,
            Creation::Token(_) => Awaited::Json(Shape::MuellmailCsrf),
            Creation::Login(_) => Awaited::Json(Shape::MuellmailAnon),
        }
    }

    /// Takes in what came of the action last asked for, and says how the
    /// creation goes on.
    pub fn advance(self, event: Event) -> (step: CreationStep)
        requires
            event@.answers(self@.awaited()),
        ensures
            step@ == self@.next(event@),
    {
        match self {
            Creation::Connecting(address) => match event {
                Event::Connected => CreationStep::Continue(
                    AnyCreation::Muellmail(Creation::Token(address)),
                    Action::Send(
                        Request::get("https://muellmail.com/api/auth/csrf"),
                        Read::Json(Shape::MuellmailCsrf),
                    ),
                ),
                Event::Failed(cause) => CreationStep::Done(Err(InboxCreationError::RquestError(cause))),
                _ => unreached(),
            },
            Creation::Token(address) => match event {
                Event::Json(Payload::MuellmailCsrf(csrf)) => {
                    let text = address.to_string();
                    let fields = vec![
                        field("redirect", "false"),
                        field("muellmail", text.as_str()),
                        field("csrfToken", csrf.csrf_token.as_str()),
                        field("callbackUrl", LANDING_PAGE),
                        field("json", "true"),
                    ];
                    assert(fields.deep_view() =~= seq![
                        ("redirect"@, "false"@),
                        ("muellmail"@, text@),
                        ("csrfToken"@, csrf.csrf_token@),
                        ("callbackUrl"@, LANDING_PAGE@),
                        ("json"@, "true"@),
                    ]);
                    let request = Request::post("https://muellmail.com/api/auth/callback/anon").form(
                        fields,
                    );
                    CreationStep::Continue(
                        AnyCreation::Muellmail(Creation::Login(address)),
                        Action::Send(request, Read::Json(Shape::MuellmailAnon)),
                    )
                },
                Event::Failed(cause) => CreationStep::Done(Err(InboxCreationError::RquestError(cause))),
                _ => unreached(),
            },
            Creation::Login(address) => match event {
                Event::Json(Payload::MuellmailAnon(anon)) => {
                    if same_text(anon.url.as_str(), LANDING_PAGE) {
                        CreationStep::Done(
                            Ok(Inbox::new(Fetcher::Muellmail(MuellmailMessageFetcher {  }), address)),
                        )
                    } else {
                        CreationStep::Done(
                            Err(
                                InboxCreationError::CreationError(
                                    join("Invalid response url ", anon.url.as_str()),
                                ),
                            ),
                        )
                    }
                },
                Event::Failed(cause) => CreationStep::Done(Err(InboxCreationError::RquestError(cause))),
                _ => unreached(),
            },
        }
    }
}

/// How far the fetching of messages from Muellmail has come.
#[derive(Debug, Clone, Copy, PartialEq, Eq, Structural)]
pub enum Fetch {
    /// The session is asked whether it is alive.
    Session,
    /// The messages are asked for.
    Query,
}

impl Fetch {
    /// What the fetch waits for.
    pub open spec fn spec_awaited(self) -> Awaited {
        match self {
            Fetch::Session => Awaited::Status,
            Fetch::Query => Awaited::Json(Shape::MuellmailEmails),
        }
    }

    /// Where the fetch stands once `event` has come in. The session is alive
    /// exactly when it answers with status 200.
    pub open spec fn next(self, event: EventView) -> FetchStepView {
        match (self, event) {
            (Fetch::Session, EventView::Status(status)) => if status == 200 {
                FetchStepView::Continue(
                    AnyFetchView::Muellmail(Fetch::Query),
                    ActionView::Send(messages_request(), Read::Json(Shape::MuellmailEmails)),
                )
            } else {
                FetchStepView::failed(MessageFetcherErrorView::InvalidResponseStatus(status))
            },
            (Fetch::Query, EventView::Json(PayloadView::MuellmailEmails(emails))) => {
                FetchStepView::Done(Ok(messages_of(emails)))
            },
            (_, EventView::Failed(cause)) => FetchStepView::failed(
                MessageFetcherErrorView::RquestError(cause),
            ),
            _ => arbitrary(),
        }
    }

    /// What the fetch waits for.
    #[verifier::when_used_as_spec(spec_awaited)]
    pub fn awaited(self) -> (awaited: Awaited)
        ensures
            awaited == self.spec_awaited(),
    {
        match self {
            Fetch::Session => Awaited::Status,
            Fetch::Query => Awaited::Json(Shape::MuellmailEmails),
        }
    }

    /// Takes in what came of the action last asked for, and says how the
    /// fetch goes on.
    pub fn advance(self, event: Event) -> (step: FetchStep)
        requires
            event@.answers(self.awaited()),
        ensures
            step@ == self.next(event@),
    {
        match self {
            Fetch::Session => match event {
                Event::Status(status) => if status == 200 {
                    let members = vec![
                        member("operationName", "MailQuery"),
                        ("variables".to_owned(), JsonValue::EmptyObject),
                        member("query", MAIL_QUERY),
                    ];
                    assert(members.deep_view() =~= seq![
                        ("operationName"@, JsonValueView::Text("MailQuery"@)),
                        ("variables"@, JsonValueView::EmptyObject),
                        ("query"@, JsonValueView::Text(MAIL_QUERY@)),
                    ]);
                    let request = Request::post("https://muellmail.com/graphql").json(members);
                    FetchStep::Continue(
                        AnyFetch::Muellmail(Fetch::Query),
                        Action::Send(request, Read::Json(Shape::MuellmailEmails)),
                    )
                } else {
                    FetchStep::Done(Err(MessageFetcherError::InvalidResponseStatus(status)))
                },
                Event::Failed(cause) => FetchStep::Done(Err(MessageFetcherError::RquestError(cause))),
                _ => unreached(),
            },
            Fetch::Query => match event {
                Event::Json(Payload::MuellmailEmails(emails)) => FetchStep::Done(
                    Ok(into_messages(emails)),
                ),
                Event::Failed(cause) => FetchStep::Done(Err(MessageFetcherError::RquestError(cause))),
                _ => unreached(),
            },
        }
    }
}

impl MuellmailProvider {
    pub fn new() -> (provider: Self) {
        MuellmailProvider {}
    }

    pub fn get_provider_type(&self) -> (provider_type: ProviderType)
        ensures
            provider_type == ProviderType::Muellmail,
    {
        ProviderType::Muellmail
    }

    /// Returns the domains that the provider serves.
    pub fn get_domains(&self) -> (served: Vec<Domain>)
        ensures
            served@ == domains(),
    {
        let served = vec![
            Domain::TenMinMailDe,
            Domain::TenMinutenMailXyz,
            Domain::ExistiertNet,
            Domain::FliegenderFish,
            Domain::JagaEmail,
            Domain::MdzEmail,
            Domain::MuellMailCom,
            Domain::MuelleMailCom,
            Domain::MuellMonster,
            Domain::MuellIcu,
            Domain::MuellIo,
            Domain::MuellXyz,
            Domain::MagSpamNet,
            Domain::FukaruCom,
            Domain::OidaIcu,
            Domain::PapierkorbMe,
            Domain::SpamCare,
            Domain::TonneTo,
            Domain::UltraFyi,
            Domain::WegwerfEmailDe,
            Domain::DsgvoParty,
            Domain::KnickerbockerbanDe,
            Domain::LambsauceDe,
            Domain::RamenMailDe,
            Domain::Ji5De,
            Domain::Ji6De,
            Domain::Ji7De,
            Domain::SudernDe,
            Domain::HihiLol,
            Domain::KeinDate,
            Domain::HolioDay,
            Domain::CornHolioDay,
            Domain::BungHolioDay,
            Domain::StacysMom,
        ];
        assert(served@ =~= domains());
        served
    }

    /// Begins to create the inbox of `name` on `domain`.
    pub fn new_inbox(&self, name: &str, domain: Domain) -> (step: CreationStep)
        ensures
            step@ == creation_start(name@, domain@),
    {
        let address = EmailAddress::new(name, domain);
        CreationStep::Continue(
            AnyCreation::Muellmail(Creation::Connecting(address)),
            Action::Connect(ClientOptions { cookie_store: true, impersonate_firefox: true }),
        )
    }
}

impl MessageFetcher for MuellmailMessageFetcher {
    open spec fn fetch_start(&self) -> FetchStepView {
        fetch_start()
    }

    fn fetch_messages(&self) -> (step: FetchStep) {
        FetchStep::Continue(
            AnyFetch::Muellmail(Fetch::Session),
            Action::Send(Request::get("https://muellmail.com/api/auth/session"), Read::Status),
        )
    }
}

/// An inbox that Muellmail agrees to make has the address asked for.
pub proof fn lemma_creation_ends_with_the_address_asked_for(
    name: Seq<char>,
    domain: crate::domain::DomainView,
    csrf: CsrfResponseView,
)
    ensures
        creation_start(name, domain).after(
            seq![
                EventView::Connected,
                EventView::Json(PayloadView::MuellmailCsrf(csrf)),
                EventView::Json(PayloadView::MuellmailAnon(AnonResponseView { url: LANDING_PAGE@ })),
            ],
        ) == CreationStepView::Done(
            Ok(
                InboxView {
                    message_fetcher: FetcherView::Muellmail,
                    email_address: EmailAddressView { name, domain },
                },
            ),
        ),
{
    let events = seq![
        EventView::Connected,
        EventView::Json(PayloadView::MuellmailCsrf(csrf)),
        EventView::Json(PayloadView::MuellmailAnon(AnonResponseView { url: LANDING_PAGE@ })),
    ];
    reveal_with_fuel(CreationStepView::after, 4);
    assert(events.drop_first().first() == EventView::Json(PayloadView::MuellmailCsrf(csrf)));
    assert(events.drop_first().drop_first().first() == EventView::Json(
        PayloadView::MuellmailAnon(AnonResponseView { url: LANDING_PAGE@ }),
    ));
    assert(events.drop_first().drop_first().drop_first().len() == 0);
}

/// A fetch through a session that is alive ends with the messages that the
/// provider hands out: as many, in the same order.
pub proof fn lemma_fetch_ends_with_the_messages_handed_out(emails: Seq<EmailView>)
    ensures
        fetch_start().after(
            seq![EventView::Status(200), EventView::Json(PayloadView::MuellmailEmails(emails))],
        ) == FetchStepView::Done(Ok(messages_of(emails))),
        messages_of(emails).len() == emails.len(),
        forall|i: int|
            0 <= i < emails.len() ==> #[trigger] messages_of(emails)[i] == emails[i].message(),
{
    let events = seq![
        EventView::Status(200),
        EventView::Json(PayloadView::MuellmailEmails(emails)),
    ];
    reveal_with_fuel(FetchStepView::after, 3);
    assert(events.drop_first().first() == EventView::Json(PayloadView::MuellmailEmails(emails)));
    assert(events.drop_first().drop_first().len() == 0);
}

} // verus!
