//! Mail.tm: an account on a domain that the server offers, logged into by
//! address and password, and messages read one by one by their id.

use vstd::prelude::*;
use vstd::std_specs::convert::FromSpecImpl;
use crate::domain::Domain;
use crate::email::{EmailAddress, EmailAddressView, Message, MessageView};
use crate::error::{
    InboxCreationError, InboxCreationErrorView, MessageFetcherError, MessageFetcherErrorView,
};
use crate::exchange::{
    is_success, member, status_is_success, Action, ActionView, Awaited, ClientOptions, Event,
    EventView, JsonValueView, Payload, PayloadView, Read, Request, RequestView, Shape,
};
use crate::provider::{
    Creation as AnyCreation, CreationStep, CreationStepView, CreationView as AnyCreationView,
    Fetch as AnyFetch, FetchStep, FetchStepView, FetchView as AnyFetchView, Fetcher, FetcherView,
    Inbox, InboxView, MessageFetcher, ProviderType,
};
use crate::text::{ends_with, join, same_text};

verus! {

/// A domain that Mail.tm offers.
#[derive(Debug)]
pub struct DomainResponse {
    pub domain: String,
    pub is_private: bool,
    pub is_active: bool,
}

pub struct DomainResponseView {
    pub domain: Seq<char>,
    pub is_private: bool,
    pub is_active: bool,
}

impl View for DomainResponse {
    type V = DomainResponseView;

    open spec fn view(&self) -> DomainResponseView {
        DomainResponseView {
            domain: self.domain@,
            is_private: self.is_private,
            is_active: self.is_active,
        }
    }
}

impl DeepView for DomainResponse {
    type V = DomainResponseView;

    open spec fn deep_view(&self) -> DomainResponseView {
        self@
    }
}

/// What Mail.tm answers to a login: the token of the session.
#[derive(Debug)]
pub struct LoginResponse {
    pub token: String,
}

pub struct LoginResponseView {
    pub token: Seq<char>,
}

impl View for LoginResponse {
    type V = LoginResponseView;

    open spec fn view(&self) -> LoginResponseView {
        LoginResponseView { token: self.token@ }
    }
}

impl DeepView for LoginResponse {
    type V = LoginResponseView;

    open spec fn deep_view(&self) -> LoginResponseView {
        self@
    }
}

/// One complaint of Mail.tm about an account that was asked for.
#[derive(Debug)]
pub struct ViolationEntry {
    /// The property complained about.
    pub property_path: String,
    pub message: String,
}

pub struct ViolationEntryView {
    pub property_path: Seq<char>,
    pub message: Seq<char>,
}

impl View for ViolationEntry {
    type V = ViolationEntryView;

    open spec fn view(&self) -> ViolationEntryView {
        ViolationEntryView { property_path: self.property_path@, message: self.message@ }
    }
}

impl DeepView for ViolationEntry {
    type V = ViolationEntryView;

    open spec fn deep_view(&self) -> ViolationEntryView {
        self@
    }
}

/// What Mail.tm answers when it refuses to make an account.
#[derive(Debug)]
pub struct Violation {
    pub status: u32,
    pub violations: Vec<ViolationEntry>,
}

pub struct ViolationView {
    pub status: u32,
    pub violations: Seq<ViolationEntryView>,
}

impl View for Violation {
    type V = ViolationView;

    open spec fn view(&self) -> ViolationView {
        ViolationView { status: self.status, violations: self.violations.deep_view() }
    }
}

impl DeepView for Violation {
    type V = ViolationView;

    open spec fn deep_view(&self) -> ViolationView {
        self@
    }
}

/// One line of the message list of Mail.tm.
#[derive(Debug)]
pub struct EmailListEntry {
    pub id: String,
}

pub struct EmailListEntryView {
    pub id: Seq<char>,
}

impl View for EmailListEntry {
    type V = EmailListEntryView;

    open spec fn view(&self) -> EmailListEntryView {
        EmailListEntryView { id: self.id@ }
    }
}

impl DeepView for EmailListEntry {
    type V = EmailListEntryView;

    open spec fn deep_view(&self) -> EmailListEntryView {
        self@
    }
}

/// A message as Mail.tm hands it out.
#[derive(Debug)]
pub struct Email {
    /// The address of the sender.
    pub from: String,
    pub subject: String,
    pub text: String,
}

pub struct EmailView {
    pub from: Seq<char>,
    pub subject: Seq<char>,
    pub text: Seq<char>,
}

impl View for Email {
    type V = EmailView;

    open spec fn view(&self) -> EmailView {
        EmailView { from: self.from@, subject: self.subject@, text: self.text@ }
    }
}

impl DeepView for Email {
    type V = EmailView;

    open spec fn deep_view(&self) -> EmailView {
        self@
    }
}

/// The Mail.tm provider.
#[derive(Debug)]
pub struct MailTmProvider {}

/// A session with Mail.tm, known by its token.
#[derive(Debug)]
pub struct MailTmMessageFetcher {
    pub token: String,
}

/// The password of every account that is made at Mail.tm.
pub const PASSWORD: &'static str = "ephemeral_email";

impl EmailView {
    /// The message in the form that every provider's messages are brought to.
    pub open spec fn message(self) -> MessageView {
        MessageView { from: self.from, subject: self.subject, body: self.text }
    }
}

impl From<Email> for Message {
    fn from(email: Email) -> (message: Message)
        ensures
            message@ == email@.message(),
    {
        Message { from: email.from, subject: email.subject, body: email.text }
    }
}

impl FromSpecImpl<Email> for Message {
    open spec fn obeys_from_spec() -> bool {
        true
    }

    open spec fn from_spec(email: Email) -> Message {
        Message { from: email.from, subject: email.subject, body: email.text }
    }
}

impl DomainResponseView {
    /// Whether an account can be made on the domain: it is open to everyone
    /// and in service.
    pub open spec fn usable(self) -> bool {
        !self.is_private && self.is_active
    }
}

/// The name of the first usable domain among those offered from `start` on.
pub open spec fn first_usable_from(offered: Seq<DomainResponseView>, start: int) -> Option<Seq<char>>
    decreases offered.len() - start,
{
    if start < 0 || start >= offered.len() {
        None
    } else if offered[start].usable() {
        Some(offered[start].domain)
    } else {
        first_usable_from(offered, start + 1)
    }
}

/// The name of the first usable domain among those offered.
pub open spec fn first_usable(offered: Seq<DomainResponseView>) -> Option<Seq<char>> {
    first_usable_from(offered, 0)
}

/// Finds the first usable domain among those offered.
pub fn find_usable(offered: &Vec<DomainResponse>) -> (found: Option<&DomainResponse>)
    ensures
        match found {
            Some(domain) => first_usable(offered.deep_view()) == Some(domain.domain@),
            None => first_usable(offered.deep_view()) is None,
        },
{
    let mut i: usize = 0;
    while i < offered.len()
        invariant
            i <= offered.len(),
            first_usable(offered.deep_view()) == first_usable_from(offered.deep_view(), i as int),
        decreases offered.len() - i,
    {
        if !offered[i].is_private && offered[i].is_active {
            return Some(&offered[i]);
        }
        i += 1;
    }
    None
}

/// Why Mail.tm refused to make the account of `address`, as far as its
/// complaint tells.
///
/// A single complaint about the address, under status 422, tells a name that
/// is in use from a name that is not allowed. Any other refusal is reported
/// with the first complaint.
pub open spec fn refusal(address: Seq<char>, violation: ViolationView) -> InboxCreationErrorView {
    let single = violation.status == 422 && violation.violations.len() == 1;
    let about_address = single && violation.violations[0].property_path == "address"@;
    if about_address && "already used."@.is_suffix_of(violation.violations[0].message) {
        InboxCreationErrorView::NameTaken(address)
    } else if about_address && "is not valid."@.is_suffix_of(violation.violations[0].message) {
        InboxCreationErrorView::InvalidName(address)
    } else if violation.violations.len() > 0 {
        InboxCreationErrorView::CreationError(
            "Failed to create inbox: "@ + violation.violations[0].message,
        )
    } else {
        InboxCreationErrorView::CreationError("Failed to create inbox: "@ + "Unknown error"@)
    }
}

/// Says why Mail.tm refused to make the account of `address`.
pub fn classify_refusal(address: &EmailAddress, violation: &Violation) -> (error: InboxCreationError)
    ensures
        error@ == refusal(address@.text(), violation@),
{
    if violation.status == 422 && violation.violations.len() == 1 {
        let only = &violation.violations[0];
        if same_text(only.property_path.as_str(), "address") && ends_with(
            only.message.as_str(),
            "already used.",
        ) {
            return InboxCreationError::NameTaken(address.to_string());
        }
        if same_text(only.property_path.as_str(), "address") && ends_with(
            only.message.as_str(),
            "is not valid.",
        ) {
            return InboxCreationError::InvalidName(address.to_string());
        }
    }
    if violation.violations.len() > 0 {
        InboxCreationError::CreationError(
            join("Failed to create inbox: ", violation.violations[0].message.as_str()),
        )
    } else {
        InboxCreationError::CreationError(join("Failed to create inbox: ", "Unknown error"))
    }
}

/// The request for the domains that Mail.tm offers.
pub open spec fn domains_request() -> RequestView {
    RequestView::get("https://api.mail.tm/domains"@).header("ACCEPT"@, "application/json"@)
}

/// The address and the password, as both the login and the making of an
/// account send them.
pub open spec fn credentials(address: Seq<char>) -> Seq<(Seq<char>, JsonValueView)> {
    seq![
        ("address"@, JsonValueView::Text(address)),
        ("password"@, JsonValueView::Text(PASSWORD@)),
    ]
}

/// The request that logs into the account of `address`.
pub open spec fn login_request(address: Seq<char>) -> RequestView {
    RequestView::post("https://api.mail.tm/token"@).header("ACCEPT"@, "application/json"@).json(
        credentials(address),
    )
}

/// The request that makes the account of `address`.
pub open spec fn account_request(address: Seq<char>) -> RequestView {
    RequestView::post("https://api.mail.tm/accounts"@).header("ACCEPT"@, "application/json"@).json(
        credentials(address),
    )
}

/// The request for the list of messages of a session.
pub open spec fn list_request(token: Seq<char>) -> RequestView {
    RequestView::get("https://api.mail.tm/messages"@).bearer_auth(token).header(
        "ACCEPT"@,
        "application/json"@,
    )
}

/// The request for one message of a session.
pub open spec fn message_request(token: Seq<char>, id: Seq<char>) -> RequestView {
    RequestView::get("https://api.mail.tm/messages/"@ + id).bearer_auth(token).header(
        "ACCEPT"@,
        "application/json"@,
    )
}

fn credentials_of(address: &EmailAddress) -> (members: Vec<(String, crate::exchange::JsonValue)>)
    ensures
        members.deep_view() == credentials(address@.text()),
{
    let text = address.to_string();
    let members = vec![member("address", text.as_str()), member("password", PASSWORD)];
    assert(members.deep_view() =~= credentials(address@.text()));
    members
}

fn make_login_request(address: &EmailAddress) -> (request: Request)
    ensures
        request@ == login_request(address@.text()),
{
    Request::post("https://api.mail.tm/token").header("ACCEPT", "application/json").json(
        credentials_of(address),
    )
}

fn make_account_request(address: &EmailAddress) -> (request: Request)
    ensures
        request@ == account_request(address@.text()),
{
    Request::post("https://api.mail.tm/accounts").header("ACCEPT", "application/json").json(
        credentials_of(address),
    )
}

fn make_message_request(token: &str, id: &str) -> (request: Request)
    ensures
        request@ == message_request(token@, id@),
{
    let url = join("https://api.mail.tm/messages/", id);
    Request::get(url.as_str()).bearer_auth(token).header("ACCEPT", "application/json")
}

/// The first step of a creation: the client is set up, to keep cookies.
pub open spec fn creation_start(name: Seq<char>) -> CreationStepView {
    CreationStepView::Continue(
        AnyCreationView::MailTm(CreationView::Connecting { name }),
        ActionView::Connect(ClientOptions { cookie_store: true, impersonate_firefox: false }),
    )
}

/// The first step of a fetch: the list of messages is asked for.
pub open spec fn fetch_start(token: Seq<char>) -> FetchStepView {
    FetchStepView::Continue(
        AnyFetchView::MailTm(FetchView::Listing { token }),
        ActionView::Send(list_request(token), Read::Json(Shape::MailTmList)),
    )
}

/// Which of the two logins of a creation is under way.
#[derive(Debug, Clone, Copy, PartialEq, Eq, Structural)]
pub enum Login {
    /// The login that finds out whether the account exists already. If it
    /// fails, for whatever reason, the account is made.
    Existing,
    /// The login into the account that was just made.
    Fresh,
}

/// How far the creation of an inbox at Mail.tm has come.
#[derive(Debug)]
pub enum Creation {
    /// The client is being set up.
    Connecting { name: String },
    /// The domains on offer are asked for.
    Domains { name: String },
    /// A login is sent; its status is awaited.
    LoggingIn { address: EmailAddress, login: Login },
    /// A login went through; the token is being read.
    Token { address: EmailAddress, login: Login },
    /// The account is asked for; the status is awaited.
    Account { address: EmailAddress },
    /// The account was refused; the complaint is being read.
    Refused { address: EmailAddress },
}

pub enum CreationView {
    Connecting { name: Seq<char> },
    Domains { name: Seq<char> },
    LoggingIn { address: EmailAddressView, login: Login },
    Token { address: EmailAddressView, login: Login },
    Account { address: EmailAddressView },
    Refused { address: EmailAddressView },
}

impl View for Creation {
    type V = CreationView;

    open spec fn view(&self) -> CreationView {
        match self {
            Creation::Connecting { name } => CreationView::Connecting { name: name@ },
            Creation::Domains { name } => CreationView::Domains { name: name@ },
            Creation::LoggingIn { address, login } => CreationView::LoggingIn {
                address: address@,
                login: *login,
            },
            Creation::Token { address, login } => CreationView::Token {
                address: address@,
                login: *login,
            },
            Creation::Account { address } => CreationView::Account { address: address@ },
            Creation::Refused { address } => CreationView::Refused { address: address@ },
        }
    }
}

impl CreationView {
    /// What the creation waits for.
    pub open spec fn awaited(self) -> Awaited {
        match self {
            CreationView::Connecting { .. } => Awaited::Connected,
            CreationView::Domains { .. } => Awaited::Json(Shape::MailTmDomains),
            CreationView::LoggingIn { .. } => Awaited::Status,
            CreationView::Token { .. } => Awaited::Json(Shape::MailTmToken),
            CreationView::Account { .. } => Awaited::Status,
            CreationView::Refused { .. } => Awaited::Json(Shape::MailTmViolation),
        }
    }

    /// The step that asks for the account of `address`.
    pub open spec fn ask_for_account(address: EmailAddressView) -> CreationStepView {
        CreationStepView::Continue(
            AnyCreationView::MailTm(CreationView::Account { address }),
            ActionView::Send(account_request(address.text()), Read::Status),
        )
    }

    /// The step that logs into the account of `address`.
    pub open spec fn log_in(address: EmailAddressView, login: Login) -> CreationStepView {
        CreationStepView::Continue(
            AnyCreationView::MailTm(CreationView::LoggingIn { address, login }),
            ActionView::Send(login_request(address.text()), Read::Status),
        )
    }

    /// The creation has ended with the inbox of `address`.
    pub open spec fn created(address: EmailAddressView, token: Seq<char>) -> CreationStepView {
        CreationStepView::Done(
            Ok(InboxView { message_fetcher: FetcherView::MailTm { token }, email_address: address }),
        )
    }

    /// How many events the creation can take in at most before it ends.
    pub open spec fn events_left(self) -> nat {
        match self {
            CreationView::Connecting { .. } => 8,
            CreationView::Domains { .. } => 7,
            CreationView::LoggingIn { login: Login::Existing, .. } => 6,
            CreationView::Token { login: Login::Existing, .. } => 5,
            CreationView::Account { .. } => 4,
            CreationView::Refused { .. } => 1,
            CreationView::LoggingIn { login: Login::Fresh, .. } => 2,
            CreationView::Token { login: Login::Fresh, .. } => 1,
        }
    }

    /// Where the creation stands once `event` has come in.
    ///
    /// The inbox is made on the first usable domain on offer. An account of
    /// that address is logged into if there is one, else made and then
    /// logged into. While the first login is under way nothing is reported:
    /// whatever goes wrong there, the account is asked for. Status 429 on
    /// that request means that the provider asks to slow down.
    pub open spec fn next(self, event: EventView) -> CreationStepView {
        match (self, event) {
            (CreationView::Connecting { name }, EventView::Connected) => CreationStepView::Continue(
                AnyCreationView::MailTm(CreationView::Domains { name }),
                ActionView::Send(domains_request(), Read::Json(Shape::MailTmDomains)),
            ),
            (CreationView::Domains { name }, EventView::Json(PayloadView::MailTmDomains(offered))) => {
                match first_usable(offered) {
                    Some(domain) => Self::log_in(
                        EmailAddressView { name, domain: Domain::parse(domain) },
                        Login::Existing,
                    ),
                    None => CreationStepView::failed(
                        InboxCreationErrorView::CreationError("No active domain found"@),
                    ),
                }
            },
            (CreationView::LoggingIn { address, login }, EventView::Status(status)) => {
                if is_success(status) {
                    CreationStepView::Continue(
                        AnyCreationView::MailTm(CreationView::Token { address, login }),
                        ActionView::ReadJson(Shape::MailTmToken),
                    )
                } else if login == Login::Existing {
                    Self::ask_for_account(address)
                } else {
                    CreationStepView::failed(
                        InboxCreationErrorView::CreationError(
                            "Failed to login into: "@ + address.text(),
                        ),
                    )
                }
            },
            (CreationView::LoggingIn { address, login: Login::Existing }, EventView::Failed(_)) => {
                Self::ask_for_account(address)
            },
            (CreationView::Token { address, login }, EventView::Json(PayloadView::MailTmToken(granted))) => {
                Self::created(address, granted.token)
            },
            (CreationView::Token { address, login: Login::Existing }, EventView::Failed(_)) => {
                Self::ask_for_account(address)
            },
            (CreationView::Account { address }, EventView::Status(status)) => {
                if is_success(status) {
                    Self::log_in(address, Login::Fresh)
                } else if status == 429 {
                    CreationStepView::failed(InboxCreationErrorView::RateLimited)
                } else {
                    CreationStepView::Continue(
                        AnyCreationView::MailTm(CreationView::Refused { address }),
                        ActionView::ReadJson(Shape::MailTmViolation),
                    )
                }
            },
            (CreationView::Refused { address }, EventView::Json(PayloadView::MailTmViolation(violation))) => {
                CreationStepView::failed(refusal(address.text(), violation))
            },
            (_, EventView::Failed(cause)) => CreationStepView::failed(
                InboxCreationErrorView::RquestError(cause),
            ),
            _ => arbitrary(),
        }
    }
}

fn ask_for_account(address: EmailAddress) -> (step: CreationStep)
    ensures
        step@ == CreationView::ask_for_account(address@),
{
    let request = make_account_request(&address);
    CreationStep::Continue(
        AnyCreation::MailTm(Creation::Account { address }),
        Action::Send(request, Read::Status),
    )
}

fn log_in(address: EmailAddress, login: Login) -> (step: CreationStep)
    ensures
        step@ == CreationView::log_in(address@, login),
{
    let request = make_login_request(&address);
    CreationStep::Continue(
        AnyCreation::MailTm(Creation::LoggingIn { address, login }),
        Action::Send(request, Read::Status),
    )
}

impl Creation {
    /// What the creation waits for.
    pub fn awaited(&self) -> (awaited: Awaited)
        ensures
            awaited == self@.awaited(),
    {
        match self {
            Creation::Connecting { .. } => Awaited::Connected,
            Creation::Domains { .. } => Awaited::Json(Shape::MailTmDomains),
            Creation::LoggingIn { .. } => Awaited::Status,
            Creation::Token { .. } => Awaited::Json(Shape::MailTmToken),
            Creation::Account { .. } => Awaited::Status,
            Creation::Refused { .. } => Awaited::Json(Shape::MailTmViolation),
        }
    }

    /// Takes in what came of the action last asked for, and says how the
    /// creation goes on.
    pub fn advance(self, event: Event) -> (step: CreationStep)
        requires
            event@.answers(self@.awaited()),
        ensures
            step@ == self@.next(event@),
    {
        match self {
            Creation::Connecting { name } => match event {
                Event::Connected => CreationStep::Continue(
                    AnyCreation::MailTm(Creation::Domains { name }),
                    Action::Send(
                        Request::get("https://api.mail.tm/domains").header("ACCEPT", "application/json"),
                        Read::Json(Shape::MailTmDomains),
                    ),
                ),
                Event::Failed(cause) => CreationStep::Done(Err(InboxCreationError::RquestError(cause))),
                _ => unreached(),
            },
            Creation::Domains { name } => match event {
                Event::Json(Payload::MailTmDomains(offered)) => match find_usable(&offered) {
                    Some(usable) => {
                        let domain = Domain::from(usable.domain.as_str());
                        log_in(EmailAddress { name, domain }, Login::Existing)
                    },
                    None => CreationStep::Done(
                        Err(InboxCreationError::CreationError("No active domain found".to_owned())),
                    ),
                },
                Event::Failed(cause) => CreationStep::Done(Err(InboxCreationError::RquestError(cause))),
                _ => unreached(),
            },
            Creation::LoggingIn { address, login } => match event {
                Event::Status(status) => if status_is_success(status) {
                    CreationStep::Continue(
                        AnyCreation::MailTm(Creation::Token { address, login }),
                        Action::ReadJson(Shape::MailTmToken),
                    )
                } else {
                    match login {
                        Login::Existing => ask_for_account(address),
                        Login::Fresh => CreationStep::Done(
                            Err(
                                InboxCreationError::CreationError(
                                    join("Failed to login into: ", address.to_string().as_str()),
                                ),
                            ),
                        ),
                    }
                },
                Event::Failed(cause) => match login {
                    Login::Existing => ask_for_account(address),
                    Login::Fresh => CreationStep::Done(Err(InboxCreationError::RquestError(cause))),
                },
                _ => unreached(),
            },
            Creation::Token { address, login } => match event {
                Event::Json(Payload::MailTmToken(granted)) => CreationStep::Done(
                    Ok(
                        Inbox::new(
                            Fetcher::MailTm(MailTmMessageFetcher { token: granted.token }),
                            address,
                        ),
                    ),
                ),
                Event::Failed(cause) => match login {
                    Login::Existing => ask_for_account(address),
                    Login::Fresh => CreationStep::Done(Err(InboxCreationError::RquestError(cause))),
                },
                _ => unreached(),
            },
            Creation::Account { address } => match event {
                Event::Status(status) => if status_is_success(status) {
                    log_in(address, Login::Fresh)
                } else if status == 429 {
                    CreationStep::Done(Err(InboxCreationError::RateLimited))
                } else {
                    CreationStep::Continue(
                        AnyCreation::MailTm(Creation::Refused { address }),
                        Action::ReadJson(Shape::MailTmViolation),
                    )
                },
                Event::Failed(cause) => CreationStep::Done(Err(InboxCreationError::RquestError(cause))),
                _ => unreached(),
            },
            Creation::Refused { address } => match event {
                Event::Json(Payload::MailTmViolation(violation)) => CreationStep::Done(
                    Err(classify_refusal(&address, &violation)),
                ),
                Event::Failed(cause) => CreationStep::Done(Err(InboxCreationError::RquestError(cause))),
                _ => unreached(),
            },
        }
    }
}

/// A fetch that is reading the messages of a list one by one.
#[derive(Debug)]
pub struct Reading {
    token: String,
    listed: Vec<EmailListEntry>,
    position: usize,
    messages: Vec<Message>,
}

impl Reading {
    /// The message being read is one of those listed.
    #[verifier::type_invariant]
    spec fn in_range(self) -> bool {
        self.position < self.listed.len()
    }
}

/// How far the fetching of messages from Mail.tm has come.
#[derive(Debug)]
pub enum Fetch {
    /// The list of messages is asked for.
    Listing { token: String },
    /// The messages listed are read one by one.
    Reading(Reading),
}

pub enum FetchView {
    Listing { token: Seq<char> },
    /// Of the messages `listed`, those before `position` are read and stand in
    /// `messages`; the one at `position` is asked for.
    Reading {
        token: Seq<char>,
        listed: Seq<EmailListEntryView>,
        position: int,
        messages: Seq<MessageView>,
    },
}

impl View for Fetch {
    type V = FetchView;

    closed spec fn view(&self) -> FetchView {
        match self {
            Fetch::Listing { token } => FetchView::Listing { token: token@ },
            Fetch::Reading(reading) => FetchView::Reading {
                token: reading.token@,
                listed: reading.listed.deep_view(),
                position: reading.position as int,
                messages: reading.messages.deep_view(),
            },
        }
    }
}

impl FetchView {
    /// What the fetch waits for.
    pub open spec fn awaited(self) -> Awaited {
        match self {
            FetchView::Listing { .. } => Awaited::Json(Shape::MailTmList),
            FetchView::Reading { .. } => Awaited::Json(Shape::MailTmEmail),
        }
    }

    /// The step that follows once the messages before `position` are read:
    /// the next message is asked for, or the fetch ends where none is left.
    pub open spec fn read_from(
        token: Seq<char>,
        listed: Seq<EmailListEntryView>,
        position: int,
        messages: Seq<MessageView>,
    ) -> FetchStepView {
        if 0 <= position < listed.len() {
            FetchStepView::Continue(
                AnyFetchView::MailTm(FetchView::Reading { token, listed, position, messages }),
                ActionView::Send(
                    message_request(token, listed[position].id),
                    Read::Json(Shape::MailTmEmail),
                ),
            )
        } else {
            FetchStepView::Done(Ok(messages))
        }
    }

    /// Where the fetch stands once `event` has come in. The messages come out
    /// in the order in which the provider lists them.
    pub open spec fn next(self, event: EventView) -> FetchStepView {
        match (self, event) {
            (FetchView::Listing { token }, EventView::Json(PayloadView::MailTmList(listed))) => {
                Self::read_from(token, listed, 0, Seq::empty())
            },
            (
                FetchView::Reading { token, listed, position, messages },
                EventView::Json(PayloadView::MailTmEmail(email)),
            ) => Self::read_from(token, listed, position + 1, messages.push(email.message())),
            (_, EventView::Failed(cause)) => FetchStepView::failed(
                MessageFetcherErrorView::RquestError(cause),
            ),
            _ => arbitrary(),
        }
    }
}

fn read_from(token: String, listed: Vec<EmailListEntry>, position: usize, messages: Vec<Message>) -> (step:
    FetchStep)
    requires
        position <= listed.len(),
    ensures
        step@ == FetchView::read_from(
            token@,
            listed.deep_view(),
            position as int,
            messages.deep_view(),
        ),
{
    if position < listed.len() {
        let request = make_message_request(token.as_str(), listed[position].id.as_str());
        FetchStep::Continue(
            AnyFetch::MailTm(Fetch::Reading(Reading { token, listed, position, messages })),
            Action::Send(request, Read::Json(Shape::MailTmEmail)),
        )
    } else {
        FetchStep::Done(Ok(messages))
    }
}

impl Fetch {
    /// What the fetch waits for.
    pub fn awaited(&self) -> (awaited: Awaited)
        ensures
            awaited == self@.awaited(),
    {
        match self {
            Fetch::Listing { .. } => Awaited::Json(Shape::MailTmList),
            Fetch::Reading(_) => Awaited::Json(Shape::MailTmEmail),
        }
    }

    /// Takes in what came of the action last asked for, and says how the
    /// fetch goes on.
    pub fn advance(self, event: Event) -> (step: FetchStep)
        requires
            event@.answers(self@.awaited()),
        ensures
            step@ == self@.next(event@),
    {
        match self {
            Fetch::Listing { token } => match event {
                Event::Json(Payload::MailTmList(listed)) => {
                    let messages: Vec<Message> = Vec::new();
                    assert(messages.deep_view() =~= Seq::empty());
                    read_from(token, listed, 0, messages)
                },
                Event::Failed(cause) => FetchStep::Done(Err(MessageFetcherError::RquestError(cause))),
                _ => unreached(),
            },
            Fetch::Reading(reading) => match event {
                Event::Json(Payload::MailTmEmail(email)) => {
                    proof {
                        use_type_invariant(&reading);
                    }
                    let Reading { token, listed, position, messages } = reading;
                    let mut messages = messages;
                    let ghost before = messages.deep_view();
                    let message = Message::from(email);
                    messages.push(message);
                    assert(messages.deep_view() =~= before.push(message@));
                    read_from(token, listed, position + 1, messages)
                },
                Event::Failed(cause) => FetchStep::Done(Err(MessageFetcherError::RquestError(cause))),
                _ => unreached(),
            },
        }
    }
}

impl MailTmProvider {
    pub fn new() -> (provider: Self) {
        MailTmProvider {}
    }

    pub fn get_provider_type(&self) -> (provider_type: ProviderType)
        ensures
            provider_type == ProviderType::MailTm,
    {
        ProviderType::MailTm
    }

    /// The provider lists no domain: which domains it serves is known to its
    /// server alone.
    pub fn get_domains(&self) -> (served: Vec<Domain>)
        ensures
            served@.len() == 0,
    {
        Vec::new()
    }

    /// Begins to create the inbox of `name`, on a domain that the provider's
    /// server offers.
    pub fn new_random_inbox_from_name(&self, name: &str) -> (step: CreationStep)
        ensures
            step@ == creation_start(name@),
    {
        CreationStep::Continue(
            AnyCreation::MailTm(Creation::Connecting { name: name.to_owned() }),
            Action::Connect(ClientOptions { cookie_store: true, impersonate_firefox: false }),
        )
    }
}

impl MessageFetcher for MailTmMessageFetcher {
    open spec fn fetch_start(&self) -> FetchStepView {
        fetch_start(self.token@)
    }

    fn fetch_messages(&self) -> (step: FetchStep) {
        let request = Request::get("https://api.mail.tm/messages").bearer_auth(
            self.token.as_str(),
        ).header("ACCEPT", "application/json");
        FetchStep::Continue(
            AnyFetch::MailTm(Fetch::Listing { token: self.token.clone() }),
            Action::Send(request, Read::Json(Shape::MailTmList)),
        )
    }
}

/// The events that bring in the messages of a list, one after the other.
pub open spec fn arrivals(emails: Seq<EmailView>) -> Seq<EventView> {
    emails.map_values(|email: EmailView| EventView::Json(PayloadView::MailTmEmail(email)))
}

/// The messages of a list, in the order of the list.
pub open spec fn messages_of(emails: Seq<EmailView>) -> Seq<MessageView> {
    emails.map_values(|email: EmailView| email.message())
}

/// Once the list is known, a fetch that is handed each message listed and
/// not yet read ends with the messages read before and those handed in, in
/// the order of the list.
pub proof fn lemma_reading_ends_with_the_messages_in_order(
    token: Seq<char>,
    listed: Seq<EmailListEntryView>,
    position: int,
    messages: Seq<MessageView>,
    emails: Seq<EmailView>,
)
    requires
        0 <= position <= listed.len(),
        emails.len() == listed.len() - position,
    ensures
        FetchView::read_from(token, listed, position, messages).after(arrivals(emails))
            == FetchStepView::Done(Ok(messages + messages_of(emails))),
    decreases emails.len(),
{
    if emails.len() == 0 {
        assert(messages + messages_of(emails) =~= messages);
    } else {
        let rest = emails.drop_first();
        let read = messages.push(emails.first().message());
        lemma_reading_ends_with_the_messages_in_order(token, listed, position + 1, read, rest);
        assert(arrivals(emails).first() == EventView::Json(PayloadView::MailTmEmail(emails.first())));
        assert(arrivals(emails).drop_first() =~= arrivals(rest));
        assert(read + messages_of(rest) =~= messages + messages_of(emails));
    }
}

/// A fetch whose requests are all answered ends with the messages that the
/// provider lists, in the order of its list.
pub proof fn lemma_fetch_ends_with_the_messages_listed(
    token: Seq<char>,
    listed: Seq<EmailListEntryView>,
    emails: Seq<EmailView>,
)
    requires
        emails.len() == listed.len(),
    ensures
        fetch_start(token).after(
            seq![EventView::Json(PayloadView::MailTmList(listed))] + arrivals(emails),
        ) == FetchStepView::Done(Ok(messages_of(emails))),
{
    let events = seq![EventView::Json(PayloadView::MailTmList(listed))] + arrivals(emails);
    assert(events.first() == EventView::Json(PayloadView::MailTmList(listed)));
    assert(events.drop_first() =~= arrivals(emails));
    lemma_reading_ends_with_the_messages_in_order(token, listed, 0, Seq::empty(), emails);
    assert(Seq::<MessageView>::empty() + messages_of(emails) =~= messages_of(emails));
}

} // verus!
