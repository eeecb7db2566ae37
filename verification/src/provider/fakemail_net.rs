//! FakeMail.net: a session is opened under the anti-forgery token of the
//! home page, and the messages are read one by one by their number.

use vstd::prelude::*;
use crate::domain::Domain;
use crate::email::{Message, MessageView};
use crate::error::{
    InboxCreationError, InboxCreationErrorView, MessageFetcherError, MessageFetcherErrorView,
};
use crate::exchange::{
    field, is_success, status_is_success, Action, ActionView, Awaited, ClientOptions, Event,
    EventView, Payload, PayloadView, Read, Request, RequestView, Shape,
};
use crate::provider::{
    Creation as AnyCreation, CreationStep, CreationStepView, CreationView as AnyCreationView,
    Fetch as AnyFetch, FetchStep, FetchStepView, FetchView as AnyFetchView, Fetcher, FetcherView,
    MessageFetcher, ProviderType,
};
use crate::text::{decimal, join, same_text, split_at_first, split_first, to_decimal, trim, trimmed};

verus! {

/// What FakeMail.net tells of the session: the address it serves.
#[derive(Debug)]
pub struct IndexResponse {
    pub email: String,
}

pub struct IndexResponseView {
    pub email: Seq<char>,
}

impl View for IndexResponse {
    type V = IndexResponseView;

    open spec fn view(&self) -> IndexResponseView {
        IndexResponseView { email: self.email@ }
    }
}

impl DeepView for IndexResponse {
    type V = IndexResponseView;

    open spec fn deep_view(&self) -> IndexResponseView {
        self@
    }
}

/// One line of the message list of FakeMail.net.
#[derive(Debug)]
pub struct EmailListEntry {
    pub subject: String,
    pub from: String,
}

pub struct EmailListEntryView {
    pub subject: Seq<char>,
    pub from: Seq<char>,
}

impl View for EmailListEntry {
    type V = EmailListEntryView;

    open spec fn view(&self) -> EmailListEntryView {
        EmailListEntryView { subject: self.subject@, from: self.from@ }
    }
}

impl DeepView for EmailListEntry {
    type V = EmailListEntryView;

    open spec fn deep_view(&self) -> EmailListEntryView {
        self@
    }
}

/// The FakeMail.net provider.
#[derive(Debug)]
pub struct FakeMailNetProvider {}

/// A session with FakeMail.net, kept by the cookies of its client.
#[derive(Debug)]
pub struct FakeMailNetMessageFetcher {}

/// What FakeMail.net answers when it agrees.
pub const AGREED: &'static str = "\"ok\"";

/// What stands before the anti-forgery token in the home page.
pub const TOKEN_OPENING: &'static str = "CSRF=\"";

/// What stands behind the anti-forgery token in the home page.
pub const TOKEN_CLOSING: &'static str = "\"";

/// The domains that FakeMail.net serves.
pub open spec fn domains() -> Seq<Domain> {
    seq![Domain::FileSavedOrg]
}

/// The anti-forgery token of a home page: what stands between the first
/// `CSRF="` and the next `"`.
pub open spec fn csrf_token(page: Seq<char>) -> Result<Seq<char>, InboxCreationErrorView> {
    match split_first(page, TOKEN_OPENING@) {
        Some((_, rest)) => match split_first(rest, TOKEN_CLOSING@) {
            Some((token, _)) => Ok(token),
            None => Err(InboxCreationErrorView::CreationError("Failed to extract CSRF token"@)),
        },
        None => Err(InboxCreationErrorView::CreationError("Failed to find CSRF token"@)),
    }
}

/// Reads the anti-forgery token off a home page.
pub fn find_csrf_token(page: &str) -> (found: Result<String, InboxCreationError>)
    ensures
        match (found, csrf_token(page@)) {
            (Ok(token), Ok(expected)) => token@ == expected,
            (Err(error), Err(expected)) => error@ == expected,
            _ => false,
        },
{
    match split_at_first(page, TOKEN_OPENING) {
        Some((_, rest)) => match split_at_first(rest, TOKEN_CLOSING) {
            Some((token, _)) => Ok(token.to_owned()),
            None => Err(
                InboxCreationError::CreationError("Failed to extract CSRF token".to_owned()),
            ),
        },
        None => Err(InboxCreationError::CreationError("Failed to find CSRF token".to_owned())),
    }
}

/// The request for the home page.
pub open spec fn home_request() -> RequestView {
    RequestView::get("https://www.fakemail.net/"@)
}

/// The request for the state of the session, under the anti-forgery token.
pub open spec fn index_request(token: Seq<char>) -> RequestView {
    RequestView::get("https://www.fakemail.net/index/index"@).header(
        "X-Requested-With"@,
        "XMLHttpRequest"@,
    ).query("csrf_token"@, token)
}

/// The request that asks whether `name` is free.
pub open spec fn check_request(name: Seq<char>) -> RequestView {
    RequestView::post("https://www.fakemail.net/index/email-check"@).header(
        "X-Requested-With"@,
        "XMLHttpRequest"@,
    ).form(seq![("email"@, name), ("format"@, "json"@)])
}

/// The request that takes `name` for the session.
pub open spec fn create_request(name: Seq<char>) -> RequestView {
    RequestView::post("https://www.fakemail.net/index/new-email"@).header(
        "X-Requested-With"@,
        "XMLHttpRequest"@,
    ).form(seq![("emailInput"@, name), ("format"@, "json"@)])
}

/// The request for the list of messages.
pub open spec fn refresh_request() -> RequestView {
    RequestView::get("https://www.fakemail.net/index/refresh"@).header(
        "X-Requested-With"@,
        "XMLHttpRequest"@,
    )
}

/// The request for the content of the message that the provider numbers `number`.
pub open spec fn content_request(number: nat) -> RequestView {
    RequestView::get("https://www.fakemail.net/email/id/"@ + decimal(number)).header(
        "X-Requested-With"@,
        "XMLHttpRequest"@,
    )
}

fn make_index_request(token: &str) -> (request: Request)
    ensures
        request@ == index_request(token@),
{
    Request::get("https://www.fakemail.net/index/index").header(
        "X-Requested-With",
        "XMLHttpRequest",
    ).query("csrf_token", token)
}

fn make_check_request(name: &str) -> (request: Request)
    ensures
        request@ == check_request(name@),
{
    let fields = vec![field("email", name), field("format", "json")];
    assert(fields.deep_view() =~= seq![("email"@, name@), ("format"@, "json"@)]);
    Request::post("https://www.fakemail.net/index/email-check").header(
        "X-Requested-With",
        "XMLHttpRequest",
    ).form(fields)
}

fn make_create_request(name: &str) -> (request: Request)
    ensures
        request@ == create_request(name@),
{
    let fields = vec![field("emailInput", name), field("format", "json")];
    assert(fields.deep_view() =~= seq![("emailInput"@, name@), ("format"@, "json"@)]);
    Request::post("https://www.fakemail.net/index/new-email").header(
        "X-Requested-With",
        "XMLHttpRequest",
    ).form(fields)
}

fn make_content_request(number: usize) -> (request: Request)
    ensures
        request@ == content_request(number as nat),
{
    let url = join("https://www.fakemail.net/email/id/", to_decimal(number).as_str());
    Request::get(url.as_str()).header("X-Requested-With", "XMLHttpRequest")
}

/// The first step of a creation: the client is set up, to keep cookies.
pub open spec fn creation_start(name: Seq<char>) -> CreationStepView {
    CreationStepView::Continue(
        AnyCreationView::FakeMailNet(CreationView::Connecting { name }),
        ActionView::Connect(ClientOptions { cookie_store: true, impersonate_firefox: false }),
    )
}

/// The first step of a fetch: the list of messages is asked for.
pub open spec fn fetch_start() -> FetchStepView {
    FetchStepView::Continue(
        AnyFetchView::FakeMailNet(FetchView::Listing),
        ActionView::Send(refresh_request(), Read::Text),
    )
}

/// How far the creation of an inbox at FakeMail.net has come.
#[derive(Debug)]
pub enum Creation {
    /// The client is being set up.
    Connecting { name: String },
    /// The home page is read, for the anti-forgery token of a new session.
    Visiting { name: String },
    /// The session is opened; the status is awaited.
    Entering { name: String },
    /// The session was not opened; the reason is being read.
    Refused,
    /// The provider is asked whether the name is free.
    Checking { name: String },
    /// The provider is asked to take the name.
    Creating { name: String },
    /// The home page is read again, for the token that goes with the name.
    Revisiting,
    /// The session is asked which address it serves.
    Asking,
    /// The answer to that is being decoded.
    Decoding,
}

pub enum CreationView {
    Connecting { name: Seq<char> },
    Visiting { name: Seq<char> },
    Entering { name: Seq<char> },
    Refused,
    Checking { name: Seq<char> },
    Creating { name: Seq<char> },
    Revisiting,
    Asking,
    Decoding,
}

impl View for Creation {
    type V = CreationView;

    open spec fn view(&self) -> CreationView {
        match self {
            Creation::Connecting { name } => CreationView::Connecting { name: name@ },
            Creation::Visiting { name } => CreationView::Visiting { name: name@ },
            Creation::Entering { name } => CreationView::Entering { name: name@ },
            Creation::Refused => CreationView::Refused,
            Creation::Checking { name } => CreationView::Checking { name: name@ },
            Creation::Creating { name } => CreationView::Creating { name: name@ },
            Creation::Revisiting => CreationView::Revisiting,
            Creation::Asking => CreationView::Asking,
            Creation::Decoding => CreationView::Decoding,
        }
    }
}

impl CreationView {
    /// What the creation waits for.
    pub open spec fn awaited(self) -> Awaited {
        match self {
            CreationView::Connecting { .. } => Awaited::Connected,
            CreationView::Visiting { .. } => Awaited::Text,
            CreationView::Entering { .. } => Awaited::Status,
            CreationView::Refused => Awaited::Text,
            CreationView::Checking { .. } => Awaited::Text,
            CreationView::Creating { .. } => Awaited::Text,
            CreationView::Revisiting => Awaited::Text,
            CreationView::Asking => Awaited::Text,
            CreationView::Decoding => Awaited::Parsed(Shape::FakeMailNetIndex),
        }
    }

    /// The step that reads the home page.
    pub open spec fn visit(state: CreationView) -> CreationStepView {
        CreationStepView::Continue(
            AnyCreationView::FakeMailNet(state),
            ActionView::Send(home_request(), Read::Text),
        )
    }

    /// How many events the creation can take in at most before it ends.
    pub open spec fn events_left(self) -> nat {
        match self {
            CreationView::Connecting { .. } => 8,
            CreationView::Visiting { .. } => 7,
            CreationView::Entering { .. } => 6,
            CreationView::Refused => 1,
            CreationView::Checking { .. } => 5,
            CreationView::Creating { .. } => 4,
            CreationView::Revisiting => 3,
            CreationView::Asking => 2,
            CreationView::Decoding => 1,
        }
    }

    /// Where the creation stands once `event` has come in.
    ///
    /// A session is opened under the token of the home page. The name is
    /// taken if the provider calls it free. The address of the inbox is the
    /// one that the session then reports, which need not be on the domain
    /// asked for. A failure of the HTTP layer ends the creation, except while
    /// the reason of a refusal is being read: there the refusal is reported
    /// without its reason.
    pub open spec fn next(self, event: EventView) -> CreationStepView {
        match (self, event) {
            (CreationView::Connecting { name }, EventView::Connected) => Self::visit(
                CreationView::Visiting { name },
            ),
            (CreationView::Visiting { name }, EventView::Text(page)) => match csrf_token(page) {
                Ok(token) => CreationStepView::Continue(
                    AnyCreationView::FakeMailNet(CreationView::Entering { name }),
                    ActionView::Send(index_request(token), Read::Status),
                ),
                Err(error) => CreationStepView::failed(error),
            },
            (CreationView::Entering { name }, EventView::Status(status)) => if is_success(status) {
                CreationStepView::Continue(
                    AnyCreationView::FakeMailNet(CreationView::Checking { name }),
                    ActionView::Send(check_request(name), Read::Text),
                )
            } else {
                CreationStepView::Continue(
                    AnyCreationView::FakeMailNet(CreationView::Refused),
                    ActionView::ReadText,
                )
            },
            (CreationView::Refused, EventView::Text(reason)) => CreationStepView::failed(
                InboxCreationErrorView::CreationError(reason),
            ),
            (CreationView::Refused, EventView::Failed(_)) => CreationStepView::failed(
                InboxCreationErrorView::CreationError(Seq::empty()),
            ),
            (CreationView::Checking { name }, EventView::Text(answer)) => if answer == AGREED@ {
                CreationStepView::Continue(
                    AnyCreationView::FakeMailNet(CreationView::Creating { name }),
                    ActionView::Send(create_request(name), Read::Text),
                )
            } else {
                CreationStepView::failed(InboxCreationErrorView::NameTaken(name))
            },
            (CreationView::Creating { name }, EventView::Text(answer)) => if answer == AGREED@ {
                Self::visit(CreationView::Revisiting)
            } else {
                CreationStepView::failed(InboxCreationErrorView::CreationError(answer))
            },
            (CreationView::Revisiting, EventView::Text(page)) => match csrf_token(page) {
                Ok(token) => CreationStepView::Continue(
                    AnyCreationView::FakeMailNet(CreationView::Asking),
                    ActionView::Send(index_request(token), Read::Text),
                ),
                Err(error) => CreationStepView::failed(error),
            },
            (CreationView::Asking, EventView::Text(answer)) => CreationStepView::Continue(
                AnyCreationView::FakeMailNet(CreationView::Decoding),
                ActionView::Parse(Shape::FakeMailNetIndex, trimmed(answer)),
            ),
            (CreationView::Decoding, EventView::Json(PayloadView::FakeMailNetIndex(index))) => {
                CreationStepView::addressed(index.email, FetcherView::FakeMailNet)
            },
            (CreationView::Decoding, EventView::Malformed(complaint)) => CreationStepView::failed(
                InboxCreationErrorView::CreationError("Failed to parse JSON: "@ + complaint),
            ),
            (_, EventView::Failed(cause)) => CreationStepView::failed(
                InboxCreationErrorView::RquestError(cause),
            ),
            _ => arbitrary(),
        }
    }
}

fn visit(state: Creation) -> (step: CreationStep)
    ensures
        step@ == CreationView::visit(state@),
{
    CreationStep::Continue(
        AnyCreation::FakeMailNet(state),
        Action::Send(Request::get("https://www.fakemail.net/"), Read::Text),
    )
}

impl Creation {
    /// What the creation waits for.
    pub fn awaited(&self) -> (awaited: Awaited)
        ensures
            awaited == self@.awaited(),
    {
        match self {
            Creation::Connecting { .. } => Awaited::Connected,
            Creation::Visiting { .. } => Awaited::Text,
            Creation::Entering { .. } => Awaited::Status,
            Creation::Refused => Awaited::Text,
            Creation::Checking { .. } => Awaited::Text,
            Creation::Creating { .. } => Awaited::Text,
            Creation::Revisiting => Awaited::Text,
            Creation::Asking => Awaited::Text,
            Creation::Decoding => Awaited::Parsed(Shape::FakeMailNetIndex),
        }
    }

    /// Takes in what came of the action last asked for, and says how the
    /// creation goes on.
    pub fn advance(self, event: Event) -> (step: CreationStep)
        requires
            event@.answers(self@.awaited()),
        ensures
            step@ == self@.next(event@),
    {
        match self {
            Creation::Connecting { name } => match event {
                Event::Connected => visit(Creation::Visiting { name }),
                Event::Failed(cause) => CreationStep::Done(Err(InboxCreationError::RquestError(cause))),
                _ => unreached(),
            },
            Creation::Visiting { name } => match event {
                Event::Text(page) => match find_csrf_token(page.as_str()) {
                    Ok(token) => CreationStep::Continue(
                        AnyCreation::FakeMailNet(Creation::Entering { name }),
                        Action::Send(make_index_request(token.as_str()), Read::Status),
                    ),
                    Err(error) => CreationStep::Done(Err(error)),
                },
                Event::Failed(cause) => CreationStep::Done(Err(InboxCreationError::RquestError(cause))),
                _ => unreached(),
            },
            Creation::Entering { name } => match event {
                Event::Status(status) => if status_is_success(status) {
                    let request = make_check_request(name.as_str());
                    CreationStep::Continue(
                        AnyCreation::FakeMailNet(Creation::Checking { name }),
                        Action::Send(request, Read::Text),
                    )
                } else {
                    CreationStep::Continue(AnyCreation::FakeMailNet(Creation::Refused), Action::ReadText)
                },
                Event::Failed(cause) => CreationStep::Done(Err(InboxCreationError::RquestError(cause))),
                _ => unreached(),
            },
            Creation::Refused => match event {
                Event::Text(reason) => CreationStep::Done(Err(InboxCreationError::CreationError(reason))),
                Event::Failed(_) => CreationStep::Done(
                    Err(InboxCreationError::CreationError(String::new())),
                ),
                _ => unreached(),
            },
            Creation::Checking { name } => match event {
                Event::Text(answer) => if same_text(answer.as_str(), AGREED) {
                    let request = make_create_request(name.as_str());
                    CreationStep::Continue(
                        AnyCreation::FakeMailNet(Creation::Creating { name }),
                        Action::Send(request, Read::Text),
                    )
                } else {
                    CreationStep::Done(Err(InboxCreationError::NameTaken(name)))
                },
                Event::Failed(cause) => CreationStep::Done(Err(InboxCreationError::RquestError(cause))),
                _ => unreached(),
            },
            Creation::Creating { name } => match event {
                Event::Text(answer) => if same_text(answer.as_str(), AGREED) {
                    visit(Creation::Revisiting)
                } else {
                    CreationStep::Done(Err(InboxCreationError::CreationError(answer)))
                },
                Event::Failed(cause) => CreationStep::Done(Err(InboxCreationError::RquestError(cause))),
                _ => unreached(),
            },
            Creation::Revisiting => match event {
                Event::Text(page) => match find_csrf_token(page.as_str()) {
                    Ok(token) => CreationStep::Continue(
                        AnyCreation::FakeMailNet(Creation::Asking),
                        Action::Send(make_index_request(token.as_str()), Read::Text),
                    ),
                    Err(error) => CreationStep::Done(Err(error)),
                },
                Event::Failed(cause) => CreationStep::Done(Err(InboxCreationError::RquestError(cause))),
                _ => unreached(),
            },
            Creation::Asking => match event {
                Event::Text(answer) => CreationStep::Continue(
                    AnyCreation::FakeMailNet(Creation::Decoding),
                    Action::Parse(Shape::FakeMailNetIndex, trim(answer.as_str()).to_owned()),
                ),
                Event::Failed(cause) => CreationStep::Done(Err(InboxCreationError::RquestError(cause))),
                _ => unreached(),
            },
            Creation::Decoding => match event {
                Event::Json(Payload::FakeMailNetIndex(index)) => CreationStep::addressed(
                    index.email.as_str(),
                    Fetcher::FakeMailNet(FakeMailNetMessageFetcher {  }),
                ),
                Event::Malformed(complaint) => CreationStep::Done(
                    Err(
                        InboxCreationError::CreationError(
                            join("Failed to parse JSON: ", complaint.as_str()),
                        ),
                    ),
                ),
                _ => unreached(),
            },
        }
    }
}

/// A fetch that is reading the contents of the messages of a list one by one.
#[derive(Debug)]
pub struct Reading {
    listed: Vec<EmailListEntry>,
    position: usize,
    messages: Vec<Message>,
}

impl Reading {
    /// The message being read is one of those listed, and not the last of them.
    #[verifier::type_invariant]
    spec fn in_range(self) -> bool {
        1 <= self.position < self.listed.len()
    }
}

/// How far the fetching of messages from FakeMail.net has come.
#[derive(Debug)]
pub enum Fetch {
    /// The list of messages is asked for.
    Listing,
    /// The list is being decoded.
    Decoding,
    /// The contents of the messages are read one by one.
    Reading(Reading),
}

pub enum FetchView {
    Listing,
    Decoding,
    /// The messages `listed` are gone through from the last to the first, and
    /// `position` counts from the last, which is number zero. Those before
    /// `position`, but for number zero, are read and stand in `messages`; the
    /// content of the one at `position` is asked for.
    Reading { listed: Seq<EmailListEntryView>, position: int, messages: Seq<MessageView> },
}

impl View for Fetch {
    type V = FetchView;

    closed spec fn view(&self) -> FetchView {
        match self {
            Fetch::Listing => FetchView::Listing,
            Fetch::Decoding => FetchView::Decoding,
            Fetch::Reading(reading) => FetchView::Reading {
                listed: reading.listed.deep_view(),
                position: reading.position as int,
                messages: reading.messages.deep_view(),
            },
        }
    }
}

impl FetchView {
    /// What the fetch waits for.
    pub open spec fn awaited(self) -> Awaited {
        match self {
            FetchView::Listing => Awaited::Text,
            FetchView::Decoding => Awaited::Parsed(Shape::FakeMailNetList),
            FetchView::Reading { .. } => Awaited::Text,
        }
    }

    /// The step that follows once the messages before `position` are dealt
    /// with: the content of the next one is asked for, under the number
    /// `position + 1`, or the fetch ends where none is left.
    pub open spec fn read_from(
        listed: Seq<EmailListEntryView>,
        position: int,
        messages: Seq<MessageView>,
    ) -> FetchStepView {
        if 1 <= position < listed.len() {
            FetchStepView::Continue(
                AnyFetchView::FakeMailNet(FetchView::Reading { listed, position, messages }),
                ActionView::Send(content_request((position + 1) as nat), Read::Text),
            )
        } else {
            FetchStepView::Done(Ok(messages))
        }
    }

    /// Where the fetch stands once `event` has come in.
    ///
    /// The messages come out from the last listed to the first, but without
    /// the last one listed. Sender and subject are those of the list; the
    /// body is what the provider hands out under the message's number.
    pub open spec fn next(self, event: EventView) -> FetchStepView {
        match (self, event) {
            (FetchView::Listing, EventView::Text(answer)) => FetchStepView::Continue(
                AnyFetchView::FakeMailNet(FetchView::Decoding),
                ActionView::Parse(Shape::FakeMailNetList, trimmed(answer)),
            ),
            (FetchView::Decoding, EventView::Json(PayloadView::FakeMailNetList(listed))) => {
                Self::read_from(listed, 1, Seq::empty())
            },
            (FetchView::Decoding, EventView::Malformed(complaint)) => FetchStepView::failed(
                MessageFetcherErrorView::FetchError("Failed to parse JSON: "@ + complaint),
            ),
            (FetchView::Reading { listed, position, messages }, EventView::Text(body)) => {
                let entry = listed[listed.len() - 1 - position];
                Self::read_from(
                    listed,
                    position + 1,
                    messages.push(MessageView { from: entry.from, subject: entry.subject, body }),
                )
            },
            (_, EventView::Failed(cause)) => FetchStepView::failed(
                MessageFetcherErrorView::RquestError(cause),
            ),
            _ => arbitrary(),
        }
    }
}

fn read_from(listed: Vec<EmailListEntry>, position: usize, messages: Vec<Message>) -> (step: FetchStep)
    requires
        1 <= position <= listed.len(),
    ensures
        step@ == FetchView::read_from(listed.deep_view(), position as int, messages.deep_view()),
{
    if position < listed.len() {
        let request = make_content_request(position + 1);
        FetchStep::Continue(
            AnyFetch::FakeMailNet(Fetch::Reading(Reading { listed, position, messages })),
            Action::Send(request, Read::Text),
        )
    } else {
        FetchStep::Done(Ok(messages))
    }
}

impl Fetch {
    /// What the fetch waits for.
    pub fn awaited(&self) -> (awaited: Awaited)
        ensures
            awaited == self@.awaited(),
    {
        match self {
            Fetch::Listing => Awaited::Text,
            Fetch::Decoding => Awaited::Parsed(Shape::FakeMailNetList),
            Fetch::Reading(_) => Awaited::Text,
        }
    }

    /// Takes in what came of the action last asked for, and says how the
    /// fetch goes on.
    pub fn advance(self, event: Event) -> (step: FetchStep)
        requires
            event@.answers(self@.awaited()),
        ensures
            step@ == self@.next(event@),
    {
        match self {
            Fetch::Listing => match event {
                Event::Text(answer) => FetchStep::Continue(
                    AnyFetch::FakeMailNet(Fetch::Decoding),
                    Action::Parse(Shape::FakeMailNetList, trim(answer.as_str()).to_owned()),
                ),
                Event::Failed(cause) => FetchStep::Done(Err(MessageFetcherError::RquestError(cause))),
                _ => unreached(),
            },
            Fetch::Decoding => match event {
                Event::Json(Payload::FakeMailNetList(listed)) => {
                    let messages: Vec<Message> = Vec::new();
                    assert(messages.deep_view() =~= Seq::empty());
                    if listed.len() == 0 {
                        FetchStep::Done(Ok(messages))
                    } else {
                        read_from(listed, 1, messages)
                    }
                },
                Event::Malformed(complaint) => FetchStep::Done(
                    Err(
                        MessageFetcherError::FetchError(
                            join("Failed to parse JSON: ", complaint.as_str()),
                        ),
                    ),
                ),
                _ => unreached(),
            },
            Fetch::Reading(reading) => match event {
                Event::Text(body) => {
                    proof {
                        use_type_invariant(&reading);
                    }
                    let Reading { listed, position, messages } = reading;
                    let mut messages = messages;
                    let ghost before = messages.deep_view();
                    let entry = &listed[listed.len() - 1 - position];
                    let message = Message {
                        from: entry.from.clone(),
                        subject: entry.subject.clone(),
                        body,
                    };
                    messages.push(message);
                    assert(messages.deep_view() =~= before.push(message@));
                    read_from(listed, position + 1, messages)
                },
                Event::Failed(cause) => FetchStep::Done(Err(MessageFetcherError::RquestError(cause))),
                _ => unreached(),
            },
        }
    }
}

impl FakeMailNetProvider {
    pub fn new() -> (provider: Self) {
        FakeMailNetProvider {}
    }

    pub fn get_provider_type(&self) -> (provider_type: ProviderType)
        ensures
            provider_type == ProviderType::FakeMailNet,
    {
        ProviderType::FakeMailNet
    }

    /// Returns the domains that the provider serves.
    pub fn get_domains(&self) -> (served: Vec<Domain>)
        ensures
            served@ == domains(),
    {
        let served = vec![Domain::FileSavedOrg];
        assert(served@ =~= domains());
        served
    }

    /// Begins to create the inbox of `name`. The provider has one domain, so
    /// the domain asked for decides nothing.
    pub fn new_inbox(&self, name: &str, _domain: Domain) -> (step: CreationStep)
        ensures
            step@ == creation_start(name@),
    {
        CreationStep::Continue(
            AnyCreation::FakeMailNet(Creation::Connecting { name: name.to_owned() }),
            Action::Connect(ClientOptions { cookie_store: true, impersonate_firefox: false }),
        )
    }
}

impl MessageFetcher for FakeMailNetMessageFetcher {
    open spec fn fetch_start(&self) -> FetchStepView {
        fetch_start()
    }

    fn fetch_messages(&self) -> (step: FetchStep) {
        FetchStep::Continue(
            AnyFetch::FakeMailNet(Fetch::Listing),
            Action::Send(
                Request::get("https://www.fakemail.net/index/refresh").header(
                    "X-Requested-With",
                    "XMLHttpRequest",
                ),
                Read::Text,
            ),
        )
    }
}

/// The events that bring in the bodies of messages, one after the other.
pub open spec fn arrivals(bodies: Seq<Seq<char>>) -> Seq<EventView> {
    bodies.map_values(|body: Seq<char>| EventView::Text(body))
}

/// The messages whose bodies come in from `position` on: the first body goes
/// with the message listed at `position` from the end, the next with the one
/// before it, and so on.
pub open spec fn messages_from(
    listed: Seq<EmailListEntryView>,
    position: int,
    bodies: Seq<Seq<char>>,
) -> Seq<MessageView> {
    Seq::new(
        bodies.len(),
        |i: int|
            MessageView {
                from: listed[listed.len() - 1 - (position + i)].from,
                subject: listed[listed.len() - 1 - (position + i)].subject,
                body: bodies[i],
            },
    )
}

/// Once the list is known, a fetch that is handed the body of each message
/// not yet read ends with the messages read before and those whose bodies
/// were handed in, from the later listed to the earlier.
pub proof fn lemma_reading_ends_with_the_messages_in_order(
    listed: Seq<EmailListEntryView>,
    position: int,
    messages: Seq<MessageView>,
    bodies: Seq<Seq<char>>,
)
    requires
        1 <= position <= listed.len(),
        bodies.len() == listed.len() - position,
    ensures
        FetchView::read_from(listed, position, messages).after(arrivals(bodies))
            == FetchStepView::Done(Ok(messages + messages_from(listed, position, bodies))),
    decreases bodies.len(),
{
    if bodies.len() == 0 {
        assert(messages + messages_from(listed, position, bodies) =~= messages);
    } else {
        let rest = bodies.drop_first();
        let entry = listed[listed.len() - 1 - position];
        let read = messages.push(
            MessageView { from: entry.from, subject: entry.subject, body: bodies.first() },
        );
        lemma_reading_ends_with_the_messages_in_order(listed, position + 1, read, rest);
        assert(arrivals(bodies).first() == EventView::Text(bodies.first()));
        assert(arrivals(bodies).drop_first() =~= arrivals(rest));
        assert(read + messages_from(listed, position + 1, rest) =~= messages + messages_from(
            listed,
            position,
            bodies,
        ));
    }
}

/// A fetch whose requests are all answered ends with every message listed
/// but the last, from the last but one to the first, each with the body that
/// was handed out for it.
pub proof fn lemma_fetch_ends_with_the_messages_listed(
    answer: Seq<char>,
    listed: Seq<EmailListEntryView>,
    bodies: Seq<Seq<char>>,
)
    requires
        listed.len() >= 1,
        bodies.len() == listed.len() - 1,
    ensures
        fetch_start().after(
            seq![EventView::Text(answer), EventView::Json(PayloadView::FakeMailNetList(listed))]
                + arrivals(bodies),
        ) == FetchStepView::Done(Ok(messages_from(listed, 1, bodies))),
{
    let events = seq![
        EventView::Text(answer),
        EventView::Json(PayloadView::FakeMailNetList(listed)),
    ] + arrivals(bodies);
    reveal_with_fuel(FetchStepView::after, 3);
    assert(events.first() == EventView::Text(answer));
    assert(events.drop_first().first() == EventView::Json(PayloadView::FakeMailNetList(listed)));
    assert(events.drop_first().drop_first() =~= arrivals(bodies));
    lemma_reading_ends_with_the_messages_in_order(listed, 1, Seq::empty(), bodies);
    assert(Seq::<MessageView>::empty() + messages_from(listed, 1, bodies) =~= messages_from(
        listed,
        1,
        bodies,
    ));
}

} // verus!
