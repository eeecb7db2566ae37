//! What goes back and forth between a session and whoever drives it:
//! requests to send, what to read of the responses, and what came of it.

use vstd::prelude::*;
use crate::provider::fakemail_net;
use crate::provider::mail_tm;
use crate::provider::muellmail;
use crate::provider::tempmail_lol;

verus! {

/// The method of an HTTP request.
#[derive(Debug, Clone, Copy, PartialEq, Eq, Structural)]
pub enum Method {
    Get,
    Post,
}

/// A value inside a JSON request body.
#[derive(Debug)]
pub enum JsonValue {
    /// A JSON string.
    Text(String),
    /// The JSON object without members.
    EmptyObject,
}

pub enum JsonValueView {
    Text(Seq<char>),
    EmptyObject,
}

impl View for JsonValue {
    type V = JsonValueView;

    open spec fn view(&self) -> JsonValueView {
        match self {
            JsonValue::Text(text) => JsonValueView::Text(text@),
            JsonValue::EmptyObject => JsonValueView::EmptyObject,
        }
    }
}

impl DeepView for JsonValue {
    type V = JsonValueView;

    open spec fn deep_view(&self) -> JsonValueView {
        self@
    }
}

/// What a request carries as its body.
#[derive(Debug)]
pub enum Body {
    /// No body.
    Empty,
    /// Fields sent as a URL-encoded form, in this order.
    Form(Vec<(String, String)>),
    /// Members of a JSON object.
    Json(Vec<(String, JsonValue)>),
}

pub enum BodyView {
    Empty,
    Form(Seq<(Seq<char>, Seq<char>)>),
    Json(Seq<(Seq<char>, JsonValueView)>),
}

impl View for Body {
    type V = BodyView;

    open spec fn view(&self) -> BodyView {
        match self {
            Body::Empty => BodyView::Empty,
            Body::Form(fields) => BodyView::Form(fields.deep_view()),
            Body::Json(members) => BodyView::Json(members.deep_view()),
        }
    }
}

/// An HTTP request that a provider wants sent.
#[derive(Debug)]
pub struct Request {
    pub method: Method,
    pub url: String,
    /// Header names and values, in the order they were added.
    pub headers: Vec<(String, String)>,
    /// Query parameters, in the order they were added.
    pub query: Vec<(String, String)>,
    /// The token of a bearer authorization, if any.
    pub bearer: Option<String>,
    pub body: Body,
}

pub struct RequestView {
    pub method: Method,
    pub url: Seq<char>,
    pub headers: Seq<(Seq<char>, Seq<char>)>,
    pub query: Seq<(Seq<char>, Seq<char>)>,
    pub bearer: Option<Seq<char>>,
    pub body: BodyView,
}

impl View for Request {
    type V = RequestView;

    open spec fn view(&self) -> RequestView {
        RequestView {
            method: self.method,
            url: self.url@,
            headers: self.headers.deep_view(),
            query: self.query.deep_view(),
            bearer: self.bearer.deep_view(),
            body: self.body@,
        }
    }
}

impl RequestView {
    /// The bare request for `url`.
    pub open spec fn bare(method: Method, url: Seq<char>) -> RequestView {
        RequestView {
            method,
            url,
            headers: Seq::empty(),
            query: Seq::empty(),
            bearer: None,
            body: BodyView::Empty,
        }
    }

    pub open spec fn get(url: Seq<char>) -> RequestView {
        Self::bare(Method::Get, url)
    }

    pub open spec fn post(url: Seq<char>) -> RequestView {
        Self::bare(Method::Post, url)
    }

    pub open spec fn header(self, name: Seq<char>, value: Seq<char>) -> RequestView {
        RequestView { headers: self.headers.push((name, value)), ..self }
    }

    pub open spec fn query(self, name: Seq<char>, value: Seq<char>) -> RequestView {
        RequestView { query: self.query.push((name, value)), ..self }
    }

    pub open spec fn bearer_auth(self, token: Seq<char>) -> RequestView {
        RequestView { bearer: Some(token), ..self }
    }

    pub open spec fn form(self, fields: Seq<(Seq<char>, Seq<char>)>) -> RequestView {
        RequestView { body: BodyView::Form(fields), ..self }
    }

    pub open spec fn json(self, members: Seq<(Seq<char>, JsonValueView)>) -> RequestView {
        RequestView { body: BodyView::Json(members), ..self }
    }
}

impl Request {
    /// Starts a `GET` request for `url`.
    pub fn get(url: &str) -> (request: Request)
        ensures
            request@ == RequestView::get(url@),
    {
        let request = Request {
            method: Method::Get,
            url: url.to_owned(),
            headers: Vec::new(),
            query: Vec::new(),
            bearer: None,
            body: Body::Empty,
        };
        assert(request.headers.deep_view() =~= Seq::empty());
        assert(request.query.deep_view() =~= Seq::empty());
        request
    }

    /// Starts a `POST` request for `url`.
    pub fn post(url: &str) -> (request: Request)
        ensures
            request@ == RequestView::post(url@),
    {
        let request = Request {
            method: Method::Post,
            url: url.to_owned(),
            headers: Vec::new(),
            query: Vec::new(),
            bearer: None,
            body: Body::Empty,
        };
        assert(request.headers.deep_view() =~= Seq::empty());
        assert(request.query.deep_view() =~= Seq::empty());
        request
    }

    /// Adds a header.
    pub fn header(self, name: &str, value: &str) -> (request: Request)
        ensures
            request@ == self@.header(name@, value@),
    {
        let mut request = self;
        let ghost before = request.headers.deep_view();
        request.headers.push((name.to_owned(), value.to_owned()));
        assert(request.headers.deep_view() =~= before.push((name@, value@)));
        request
    }

    /// Adds a query parameter.
    pub fn query(self, name: &str, value: &str) -> (request: Request)
        ensures
            request@ == self@.query(name@, value@),
    {
        let mut request = self;
        let ghost before = request.query.deep_view();
        request.query.push((name.to_owned(), value.to_owned()));
        assert(request.query.deep_view() =~= before.push((name@, value@)));
        request
    }

    /// Authorizes the request with a bearer token.
    pub fn bearer_auth(self, token: &str) -> (request: Request)
        ensures
            request@ == self@.bearer_auth(token@),
    {
        let mut request = self;
        request.bearer = Some(token.to_owned());
        request
    }

    /// Gives the request a form as its body.
    pub fn form(self, fields: Vec<(String, String)>) -> (request: Request)
        ensures
            request@ == self@.form(fields.deep_view()),
    {
        let mut request = self;
        request.body = Body::Form(fields);
        request
    }

    /// Gives the request a JSON object as its body.
    pub fn json(self, members: Vec<(String, JsonValue)>) -> (request: Request)
        ensures
            request@ == self@.json(members.deep_view()),
    {
        let mut request = self;
        request.body = Body::Json(members);
        request
    }
}

/// A form field or query parameter.
pub fn field(name: &str, value: &str) -> (pair: (String, String))
    ensures
        pair.deep_view() == (name@, value@),
{
    (name.to_owned(), value.to_owned())
}

/// A member of a JSON object whose value is a string.
pub fn member(name: &str, value: &str) -> (pair: (String, JsonValue))
    ensures
        pair.deep_view() == (name@, JsonValueView::Text(value@)),
{
    (name.to_owned(), JsonValue::Text(value.to_owned()))
}

/// How the HTTP client of a session is set up.
#[derive(Debug, Clone, Copy, PartialEq, Eq, Structural)]
pub struct ClientOptions {
    /// Whether the client keeps the cookies it is sent.
    pub cookie_store: bool,
    /// Whether the client presents itself as the Firefox 135 browser.
    pub impersonate_firefox: bool,
}

/// Whether an HTTP status reports success.
pub open spec fn is_success(status: u16) -> bool {
    200 <= status < 300
}

/// Whether an HTTP status reports success.
pub fn status_is_success(status: u16) -> (success: bool)
    ensures
        success == is_success(status),
{
    200 <= status && status < 300
}

/// The kinds of JSON document that the providers answer with.
#[derive(Debug, Clone, Copy, PartialEq, Eq, Structural)]
pub enum Shape {
    FakeMailNetIndex,
    FakeMailNetList,
    MailTmDomains,
    MailTmToken,
    MailTmViolation,
    MailTmList,
    MailTmEmail,
    MuellmailCsrf,
    MuellmailAnon,
    MuellmailEmails,
    TempMailLolInbox,
    TempMailLolEmails,
}

/// A JSON document of a provider, decoded.
#[derive(Debug)]
pub enum Payload {
    FakeMailNetIndex(fakemail_net::IndexResponse),
    FakeMailNetList(Vec<fakemail_net::EmailListEntry>),
    MailTmDomains(Vec<mail_tm::DomainResponse>),
    MailTmToken(mail_tm::LoginResponse),
    MailTmViolation(mail_tm::Violation),
    MailTmList(Vec<mail_tm::EmailListEntry>),
    MailTmEmail(mail_tm::Email),
    MuellmailCsrf(muellmail::CsrfResponse),
    MuellmailAnon(muellmail::AnonResponse),
    MuellmailEmails(Vec<muellmail::Email>),
    TempMailLolInbox(tempmail_lol::InboxResponse),
    TempMailLolEmails(Vec<tempmail_lol::Email>),
}

pub enum PayloadView {
    FakeMailNetIndex(fakemail_net::IndexResponseView),
    FakeMailNetList(Seq<fakemail_net::EmailListEntryView>),
    MailTmDomains(Seq<mail_tm::DomainResponseView>),
    MailTmToken(mail_tm::LoginResponseView),
    MailTmViolation(mail_tm::ViolationView),
    MailTmList(Seq<mail_tm::EmailListEntryView>),
    MailTmEmail(mail_tm::EmailView),
    MuellmailCsrf(muellmail::CsrfResponseView),
    MuellmailAnon(muellmail::AnonResponseView),
    MuellmailEmails(Seq<muellmail::EmailView>),
    TempMailLolInbox(tempmail_lol::InboxResponseView),
    TempMailLolEmails(Seq<tempmail_lol::EmailView>),
}

impl PayloadView {
    /// The kind of document that the payload was decoded from.
    pub open spec fn shape(self) -> Shape {
        match self {
            PayloadView::FakeMailNetIndex(_) => Shape::FakeMailNetIndex,
            PayloadView::FakeMailNetList(_) => Shape::FakeMailNetList,
            PayloadView::MailTmDomains(_) => Shape::MailTmDomains,
            PayloadView::MailTmToken(_) => Shape::MailTmToken,
            PayloadView::MailTmViolation(_) => Shape::MailTmViolation,
            PayloadView::MailTmList(_) => Shape::MailTmList,
            PayloadView::MailTmEmail(_) => Shape::MailTmEmail,
            PayloadView::MuellmailCsrf(_) => Shape::MuellmailCsrf,
            PayloadView::MuellmailAnon(_) => Shape::MuellmailAnon,
            PayloadView::MuellmailEmails(_) => Shape::MuellmailEmails,
            PayloadView::TempMailLolInbox(_) => Shape::TempMailLolInbox,
            PayloadView::TempMailLolEmails(_) => Shape::TempMailLolEmails,
        }
    }
}

impl View for Payload {
    type V = PayloadView;

    open spec fn view(&self) -> PayloadView {
        match self {
            Payload::FakeMailNetIndex(index) => PayloadView::FakeMailNetIndex(index@),
            Payload::FakeMailNetList(entries) => PayloadView::FakeMailNetList(entries.deep_view()),
            Payload::MailTmDomains(domains) => PayloadView::MailTmDomains(domains.deep_view()),
            Payload::MailTmToken(login) => PayloadView::MailTmToken(login@),
            Payload::MailTmViolation(violation) => PayloadView::MailTmViolation(violation@),
            Payload::MailTmList(entries) => PayloadView::MailTmList(entries.deep_view()),
            Payload::MailTmEmail(email) => PayloadView::MailTmEmail(email@),
            Payload::MuellmailCsrf(csrf) => PayloadView::MuellmailCsrf(csrf@),
            Payload::MuellmailAnon(anon) => PayloadView::MuellmailAnon(anon@),
            Payload::MuellmailEmails(emails) => PayloadView::MuellmailEmails(emails.deep_view()),
            Payload::TempMailLolInbox(inbox) => PayloadView::TempMailLolInbox(inbox@),
            Payload::TempMailLolEmails(emails) => PayloadView::TempMailLolEmails(emails.deep_view()),
        }
    }
}

impl Payload {
    /// The kind of document that the payload was decoded from.
    pub fn shape(&self) -> (shape: Shape)
        ensures
            shape == self@.shape(),
    {
        match self {
            Payload::FakeMailNetIndex(_) => Shape::FakeMailNetIndex,
            Payload::FakeMailNetList(_) => Shape::FakeMailNetList,
            Payload::MailTmDomains(_) => Shape::MailTmDomains,
            Payload::MailTmToken(_) => Shape::MailTmToken,
            Payload::MailTmViolation(_) => Shape::MailTmViolation,
            Payload::MailTmList(_) => Shape::MailTmList,
            Payload::MailTmEmail(_) => Shape::MailTmEmail,
            Payload::MuellmailCsrf(_) => Shape::MuellmailCsrf,
            Payload::MuellmailAnon(_) => Shape::MuellmailAnon,
            Payload::MuellmailEmails(_) => Shape::MuellmailEmails,
            Payload::TempMailLolInbox(_) => Shape::TempMailLolInbox,
            Payload::TempMailLolEmails(_) => Shape::TempMailLolEmails,
        }
    }
}

/// What is to be read of an HTTP response.
#[derive(Debug, Clone, Copy, PartialEq, Eq, Structural)]
pub enum Read {
    /// The status alone; the body is left unread for now.
    Status,
    /// The body as text, whatever the status.
    Text,
    /// The body as a JSON document of this kind, whatever the status.
    Json(Shape),
}

/// What the driver of a session is asked to do next.
#[derive(Debug)]
pub enum Action {
    /// Set up the HTTP client of the session.
    Connect(ClientOptions),
    /// Send the request and read of the response what is named.
    Send(Request, Read),
    /// Read the body of the response last received as text.
    ReadText,
    /// Read the body of the response last received as a JSON document of this kind.
    ReadJson(Shape),
    /// Decode the text as a JSON document of this kind.
    Parse(Shape, String),
}

pub enum ActionView {
    Connect(ClientOptions),
    Send(RequestView, Read),
    ReadText,
    ReadJson(Shape),
    Parse(Shape, Seq<char>),
}

impl View for Action {
    type V = ActionView;

    open spec fn view(&self) -> ActionView {
        match self {
            Action::Connect(options) => ActionView::Connect(*options),
            Action::Send(request, read) => ActionView::Send(request@, *read),
            Action::ReadText => ActionView::ReadText,
            Action::ReadJson(shape) => ActionView::ReadJson(*shape),
            Action::Parse(shape, text) => ActionView::Parse(*shape, text@),
        }
    }
}

/// What a session waits for while an action is carried out.
#[derive(Debug, Clone, Copy, PartialEq, Eq, Structural)]
pub enum Awaited {
    /// That the client is set up.
    Connected,
    /// The status of a response.
    Status,
    /// The body of a response as text.
    Text,
    /// The body of a response as a JSON document of this kind.
    Json(Shape),
    /// A text decoded as a JSON document of this kind.
    Parsed(Shape),
}

impl ActionView {
    /// What the session waits for once it has asked for this action.
    pub open spec fn awaited(self) -> Awaited {
        match self {
            ActionView::Connect(_) => Awaited::Connected,
            ActionView::Send(_, Read::Status) => Awaited::Status,
            ActionView::Send(_, Read::Text) => Awaited::Text,
            ActionView::Send(_, Read::Json(shape)) => Awaited::Json(shape),
            ActionView::ReadText => Awaited::Text,
            ActionView::ReadJson(shape) => Awaited::Json(shape),
            ActionView::Parse(shape, _) => Awaited::Parsed(shape),
        }
    }
}

/// What came of an action.
#[derive(Debug)]
pub enum Event {
    /// The client is set up.
    Connected,
    /// A response arrived with this status.
    Status(u16),
    /// The body of the response, as text.
    Text(String),
    /// The JSON document, decoded.
    Json(Payload),
    /// The text is no JSON document of the kind asked for; the decoder's complaint.
    Malformed(String),
    /// The HTTP layer failed.
    Failed(reqwest::Error),
}

pub enum EventView {
    Connected,
    Status(u16),
    Text(Seq<char>),
    Json(PayloadView),
    Malformed(Seq<char>),
    Failed(reqwest::Error),
}

impl View for Event {
    type V = EventView;

    open spec fn view(&self) -> EventView {
        match self {
            Event::Connected => EventView::Connected,
            Event::Status(status) => EventView::Status(*status),
            Event::Text(text) => EventView::Text(text@),
            Event::Json(payload) => EventView::Json(payload@),
            Event::Malformed(complaint) => EventView::Malformed(complaint@),
            Event::Failed(cause) => EventView::Failed(*cause),
        }
    }
}

impl EventView {
    /// Whether the event can be what came of an action that `awaited` stands for.
    /// Decoding a text never fails in the HTTP layer; everything else can.
    pub open spec fn answers(self, awaited: Awaited) -> bool {
        match (awaited, self) {
            (Awaited::Connected, EventView::Connected) => true,
            (Awaited::Status, EventView::Status(_)) => true,
            (Awaited::Text, EventView::Text(_)) => true,
            (Awaited::Json(shape), EventView::Json(payload)) => payload.shape() == shape,
            (Awaited::Parsed(shape), EventView::Json(payload)) => payload.shape() == shape,
            (Awaited::Parsed(_), EventView::Malformed(_)) => true,
            (Awaited::Parsed(_), EventView::Failed(_)) => false,
            (_, EventView::Failed(_)) => true,
            _ => false,
        }
    }
}

impl Event {
    /// Whether the event can be what came of an action that `awaited` stands for.
    pub fn answers(&self, awaited: Awaited) -> (fits: bool)
        ensures
            fits == self@.answers(awaited),
    {
        match awaited {
            Awaited::Connected => match self {
                Event::Connected => true,
                Event::Failed(_) => true,
                _ => false,
            },
            Awaited::Status => match self {
                Event::Status(_) => true,
                Event::Failed(_) => true,
                _ => false,
            },
            Awaited::Text => match self {
                Event::Text(_) => true,
                Event::Failed(_) => true,
                _ => false,
            },
            Awaited::Json(shape) => match self {
                Event::Json(payload) => payload.shape() == shape,
                Event::Failed(_) => true,
                _ => false,
            },
            Awaited::Parsed(shape) => match self {
                Event::Json(payload) => payload.shape() == shape,
                Event::Malformed(_) => true,
                _ => false,
            },
        }
    }
}

} // verus!
