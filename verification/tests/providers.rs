use ephemeral_email::exchange::{
    status_is_success, Action, Awaited, Body, Event, JsonValue, Method, Payload, Read, Request,
    Shape,
};
use ephemeral_email::provider::{
    fakemail_net, mail_tm, muellmail, tempmail_lol, CreationStep, Fetch, FetchStep, Inbox,
    MessageFetcher, Provider,
};
use ephemeral_email::{
    Domain, EmailAddress, EmailAddressError, InboxCreationError, Message, MessageFetcherError,
    ProviderType, TempMail,
};

fn transport_failure() -> reqwest::Error {
    reqwest::Client::new().get("no address at all").build().unwrap_err()
}

fn pairs(list: &[(String, String)]) -> Vec<(&str, &str)> {
    list.iter().map(|(k, v)| (k.as_str(), v.as_str())).collect()
}

fn json_members(request: &Request) -> Vec<(String, Option<String>)> {
    match &request.body {
        Body::Json(members) => members
            .iter()
            .map(|(name, value)| match value {
                JsonValue::Text(text) => (name.clone(), Some(text.clone())),
                JsonValue::EmptyObject => (name.clone(), None),
            })
            .collect(),
        other => panic!("no JSON body: {:?}", other),
    }
}

fn form_fields(request: &Request) -> Vec<(&str, &str)> {
    match &request.body {
        Body::Form(fields) => pairs(fields),
        other => panic!("no form: {:?}", other),
    }
}

/// Hands the events to the creation one by one and returns what it asked for
/// and how it ended.
fn create(mut step: CreationStep, events: Vec<Event>) -> (Vec<Action>, Result<Inbox, InboxCreationError>) {
    let mut asked = Vec::new();
    let mut events = events.into_iter();
    loop {
        match step {
            CreationStep::Done(result) => {
                assert!(events.next().is_none(), "events left over");
                return (asked, result);
            }
            CreationStep::Continue(state, action) => {
                let event = events.next().expect("the creation wants more events");
                assert!(event.answers(state.awaited()), "{:?} does not answer {:?}", event, action);
                asked.push(action);
                step = state.advance(event);
            }
        }
    }
}

fn fetch(mut step: FetchStep, events: Vec<Event>) -> (Vec<Action>, Result<Vec<Message>, MessageFetcherError>) {
    let mut asked = Vec::new();
    let mut events = events.into_iter();
    loop {
        match step {
            FetchStep::Done(result) => {
                assert!(events.next().is_none(), "events left over");
                return (asked, result);
            }
            FetchStep::Continue(state, action) => {
                let event = events.next().expect("the fetch wants more events");
                assert!(event.answers(state.awaited()), "{:?} does not answer {:?}", event, action);
                asked.push(action);
                step = state.advance(event);
            }
        }
    }
}

/// The provider whose session the inbox holds, and the token of that
/// session where it has one, as the first request of a fetch shows them.
fn session(inbox: &Inbox) -> (ProviderType, Option<String>) {
    match inbox.get_messages() {
        FetchStep::Continue(Fetch::FakeMailNet(_), _) => (ProviderType::FakeMailNet, None),
        FetchStep::Continue(Fetch::Muellmail(_), _) => (ProviderType::Muellmail, None),
        FetchStep::Continue(Fetch::MailTm(_), Action::Send(request, _)) => {
            (ProviderType::MailTm, request.bearer)
        }
        FetchStep::Continue(Fetch::TempMailLol(_), Action::Send(request, _)) => {
            (ProviderType::TempMailLol, request.query.into_iter().map(|(_, value)| value).next())
        }
        other => panic!("unexpected: {:?}", other),
    }
}

fn mail_tm_inbox(token: &str) -> Inbox {
    let provider = ProviderType::MailTm.get_provider();
    create(
        provider.new_random_inbox_from_name("n"),
        vec![
            Event::Connected,
            Event::Json(Payload::MailTmDomains(vec![mail_tm::DomainResponse {
                domain: "muell.io".into(),
                is_private: false,
                is_active: true,
            }])),
            Event::Status(200),
            Event::Json(Payload::MailTmToken(mail_tm::LoginResponse { token: token.to_string() })),
        ],
    )
    .1
    .unwrap()
}

fn sent(action: &Action) -> (&Request, Read) {
    match action {
        Action::Send(request, read) => (request, *read),
        other => panic!("nothing sent: {:?}", other),
    }
}

fn message(from: &str, subject: &str, body: &str) -> Message {
    Message { from: from.to_string(), subject: subject.to_string(), body: body.to_string() }
}

fn text(value: &str) -> Event {
    Event::Text(value.to_string())
}

#[test]
fn success_is_any_status_from_200_to_299() {
    assert!(!status_is_success(199));
    assert!(status_is_success(200));
    assert!(status_is_success(204));
    assert!(status_is_success(299));
    assert!(!status_is_success(300));
    assert!(!status_is_success(429));
}

#[test]
fn events_answer_what_is_awaited() {
    assert!(Event::Connected.answers(Awaited::Connected));
    assert!(!Event::Connected.answers(Awaited::Status));
    assert!(Event::Status(200).answers(Awaited::Status));
    assert!(text("x").answers(Awaited::Text));
    assert!(!text("x").answers(Awaited::Json(Shape::MailTmList)));
    let token = || Event::Json(Payload::MailTmToken(mail_tm::LoginResponse { token: "t".into() }));
    assert!(token().answers(Awaited::Json(Shape::MailTmToken)));
    assert!(!token().answers(Awaited::Json(Shape::MailTmList)));
    assert!(token().answers(Awaited::Parsed(Shape::MailTmToken)));
    assert!(Event::Malformed("bad".into()).answers(Awaited::Parsed(Shape::FakeMailNetIndex)));
    assert!(!Event::Malformed("bad".into()).answers(Awaited::Json(Shape::FakeMailNetIndex)));
    for awaited in [Awaited::Connected, Awaited::Status, Awaited::Text, Awaited::Json(Shape::MailTmList)] {
        assert!(Event::Failed(transport_failure()).answers(awaited));
    }
    assert!(!Event::Failed(transport_failure()).answers(Awaited::Parsed(Shape::MailTmList)));
}

#[test]
fn request_builder_keeps_what_it_is_given() {
    let request = Request::post("https://example.invalid/x")
        .header("A", "1")
        .header("B", "2")
        .query("q", "v")
        .bearer_auth("secret");
    assert_eq!(request.method, Method::Post);
    assert_eq!(request.url, "https://example.invalid/x");
    assert_eq!(pairs(&request.headers), vec![("A", "1"), ("B", "2")]);
    assert_eq!(pairs(&request.query), vec![("q", "v")]);
    assert_eq!(request.bearer.as_deref(), Some("secret"));
    assert!(matches!(request.body, Body::Empty));
    let request = Request::get("u");
    assert_eq!(request.method, Method::Get);
    assert!(request.headers.is_empty() && request.query.is_empty() && request.bearer.is_none());
}

#[test]
fn end_to_end_with_a_canned_backend() {
    let step = TempMail::new()
        .provider_type(ProviderType::TempMailLol)
        .name("alice")
        .domain(Domain::Custom("test.invalid".to_string()))
        .create_inbox();
    let (asked, result) = create(
        step,
        vec![
            Event::Connected,
            Event::Status(201),
            Event::Json(Payload::TempMailLolInbox(tempmail_lol::InboxResponse {
                address: "alice@test.invalid".to_string(),
                token: "token-1".to_string(),
            })),
        ],
    );
    assert_eq!(asked.len(), 3);
    let (request, read) = sent(&asked[1]);
    assert_eq!(read, Read::Status);
    assert_eq!(request.method, Method::Post);
    assert_eq!(request.url, "https://api.tempmail.lol/v2/inbox/create");
    assert_eq!(pairs(&request.headers), vec![("ACCEPT", "application/json")]);
    assert_eq!(
        json_members(request),
        vec![
            ("prefix".to_string(), Some("alice".to_string())),
            ("domain".to_string(), Some("test.invalid".to_string())),
        ]
    );
    assert!(matches!(asked[2], Action::ReadJson(Shape::TempMailLolInbox)));
    let inbox = result.unwrap();
    assert_eq!(inbox.get_email_address().to_string(), "alice@test.invalid");
    assert_eq!(
        *inbox.get_email_address(),
        EmailAddress::new("alice", Domain::Custom("test.invalid".to_string()))
    );

    let seeded = vec![message("a@x", "first", "1"), message("b@x", "second", "2"), message("c@x", "third", "3")];
    for _ in 0..2 {
        let emails = seeded
            .iter()
            .map(|m| tempmail_lol::Email {
                from: m.from.clone(),
                subject: m.subject.clone(),
                body: m.body.clone(),
            })
            .collect();
        let (asked, result) = fetch(
            inbox.get_messages(),
            vec![Event::Status(200), Event::Json(Payload::TempMailLolEmails(emails))],
        );
        let (request, read) = sent(&asked[0]);
        assert_eq!(read, Read::Status);
        assert_eq!(request.method, Method::Get);
        assert_eq!(request.url, "https://api.tempmail.lol/v2/inbox");
        assert_eq!(pairs(&request.query), vec![("token", "token-1")]);
        assert!(matches!(asked[1], Action::ReadJson(Shape::TempMailLolEmails)));
        assert_eq!(result.unwrap(), seeded);
    }
}

#[test]
fn tempmail_lol_creation_for_a_name_alone() {
    let provider = ProviderType::TempMailLol.get_provider();
    let (asked, result) = create(
        provider.new_random_inbox_from_name("bob"),
        vec![
            Event::Connected,
            Event::Status(200),
            Event::Json(Payload::TempMailLolInbox(tempmail_lol::InboxResponse {
                address: "bob123@undeadbank.com".to_string(),
                token: "t".to_string(),
            })),
        ],
    );
    let (request, _) = sent(&asked[1]);
    assert_eq!(json_members(request), vec![("prefix".to_string(), Some("bob".to_string()))]);
    let inbox = result.unwrap();
    assert_eq!(*inbox.get_email_address(), EmailAddress::new("bob123", Domain::UndeadBankCom));
    assert_eq!(session(&inbox), (ProviderType::TempMailLol, Some("t".to_string())));
}

#[test]
fn tempmail_lol_refusal_carries_the_reason() {
    let provider = ProviderType::TempMailLol.get_provider();
    let (asked, result) = create(
        provider.new_random_inbox_from_name("bob"),
        vec![Event::Connected, Event::Status(400), text("prefix too long")],
    );
    assert!(matches!(asked[2], Action::ReadText));
    assert!(matches!(result, Err(InboxCreationError::CreationError(reason)) if reason == "prefix too long"));
    let (_, result) = create(
        provider.new_random_inbox_from_name("bob"),
        vec![Event::Connected, Event::Status(500), Event::Failed(transport_failure())],
    );
    assert!(matches!(result, Err(InboxCreationError::CreationError(reason)) if reason.is_empty()));
}

#[test]
fn tempmail_lol_unreadable_address() {
    let provider = ProviderType::TempMailLol.get_provider();
    let (_, result) = create(
        provider.new_random_inbox_from_name("bob"),
        vec![
            Event::Connected,
            Event::Status(200),
            Event::Json(Payload::TempMailLolInbox(tempmail_lol::InboxResponse {
                address: "no-at-sign".to_string(),
                token: "t".to_string(),
            })),
        ],
    );
    match result {
        Err(InboxCreationError::InvalidEmailAddress(EmailAddressError::InvalidEmailAddress(text))) => {
            assert_eq!(text, "no-at-sign")
        }
        other => panic!("unexpected: {:?}", other),
    }
}

#[test]
fn transport_failure_ends_a_creation() {
    let provider = ProviderType::TempMailLol.get_provider();
    let (asked, result) = create(
        provider.new_random_inbox_from_name("bob"),
        vec![Event::Failed(transport_failure())],
    );
    assert_eq!(asked.len(), 1);
    assert!(matches!(result, Err(InboxCreationError::RquestError(_))));
    let (_, result) = create(
        provider.new_random_inbox_from_name("bob"),
        vec![Event::Connected, Event::Failed(transport_failure())],
    );
    assert!(matches!(result, Err(InboxCreationError::RquestError(_))));
    let (_, result) = create(
        provider.new_random_inbox_from_name("bob"),
        vec![Event::Connected, Event::Status(200), Event::Failed(transport_failure())],
    );
    assert!(matches!(result, Err(InboxCreationError::RquestError(_))));
}

#[test]
fn tempmail_lol_fetch_failures() {
    let fetcher = tempmail_lol::TempMailLolMessageFetcher { token: "t".to_string() };
    let (_, result) = fetch(fetcher.fetch_messages(), vec![Event::Status(404)]);
    assert!(matches!(result, Err(MessageFetcherError::InvalidResponseStatus(404))));
    let (_, result) = fetch(fetcher.fetch_messages(), vec![Event::Failed(transport_failure())]);
    assert!(matches!(result, Err(MessageFetcherError::RquestError(_))));
    let (_, result) = fetch(
        fetcher.fetch_messages(),
        vec![Event::Status(200), Event::Failed(transport_failure())],
    );
    assert!(matches!(result, Err(MessageFetcherError::RquestError(_))));
}

#[test]
fn muellmail_creation() {
    let provider = ProviderType::Muellmail.get_provider();
    let (asked, result) = create(
        provider.new_inbox("carol", Domain::RamenMailDe),
        vec![
            Event::Connected,
            Event::Json(Payload::MuellmailCsrf(muellmail::CsrfResponse { csrf_token: "csrf-9".to_string() })),
            Event::Json(Payload::MuellmailAnon(muellmail::AnonResponse {
                url: "https://muellmail.com/en".to_string(),
            })),
        ],
    );
    let (request, read) = sent(&asked[1]);
    assert_eq!(read, Read::Json(Shape::MuellmailCsrf));
    assert_eq!(request.method, Method::Get);
    assert_eq!(request.url, "https://muellmail.com/api/auth/csrf");
    let (request, read) = sent(&asked[2]);
    assert_eq!(read, Read::Json(Shape::MuellmailAnon));
    assert_eq!(request.method, Method::Post);
    assert_eq!(request.url, "https://muellmail.com/api/auth/callback/anon");
    assert_eq!(
        form_fields(request),
        vec![
            ("redirect", "false"),
            ("muellmail", "carol@ramenmail.de"),
            ("csrfToken", "csrf-9"),
            ("callbackUrl", "https://muellmail.com/en"),
            ("json", "true"),
        ]
    );
    let inbox = result.unwrap();
    assert_eq!(*inbox.get_email_address(), EmailAddress::new("carol", Domain::RamenMailDe));
    assert_eq!(session(&inbox), (ProviderType::Muellmail, None));
}

#[test]
fn muellmail_login_that_leads_elsewhere_is_a_failure() {
    let provider = ProviderType::Muellmail.get_provider();
    let (_, result) = create(
        provider.new_inbox("carol", Domain::RamenMailDe),
        vec![
            Event::Connected,
            Event::Json(Payload::MuellmailCsrf(muellmail::CsrfResponse { csrf_token: "c".to_string() })),
            Event::Json(Payload::MuellmailAnon(muellmail::AnonResponse {
                url: "https://muellmail.com/en/error".to_string(),
            })),
        ],
    );
    assert!(matches!(
        result,
        Err(InboxCreationError::CreationError(reason))
            if reason == "Invalid response url https://muellmail.com/en/error"
    ));
}

#[test]
fn muellmail_fetch() {
    let fetcher = muellmail::MuellmailMessageFetcher {};
    let emails = vec![
        muellmail::Email {
            subject: "both".into(),
            sender: "a@x".into(),
            html: Some("<p>1</p>".into()),
            text: Some("1".into()),
        },
        muellmail::Email { subject: "html".into(), sender: "b@x".into(), html: Some("<p>2</p>".into()), text: None },
        muellmail::Email { subject: "none".into(), sender: "c@x".into(), html: None, text: None },
    ];
    let (asked, result) = fetch(
        fetcher.fetch_messages(),
        vec![Event::Status(200), Event::Json(Payload::MuellmailEmails(emails))],
    );
    let (request, read) = sent(&asked[0]);
    assert_eq!(read, Read::Status);
    assert_eq!(request.url, "https://muellmail.com/api/auth/session");
    let (request, read) = sent(&asked[1]);
    assert_eq!(read, Read::Json(Shape::MuellmailEmails));
    assert_eq!(request.method, Method::Post);
    assert_eq!(request.url, "https://muellmail.com/graphql");
    let members = json_members(request);
    assert_eq!(members.len(), 3);
    assert_eq!(members[0], ("operationName".to_string(), Some("MailQuery".to_string())));
    assert_eq!(members[1], ("variables".to_string(), None));
    assert_eq!(members[2].0, "query");
    let query = members[2].1.clone().unwrap();
    assert_eq!(query, muellmail::MAIL_QUERY);
    assert!(query.contains("query MailQuery {") && query.contains("emails(orderBy: {createdAt: desc})"));
    assert_eq!(query.len(), 1042);
    assert_eq!(
        result.unwrap(),
        vec![
            message("a@x", "both", "1"),
            message("b@x", "html", "<p>2</p>"),
            message("c@x", "none", ""),
        ]
    );
}

#[test]
fn muellmail_fetch_needs_status_200() {
    let fetcher = muellmail::MuellmailMessageFetcher {};
    for status in [201, 204, 401, 500] {
        let (_, result) = fetch(fetcher.fetch_messages(), vec![Event::Status(status)]);
        assert!(matches!(result, Err(MessageFetcherError::InvalidResponseStatus(s)) if s == status));
    }
}

fn mail_tm_domains() -> Event {
    Event::Json(Payload::MailTmDomains(vec![
        mail_tm::DomainResponse { domain: "private.example".into(), is_private: true, is_active: true },
        mail_tm::DomainResponse { domain: "asleep.example".into(), is_private: false, is_active: false },
        mail_tm::DomainResponse { domain: "open.example".into(), is_private: false, is_active: true },
        mail_tm::DomainResponse { domain: "later.example".into(), is_private: false, is_active: true },
    ]))
}

fn mail_tm_token(token: &str) -> Event {
    Event::Json(Payload::MailTmToken(mail_tm::LoginResponse { token: token.to_string() }))
}

fn credentials(request: &Request) -> Vec<(String, Option<String>)> {
    assert_eq!(pairs(&request.headers), vec![("ACCEPT", "application/json")]);
    json_members(request)
}

#[test]
fn mail_tm_logs_into_an_account_that_exists() {
    let provider = ProviderType::MailTm.get_provider();
    let (asked, result) = create(
        provider.new_random_inbox_from_name("dave"),
        vec![Event::Connected, mail_tm_domains(), Event::Status(200), mail_tm_token("tok")],
    );
    let (request, read) = sent(&asked[1]);
    assert_eq!(read, Read::Json(Shape::MailTmDomains));
    assert_eq!(request.url, "https://api.mail.tm/domains");
    let (request, read) = sent(&asked[2]);
    assert_eq!(read, Read::Status);
    assert_eq!(request.url, "https://api.mail.tm/token");
    assert_eq!(
        credentials(request),
        vec![
            ("address".to_string(), Some("dave@open.example".to_string())),
            ("password".to_string(), Some("ephemeral_email".to_string())),
        ]
    );
    assert!(matches!(asked[3], Action::ReadJson(Shape::MailTmToken)));
    let inbox = result.unwrap();
    assert_eq!(inbox.get_email_address().to_string(), "dave@open.example");
    assert_eq!(session(&inbox), (ProviderType::MailTm, Some("tok".to_string())));
}

#[test]
fn mail_tm_makes_the_account_when_the_login_fails() {
    let provider = ProviderType::MailTm.get_provider();
    let first_logins = vec![
        vec![Event::Status(401)],
        vec![Event::Failed(transport_failure())],
        vec![Event::Status(200), Event::Failed(transport_failure())],
    ];
    for first_login in first_logins {
        let mut events = vec![Event::Connected, mail_tm_domains()];
        let before = 2 + first_login.len();
        events.extend(first_login);
        events.extend(vec![Event::Status(201), Event::Status(200), mail_tm_token("fresh")]);
        let (asked, result) = create(provider.new_random_inbox_from_name("dave"), events);
        let (request, read) = sent(&asked[before]);
        assert_eq!(read, Read::Status);
        assert_eq!(request.url, "https://api.mail.tm/accounts");
        assert_eq!(credentials(request)[0].1.as_deref(), Some("dave@open.example"));
        let (request, _) = sent(&asked[before + 1]);
        assert_eq!(request.url, "https://api.mail.tm/token");
        let inbox = result.unwrap();
        assert_eq!(session(&inbox), (ProviderType::MailTm, Some("fresh".to_string())));
    }
}

fn mail_tm_refused(status: u32, violations: Vec<(&str, &str)>) -> Result<Inbox, InboxCreationError> {
    let provider = ProviderType::MailTm.get_provider();
    let violation = mail_tm::Violation {
        status,
        violations: violations
            .into_iter()
            .map(|(path, message)| mail_tm::ViolationEntry {
                property_path: path.to_string(),
                message: message.to_string(),
            })
            .collect(),
    };
    create(
        provider.new_random_inbox_from_name("dave"),
        vec![
            Event::Connected,
            mail_tm_domains(),
            Event::Status(401),
            Event::Status(422),
            Event::Json(Payload::MailTmViolation(violation)),
        ],
    )
    .1
}

#[test]
fn mail_tm_refusals_are_told_apart() {
    assert!(matches!(
        mail_tm_refused(422, vec![("address", "This value is already used.")]),
        Err(InboxCreationError::NameTaken(address)) if address == "dave@open.example"
    ));
    assert!(matches!(
        mail_tm_refused(422, vec![("address", "The username \"dave\" is not valid.")]),
        Err(InboxCreationError::InvalidName(address)) if address == "dave@open.example"
    ));
    assert!(matches!(
        mail_tm_refused(422, vec![("password", "This value is already used.")]),
        Err(InboxCreationError::CreationError(reason))
            if reason == "Failed to create inbox: This value is already used."
    ));
    assert!(matches!(
        mail_tm_refused(400, vec![("address", "This value is already used.")]),
        Err(InboxCreationError::CreationError(reason))
            if reason == "Failed to create inbox: This value is already used."
    ));
    assert!(matches!(
        mail_tm_refused(422, vec![("address", "already used."), ("address", "is not valid.")]),
        Err(InboxCreationError::CreationError(reason)) if reason == "Failed to create inbox: already used."
    ));
    assert!(matches!(
        mail_tm_refused(422, vec![("address", "already used. Really")]),
        Err(InboxCreationError::CreationError(reason)) if reason == "Failed to create inbox: already used. Really"
    ));
    assert!(matches!(
        mail_tm_refused(500, vec![]),
        Err(InboxCreationError::CreationError(reason)) if reason == "Failed to create inbox: Unknown error"
    ));
}

#[test]
fn mail_tm_other_endings() {
    let provider = ProviderType::MailTm.get_provider();
    let (_, result) = create(
        provider.new_random_inbox_from_name("dave"),
        vec![Event::Connected, mail_tm_domains(), Event::Status(401), Event::Status(429)],
    );
    assert!(matches!(result, Err(InboxCreationError::RateLimited)));
    let (_, result) = create(
        provider.new_random_inbox_from_name("dave"),
        vec![
            Event::Connected,
            Event::Json(Payload::MailTmDomains(vec![mail_tm::DomainResponse {
                domain: "private.example".into(),
                is_private: true,
                is_active: true,
            }])),
        ],
    );
    assert!(matches!(
        result,
        Err(InboxCreationError::CreationError(reason)) if reason == "No active domain found"
    ));
    let (_, result) = create(
        provider.new_random_inbox_from_name("dave"),
        vec![Event::Connected, mail_tm_domains(), Event::Status(401), Event::Status(201), Event::Status(401)],
    );
    assert!(matches!(
        result,
        Err(InboxCreationError::CreationError(reason)) if reason == "Failed to login into: dave@open.example"
    ));
    let (_, result) = create(
        provider.new_random_inbox_from_name("dave"),
        vec![
            Event::Connected,
            mail_tm_domains(),
            Event::Status(401),
            Event::Status(201),
            Event::Failed(transport_failure()),
        ],
    );
    assert!(matches!(result, Err(InboxCreationError::RquestError(_))));
    let (_, result) = create(
        provider.new_random_inbox_from_name("dave"),
        vec![Event::Connected, mail_tm_domains(), Event::Status(401), Event::Failed(transport_failure())],
    );
    assert!(matches!(result, Err(InboxCreationError::RquestError(_))));
}

#[test]
fn mail_tm_domain_of_the_catalog_is_recognised() {
    let provider = ProviderType::MailTm.get_provider();
    let (_, result) = create(
        provider.new_random_inbox_from_name("dave"),
        vec![
            Event::Connected,
            Event::Json(Payload::MailTmDomains(vec![mail_tm::DomainResponse {
                domain: "undeadbank.com".into(),
                is_private: false,
                is_active: true,
            }])),
            Event::Status(200),
            mail_tm_token("t"),
        ],
    );
    assert_eq!(result.unwrap().get_email_address().domain, Domain::UndeadBankCom);
}

#[test]
fn mail_tm_fetch_keeps_the_order_of_the_list() {
    let fetcher = mail_tm::MailTmMessageFetcher { token: "tok".to_string() };
    let listed = vec!["id-1", "id-2", "id-3"]
        .into_iter()
        .map(|id| mail_tm::EmailListEntry { id: id.to_string() })
        .collect();
    let email = |n: &str| {
        Event::Json(Payload::MailTmEmail(mail_tm::Email {
            from: format!("sender{}@x", n),
            subject: format!("subject {}", n),
            text: format!("text {}", n),
        }))
    };
    let (asked, result) = fetch(
        fetcher.fetch_messages(),
        vec![Event::Json(Payload::MailTmList(listed)), email("1"), email("2"), email("3")],
    );
    let (request, read) = sent(&asked[0]);
    assert_eq!(read, Read::Json(Shape::MailTmList));
    assert_eq!(request.url, "https://api.mail.tm/messages");
    assert_eq!(request.bearer.as_deref(), Some("tok"));
    assert_eq!(pairs(&request.headers), vec![("ACCEPT", "application/json")]);
    for (i, id) in ["id-1", "id-2", "id-3"].iter().enumerate() {
        let (request, read) = sent(&asked[i + 1]);
        assert_eq!(read, Read::Json(Shape::MailTmEmail));
        assert_eq!(request.url, format!("https://api.mail.tm/messages/{}", id));
        assert_eq!(request.bearer.as_deref(), Some("tok"));
    }
    assert_eq!(
        result.unwrap(),
        vec![
            message("sender1@x", "subject 1", "text 1"),
            message("sender2@x", "subject 2", "text 2"),
            message("sender3@x", "subject 3", "text 3"),
        ]
    );
}

#[test]
fn mail_tm_fetch_edge_cases() {
    let fetcher = mail_tm::MailTmMessageFetcher { token: "tok".to_string() };
    let (asked, result) = fetch(fetcher.fetch_messages(), vec![Event::Json(Payload::MailTmList(vec![]))]);
    assert_eq!(asked.len(), 1);
    assert_eq!(result.unwrap(), vec![]);
    let (_, result) = fetch(
        fetcher.fetch_messages(),
        vec![
            Event::Json(Payload::MailTmList(vec![mail_tm::EmailListEntry { id: "x".into() }])),
            Event::Failed(transport_failure()),
        ],
    );
    assert!(matches!(result, Err(MessageFetcherError::RquestError(_))));
}

const HOME_PAGE: &str = "<html><script>var a=1; const CSRF=\"abc123\"; var b=\"x\";</script></html>";

#[test]
fn fakemail_net_token_is_read_off_the_page() {
    assert_eq!(fakemail_net::find_csrf_token(HOME_PAGE).unwrap(), "abc123");
    assert_eq!(fakemail_net::find_csrf_token("CSRF=\"\"").unwrap(), "");
    assert_eq!(fakemail_net::find_csrf_token("CSRF=\"a\" CSRF=\"b\"").unwrap(), "a");
    assert!(matches!(
        fakemail_net::find_csrf_token("<html></html>"),
        Err(InboxCreationError::CreationError(reason)) if reason == "Failed to find CSRF token"
    ));
    assert!(matches!(
        fakemail_net::find_csrf_token("CSRF=\"abc"),
        Err(InboxCreationError::CreationError(reason)) if reason == "Failed to extract CSRF token"
    ));
}

#[test]
fn fakemail_net_creation() {
    let provider = ProviderType::FakeMailNet.get_provider();
    let (asked, result) = create(
        provider.new_inbox("erin", Domain::FileSavedOrg),
        vec![
            Event::Connected,
            text(HOME_PAGE),
            Event::Status(200),
            text("\"ok\""),
            text("\"ok\""),
            text("CSRF=\"second\""),
            text(" \n{\"email\":\"erin@filesaved.org\"}\t\n"),
            Event::Json(Payload::FakeMailNetIndex(fakemail_net::IndexResponse {
                email: "erin@filesaved.org".to_string(),
            })),
        ],
    );
    assert_eq!(asked.len(), 8);
    let xhr = vec![("X-Requested-With", "XMLHttpRequest")];
    let (request, read) = sent(&asked[1]);
    assert_eq!((request.url.as_str(), read), ("https://www.fakemail.net/", Read::Text));
    assert!(request.headers.is_empty());
    let (request, read) = sent(&asked[2]);
    assert_eq!((request.url.as_str(), read), ("https://www.fakemail.net/index/index", Read::Status));
    assert_eq!(pairs(&request.headers), xhr);
    assert_eq!(pairs(&request.query), vec![("csrf_token", "abc123")]);
    let (request, read) = sent(&asked[3]);
    assert_eq!((request.url.as_str(), read), ("https://www.fakemail.net/index/email-check", Read::Text));
    assert_eq!(request.method, Method::Post);
    assert_eq!(pairs(&request.headers), xhr);
    assert_eq!(form_fields(request), vec![("email", "erin"), ("format", "json")]);
    let (request, read) = sent(&asked[4]);
    assert_eq!((request.url.as_str(), read), ("https://www.fakemail.net/index/new-email", Read::Text));
    assert_eq!(form_fields(request), vec![("emailInput", "erin"), ("format", "json")]);
    let (request, _) = sent(&asked[5]);
    assert_eq!(request.url, "https://www.fakemail.net/");
    let (request, read) = sent(&asked[6]);
    assert_eq!((request.url.as_str(), read), ("https://www.fakemail.net/index/index", Read::Text));
    assert_eq!(pairs(&request.query), vec![("csrf_token", "second")]);
    match &asked[7] {
        Action::Parse(Shape::FakeMailNetIndex, text) => {
            assert_eq!(text, "{\"email\":\"erin@filesaved.org\"}")
        }
        other => panic!("unexpected: {:?}", other),
    }
    let inbox = result.unwrap();
    assert_eq!(*inbox.get_email_address(), EmailAddress::new("erin", Domain::FileSavedOrg));
    assert_eq!(session(&inbox), (ProviderType::FakeMailNet, None));
}

#[test]
fn fakemail_net_creation_failures() {
    let provider = ProviderType::FakeMailNet.get_provider();
    let start = || provider.new_inbox("erin", Domain::FileSavedOrg);
    let (_, result) = create(start(), vec![Event::Connected, text("nothing here")]);
    assert!(matches!(result, Err(InboxCreationError::CreationError(r)) if r == "Failed to find CSRF token"));
    let (_, result) = create(start(), vec![Event::Connected, text(HOME_PAGE), Event::Status(503), text("down")]);
    assert!(matches!(result, Err(InboxCreationError::CreationError(r)) if r == "down"));
    let (_, result) = create(
        start(),
        vec![Event::Connected, text(HOME_PAGE), Event::Status(503), Event::Failed(transport_failure())],
    );
    assert!(matches!(result, Err(InboxCreationError::CreationError(r)) if r.is_empty()));
    let (_, result) = create(
        start(),
        vec![Event::Connected, text(HOME_PAGE), Event::Status(200), text("\"taken\"")],
    );
    assert!(matches!(result, Err(InboxCreationError::NameTaken(name)) if name == "erin"));
    let (_, result) = create(
        start(),
        vec![Event::Connected, text(HOME_PAGE), Event::Status(200), text("\"ok\""), text("\"nope\"")],
    );
    assert!(matches!(result, Err(InboxCreationError::CreationError(r)) if r == "\"nope\""));
    let (_, result) = create(
        start(),
        vec![
            Event::Connected,
            text(HOME_PAGE),
            Event::Status(200),
            text("\"ok\""),
            text("\"ok\""),
            text(HOME_PAGE),
            text("<html>"),
            Event::Malformed("expected value at line 1 column 1".to_string()),
        ],
    );
    assert!(matches!(
        result,
        Err(InboxCreationError::CreationError(r)) if r == "Failed to parse JSON: expected value at line 1 column 1"
    ));
    let (_, result) = create(
        start(),
        vec![Event::Connected, text(HOME_PAGE), Event::Status(200), Event::Failed(transport_failure())],
    );
    assert!(matches!(result, Err(InboxCreationError::RquestError(_))));
}

fn fakemail_list(count: usize) -> Event {
    Event::Json(Payload::FakeMailNetList(
        (0..count)
            .map(|i| fakemail_net::EmailListEntry {
                subject: format!("subject {}", i),
                from: format!("from {}", i),
            })
            .collect(),
    ))
}

#[test]
fn fakemail_net_fetch_goes_backwards_and_skips_the_last() {
    let fetcher = fakemail_net::FakeMailNetMessageFetcher {};
    let (asked, result) = fetch(
        fetcher.fetch_messages(),
        vec![text("  [..]  "), fakemail_list(4), text("body a"), text("body b"), text("body c")],
    );
    let (request, read) = sent(&asked[0]);
    assert_eq!((request.url.as_str(), read), ("https://www.fakemail.net/index/refresh", Read::Text));
    assert_eq!(pairs(&request.headers), vec![("X-Requested-With", "XMLHttpRequest")]);
    assert!(matches!(&asked[1], Action::Parse(Shape::FakeMailNetList, text) if text == "[..]"));
    for (i, number) in [2, 3, 4].iter().enumerate() {
        let (request, read) = sent(&asked[i + 2]);
        assert_eq!(read, Read::Text);
        assert_eq!(request.url, format!("https://www.fakemail.net/email/id/{}", number));
        assert_eq!(pairs(&request.headers), vec![("X-Requested-With", "XMLHttpRequest")]);
    }
    assert_eq!(
        result.unwrap(),
        vec![
            message("from 2", "subject 2", "body a"),
            message("from 1", "subject 1", "body b"),
            message("from 0", "subject 0", "body c"),
        ]
    );
}

#[test]
fn fakemail_net_fetch_numbers_have_several_digits() {
    let fetcher = fakemail_net::FakeMailNetMessageFetcher {};
    let mut events = vec![text("[]"), fakemail_list(12)];
    events.extend((0..11).map(|_| text("b")));
    let (asked, result) = fetch(fetcher.fetch_messages(), events);
    let (request, _) = sent(&asked[10]);
    assert_eq!(request.url, "https://www.fakemail.net/email/id/10");
    let (request, _) = sent(&asked[12]);
    assert_eq!(request.url, "https://www.fakemail.net/email/id/12");
    assert_eq!(result.unwrap().len(), 11);
}

#[test]
fn fakemail_net_fetch_edge_cases() {
    let fetcher = fakemail_net::FakeMailNetMessageFetcher {};
    for count in [0, 1] {
        let (asked, result) = fetch(fetcher.fetch_messages(), vec![text("[]"), fakemail_list(count)]);
        assert_eq!(asked.len(), 2);
        assert_eq!(result.unwrap(), vec![]);
    }
    let (_, result) = fetch(
        fetcher.fetch_messages(),
        vec![text("oops"), Event::Malformed("expected value".to_string())],
    );
    assert!(matches!(
        result,
        Err(MessageFetcherError::FetchError(r)) if r == "Failed to parse JSON: expected value"
    ));
    let (_, result) = fetch(
        fetcher.fetch_messages(),
        vec![text("[]"), fakemail_list(3), text("b"), Event::Failed(transport_failure())],
    );
    assert!(matches!(result, Err(MessageFetcherError::RquestError(_))));
}

#[test]
fn messages_are_brought_to_the_common_form() {
    assert_eq!(
        Message::from(tempmail_lol::Email { from: "f".into(), subject: "s".into(), body: "b".into() }),
        message("f", "s", "b")
    );
    assert_eq!(
        Message::from(mail_tm::Email { from: "f".into(), subject: "s".into(), text: "t".into() }),
        message("f", "s", "t")
    );
    assert_eq!(
        Message::from(muellmail::Email {
            subject: "s".into(),
            sender: "f".into(),
            html: None,
            text: Some("t".into()),
        }),
        message("f", "s", "t")
    );
    assert!(matches!(
        mail_tm::classify_refusal(
            &EmailAddress::new("n", Domain::MuellIo),
            &mail_tm::Violation { status: 422, violations: vec![] }
        ),
        InboxCreationError::CreationError(reason) if reason == "Failed to create inbox: Unknown error"
    ));
}

#[test]
fn inbox_starts_the_fetch_of_its_provider() {
    let provider: Provider = ProviderType::Muellmail.get_provider();
    assert_eq!(provider.get_provider_type(), ProviderType::Muellmail);
    let inbox = mail_tm_inbox("z");
    assert_eq!(*inbox.get_email_address(), EmailAddress::new("n", Domain::MuellIo));
    match inbox.get_messages() {
        FetchStep::Continue(_, Action::Send(request, Read::Json(Shape::MailTmList))) => {
            assert_eq!(request.bearer.as_deref(), Some("z"))
        }
        other => panic!("unexpected: {:?}", other),
    }
}

#[test]
fn two_fetches_of_one_inbox_do_not_mix() {
    let inbox = mail_tm_inbox("tok");
    let list = |ids: &[&str]| {
        Event::Json(Payload::MailTmList(
            ids.iter().map(|id| mail_tm::EmailListEntry { id: id.to_string() }).collect(),
        ))
    };
    let email = |n: &str| {
        Event::Json(Payload::MailTmEmail(mail_tm::Email {
            from: n.to_string(),
            subject: n.to_string(),
            text: n.to_string(),
        }))
    };
    let advance = |step: FetchStep, event: Event| match step {
        FetchStep::Continue(state, _) => state.advance(event),
        other => panic!("the fetch has ended: {:?}", other),
    };
    let first = inbox.get_messages();
    let second = inbox.get_messages();
    let first = advance(first, list(&["a", "b"]));
    let second = advance(second, list(&["c"]));
    let first = advance(first, email("1"));
    let second = advance(second, email("3"));
    let first = advance(first, email("2"));
    assert!(matches!(first, FetchStep::Done(Ok(messages)) if messages == vec![message("1", "1", "1"), message("2", "2", "2")]));
    assert!(matches!(second, FetchStep::Done(Ok(messages)) if messages == vec![message("3", "3", "3")]));
}

#[test]
fn every_payload_has_its_shape() {
    let payloads = vec![
        (Payload::FakeMailNetIndex(fakemail_net::IndexResponse { email: "e".into() }), Shape::FakeMailNetIndex),
        (Payload::FakeMailNetList(vec![]), Shape::FakeMailNetList),
        (Payload::MailTmDomains(vec![]), Shape::MailTmDomains),
        (Payload::MailTmToken(mail_tm::LoginResponse { token: "t".into() }), Shape::MailTmToken),
        (
            Payload::MailTmViolation(mail_tm::Violation { status: 422, violations: vec![] }),
            Shape::MailTmViolation,
        ),
        (Payload::MailTmList(vec![]), Shape::MailTmList),
        (
            Payload::MailTmEmail(mail_tm::Email { from: "f".into(), subject: "s".into(), text: "t".into() }),
            Shape::MailTmEmail,
        ),
        (Payload::MuellmailCsrf(muellmail::CsrfResponse { csrf_token: "c".into() }), Shape::MuellmailCsrf),
        (Payload::MuellmailAnon(muellmail::AnonResponse { url: "u".into() }), Shape::MuellmailAnon),
        (Payload::MuellmailEmails(vec![]), Shape::MuellmailEmails),
        (
            Payload::TempMailLolInbox(tempmail_lol::InboxResponse { address: "a".into(), token: "t".into() }),
            Shape::TempMailLolInbox,
        ),
        (Payload::TempMailLolEmails(vec![]), Shape::TempMailLolEmails),
    ];
    for (i, (payload, shape)) in payloads.iter().enumerate() {
        assert_eq!(payload.shape(), *shape);
        for (j, (_, other)) in payloads.iter().enumerate() {
            assert_eq!(i == j, *shape == *other);
        }
    }
}
