use ephemeral_email::exchange::{Action, ClientOptions};
use ephemeral_email::provider::{
    contains, drawn_domain, random_name_of, Creation, CreationStep, Provider,
};
use ephemeral_email::{Domain, InboxCreationError, ProviderType, TempMail};

fn plain_client() -> ClientOptions {
    ClientOptions { cookie_store: true, impersonate_firefox: false }
}

fn browser_client() -> ClientOptions {
    ClientOptions { cookie_store: true, impersonate_firefox: true }
}

fn started(step: CreationStep) -> (Creation, ClientOptions) {
    match step {
        CreationStep::Continue(state, Action::Connect(options)) => (state, options),
        other => panic!("the creation did not start: {:?}", other),
    }
}

fn failure(step: CreationStep) -> InboxCreationError {
    match step {
        CreationStep::Done(Err(error)) => error,
        other => panic!("the creation did not fail: {:?}", other),
    }
}

fn is_made_up(name: &str) -> bool {
    name.chars().count() == 8
        && name.chars().all(|c| c.is_ascii_digit() || c.is_ascii_lowercase())
}

#[test]
fn provider_metadata() {
    let fakemail = ProviderType::FakeMailNet.get_provider();
    assert_eq!(fakemail.get_domains(), vec![Domain::FileSavedOrg]);
    assert!(!fakemail.support_custom_domains());
    let mail_tm = ProviderType::MailTm.get_provider();
    assert!(mail_tm.get_domains().is_empty());
    assert!(!mail_tm.support_custom_domains());
    let muellmail = ProviderType::Muellmail.get_provider();
    assert_eq!(muellmail.get_domains().len(), 34);
    assert_eq!(muellmail.get_domains()[0], Domain::TenMinMailDe);
    assert_eq!(muellmail.get_domains()[33], Domain::StacysMom);
    assert!(!muellmail.support_custom_domains());
    let tempmail = ProviderType::TempMailLol.get_provider();
    assert_eq!(
        tempmail.get_domains(),
        vec![
            Domain::TerribleCoffeeOrg,
            Domain::UnderseaGolfCom,
            Domain::JailBreakEverythingCom,
            Domain::Awesome47,
            Domain::ExpiredToasterOrg,
            Domain::UndeadBankCom,
        ]
    );
    assert!(tempmail.support_custom_domains());
}

#[test]
fn every_catalog_domain_has_exactly_one_provider() {
    for domain in Domain::get_all_domains() {
        let serving: Vec<ProviderType> = ProviderType::get_all_providers()
            .into_iter()
            .filter(|p| contains(&p.get_provider().get_domains(), &domain))
            .collect();
        assert_eq!(serving.len(), 1);
        assert_eq!(ProviderType::find_provider_for_domain(&domain), Some(serving[0]));
    }
}

#[test]
fn provider_lookup_by_domain() {
    assert_eq!(
        ProviderType::find_provider_for_domain(&Domain::FileSavedOrg),
        Some(ProviderType::FakeMailNet)
    );
    assert_eq!(
        ProviderType::find_provider_for_domain(&Domain::RamenMailDe),
        Some(ProviderType::Muellmail)
    );
    assert_eq!(
        ProviderType::find_provider_for_domain(&Domain::Awesome47),
        Some(ProviderType::TempMailLol)
    );
    assert_eq!(
        ProviderType::find_provider_for_domain(&Domain::Custom("example.com".to_string())),
        None
    );
    assert_eq!(
        ProviderType::find_provider_for_domain(&Domain::Custom("filesaved.org".to_string())),
        None
    );
}

#[test]
fn random_provider_is_of_the_catalog() {
    let all = ProviderType::get_all_providers();
    for _ in 0..64 {
        assert!(all.contains(&ProviderType::random()));
    }
}

#[test]
fn made_up_names_are_eight_small_letters_or_digits() {
    let provider = ProviderType::MailTm.get_provider();
    for _ in 0..64 {
        let name = provider.get_random_name();
        assert!(is_made_up(&name), "{}", name);
    }
    assert_eq!(random_name_of("AbC0xYZ9"), "abc0xyz9");
}

#[test]
fn random_domain_is_one_of_the_provider() {
    let fakemail = ProviderType::FakeMailNet.get_provider();
    assert_eq!(fakemail.get_random_domain().unwrap(), Domain::FileSavedOrg);
    let muellmail = ProviderType::Muellmail.get_provider();
    for _ in 0..64 {
        let domain = muellmail.get_random_domain().unwrap();
        assert!(contains(&muellmail.get_domains(), &domain));
    }
    for provider_type in [ProviderType::MailTm, ProviderType::TempMailLol] {
        assert!(matches!(
            provider_type.get_provider().get_random_domain(),
            Err(InboxCreationError::DomainNotSupported)
        ));
    }
    assert_eq!(drawn_domain(Some(&Domain::MuellIo)).unwrap(), Domain::MuellIo);
    assert!(matches!(drawn_domain(None), Err(InboxCreationError::DomainNotSupported)));
}

#[test]
fn explicit_provider_is_used_without_domain() {
    for provider_type in ProviderType::get_all_providers() {
        let builder = TempMail::new().provider_type(provider_type).name("alice");
        assert_eq!(builder.resolve_provider_type().unwrap(), provider_type);
        let (state, _) = started(builder.create_inbox());
        let made_by = match state {
            Creation::FakeMailNet(_) => ProviderType::FakeMailNet,
            Creation::MailTm(_) => ProviderType::MailTm,
            Creation::Muellmail(_) => ProviderType::Muellmail,
            Creation::TempMailLol(_) => ProviderType::TempMailLol,
        };
        assert_eq!(made_by, provider_type);
    }
}

#[test]
fn explicit_provider_wins_over_the_domain() {
    let builder = TempMail::new()
        .provider_type(ProviderType::TempMailLol)
        .domain(Domain::FileSavedOrg);
    assert_eq!(builder.resolve_provider_type().unwrap(), ProviderType::TempMailLol);
}

#[test]
fn domain_alone_selects_its_provider() {
    let builder = TempMail::new().domain(Domain::JagaEmail).name("bob");
    assert_eq!(builder.resolve_provider_type().unwrap(), ProviderType::Muellmail);
    let (state, options) = started(builder.create_inbox());
    assert!(matches!(state, Creation::Muellmail(_)));
    assert_eq!(options, browser_client());
}

#[test]
fn domain_without_provider_is_refused() {
    let builder = TempMail::new().domain(Domain::Custom("nobody.example".to_string()));
    match builder.resolve_provider_type() {
        Err(InboxCreationError::NoProviderForDomain(domain)) => assert_eq!(domain, "nobody.example"),
        other => panic!("unexpected: {:?}", other),
    }
    match failure(builder.create_inbox()) {
        InboxCreationError::NoProviderForDomain(domain) => assert_eq!(domain, "nobody.example"),
        other => panic!("unexpected: {:?}", other),
    }
}

#[test]
fn incompatible_domain_is_refused_before_anything_is_sent() {
    for (provider_type, domain) in [
        (ProviderType::FakeMailNet, Domain::MuellIo),
        (ProviderType::FakeMailNet, Domain::Custom("x.example".to_string())),
        (ProviderType::MailTm, Domain::FileSavedOrg),
        (ProviderType::Muellmail, Domain::Awesome47),
        (ProviderType::Muellmail, Domain::Custom("muell.io".to_string())),
        (ProviderType::TempMailLol, Domain::FileSavedOrg),
    ] {
        let text = domain.to_string();
        let step = TempMail::new()
            .provider_type(provider_type)
            .domain(domain)
            .name("carol")
            .create_inbox();
        match failure(step) {
            InboxCreationError::InvalidDomainForProvider(refused, by) => {
                assert_eq!(refused, text);
                assert_eq!(by, provider_type);
            }
            other => panic!("unexpected: {:?}", other),
        }
    }
}

#[test]
fn custom_domain_is_accepted_where_supported() {
    let step = TempMail::new()
        .provider_type(ProviderType::TempMailLol)
        .domain(Domain::Custom("test.invalid".to_string()))
        .name("alice")
        .create_inbox();
    let (state, options) = started(step);
    assert!(matches!(state, Creation::TempMailLol(_)));
    assert_eq!(options, plain_client());
}

#[test]
fn mail_tm_cannot_create_on_a_given_domain() {
    let provider = ProviderType::MailTm.get_provider();
    assert!(matches!(
        failure(provider.new_inbox("dave", Domain::FileSavedOrg)),
        InboxCreationError::ProviderNotImplemented
    ));
    assert!(matches!(
        failure(provider.new_random_inbox_from_domain(Domain::FileSavedOrg)),
        InboxCreationError::ProviderNotImplemented
    ));
}

#[test]
fn drawn_domain_decides_the_creation() {
    let provider = ProviderType::Muellmail.get_provider();
    let (state, _) = started(provider.new_inbox_on_drawn("erin", Ok(Domain::TonneTo)));
    assert!(matches!(state, Creation::Muellmail(_)));
    assert!(matches!(
        failure(provider.new_inbox_on_drawn("erin", Err(InboxCreationError::DomainNotSupported))),
        InboxCreationError::DomainNotSupported
    ));
}

#[test]
fn provider_without_domains_falls_back_to_the_name_alone() {
    for provider_type in [ProviderType::MailTm, ProviderType::TempMailLol] {
        let provider = provider_type.get_provider();
        let (_, options) = started(provider.new_random_inbox());
        assert_eq!(options, plain_client());
        let (_, options) = started(TempMail::new().provider_type(provider_type).create_inbox());
        assert_eq!(options, plain_client());
    }
}

#[test]
fn nothing_asked_for_starts_some_creation() {
    for _ in 0..32 {
        let (state, options) = started(TempMail::new().create_inbox());
        match state {
            Creation::Muellmail(_) => assert_eq!(options, browser_client()),
            _ => assert_eq!(options, plain_client()),
        }
    }
}

#[test]
fn builder_passes_the_provider_through() {
    let provider: Provider = ProviderType::FakeMailNet.get_provider();
    let (state, _) = started(TempMail::new().name("frank").create_inbox_with(provider));
    assert!(matches!(state, Creation::FakeMailNet(_)));
}

#[test]
fn builder_copies_ask_for_the_same() {
    let builder = TempMail::new()
        .provider_type(ProviderType::Muellmail)
        .domain(Domain::OidaIcu)
        .name("gina");
    let copy = builder.clone();
    let (first, _) = started(builder.create_inbox());
    let (second, _) = started(copy.create_inbox());
    assert_eq!(format!("{:?}", first), format!("{:?}", second));
    let empty = TempMail::default();
    assert_eq!(format!("{:?}", empty), format!("{:?}", TempMail::new()));
}
