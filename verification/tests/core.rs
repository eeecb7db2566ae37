use std::str::FromStr;

use ephemeral_email::text::{join, split_at_first, to_decimal};
use ephemeral_email::{Domain, EmailAddress, EmailAddressError, Message, ProviderType};

#[test]
fn test_domain_from_str() {
    assert_eq!(Domain::from("filesaved.org"), Domain::FileSavedOrg);
    assert_eq!(
        Domain::from("terriblecoffee.org"),
        Domain::TerribleCoffeeOrg
    );
    assert_eq!(
        Domain::from("custom.com"),
        Domain::Custom("custom.com".to_string())
    );
}

#[test]
fn test_domain_to_string() {
    assert_eq!(Domain::FileSavedOrg.to_string(), "filesaved.org");
    assert_eq!(Domain::TerribleCoffeeOrg.to_string(), "terriblecoffee.org");
    assert_eq!(
        Domain::Custom("custom.com".to_string()).to_string(),
        "custom.com"
    );
}

#[test]
fn test_email_address_display() {
    assert_eq!(
        EmailAddress::new("test", Domain::TenMinMailDe).to_string(),
        "test@10minmail.de"
    );
    assert_eq!(
        EmailAddress::new("test", Domain::Custom("custom.com".into())).to_string(),
        "test@custom.com"
    );
}

#[test]
fn test_email_address_from_str() {
    let email: EmailAddress = "test@10minmail.de".parse().unwrap();
    assert_eq!(email.name, "test");
    assert_eq!(email.domain, Domain::TenMinMailDe);

    let email: EmailAddress = "test@custom.com".parse().unwrap();
    assert_eq!(email.name, "test");
    assert_eq!(email.domain, Domain::Custom("custom.com".into()));
}

#[test]
fn test_email_address_from_str_invalid() {
    let email: Result<EmailAddress, _> = "invalid-email".parse();
    assert!(email.is_err());
}

#[test]
fn catalog_has_every_domain_once() {
    let all = Domain::get_all_domains();
    assert_eq!(all.len(), 41);
    assert_eq!(all[0], Domain::TenMinMailDe);
    assert_eq!(all[33], Domain::StacysMom);
    assert_eq!(all[34], Domain::FileSavedOrg);
    assert_eq!(all[40], Domain::UndeadBankCom);
    for (i, a) in all.iter().enumerate() {
        assert!(!a.is_custom());
        for b in all.iter().skip(i + 1) {
            assert_ne!(a, b);
            assert_ne!(a.to_string(), b.to_string());
        }
    }
}

#[test]
fn every_catalog_domain_round_trips() {
    for domain in Domain::get_all_domains() {
        let text = domain.to_string();
        assert_eq!(Domain::from(text.as_str()), domain);
    }
}

#[test]
fn unknown_text_is_a_custom_domain() {
    for text in ["", "example.com", "FILESAVED.ORG", "filesaved.org ", "filesaved"] {
        let domain = Domain::from(text);
        assert!(domain.is_custom());
        assert_eq!(domain, Domain::Custom(text.to_string()));
        assert_eq!(domain.to_string(), text);
    }
}

#[test]
fn custom_domain_with_a_catalog_name_differs_from_the_catalog_domain() {
    let custom = Domain::Custom("filesaved.org".to_string());
    assert_ne!(custom, Domain::FileSavedOrg);
    assert_eq!(custom.to_string(), Domain::FileSavedOrg.to_string());
    assert_eq!(Domain::from(custom.to_string().as_str()), Domain::FileSavedOrg);
}

#[test]
fn domain_clone_is_equal() {
    for domain in Domain::get_all_domains() {
        assert_eq!(domain.clone(), domain);
    }
    let custom = Domain::Custom("a.b".to_string());
    assert_eq!(custom.clone(), custom);
    assert_ne!(custom, Domain::Custom("a.c".to_string()));
}

#[test]
fn address_text_round_trips() {
    for text in ["a@b.c", "@", "a@", "@b", "a@b@c", "alice@filesaved.org"] {
        let address = EmailAddress::from_str(text).unwrap();
        assert_eq!(address.to_string(), text);
    }
}

#[test]
fn address_splits_at_the_first_at_sign() {
    let address = EmailAddress::from_str("a@b@c").unwrap();
    assert_eq!(address.name, "a");
    assert_eq!(address.domain, Domain::Custom("b@c".to_string()));
    let address = EmailAddress::from_str("@x").unwrap();
    assert_eq!(address.name, "");
    assert_eq!(address.domain, Domain::Custom("x".to_string()));
}

#[test]
fn address_with_custom_domain() {
    let address = EmailAddress::from_str("a@custom.tld").unwrap();
    assert_eq!(address.domain, Domain::Custom("custom.tld".to_string()));
    assert_eq!(address, EmailAddress::new("a", Domain::Custom("custom.tld".to_string())));
}

#[test]
fn address_without_at_sign_is_refused_with_its_text() {
    match EmailAddress::from_str("invalid-email") {
        Err(EmailAddressError::InvalidEmailAddress(text)) => assert_eq!(text, "invalid-email"),
        other => panic!("unexpected: {:?}", other),
    }
    assert!(EmailAddress::from_str("").is_err());
}

#[test]
fn address_and_message_compare_by_content() {
    let a = EmailAddress::new("n", Domain::MuellIo);
    assert_eq!(a.clone(), a);
    assert_ne!(a, EmailAddress::new("m", Domain::MuellIo));
    assert_ne!(a, EmailAddress::new("n", Domain::MuellIcu));
    let m = Message {
        from: "f".to_string(),
        subject: "s".to_string(),
        body: "b".to_string(),
    };
    assert_eq!(m.clone(), m);
    let mut other = m.clone();
    other.body = "c".to_string();
    assert_ne!(m, other);
}

#[test]
fn provider_catalog_and_names() {
    let all = ProviderType::get_all_providers();
    assert_eq!(
        all,
        vec![
            ProviderType::FakeMailNet,
            ProviderType::MailTm,
            ProviderType::Muellmail,
            ProviderType::TempMailLol,
        ]
    );
    assert_eq!(ProviderType::FakeMailNet.to_string(), "FakeMail.net");
    assert_eq!(ProviderType::MailTm.to_string(), "Mail.tm");
    assert_eq!(ProviderType::Muellmail.to_string(), "Muellmail");
    assert_eq!(ProviderType::TempMailLol.to_string(), "TempMail.lol");
    for (i, provider_type) in all.iter().enumerate() {
        assert_eq!(ProviderType::sample(i), *provider_type);
        assert_eq!(provider_type.get_provider().get_provider_type(), *provider_type);
    }
}

#[test]
fn decimal_text_of_numbers() {
    assert_eq!(to_decimal(0), "0");
    assert_eq!(to_decimal(7), "7");
    assert_eq!(to_decimal(10), "10");
    assert_eq!(to_decimal(2024), "2024");
    assert_eq!(to_decimal(usize::MAX), usize::MAX.to_string());
}

#[test]
fn text_is_split_at_the_first_occurrence() {
    assert_eq!(split_at_first("a--b--c", "--"), Some(("a", "b--c")));
    assert_eq!(split_at_first("--b", "--"), Some(("", "b")));
    assert_eq!(split_at_first("abc", "--"), None);
    assert_eq!(split_at_first("abc", ""), Some(("", "abc")));
    assert_eq!(join("ab", "cd"), "abcd");
}
