//! The builder of inboxes: what is asked of an inbox, and how the rest is
//! settled.

use vstd::prelude::*;
use crate::domain::{Domain, DomainView};
use crate::error::{InboxCreationError, InboxCreationErrorView};
use crate::email::{EmailAddress, EmailAddressView};
use crate::exchange::{is_success, EventView, PayloadView};
use crate::provider::tempmail_lol::{lemma_creation_ends_with_the_reported_inbox, InboxResponseView};
use crate::provider::{
    contains, CreationStep, CreationStepView, FetcherView, InboxView, Provider, ProviderType,
};

verus! {

/// A builder of temporary inboxes.
///
/// A provider, a domain and a name can each be asked for, or left open.
/// What is left open is chosen when the inbox is created: a name is made up,
/// a domain is drawn among those of the provider, and the provider is the
/// first that serves the domain asked for, or drawn where none is asked for.
#[derive(Debug)]
pub struct TempMail {
    provider_type: Option<ProviderType>,
    domain: Option<Domain>,
    name: Option<String>,
}

/// What a builder has been asked for.
pub struct TempMailView {
    pub provider_type: Option<ProviderType>,
    pub domain: Option<DomainView>,
    pub name: Option<Seq<char>>,
}

impl View for TempMail {
    type V = TempMailView;

    closed spec fn view(&self) -> TempMailView {
        TempMailView {
            provider_type: self.provider_type,
            domain: self.domain.deep_view(),
            name: self.name.deep_view(),
        }
    }
}

impl TempMailView {
    /// The provider that the inbox is asked of, where `drawn` is the provider
    /// that is drawn if neither a provider nor a domain is asked for.
    ///
    /// A provider that is asked for is taken, whatever the domain. With a
    /// domain alone, the first provider that serves it is taken, and there
    /// may be none.
    pub open spec fn resolve(self, drawn: ProviderType) -> Result<
        ProviderType,
        InboxCreationErrorView,
    > {
        match (self.provider_type, self.domain) {
            (Some(provider_type), _) => Ok(provider_type),
            (None, Some(domain)) => match ProviderType::provider_for(domain) {
                Some(provider_type) => Ok(provider_type),
                None => Err(InboxCreationErrorView::NoProviderForDomain(domain.name)),
            },
            (None, None) => Ok(drawn),
        }
    }

    /// Whether an inbox as asked for can be asked of the provider: a domain
    /// that is asked for must be one that the provider accepts.
    pub open spec fn suits(self, provider_type: ProviderType) -> bool {
        match self.domain {
            Some(domain) => provider_type.accepts(domain),
            None => true,
        }
    }

    /// Whether `step` can be the first step of creating the inbox at the
    /// provider.
    ///
    /// Where the domain asked for does not suit the provider, the creation
    /// ends at once, before anything is sent.
    pub open spec fn may_create_with(self, provider_type: ProviderType, step: CreationStepView) -> bool {
        if self.suits(provider_type) {
            provider_type.may_create(self.name, self.domain, step)
        } else {
            step == CreationStepView::failed(
                InboxCreationErrorView::InvalidDomainForProvider(
                    self.domain.unwrap().name,
                    provider_type,
                ),
            )
        }
    }

    /// Whether `step` can be the first step of creating the inbox.
    pub open spec fn may_create(self, step: CreationStepView) -> bool {
        exists|drawn: ProviderType|
            ProviderType::all().contains(drawn) && match #[trigger] self.resolve(drawn) {
                Ok(provider_type) => self.may_create_with(provider_type, step),
                Err(error) => step == CreationStepView::failed(error),
            }
    }
}

impl Default for TempMail {
    fn default() -> (builder: Self)
        ensures
            builder@ == (TempMailView { provider_type: None, domain: None, name: None }),
    {
        TempMail { provider_type: None, domain: None, name: None }
    }
}

impl Clone for TempMail {
    fn clone(&self) -> (copy: Self)
        ensures
            copy@ == self@,
    {
        TempMail {
            provider_type: self.provider_type,
            domain: match &self.domain {
                Some(domain) => Some(domain.clone()),
                None => None,
            },
            name: match &self.name {
                Some(name) => Some(name.clone()),
                None => None,
            },
        }
    }
}

impl TempMail {
    /// Makes a builder of which nothing is asked yet.
    pub fn new() -> (builder: Self)
        ensures
            builder@ == (TempMailView { provider_type: None, domain: None, name: None }),
    {
        Self::default()
    }

    /// Asks for a provider. A domain that is asked for as well must be one
    /// that the provider accepts.
    pub fn provider_type(self, provider_type: ProviderType) -> (builder: Self)
        ensures
            builder@ == (TempMailView { provider_type: Some(provider_type), ..self@ }),
    {
        let mut builder = self;
        builder.provider_type = Some(provider_type);
        builder
    }

    /// Asks for a domain.
    pub fn domain(self, domain: Domain) -> (builder: Self)
        ensures
            builder@ == (TempMailView { domain: Some(domain@), ..self@ }),
    {
        let mut builder = self;
        builder.domain = Some(domain);
        builder
    }

    /// Asks for a name: what stands before the `@` of the address.
    ///
    /// Whether a name can be had twice, and which names are allowed, is up
    /// to the provider; some take the name as the beginning of the address
    /// only.
    pub fn name(self, name: &str) -> (builder: Self)
        ensures
            builder@ == (TempMailView { name: Some(name@), ..self@ }),
    {
        let mut builder = self;
        builder.name = Some(name.to_owned());
        builder
    }

    /// Settles which provider the inbox is asked of.
    pub fn resolve_provider_type(&self) -> (resolved: Result<ProviderType, InboxCreationError>)
        ensures
            exists|drawn: ProviderType|
                ProviderType::all().contains(drawn) && match (resolved, #[trigger] self@.resolve(drawn)) {
                    (Ok(provider_type), Ok(expected)) => provider_type == expected,
                    (Err(error), Err(expected)) => error@ == expected,
                    _ => false,
                },
    {
        match self.provider_type {
            Some(provider_type) => {
                assert(ProviderType::all().contains(ProviderType::all()[0]));
                assert(self@.resolve(ProviderType::all()[0]) == Ok::<
                    ProviderType,
                    InboxCreationErrorView,
                >(provider_type));
                Ok(provider_type)
            },
            None => match &self.domain {
                Some(domain) => {
                    assert(ProviderType::all().contains(ProviderType::all()[0]));
                    let ghost expected = self@.resolve(ProviderType::all()[0]);
                    match ProviderType::find_provider_for_domain(domain) {
                        Some(provider_type) => {
                            assert(expected == Ok::<ProviderType, InboxCreationErrorView>(provider_type));
                            Ok(provider_type)
                        },
                        None => {
                            let error = InboxCreationError::NoProviderForDomain(domain.to_string());
                            assert(expected == Err::<ProviderType, InboxCreationErrorView>(error@));
                            Err(error)
                        },
                    }
                },
                None => {
                    let drawn = ProviderType::random();
                    assert(self@.resolve(drawn) == Ok::<ProviderType, InboxCreationErrorView>(drawn));
                    Ok(drawn)
                },
            },
        }
    }

    /// Begins to create the inbox at `provider`.
    ///
    /// A domain that is asked for and that the provider does not accept ends
    /// the creation at once with `InvalidDomainForProvider`. Else the
    /// provider creates the inbox from what is asked for, and picks the rest.
    pub fn create_inbox_with(self, provider: Provider) -> (step: CreationStep)
        ensures
            self@.may_create_with(provider.provider_type(), step@),
    {
        if let Some(domain) = &self.domain {
            let served = provider.get_domains();
            let listed = contains(&served, domain);
            let custom = provider.support_custom_domains() && domain.is_custom();
            if !(listed || custom) {
                return CreationStep::Done(
                    Err(
                        InboxCreationError::InvalidDomainForProvider(
                            domain.to_string(),
                            provider.get_provider_type(),
                        ),
                    ),
                );
            }
        }
        match (self.name, self.domain) {
            (Some(name), Some(domain)) => provider.new_inbox(name.as_str(), domain),
            (Some(name), None) => provider.new_random_inbox_from_name(name.as_str()),
            (None, Some(domain)) => provider.new_random_inbox_from_domain(domain),
            (None, None) => provider.new_random_inbox(),
        }
    }

    /// Begins to create the inbox.
    ///
    /// What is not asked for is chosen now. The creation ends at once, before
    /// anything is sent, where no provider serves the domain asked for, or
    /// where the provider asked for does not accept it.
    pub fn create_inbox(self) -> (step: CreationStep)
        ensures
            self@.may_create(step@),
    {
        match self.resolve_provider_type() {
            Ok(provider_type) => {
                let provider = provider_type.get_provider();
                self.create_inbox_with(provider)
            },
            Err(error) => CreationStep::Done(Err(error)),
        }
    }
}

impl TempMailView {
    /// A provider that is asked for is the one that the inbox is asked of,
    /// whatever would have been drawn, and whether or not a domain is asked
    /// for.
    pub proof fn lemma_explicit_provider_is_used(
        self,
        provider_type: ProviderType,
        step: CreationStepView,
    )
        requires
            self.provider_type == Some(provider_type),
            self.may_create(step),
        ensures
            forall|drawn: ProviderType|
                self.resolve(drawn) == Ok::<ProviderType, InboxCreationErrorView>(provider_type),
            self.may_create_with(provider_type, step),
            self.domain is None ==> provider_type.may_create(self.name, None, step),
            step.made_by(provider_type),
    {
        if provider_type.may_create(self.name, self.domain, step) {
            provider_type.lemma_creation_begins_at_the_provider(self.name, self.domain, step);
        }
    }

    /// A domain that the provider asked for does not accept ends the
    /// creation with `InvalidDomainForProvider`, naming both, before anything
    /// is sent.
    pub proof fn lemma_incompatible_domain_is_refused(
        self,
        provider_type: ProviderType,
        domain: DomainView,
        step: CreationStepView,
    )
        requires
            self.provider_type == Some(provider_type),
            self.domain == Some(domain),
            !provider_type.accepts(domain),
            self.may_create(step),
        ensures
            step == CreationStepView::Done(
                Err(InboxCreationErrorView::InvalidDomainForProvider(domain.name, provider_type)),
            ),
    {
    }

    /// With a domain alone, the inbox is asked of the one provider that
    /// serves the domain.
    pub proof fn lemma_domain_selects_its_provider(
        self,
        provider_type: ProviderType,
        domain: DomainView,
        step: CreationStepView,
    )
        requires
            self.provider_type is None,
            self.domain == Some(domain),
            provider_type.serves(domain),
            forall|other: ProviderType| other.serves(domain) ==> other == provider_type,
            self.may_create(step),
        ensures
            forall|drawn: ProviderType|
                self.resolve(drawn) == Ok::<ProviderType, InboxCreationErrorView>(provider_type),
            provider_type.may_create(self.name, Some(domain), step),
            step.made_by(provider_type),
    {
        ProviderType::lemma_only_server_is_found(domain, provider_type);
        provider_type.lemma_creation_begins_at_the_provider(self.name, Some(domain), step);
    }

    /// With a domain alone that no provider serves, the creation ends with
    /// `NoProviderForDomain`, naming the domain, before anything is sent.
    pub proof fn lemma_unserved_domain_is_refused(self, domain: DomainView, step: CreationStepView)
        requires
            self.provider_type is None,
            self.domain == Some(domain),
            forall|other: ProviderType| !other.serves(domain),
            self.may_create(step),
        ensures
            step == CreationStepView::Done(
                Err(InboxCreationErrorView::NoProviderForDomain(domain.name)),
            ),
    {
        ProviderType::lemma_unserved_domain_has_no_provider(domain);
    }
}

impl TempMailView {
    /// An inbox asked of TempMail.lol under a name and on a domain that it
    /// accepts comes about with exactly that address, once the provider
    /// agrees and reports the address asked for.
    ///
    /// The name must hold no `@`, and the domain must be what its name is
    /// read as: a custom domain must not bear a catalogued name.
    pub proof fn lemma_inbox_has_the_address_asked_for(
        self,
        name: Seq<char>,
        domain: DomainView,
        step: CreationStepView,
        status: u16,
        token: Seq<char>,
    )
        requires
            self.provider_type == Some(ProviderType::TempMailLol),
            self.name == Some(name),
            self.domain == Some(domain),
            ProviderType::TempMailLol.accepts(domain),
            !name.contains('@'),
            domain == Domain::parse(domain.name),
            self.may_create(step),
            is_success(status),
        ensures
            ({
                let address = EmailAddressView { name, domain };
                step.after(
                    seq![
                        EventView::Connected,
                        EventView::Status(status),
                        EventView::Json(
                            PayloadView::TempMailLolInbox(
                                InboxResponseView { address: address.text(), token },
                            ),
                        ),
                    ],
                ) == CreationStepView::Done(
                    Ok(
                        InboxView {
                            message_fetcher: FetcherView::TempMailLol { token },
                            email_address: address,
                        },
                    ),
                )
            }),
    {
        let address = EmailAddressView { name, domain };
        EmailAddress::lemma_parse_of_text(address);
        lemma_creation_ends_with_the_reported_inbox(
            name,
            Some(domain.name),
            status,
            InboxResponseView { address: address.text(), token },
        );
    }
}

} // verus!
