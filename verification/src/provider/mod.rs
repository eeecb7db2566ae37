//! The providers of inboxes: their catalog, what each serves, and how each
//! creates an inbox of which a name, a domain, both or neither is asked.

use vstd::prelude::*;
use crate::domain::{Domain, DomainView};
use crate::error::{InboxCreationError, InboxCreationErrorView};
use crate::provider::fakemail_net::FakeMailNetProvider;
use crate::provider::mail_tm::MailTmProvider;
use crate::provider::muellmail::MuellmailProvider;
use crate::provider::tempmail_lol::TempMailLolProvider;
use crate::random::{alphanumeric, choose_one, is_ascii_alphanumeric, random_index};
use crate::text::{ascii_lower, to_ascii_lowercase};

pub mod fakemail_net;
pub mod mail_tm;
pub mod muellmail;
pub mod session;
pub mod tempmail_lol;

pub use session::{
    Creation, CreationStep, CreationStepView, CreationView, Fetch, FetchStep, FetchStepView,
    FetchView, Fetcher, FetcherView, Inbox, InboxView, MessageFetcher,
};

verus! {

/// The identity of a provider.
#[derive(Debug, Clone, Copy, PartialEq, Eq, Hash, Structural)]
#[non_exhaustive]
pub enum ProviderType {
    /// The FakeMail.net provider.
    FakeMailNet,
    /// The Mail.tm provider.
    MailTm,
    /// The Muellmail.com provider.
    Muellmail,
    /// The TempMail.lol provider.
    TempMailLol,
}

/// Whether `domains` holds a domain that stands for `domain`.
pub open spec fn holds(domains: Seq<Domain>, domain: DomainView) -> bool {
    exists|i: int| 0 <= i < domains.len() && (#[trigger] domains[i])@ == domain
}

/// Whether `domains` holds `domain`.
pub fn contains(domains: &Vec<Domain>, domain: &Domain) -> (found: bool)
    ensures
        found == holds(domains@, domain@),
{
    let mut i: usize = 0;
    while i < domains.len()
        invariant
            i <= domains.len(),
            forall|j: int| 0 <= j < i ==> (#[trigger] domains@[j])@ != domain@,
        decreases domains.len() - i,
    {
        if domains[i] == *domain {
            return true;
        }
        i += 1;
    }
    false
}

/// Whether `name` can be a name that a provider makes up: eight characters,
/// each a small ASCII letter or a digit.
pub open spec fn is_random_name(name: Seq<char>) -> bool {
    &&& name.len() == 8
    &&& forall|i: int|
        0 <= i < name.len() ==> {
            let c = #[trigger] name[i];
            ('a' <= c && c <= 'z') || ('0' <= c && c <= '9')
        }
}

impl ProviderType {
    /// Every provider, in catalog order.
    pub open spec fn all() -> Seq<ProviderType> {
        seq![
            ProviderType::FakeMailNet,
            ProviderType::MailTm,
            ProviderType::Muellmail,
            ProviderType::TempMailLol,
        ]
    }

    /// The name under which a provider is shown.
    pub open spec fn name(self) -> Seq<char> {
        match self {
            ProviderType::FakeMailNet => "FakeMail.net"@,
            ProviderType::MailTm => "Mail.tm"@,
            ProviderType::Muellmail => "Muellmail"@,
            ProviderType::TempMailLol => "TempMail.lol"@,
        }
    }

    /// Returns every provider, in catalog order.
    pub fn get_all_providers() -> (providers: Vec<ProviderType>)
        ensures
            providers@ == Self::all(),
    {
        let providers = vec![
            ProviderType::FakeMailNet,
            ProviderType::MailTm,
            ProviderType::Muellmail,
            ProviderType::TempMailLol,
        ];
        assert(providers@ =~= Self::all());
        providers
    }

    /// Returns the name under which the provider is shown.
    pub fn to_string(&self) -> (text: String)
        ensures
            text@ == self.name(),
    {
        match self {
            ProviderType::FakeMailNet => "FakeMail.net".to_owned(),
            ProviderType::MailTm => "Mail.tm".to_owned(),
            ProviderType::Muellmail => "Muellmail".to_owned(),
            ProviderType::TempMailLol => "TempMail.lol".to_owned(),
        }
    }

    /// The domains that the provider lists as served. Custom domains are never
    /// among them.
    pub open spec fn domains(self) -> Seq<Domain> {
        match self {
            ProviderType::FakeMailNet => fakemail_net::domains(),
            ProviderType::MailTm => Seq::empty(),
            ProviderType::Muellmail => muellmail::domains(),
            ProviderType::TempMailLol => tempmail_lol::domains(),
        }
    }

    /// Whether the provider takes custom domains.
    pub open spec fn custom_domains(self) -> bool {
        self == ProviderType::TempMailLol
    }

    /// The domains among which the provider picks when it is to pick one by
    /// itself: those it lists, unless its server assigns the domain.
    pub open spec fn random_domains(self) -> Seq<Domain> {
        match self {
            ProviderType::TempMailLol => Seq::empty(),
            _ => self.domains(),
        }
    }

    /// Whether the provider lists `domain` as served.
    pub open spec fn serves(self, domain: DomainView) -> bool {
        holds(self.domains(), domain)
    }

    /// Whether an inbox on `domain` can be asked of the provider: it lists the
    /// domain, or the domain is custom and it takes custom domains.
    pub open spec fn accepts(self, domain: DomainView) -> bool {
        self.serves(domain) || (self.custom_domains() && domain.custom)
    }

    /// The first provider from position `start` of the catalog on that lists
    /// `domain` as served.
    pub open spec fn first_serving_from(domain: DomainView, start: int) -> Option<ProviderType>
        decreases Self::all().len() - start,
    {
        if start < 0 || start >= Self::all().len() {
            None
        } else if Self::all()[start].serves(domain) {
            Some(Self::all()[start])
        } else {
            Self::first_serving_from(domain, start + 1)
        }
    }

    /// The provider that is taken for `domain` where none is named: the first
    /// of the catalog that lists the domain as served.
    pub open spec fn provider_for(domain: DomainView) -> Option<ProviderType> {
        Self::first_serving_from(domain, 0)
    }

    /// Whether the provider has its own way of creating an inbox from a name
    /// alone, without a domain being picked first.
    pub open spec fn assigns_domain(self) -> bool {
        self == ProviderType::MailTm || self == ProviderType::TempMailLol
    }

    /// The first step of creating the inbox of `name` on `domain`.
    pub open spec fn creation(self, name: Seq<char>, domain: DomainView) -> CreationStepView {
        match self {
            ProviderType::FakeMailNet => fakemail_net::creation_start(name),
            ProviderType::MailTm => CreationStepView::failed(
                InboxCreationErrorView::ProviderNotImplemented,
            ),
            ProviderType::Muellmail => muellmail::creation_start(name, domain),
            ProviderType::TempMailLol => tempmail_lol::creation_start(name, Some(domain.name)),
        }
    }

    /// The first step of creating the inbox of `name` once a domain was
    /// drawn for it, or could not be drawn.
    pub open spec fn creation_on_drawn(
        self,
        name: Seq<char>,
        drawn: Result<DomainView, InboxCreationErrorView>,
    ) -> CreationStepView {
        match drawn {
            Ok(domain) => self.creation(name, domain),
            Err(error) => CreationStepView::failed(error),
        }
    }

    /// Whether `drawn` can come of the provider picking a domain by itself:
    /// one of those it picks among, or the complaint that there is none.
    pub open spec fn may_draw(self, drawn: Result<DomainView, InboxCreationErrorView>) -> bool {
        match drawn {
            Ok(domain) => holds(self.random_domains(), domain),
            Err(error) => self.random_domains().len() == 0
                && error == InboxCreationErrorView::DomainNotSupported,
        }
    }

    /// Whether `step` can be the first step of creating the inbox of `name`
    /// where no domain is asked for.
    ///
    /// A provider whose server assigns the domain goes its own way. Any
    /// other draws a domain and creates the inbox on it; with no domain to
    /// draw from it fails.
    pub open spec fn may_create_for_name(self, name: Seq<char>, step: CreationStepView) -> bool {
        match self {
            ProviderType::MailTm => step == mail_tm::creation_start(name),
            ProviderType::TempMailLol => step == tempmail_lol::creation_start(name, None),
            _ => exists|drawn: Result<DomainView, InboxCreationErrorView>|
                self.may_draw(drawn) && step == #[trigger] self.creation_on_drawn(name, drawn),
        }
    }

    /// Whether `step` can be the first step of creating an inbox on `domain`
    /// where no name is asked for: the inbox of a made-up name on that domain.
    pub open spec fn may_create_for_domain(self, domain: DomainView, step: CreationStepView) -> bool {
        exists|name: Seq<char>| is_random_name(name) && step == #[trigger] self.creation(name, domain)
    }

    /// Whether `step` can be the first step of creating an inbox where
    /// neither name nor domain is asked for.
    ///
    /// The name is made up. Where the provider can draw a domain, the inbox
    /// is created on it; where it cannot, the inbox is created for the name
    /// alone.
    pub open spec fn may_create_at_random(self, step: CreationStepView) -> bool {
        if self.random_domains().len() > 0 {
            exists|domain: DomainView|
                holds(self.random_domains(), domain) && #[trigger] self.may_create_for_domain(
                    domain,
                    step,
                )
        } else {
            exists|name: Seq<char>|
                is_random_name(name) && #[trigger] self.may_create_for_name(name, step)
        }
    }

    /// Whether `step` can be the first step of creating an inbox of which
    /// `name` and `domain` are asked, as far as they are given.
    pub open spec fn may_create(
        self,
        name: Option<Seq<char>>,
        domain: Option<DomainView>,
        step: CreationStepView,
    ) -> bool {
        match (name, domain) {
            (Some(name), Some(domain)) => step == self.creation(name, domain),
            (Some(name), None) => self.may_create_for_name(name, step),
            (None, Some(domain)) => self.may_create_for_domain(domain, step),
            (None, None) => self.may_create_at_random(step),
        }
    }

    /// Makes the provider of this type. Nothing is sent yet.
    pub fn get_provider(&self) -> (provider: Provider)
        ensures
            provider.provider_type() == *self,
    {
        match self {
            ProviderType::FakeMailNet => Provider::FakeMailNet(FakeMailNetProvider::new()),
            ProviderType::MailTm => Provider::MailTm(MailTmProvider::new()),
            ProviderType::Muellmail => Provider::Muellmail(MuellmailProvider::new()),
            ProviderType::TempMailLol => Provider::TempMailLol(TempMailLolProvider::new()),
        }
    }

    /// Returns the provider at position `index` of the catalog.
    pub fn sample(index: usize) -> (provider_type: ProviderType)
        requires
            index < Self::all().len(),
        ensures
            provider_type == Self::all()[index as int],
    {
        let providers = Self::get_all_providers();
        providers[index]
    }

    /// Draws a provider, each with the same chance.
    pub fn random() -> (provider_type: ProviderType)
        ensures
            Self::all().contains(provider_type),
    {
        let providers = Self::get_all_providers();
        let index = random_index(providers.len());
        Self::sample(index)
    }

    /// Finds the provider that is taken for `domain` where none is named.
    ///
    /// Every provider of the catalog is made and asked for its domains, in
    /// catalog order, until one lists the domain. Making a provider costs
    /// nothing and sends nothing, and the catalog is short.
    pub fn find_provider_for_domain(domain: &Domain) -> (found: Option<ProviderType>)
        ensures
            found == Self::provider_for(domain@),
    {
        let providers = Self::get_all_providers();
        let mut i: usize = 0;
        while i < providers.len()
            invariant
                i <= providers.len(),
                providers@ == Self::all(),
                Self::provider_for(domain@) == Self::first_serving_from(domain@, i as int),
            decreases providers.len() - i,
        {
            let served = providers[i].get_provider().get_domains();
            if contains(&served, domain) {
                return Some(providers[i]);
            }
            i += 1;
        }
        None
    }
}

/// A provider of inboxes.
#[derive(Debug)]
pub enum Provider {
    FakeMailNet(FakeMailNetProvider),
    MailTm(MailTmProvider),
    Muellmail(MuellmailProvider),
    TempMailLol(TempMailLolProvider),
}

/// What a drawn domain, or the complaint that came instead, stands for.
pub open spec fn view_of_drawn(drawn: Result<Domain, InboxCreationError>) -> Result<
    DomainView,
    InboxCreationErrorView,
> {
    match drawn {
        Ok(domain) => Ok(domain@),
        Err(error) => Err(error@),
    }
}

/// Turns what was drawn from a provider's domains into the domain itself, or
/// into the complaint that the provider has none to draw from.
pub fn drawn_domain(drawn: Option<&Domain>) -> (picked: Result<Domain, InboxCreationError>)
    ensures
        match (drawn, picked) {
            (Some(domain), Ok(copy)) => copy@ == domain@,
            (None, Err(error)) => error@ == InboxCreationErrorView::DomainNotSupported,
            _ => false,
        },
{
    match drawn {
        Some(domain) => Ok(domain.clone()),
        None => Err(InboxCreationError::DomainNotSupported),
    }
}

/// Brings a drawn text of letters and digits to the form of a made-up name.
pub fn random_name_of(drawn: &str) -> (name: String)
    ensures
        name@ == drawn@.map_values(|c: char| ascii_lower(c)),
{
    to_ascii_lowercase(drawn)
}

impl Provider {
    /// The type of the provider.
    pub open spec fn provider_type(self) -> ProviderType {
        match self {
            Provider::FakeMailNet(_) => ProviderType::FakeMailNet,
            Provider::MailTm(_) => ProviderType::MailTm,
            Provider::Muellmail(_) => ProviderType::Muellmail,
            Provider::TempMailLol(_) => ProviderType::TempMailLol,
        }
    }

    /// Returns the type of the provider.
    pub fn get_provider_type(&self) -> (provider_type: ProviderType)
        ensures
            provider_type == self.provider_type(),
    {
        match self {
            Provider::FakeMailNet(provider) => provider.get_provider_type(),
            Provider::MailTm(provider) => provider.get_provider_type(),
            Provider::Muellmail(provider) => provider.get_provider_type(),
            Provider::TempMailLol(provider) => provider.get_provider_type(),
        }
    }

    /// Returns the domains that the provider lists as served.
    pub fn get_domains(&self) -> (served: Vec<Domain>)
        ensures
            served@ == self.provider_type().domains(),
    {
        match self {
            Provider::FakeMailNet(provider) => provider.get_domains(),
            Provider::MailTm(provider) => {
                let served = provider.get_domains();
                assert(served@ =~= Seq::<Domain>::empty());
                served
            },
            Provider::Muellmail(provider) => provider.get_domains(),
            Provider::TempMailLol(provider) => provider.get_domains(),
        }
    }

    /// Whether the provider takes custom domains.
    pub fn support_custom_domains(&self) -> (supported: bool)
        ensures
            supported == self.provider_type().custom_domains(),
    {
        match self {
            Provider::TempMailLol(provider) => provider.support_custom_domains(),
            _ => false,
        }
    }

    /// Makes up a name: eight characters, each a small letter or a digit.
    pub fn get_random_name(&self) -> (name: String)
        ensures
            is_random_name(name@),
    {
        let drawn = alphanumeric(8);
        let name = random_name_of(drawn.as_str());
        assert forall|i: int| 0 <= i < name@.len() implies {
            let c = #[trigger] name@[i];
            ('a' <= c && c <= 'z') || ('0' <= c && c <= '9')
        } by {
            assert(is_ascii_alphanumeric(drawn@[i]));
            assert(name@[i] == ascii_lower(drawn@[i]));
        }
        name
    }

    /// Picks one of the domains that the provider picks among, each with the
    /// same chance. Fails with `DomainNotSupported` exactly when there is none.
    pub fn get_random_domain(&self) -> (picked: Result<Domain, InboxCreationError>)
        ensures
            match picked {
                Ok(domain) => self.provider_type().may_draw(Ok(domain@)),
                Err(error) => self.provider_type().may_draw(Err(error@)),
            },
    {
        match self {
            Provider::TempMailLol(provider) => provider.get_random_domain(),
            _ => {
                let served = self.get_domains();
                let drawn = choose_one(&served);
                drawn_domain(drawn)
            },
        }
    }

    /// Begins to create the inbox of `name` on `domain`.
    ///
    /// Mail.tm cannot: it ends at once with `ProviderNotImplemented`.
    pub fn new_inbox(&self, name: &str, domain: Domain) -> (step: CreationStep)
        ensures
            step@ == self.provider_type().creation(name@, domain@),
    {
        match self {
            Provider::FakeMailNet(provider) => provider.new_inbox(name, domain),
            Provider::MailTm(_) => CreationStep::Done(Err(InboxCreationError::ProviderNotImplemented)),
            Provider::Muellmail(provider) => provider.new_inbox(name, domain),
            Provider::TempMailLol(provider) => provider.new_inbox(name, domain),
        }
    }

    /// Begins to create the inbox of `name` on the domain that was drawn for
    /// it, or ends with the reason why none was drawn.
    pub fn new_inbox_on_drawn(&self, name: &str, drawn: Result<Domain, InboxCreationError>) -> (step:
        CreationStep)
        ensures
            step@ == self.provider_type().creation_on_drawn(name@, view_of_drawn(drawn)),
    {
        match drawn {
            Ok(domain) => self.new_inbox(name, domain),
            Err(error) => CreationStep::Done(Err(error)),
        }
    }

    /// Begins to create the inbox of `name`, on a domain that is not asked for.
    pub fn new_random_inbox_from_name(&self, name: &str) -> (step: CreationStep)
        ensures
            self.provider_type().may_create_for_name(name@, step@),
    {
        match self {
            Provider::MailTm(provider) => provider.new_random_inbox_from_name(name),
            Provider::TempMailLol(provider) => provider.new_random_inbox_from_name(name),
            _ => {
                let drawn = self.get_random_domain();
                let ghost drawn_view = view_of_drawn(drawn);
                let step = self.new_inbox_on_drawn(name, drawn);
                assert(self.provider_type().may_draw(drawn_view) && step@
                    == self.provider_type().creation_on_drawn(name@, drawn_view));
                step
            },
        }
    }

    /// Begins to create an inbox on `domain`, under a made-up name.
    pub fn new_random_inbox_from_domain(&self, domain: Domain) -> (step: CreationStep)
        ensures
            self.provider_type().may_create_for_domain(domain@, step@),
    {
        let name = self.get_random_name();
        let step = self.new_inbox(name.as_str(), domain);
        assert(is_random_name(name@) && step@ == self.provider_type().creation(name@, domain@));
        step
    }

    /// Begins to create an inbox of which nothing is asked.
    ///
    /// Where the provider can pick a domain, the inbox is created on it under
    /// a made-up name. Where it cannot, the inbox is created for a made-up
    /// name alone.
    pub fn new_random_inbox(&self) -> (step: CreationStep)
        ensures
            self.provider_type().may_create_at_random(step@),
    {
        match self.get_random_domain() {
            Ok(domain) => {
                let ghost drawn = domain@;
                let step = self.new_random_inbox_from_domain(domain);
                assert(holds(self.provider_type().random_domains(), drawn)
                    && self.provider_type().may_create_for_domain(drawn, step@));
                step
            },
            Err(_) => {
                let name = self.get_random_name();
                let step = self.new_random_inbox_from_name(name.as_str());
                assert(is_random_name(name@) && self.provider_type().may_create_for_name(
                    name@,
                    step@,
                ));
                step
            },
        }
    }
}

impl ProviderType {
    /// A provider that is found for a domain lists it as served, and no
    /// provider before it in the catalog does.
    pub proof fn lemma_provider_for_is_first(domain: DomainView, start: int)
        requires
            0 <= start,
        ensures
            match Self::first_serving_from(domain, start) {
                Some(found) => exists|at: int|
                    start <= at < Self::all().len() && Self::all()[at] == found && found.serves(
                        domain,
                    ) && forall|before: int|
                        start <= before < at ==> !(#[trigger] Self::all()[before]).serves(domain),
                None => forall|at: int|
                    start <= at < Self::all().len() ==> !(#[trigger] Self::all()[at]).serves(domain),
            },
        decreases Self::all().len() - start,
    {
        if start < Self::all().len() && !Self::all()[start].serves(domain) {
            Self::lemma_provider_for_is_first(domain, start + 1);
            match Self::first_serving_from(domain, start) {
                Some(found) => {
                    let at = choose|at: int|
                        start + 1 <= at < Self::all().len() && Self::all()[at] == found
                            && found.serves(domain) && forall|before: int|
                            start + 1 <= before < at ==> !(#[trigger] Self::all()[before]).serves(
                                domain,
                            );
                    assert(start <= at < Self::all().len() && Self::all()[at] == found
                        && found.serves(domain) && forall|before: int|
                        start <= before < at ==> !(#[trigger] Self::all()[before]).serves(domain));
                },
                None => {},
            }
        } else if start < Self::all().len() {
            assert(start <= start < Self::all().len() && Self::all()[start] == Self::all()[start]
                && forall|before: int|
                start <= before < start ==> !(#[trigger] Self::all()[before]).serves(domain));
        }
    }

    /// Where exactly one provider of the catalog serves a domain, that
    /// provider is found for it.
    pub proof fn lemma_only_server_is_found(domain: DomainView, provider_type: ProviderType)
        requires
            provider_type.serves(domain),
            forall|other: ProviderType| other.serves(domain) ==> other == provider_type,
        ensures
            Self::provider_for(domain) == Some(provider_type),
    {
        Self::lemma_provider_for_is_first(domain, 0);
        let at = match provider_type {
            ProviderType::FakeMailNet => 0int,
            ProviderType::MailTm => 1int,
            ProviderType::Muellmail => 2int,
            ProviderType::TempMailLol => 3int,
        };
        assert(Self::all()[at] == provider_type);
    }

    /// Where no provider of the catalog serves a domain, none is found for it.
    pub proof fn lemma_unserved_domain_has_no_provider(domain: DomainView)
        requires
            forall|other: ProviderType| !other.serves(domain),
        ensures
            Self::provider_for(domain) is None,
    {
        Self::lemma_provider_for_is_first(domain, 0);
    }

    /// A provider that cannot pick a domain by itself, asked for an inbox of
    /// which nothing is given, does not give up: it creates the inbox for a
    /// made-up name alone. In this catalog those providers have their own way
    /// of doing so, and the creation begins.
    pub proof fn lemma_without_domains_falls_back(self, step: CreationStepView)
        requires
            self.random_domains().len() == 0,
            self.may_create_at_random(step),
        ensures
            exists|name: Seq<char>| is_random_name(name) && #[trigger] self.may_create_for_name(name, step),
            self.assigns_domain(),
            step is Continue,
    {
        assert(fakemail_net::domains().len() == 1);
        assert(muellmail::domains().len() == 34);
    }

    /// The step that begins a creation asks for something that the creation
    /// then waits for.
    pub proof fn lemma_first_step_awaits_its_action(
        self,
        name: Option<Seq<char>>,
        domain: Option<DomainView>,
        step: CreationStepView,
    )
        requires
            self.may_create(name, domain, step),
        ensures
            step matches CreationStepView::Continue(state, action) ==> state.awaited()
                == action.awaited(),
    {
    }

    /// The domains that a provider lists are catalogued ones.
    pub proof fn lemma_listed_domains_are_catalogued(self, i: int)
        requires
            0 <= i < self.domains().len(),
        ensures
            !(self.domains()[i] is Custom),
    {
    }

    /// A provider lists a catalogued domain as served exactly when the domain
    /// itself stands in its list.
    pub proof fn lemma_serves_catalogued(self, domain: Domain)
        requires
            !(domain is Custom),
        ensures
            self.serves(domain@) <==> self.domains().contains(domain),
    {
        if self.serves(domain@) {
            let i = choose|i: int| 0 <= i < self.domains().len() && (#[trigger] self.domains()[i])@ == domain@;
            self.lemma_listed_domains_are_catalogued(i);
            Domain::lemma_names_distinct(self.domains()[i], domain);
        }
        if self.domains().contains(domain) {
            let i = choose|i: int| 0 <= i < self.domains().len() && self.domains()[i] == domain;
            assert((#[trigger] self.domains()[i])@ == domain@);
        }
    }

    /// Every catalogued domain is served by exactly one provider: the one
    /// that is found for it.
    pub proof fn lemma_catalogued_domain_has_one_provider(domain: Domain)
        requires
            !(domain is Custom),
        ensures
            Self::provider_for(domain@) is Some,
            forall|other: ProviderType| other.serves(domain@) <==> Self::provider_for(domain@) == Some(other),
    {
        ProviderType::FakeMailNet.lemma_serves_catalogued(domain);
        ProviderType::MailTm.lemma_serves_catalogued(domain);
        ProviderType::Muellmail.lemma_serves_catalogued(domain);
        ProviderType::TempMailLol.lemma_serves_catalogued(domain);
        Domain::lemma_catalog_complete(domain);
        let at = choose|at: int| 0 <= at < Domain::catalog().len() && Domain::catalog()[at] == domain;
        if at < 34 {
            assert(muellmail::domains()[at] == domain);
        } else if at == 34 {
            assert(fakemail_net::domains()[0] == domain);
        } else {
            assert(tempmail_lol::domains()[at - 35] == domain);
        }
        assert(forall|i: int| 0 <= i < 34 ==> muellmail::domains()[i] == Domain::catalog()[i]);
        assert(forall|i: int| 0 <= i < 6 ==> tempmail_lol::domains()[i] == Domain::catalog()[i + 35]);
        assert(fakemail_net::domains()[0] == Domain::catalog()[34]);
        assert(forall|i: int, j: int|
            0 <= i < j < 41 ==> Domain::catalog()[i] != Domain::catalog()[j]);
        Self::lemma_provider_for_is_first(domain@, 0);
    }

    /// Whatever is asked of an inbox, its creation begins at the provider
    /// that it is asked of, and nowhere else.
    pub proof fn lemma_creation_begins_at_the_provider(
        self,
        name: Option<Seq<char>>,
        domain: Option<DomainView>,
        step: CreationStepView,
    )
        requires
            self.may_create(name, domain, step),
        ensures
            step.made_by(self),
    {
    }
}

} // verus!
