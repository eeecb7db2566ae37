//! Sessions with a provider, driven from outside.
//!
//! Nothing here sends anything. Creating an inbox and fetching its messages
//! each go step by step: a step either names an action for the caller to
//! carry out, or is the end. The caller carries out the action and hands
//! what came of it back as an event, which yields the next step.

use vstd::prelude::*;
use std::str::FromStr;
use crate::email::{EmailAddress, EmailAddressView, Message, MessageView};
use crate::error::{
    EmailAddressErrorView, InboxCreationError, InboxCreationErrorView, MessageFetcherError,
    MessageFetcherErrorView,
};
use crate::exchange::{Action, ActionView, Awaited, Event, EventView};
use crate::provider::fakemail_net::{self, FakeMailNetMessageFetcher};
use crate::provider::mail_tm::{self, MailTmMessageFetcher};
use crate::provider::muellmail::{self, MuellmailMessageFetcher};
use crate::provider::tempmail_lol::{self, TempMailLolMessageFetcher};
use crate::provider::ProviderType;

verus! {

/// The session that an inbox fetches its messages through, one kind for each
/// provider.
#[derive(Debug)]
pub enum Fetcher {
    FakeMailNet(FakeMailNetMessageFetcher),
    MailTm(MailTmMessageFetcher),
    Muellmail(MuellmailMessageFetcher),
    TempMailLol(TempMailLolMessageFetcher),
}

pub enum FetcherView {
    FakeMailNet,
    MailTm { token: Seq<char> },
    Muellmail,
    TempMailLol { token: Seq<char> },
}

impl View for Fetcher {
    type V = FetcherView;

    open spec fn view(&self) -> FetcherView {
        match self {
            Fetcher::FakeMailNet(_) => FetcherView::FakeMailNet,
            Fetcher::MailTm(fetcher) => FetcherView::MailTm { token: fetcher.token@ },
            Fetcher::Muellmail(_) => FetcherView::Muellmail,
            Fetcher::TempMailLol(fetcher) => FetcherView::TempMailLol { token: fetcher.token@ },
        }
    }
}

impl FetcherView {
    /// The first step of a fetch through the session.
    pub open spec fn fetch_start(self) -> FetchStepView {
        match self {
            FetcherView::FakeMailNet => fakemail_net::fetch_start(),
            FetcherView::MailTm { token } => mail_tm::fetch_start(token),
            FetcherView::Muellmail => muellmail::fetch_start(),
            FetcherView::TempMailLol { token } => tempmail_lol::fetch_start(token),
        }
    }

    /// The provider that the session is held with.
    pub open spec fn provider_type(self) -> ProviderType {
        match self {
            FetcherView::FakeMailNet => ProviderType::FakeMailNet,
            FetcherView::MailTm { .. } => ProviderType::MailTm,
            FetcherView::Muellmail => ProviderType::Muellmail,
            FetcherView::TempMailLol { .. } => ProviderType::TempMailLol,
        }
    }

    /// The step that begins a fetch asks for something that the fetch then
    /// waits for.
    pub proof fn lemma_fetch_awaits_its_action(self)
        ensures
            self.fetch_start() matches FetchStepView::Continue(state, action) && state.awaited()
                == action.awaited(),
    {
    }

    /// A fetch begins at the provider that the session is held with.
    pub proof fn lemma_fetch_begins_at_the_provider(self)
        ensures
            self.fetch_start() matches FetchStepView::Continue(state, _) && state.provider_type()
                == self.provider_type(),
    {
    }
}

/// A session that can fetch the messages of its inbox.
pub trait MessageFetcher {
    /// The first step of a fetch through this session.
    spec fn fetch_start(&self) -> FetchStepView;

    /// Begins to fetch the messages of the inbox.
    fn fetch_messages(&self) -> (step: FetchStep)
        ensures
            step@ == self.fetch_start(),
    ;
}

impl MessageFetcher for Fetcher {
    open spec fn fetch_start(&self) -> FetchStepView {
        self@.fetch_start()
    }

    fn fetch_messages(&self) -> (step: FetchStep) {
        match self {
            Fetcher::FakeMailNet(fetcher) => fetcher.fetch_messages(),
            Fetcher::MailTm(fetcher) => fetcher.fetch_messages(),
            Fetcher::Muellmail(fetcher) => fetcher.fetch_messages(),
            Fetcher::TempMailLol(fetcher) => fetcher.fetch_messages(),
        }
    }
}

/// An inbox that a provider has made: its address, and the session that its
/// messages are fetched through.
#[derive(Debug)]
pub struct Inbox {
    message_fetcher: Fetcher,
    email_address: EmailAddress,
}

pub struct InboxView {
    pub message_fetcher: FetcherView,
    pub email_address: EmailAddressView,
}

impl View for Inbox {
    type V = InboxView;

    closed spec fn view(&self) -> InboxView {
        InboxView { message_fetcher: self.message_fetcher@, email_address: self.email_address@ }
    }
}

impl Inbox {
    /// The inbox of `email_address`, whose messages are fetched through
    /// `message_fetcher`.
    pub(crate) fn new(message_fetcher: Fetcher, email_address: EmailAddress) -> (inbox: Inbox)
        ensures
            inbox@ == (InboxView {
                message_fetcher: message_fetcher@,
                email_address: email_address@,
            }),
    {
        Inbox { message_fetcher, email_address }
    }

    /// Returns the address of the inbox.
    pub fn get_email_address(&self) -> (address: &EmailAddress)
        ensures
            address@ == self@.email_address,
    {
        &self.email_address
    }

    /// Begins to fetch the messages of the inbox. Every fetch asks the
    /// provider anew: nothing is kept from one fetch to the next.
    pub fn get_messages(&self) -> (step: FetchStep)
        ensures
            step@ == self@.message_fetcher.fetch_start(),
    {
        self.message_fetcher.fetch_messages()
    }
}

/// How far the creation of an inbox has come, one kind for each provider.
#[derive(Debug)]
pub enum Creation {
    FakeMailNet(fakemail_net::Creation),
    MailTm(mail_tm::Creation),
    Muellmail(muellmail::Creation),
    TempMailLol(tempmail_lol::Creation),
}

pub enum CreationView {
    FakeMailNet(fakemail_net::CreationView),
    MailTm(mail_tm::CreationView),
    Muellmail(muellmail::CreationView),
    TempMailLol(tempmail_lol::CreationView),
}

impl View for Creation {
    type V = CreationView;

    open spec fn view(&self) -> CreationView {
        match self {
            Creation::FakeMailNet(state) => CreationView::FakeMailNet(state@),
            Creation::MailTm(state) => CreationView::MailTm(state@),
            Creation::Muellmail(state) => CreationView::Muellmail(state@),
            Creation::TempMailLol(state) => CreationView::TempMailLol(state@),
        }
    }
}

impl CreationView {
    /// What the creation waits for.
    pub open spec fn awaited(self) -> Awaited {
        match self {
            CreationView::FakeMailNet(state) => state.awaited(),
            CreationView::MailTm(state) => state.awaited(),
            CreationView::Muellmail(state) => state.awaited(),
            CreationView::TempMailLol(state) => state.awaited(),
        }
    }

    /// Where the creation stands once `event` has come in.
    pub open spec fn next(self, event: EventView) -> CreationStepView {
        match self {
            CreationView::FakeMailNet(state) => state.next(event),
            CreationView::MailTm(state) => state.next(event),
            CreationView::Muellmail(state) => state.next(event),
            CreationView::TempMailLol(state) => state.next(event),
        }
    }

    /// The provider that the inbox is being created at.
    pub open spec fn provider_type(self) -> ProviderType {
        match self {
            CreationView::FakeMailNet(_) => ProviderType::FakeMailNet,
            CreationView::MailTm(_) => ProviderType::MailTm,
            CreationView::Muellmail(_) => ProviderType::Muellmail,
            CreationView::TempMailLol(_) => ProviderType::TempMailLol,
        }
    }

    /// How many events the creation can take in at most before it ends.
    pub open spec fn events_left(self) -> nat {
        match self {
            CreationView::FakeMailNet(state) => state.events_left(),
            CreationView::MailTm(state) => state.events_left(),
            CreationView::Muellmail(state) => state.events_left(),
            CreationView::TempMailLol(state) => state.events_left(),
        }
    }

    /// A creation stays with its provider: what it asks for next is asked of
    /// the same provider, and the inbox it ends with is held there.
    pub proof fn lemma_next_keeps_the_provider(self, event: EventView)
        requires
            event.answers(self.awaited()),
        ensures
            self.next(event).made_by(self.provider_type()),
    {
    }

    /// A creation ends: every event that it takes in brings it closer to its
    /// end, which is at most eight events away when the client is set up.
    pub proof fn lemma_next_uses_up_an_event(self, event: EventView)
        requires
            event.answers(self.awaited()),
        ensures
            self.next(event).events_left() < self.events_left(),
            self.events_left() <= 8,
    {
    }

    /// Whatever a creation asks for next is what it then waits for: the
    /// outcome of the action asked for is always an event that the creation
    /// can take in.
    pub proof fn lemma_next_awaits_its_action(self, event: EventView)
        requires
            event.answers(self.awaited()),
        ensures
            self.next(event) matches CreationStepView::Continue(state, action) ==> state.awaited()
                == action.awaited(),
    {
    }
}

impl Creation {
    /// What the creation waits for.
    pub fn awaited(&self) -> (awaited: Awaited)
        ensures
            awaited == self@.awaited(),
    {
        match self {
            Creation::FakeMailNet(state) => state.awaited(),
            Creation::MailTm(state) => state.awaited(),
            Creation::Muellmail(state) => state.awaited(),
            Creation::TempMailLol(state) => state.awaited(),
        }
    }

    /// Takes in what came of the action last asked for, and says how the
    /// creation goes on.
    pub fn advance(self, event: Event) -> (step: CreationStep)
        requires
            event@.answers(self@.awaited()),
        ensures
            step@ == self@.next(event@),
    {
        match self {
            Creation::FakeMailNet(state) => state.advance(event),
            Creation::MailTm(state) => state.advance(event),
            Creation::Muellmail(state) => state.advance(event),
            Creation::TempMailLol(state) => state.advance(event),
        }
    }
}

/// Where the creation of an inbox stands: either something is left to do, or
/// it has ended.
#[derive(Debug)]
pub enum CreationStep {
    /// Carry out the action, then hand what came of it to the creation.
    Continue(Creation, Action),
    /// The creation has ended, with an inbox or with the reason why there is none.
    Done(Result<Inbox, InboxCreationError>),
}

pub enum CreationStepView {
    Continue(CreationView, ActionView),
    Done(Result<InboxView, InboxCreationErrorView>),
}

impl View for CreationStep {
    type V = CreationStepView;

    open spec fn view(&self) -> CreationStepView {
        match self {
            CreationStep::Continue(state, action) => CreationStepView::Continue(state@, action@),
            CreationStep::Done(Ok(inbox)) => CreationStepView::Done(Ok(inbox@)),
            CreationStep::Done(Err(error)) => CreationStepView::Done(Err(error@)),
        }
    }
}

impl CreationStepView {
    /// The creation has failed.
    pub open spec fn failed(error: InboxCreationErrorView) -> CreationStepView {
        CreationStepView::Done(Err(error))
    }

    /// The creation has ended with an address that the provider gave as text:
    /// with the inbox of that address where the text can be read as one, else
    /// with the complaint that it cannot.
    pub open spec fn addressed(address: Seq<char>, fetcher: FetcherView) -> CreationStepView {
        match EmailAddress::parse(address) {
            Some(email_address) => CreationStepView::Done(
                Ok(InboxView { message_fetcher: fetcher, email_address }),
            ),
            None => CreationStepView::failed(
                InboxCreationErrorView::InvalidEmailAddress(
                    EmailAddressErrorView::InvalidEmailAddress(address),
                ),
            ),
        }
    }

    /// Whether the step belongs to a creation at the provider: it goes on
    /// there, or has ended with an inbox held there, or has failed.
    pub open spec fn made_by(self, provider_type: ProviderType) -> bool {
        match self {
            CreationStepView::Continue(state, _) => state.provider_type() == provider_type,
            CreationStepView::Done(Ok(inbox)) => inbox.message_fetcher.provider_type()
                == provider_type,
            CreationStepView::Done(Err(_)) => true,
        }
    }

    /// How many events the creation can take in at most from this step on.
    pub open spec fn events_left(self) -> nat {
        match self {
            CreationStepView::Continue(state, _) => state.events_left(),
            CreationStepView::Done(_) => 0,
        }
    }

    /// Where the creation stands once the events have come in, one after
    /// the other. A creation that has ended takes in no more.
    pub open spec fn after(self, events: Seq<EventView>) -> CreationStepView
        decreases events.len(),
    {
        if events.len() == 0 {
            self
        } else {
            match self {
                CreationStepView::Continue(state, _) => state.next(events.first()).after(
                    events.drop_first(),
                ),
                CreationStepView::Done(_) => self,
            }
        }
    }
}

impl CreationStep {
    /// Ends a creation with the address that the provider gave as text.
    pub fn addressed(address: &str, fetcher: Fetcher) -> (step: CreationStep)
        ensures
            step@ == CreationStepView::addressed(address@, fetcher@),
    {
        match EmailAddress::from_str(address) {
            Ok(email_address) => CreationStep::Done(Ok(Inbox::new(fetcher, email_address))),
            Err(error) => CreationStep::Done(Err(InboxCreationError::InvalidEmailAddress(error))),
        }
    }
}

/// How far the fetching of messages has come, one kind for each provider.
#[derive(Debug)]
pub enum Fetch {
    FakeMailNet(fakemail_net::Fetch),
    MailTm(mail_tm::Fetch),
    Muellmail(muellmail::Fetch),
    TempMailLol(tempmail_lol::Fetch),
}

pub enum FetchView {
    FakeMailNet(fakemail_net::FetchView),
    MailTm(mail_tm::FetchView),
    Muellmail(muellmail::Fetch),
    TempMailLol(tempmail_lol::Fetch),
}

impl View for Fetch {
    type V = FetchView;

    open spec fn view(&self) -> FetchView {
        match self {
            Fetch::FakeMailNet(state) => FetchView::FakeMailNet(state@),
            Fetch::MailTm(state) => FetchView::MailTm(state@),
            Fetch::Muellmail(state) => FetchView::Muellmail(*state),
            Fetch::TempMailLol(state) => FetchView::TempMailLol(*state),
        }
    }
}

impl FetchView {
    /// What the fetch waits for.
    pub open spec fn awaited(self) -> Awaited {
        match self {
            FetchView::FakeMailNet(state) => state.awaited(),
            FetchView::MailTm(state) => state.awaited(),
            FetchView::Muellmail(state) => state.awaited(),
            FetchView::TempMailLol(state) => state.awaited(),
        }
    }

    /// Where the fetch stands once `event` has come in.
    pub open spec fn next(self, event: EventView) -> FetchStepView {
        match self {
            FetchView::FakeMailNet(state) => state.next(event),
            FetchView::MailTm(state) => state.next(event),
            FetchView::Muellmail(state) => state.next(event),
            FetchView::TempMailLol(state) => state.next(event),
        }
    }

    /// The provider that the messages are being fetched from.
    pub open spec fn provider_type(self) -> ProviderType {
        match self {
            FetchView::FakeMailNet(_) => ProviderType::FakeMailNet,
            FetchView::MailTm(_) => ProviderType::MailTm,
            FetchView::Muellmail(_) => ProviderType::Muellmail,
            FetchView::TempMailLol(_) => ProviderType::TempMailLol,
        }
    }

    /// A fetch stays with its provider.
    pub proof fn lemma_next_keeps_the_provider(self, event: EventView)
        requires
            event.answers(self.awaited()),
        ensures
            self.next(event) matches FetchStepView::Continue(state, _) ==> state.provider_type()
                == self.provider_type(),
    {
    }

    /// Whatever a fetch asks for next is what it then waits for.
    pub proof fn lemma_next_awaits_its_action(self, event: EventView)
        requires
            event.answers(self.awaited()),
        ensures
            self.next(event) matches FetchStepView::Continue(state, action) ==> state.awaited()
                == action.awaited(),
    {
    }
}

impl Fetch {
    /// What the fetch waits for.
    pub fn awaited(&self) -> (awaited: Awaited)
        ensures
            awaited == self@.awaited(),
    {
        match self {
            Fetch::FakeMailNet(state) => state.awaited(),
            Fetch::MailTm(state) => state.awaited(),
            Fetch::Muellmail(state) => state.awaited(),
            Fetch::TempMailLol(state) => state.awaited(),
        }
    }

    /// Takes in what came of the action last asked for, and says how the
    /// fetch goes on.
    pub fn advance(self, event: Event) -> (step: FetchStep)
        requires
            event@.answers(self@.awaited()),
        ensures
            step@ == self@.next(event@),
    {
        match self {
            Fetch::FakeMailNet(state) => state.advance(event),
            Fetch::MailTm(state) => state.advance(event),
            Fetch::Muellmail(state) => state.advance(event),
            Fetch::TempMailLol(state) => state.advance(event),
        }
    }
}

/// Where the fetching of messages stands: either something is left to do, or
/// it has ended.
#[derive(Debug)]
pub enum FetchStep {
    /// Carry out the action, then hand what came of it to the fetch.
    Continue(Fetch, Action),
    /// The fetch has ended, with the messages or with the reason why there are none.
    Done(Result<Vec<Message>, MessageFetcherError>),
}

pub enum FetchStepView {
    Continue(FetchView, ActionView),
    Done(Result<Seq<MessageView>, MessageFetcherErrorView>),
}

impl View for FetchStep {
    type V = FetchStepView;

    open spec fn view(&self) -> FetchStepView {
        match self {
            FetchStep::Continue(state, action) => FetchStepView::Continue(state@, action@),
            FetchStep::Done(Ok(messages)) => FetchStepView::Done(Ok(messages.deep_view())),
            FetchStep::Done(Err(error)) => FetchStepView::Done(Err(error@)),
        }
    }
}

impl FetchStepView {
    /// The fetch has failed.
    pub open spec fn failed(error: MessageFetcherErrorView) -> FetchStepView {
        FetchStepView::Done(Err(error))
    }

    /// Where the fetch stands once the events have come in, one after the
    /// other. A fetch that has ended takes in no more.
    pub open spec fn after(self, events: Seq<EventView>) -> FetchStepView
        decreases events.len(),
    {
        if events.len() == 0 {
            self
        } else {
            match self {
                FetchStepView::Continue(state, _) => state.next(events.first()).after(
                    events.drop_first(),
                ),
                FetchStepView::Done(_) => self,
            }
        }
    }
}

} // verus!
