//! What can go wrong when an inbox is created, when its messages are
//! fetched, and when an address is read.

use vstd::prelude::*;
use crate::provider::ProviderType;

verus! {

/// The failure type of the HTTP client, carried through untouched: nothing
/// here looks inside it.
#[verifier::external_type_specification]
#[verifier::external_body]
pub struct ExTransportError(reqwest::Error);

/// Why an email address could not be read.
#[derive(Debug)]
#[non_exhaustive]
pub enum EmailAddressError {
    /// The text holds no `@`; it is carried along.
    InvalidEmailAddress(String),
}

pub enum EmailAddressErrorView {
    InvalidEmailAddress(Seq<char>),
}

impl View for EmailAddressError {
    type V = EmailAddressErrorView;

    open spec fn view(&self) -> EmailAddressErrorView {
        match self {
            EmailAddressError::InvalidEmailAddress(text) => {
                EmailAddressErrorView::InvalidEmailAddress(text@)
            },
        }
    }
}

/// Why an inbox could not be created.
#[derive(Debug)]
#[non_exhaustive]
pub enum InboxCreationError {
    /// The HTTP layer failed.
    RquestError(reqwest::Error),
    /// The provider refused, for a reason not classified further.
    CreationError(String),
    /// The provider has no way to create an inbox for a given name and domain.
    ProviderNotImplemented,
    /// The provider cannot pick a domain by itself.
    DomainNotSupported,
    /// No provider serves the domain.
    NoProviderForDomain(String),
    /// The provider does not serve the domain.
    InvalidDomainForProvider(String, ProviderType),
    /// The name is in use by someone else.
    NameTaken(String),
    /// The provider rejects the name.
    InvalidName(String),
    /// The provider handed back an address that cannot be read.
    InvalidEmailAddress(EmailAddressError),
    /// The provider asks to slow down.
    RateLimited,
}

pub enum InboxCreationErrorView {
    RquestError(reqwest::Error),
    CreationError(Seq<char>),
    ProviderNotImplemented,
    DomainNotSupported,
    NoProviderForDomain(Seq<char>),
    InvalidDomainForProvider(Seq<char>, ProviderType),
    NameTaken(Seq<char>),
    InvalidName(Seq<char>),
    InvalidEmailAddress(EmailAddressErrorView),
    RateLimited,
}

impl View for InboxCreationError {
    type V = InboxCreationErrorView;

    open spec fn view(&self) -> InboxCreationErrorView {
        match self {
            InboxCreationError::RquestError(cause) => InboxCreationErrorView::RquestError(*cause),
            InboxCreationError::CreationError(detail) => InboxCreationErrorView::CreationError(detail@),
            InboxCreationError::ProviderNotImplemented => InboxCreationErrorView::ProviderNotImplemented,
            InboxCreationError::DomainNotSupported => InboxCreationErrorView::DomainNotSupported,
            InboxCreationError::NoProviderForDomain(domain) => {
                InboxCreationErrorView::NoProviderForDomain(domain@)
            },
            InboxCreationError::InvalidDomainForProvider(domain, provider) => {
                InboxCreationErrorView::InvalidDomainForProvider(domain@, *provider)
            },
            InboxCreationError::NameTaken(address) => InboxCreationErrorView::NameTaken(address@),
            InboxCreationError::InvalidName(address) => InboxCreationErrorView::InvalidName(address@),
            InboxCreationError::InvalidEmailAddress(cause) => {
                InboxCreationErrorView::InvalidEmailAddress(cause@)
            },
            InboxCreationError::RateLimited => InboxCreationErrorView::RateLimited,
        }
    }
}

/// Why the messages of an inbox could not be fetched.
#[derive(Debug)]
#[non_exhaustive]
pub enum MessageFetcherError {
    /// The HTTP layer failed.
    RquestError(reqwest::Error),
    /// The provider answered with a status that the fetch cannot go on from.
    InvalidResponseStatus(u16),
    /// The provider's answer could not be used, for a reason not classified further.
    FetchError(String),
}

pub enum MessageFetcherErrorView {
    RquestError(reqwest::Error),
    InvalidResponseStatus(u16),
    FetchError(Seq<char>),
}

impl View for MessageFetcherError {
    type V = MessageFetcherErrorView;

    open spec fn view(&self) -> MessageFetcherErrorView {
        match self {
            MessageFetcherError::RquestError(cause) => MessageFetcherErrorView::RquestError(*cause),
            MessageFetcherError::InvalidResponseStatus(status) => {
                MessageFetcherErrorView::InvalidResponseStatus(*status)
            },
            MessageFetcherError::FetchError(detail) => MessageFetcherErrorView::FetchError(detail@),
        }
    }
}

} // verus!
