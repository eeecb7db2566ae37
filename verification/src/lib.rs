//! Temporary email inboxes at several providers, without the sending.
//!
//! The library knows the catalog of domains and providers, settles which
//! provider an inbox is asked of, and knows for each provider which requests
//! make an inbox or fetch its messages and what the answers mean. It sends
//! nothing itself: the caller carries out the requests and hands back what
//! came of them.

pub mod domain;
pub mod email;
pub mod error;
pub mod exchange;
pub mod provider;
pub mod random;
pub mod temp_mail;
pub mod text;

pub use domain::Domain;
pub use email::{EmailAddress, Message};
pub use error::{EmailAddressError, InboxCreationError, MessageFetcherError};
pub use provider::{Inbox, MessageFetcher, ProviderType};
pub use temp_mail::TempMail;
