//! Bridge core for a team-messaging webhook bot.
//!
//! The crate models the messaging-platform client, the webhook ingestion
//! pipeline and the action fold loop as verified functions over plain data;
//! HTTP transport and task scheduling live outside the library.

use vstd::prelude::*;

pub mod api_types;
pub mod client;
pub mod ids;
pub mod json;
pub mod pipeline;
pub mod register;
pub mod server;
pub mod schema;
pub mod timestamp;

verus! {

/// Error taxonomy of the bridge: transport failures, JSON decode failures,
/// webhook-management failures, and state-store I/O failures.
#[derive(Clone, Copy, Debug, PartialEq, Eq, Structural)]
pub enum Error {
    /// Network, TLS or HTTP-level failure; carries the HTTP status when one
    /// was received.
    Transport(Option<u16>),
    /// Malformed JSON or a schema mismatch.
    Decode,
    /// The webhook registration convergence routine failed.
    RegisterWebhook,
    /// A webhook deletion failed for a reason other than the record being
    /// already gone.
    DeleteWebhook,
    /// State-store I/O failure.
    Io,
}

impl Error {
    /// Whether this error came from the transport layer.
    pub fn is_transport(&self) -> (r: bool)
        ensures
            r == (self is Transport),
    {
        match self {
            Error::Transport(_) => true,
            _ => false,
        }
    }

    /// A short description of the error kind.
    pub fn describe(&self) -> (r: String)
        ensures
            r@ == match self {
                Error::Transport(_) => "transport failure"@,
                Error::Decode => "could not decode"@,
                Error::RegisterWebhook => "could not register webhook"@,
                Error::DeleteWebhook => "could not delete webhook"@,
                Error::Io => "i/o failure"@,
            },
    {
        match self {
            Error::Transport(_) => "transport failure".to_owned(),
            Error::Decode => "could not decode".to_owned(),
            Error::RegisterWebhook => "could not register webhook".to_owned(),
            Error::DeleteWebhook => "could not delete webhook".to_owned(),
            Error::Io => "i/o failure".to_owned(),
        }
    }
}

} // verus!
