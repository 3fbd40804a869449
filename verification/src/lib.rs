//! Invites to a chat channel, reconciled: a client that hands out an invite
//! that its bot already made where one will last long enough, and has a new
//! one made where none will.
//!
//! The client decides and composes; it does not touch the network. Each
//! operation that needs the API returns the request to send and takes what
//! came back, so every decision is made here, on plain values, and is proved:
//! which invite serves, when one is created, which failure an operation ends
//! in, and what every link and request reads.

pub mod clock;
pub mod error;
pub mod http;
pub mod invite;
pub mod json;
pub mod laws;
pub mod qr;
pub mod service;
pub mod text;

pub use error::{APIError, InviteifyError};
pub use http::{ChannelInvite, ChannelInviteRequest, User};
pub use service::{Inviteify, Step, Whoami};
