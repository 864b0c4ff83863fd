//! Authenticated local dispatch: the wire message, the secret-matching
//! authorization rule, and the mapping from an authorized request to the
//! command that serves it.
//!
//! A requester sends one [`Message`], a secret and a request, over a local
//! socket. The dispatcher decodes it ([`codec`]), finds the remote identity
//! that the secret authorizes ([`identity`]), makes the command that opens
//! the session on that remote host ([`command`]), and runs it. What it does
//! with one connection, and how it goes on after a failure, is in
//! [`dispatch`]. The path in a request is chosen by the requester; [`shell`]
//! says how it is quoted for the remote shell and proves that the shell
//! reads it back as one word.
//!
//! Secrets are `secstr::SecUtf8` values ([`secret`]), JSON is read and
//! written by `serde_json` ([`json`]), and the quoting is that of
//! `shell_escape`.

pub mod codec;
pub mod command;
pub mod dispatch;
pub mod identity;
pub mod json;
pub mod message;
pub mod secret;
pub mod shell;

pub use message::{Message, MessageRequest, RequestKind};
