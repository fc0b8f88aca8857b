//! A message board for the Solana runtime: one guarded write of a fixed-size record.
//!
//! A signer posts a text of at most [`MAX_CONTENT_LENGTH`] bytes. The record that
//! results names the signer as its author, holds the text unchanged and is stamped
//! with the runtime's clock. Everything here is stated over plain values and proved;
//! the few calls into the runtime's crates are kept in [`host`].

pub mod board;
pub mod error;
pub mod host;
pub mod record;

pub use board::{initialize, post_message, post_message_at, validate_content, Initialize, PostMessage};
pub use error::{MessageError, PostError};
pub use record::{MessageAccount, MAX_CONTENT_LENGTH, MESSAGE_SPACE};
