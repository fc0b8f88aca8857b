//! The two operations of the board: a handshake, and posting a message.

use crate::error::{MessageError, PostError};
use crate::host::clock_unix_timestamp;
use crate::record::{byte_len, fits, MessageAccount, MessageView, MAX_CONTENT_LENGTH};
use anchor_lang::prelude::{ProgramError, Pubkey};
use vstd::prelude::*;

verus! {

/// What the handshake works on: nothing.
#[derive(Debug, Clone, Copy, PartialEq, Eq)]
pub struct Initialize {}

/// What a post works on.
#[derive(Debug, PartialEq, Eq)]
pub struct PostMessage {
    /// The record to fill: the slot that has been reserved for the new message.
    pub message: MessageAccount,
    /// Who signed the post.
    pub author: Pubkey,
}

/// The record that a post by `author` leaves behind.
pub open spec fn posted(author: Pubkey, content: Seq<char>, timestamp: i64) -> MessageView {
    MessageView { author, content, timestamp }
}

/// The handshake: it reads nothing, writes nothing and always succeeds. A caller
/// learns from it that the board is there.
pub fn initialize(_ctx: &Initialize) -> (r: Result<(), MessageError>)
    ensures
        r is Ok,
{
    Ok(())
}

/// The limit on the content is inclusive: a text of exactly
/// [`MAX_CONTENT_LENGTH`] bytes fits, and one byte more does not.
pub proof fn lemma_limit_is_inclusive(content: Seq<char>)
    ensures
        byte_len(content) == MAX_CONTENT_LENGTH ==> fits(content),
        byte_len(content) == MAX_CONTENT_LENGTH + 1 ==> !fits(content),
{
}

/// Checks that a text is short enough to be posted. The length that counts is the
/// one in bytes, and a text of exactly [`MAX_CONTENT_LENGTH`] bytes still passes.
pub fn validate_content(content: &str) -> (r: Result<(), MessageError>)
    ensures
        fits(content@) ==> r is Ok,
        !fits(content@) ==> r == Err::<(), MessageError>(MessageError::ContentTooLong),
{
    if content.as_bytes().len() <= MAX_CONTENT_LENGTH {
        Ok(())
    } else {
        Err(MessageError::ContentTooLong)
    }
}

/// Posts `content` in the name of the signer, given what the clock said.
///
/// The content is checked first, so a text that is too long is turned away
/// whatever the clock said. A clock that failed comes next: its error is passed
/// on. In both cases nothing is written. Otherwise the record names the signer
/// and no one else, holds the content as it was given and bears the time that
/// the clock told; what the record held before does not matter.
pub fn post_message_at(
    ctx: &mut PostMessage,
    content: String,
    clock: Result<i64, ProgramError>,
) -> (r: Result<(), PostError>)
    ensures
        !fits(content@) ==> r == Err::<(), PostError>(
            PostError::Message(MessageError::ContentTooLong),
        ),
        fits(content@) && clock is Err ==> r == Err::<(), PostError>(
            PostError::Clock(clock->Err_0),
        ),
        fits(content@) && clock is Ok ==> r is Ok,
        r is Err ==> *final(ctx) == *old(ctx),
        r is Ok ==> final(ctx).author == old(ctx).author,
        r is Ok ==> final(ctx).message@ == posted(old(ctx).author, content@, clock->Ok_0),
        r is Ok ==> final(ctx).message@.wf(),
{
    match validate_content(content.as_str()) {
        Err(e) => Err(PostError::Message(e)),
        Ok(()) => match clock {
            Err(e) => Err(PostError::Clock(e)),
            Ok(now) => {
                ctx.message.author = ctx.author;
                ctx.message.content = content;
                ctx.message.timestamp = now;
                Ok(())
            },
        },
    }
}

/// Posts `content` in the name of the signer, stamped with the runtime's clock.
///
/// A text that is too long is turned away before the clock is asked. If the
/// runtime cannot tell the time, its error is passed on. In both cases nothing
/// is written. Otherwise the record names the signer and holds the content as
/// it was given; its timestamp is what the clock told, which
/// [`post_message_at`] states for every reading.
pub fn post_message(ctx: &mut PostMessage, content: String) -> (r: Result<(), PostError>)
    ensures
        !fits(content@) <==> r == Err::<(), PostError>(
            PostError::Message(MessageError::ContentTooLong),
        ),
        fits(content@) ==> r is Ok || (r is Err && r->Err_0 is Clock),
        r is Err ==> *final(ctx) == *old(ctx),
        r is Ok ==> final(ctx).author == old(ctx).author,
        r is Ok ==> final(ctx).message@.author == old(ctx).author,
        r is Ok ==> final(ctx).message@.content == content@,
        r is Ok ==> final(ctx).message@.wf(),
{
    match validate_content(content.as_str()) {
        Err(e) => Err(PostError::Message(e)),
        Ok(()) => {
            let clock = clock_unix_timestamp();
            post_message_at(ctx, content, clock)
        },
    }
}

} // verus!
