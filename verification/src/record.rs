//! The record that a post creates, and the bytes it is stored as.

use crate::error::MessageError;
use crate::host::{key_bytes, key_to_bytes};
use anchor_lang::prelude::Pubkey;
use vstd::prelude::*;
use vstd::utf8::encode_utf8;

verus! {

/// The most bytes that the content of a message may take.
pub const MAX_CONTENT_LENGTH: usize = 280;

/// Bytes of the tag that opens every stored record.
pub const DISCRIMINATOR_LENGTH: usize = 8;

/// Bytes of an author's key.
pub const AUTHOR_LENGTH: usize = 32;

/// Bytes of the prefix that gives the content's length.
pub const LENGTH_PREFIX_LENGTH: usize = 4;

/// Bytes of the timestamp.
pub const TIMESTAMP_LENGTH: usize = 8;

/// Where the author's key starts in a stored record.
pub const AUTHOR_OFFSET: usize = DISCRIMINATOR_LENGTH;

/// Where the content's length prefix starts in a stored record.
pub const LENGTH_PREFIX_OFFSET: usize = AUTHOR_OFFSET + AUTHOR_LENGTH;

/// Where the content starts in a stored record.
pub const CONTENT_OFFSET: usize = LENGTH_PREFIX_OFFSET + LENGTH_PREFIX_LENGTH;

/// The bytes to reserve for a record: room for the longest content there can be.
pub const MESSAGE_SPACE: usize = CONTENT_OFFSET + MAX_CONTENT_LENGTH + TIMESTAMP_LENGTH;

/// How many bytes a text takes: its length in UTF-8, not its number of characters.
pub open spec fn byte_len(content: Seq<char>) -> nat {
    encode_utf8(content).len()
}

/// Whether a text is short enough to be the content of a message.
pub open spec fn fits(content: Seq<char>) -> bool {
    byte_len(content) <= MAX_CONTENT_LENGTH
}

/// The `width` low bytes of `value`, lowest first.
pub open spec fn le_bytes(value: nat, width: nat) -> Seq<u8>
    decreases width,
{
    if width == 0 {
        Seq::empty()
    } else {
        seq![(value % 256) as u8] + le_bytes(value / 256, (width - 1) as nat)
    }
}

/// A signed 64-bit number read as an unsigned one, bit for bit.
pub open spec fn twos_complement(value: i64) -> nat {
    if value >= 0 {
        value as nat
    } else {
        (value + 0x1_0000_0000_0000_0000) as nat
    }
}

/// One message on the board.
#[derive(Debug, PartialEq, Eq)]
pub struct MessageAccount {
    /// Who posted the message.
    pub author: Pubkey,
    /// What the message says.
    pub content: String,
    /// When it was posted, in seconds since the Unix epoch.
    pub timestamp: i64,
}

/// What a [`MessageAccount`] holds, as mathematics sees it.
pub ghost struct MessageView {
    pub author: Pubkey,
    pub content: Seq<char>,
    pub timestamp: i64,
}

impl MessageView {
    /// The invariant of a stored record: its content fits.
    pub open spec fn wf(self) -> bool {
        fits(self.content)
    }

    /// The bytes that the record is stored as, behind the tag `discriminator`:
    /// the author's key, the content's length in four bytes, the content, and
    /// the timestamp in eight bytes, both numbers lowest byte first.
    pub open spec fn stored(self, discriminator: Seq<u8>) -> Seq<u8> {
        discriminator + key_bytes(self.author)@ + le_bytes(
            byte_len(self.content),
            LENGTH_PREFIX_LENGTH as nat,
        ) + encode_utf8(self.content) + le_bytes(
            twos_complement(self.timestamp),
            TIMESTAMP_LENGTH as nat,
        )
    }
}

impl View for MessageAccount {
    type V = MessageView;

    open spec fn view(&self) -> MessageView {
        MessageView { author: self.author, content: self.content@, timestamp: self.timestamp }
    }
}

impl Clone for MessageAccount {
    /// A copy that holds what the record holds.
    fn clone(&self) -> (copy: MessageAccount)
        ensures
            copy@ == self@,
    {
        MessageAccount {
            author: self.author,
            content: self.content.clone(),
            timestamp: self.timestamp,
        }
    }
}

impl MessageAccount {
    /// The bytes to store the record as, behind the tag `discriminator`; see
    /// [`MessageView::stored`] for their layout. A record whose content does not
    /// fit is not stored: it would not go into the space reserved for it.
    pub fn serialize(&self, discriminator: &[u8; 8]) -> (r: Result<Vec<u8>, MessageError>)
        ensures
            self@.wf() ==> r is Ok && r->Ok_0@ == self@.stored(discriminator@),
            !self@.wf() ==> r == Err::<Vec<u8>, MessageError>(MessageError::ContentTooLong),
            r is Ok ==> r->Ok_0@.len() == CONTENT_OFFSET + byte_len(self@.content)
                + TIMESTAMP_LENGTH,
            r is Ok ==> r->Ok_0@.len() <= MESSAGE_SPACE,
    {
        let content = self.content.as_str().as_bytes();
        if content.len() > MAX_CONTENT_LENGTH {
            return Err(MessageError::ContentTooLong);
        }
        let author = key_to_bytes(&self.author);
        let mut out: Vec<u8> = Vec::new();
        append(&mut out, discriminator.as_slice());
        append(&mut out, author.as_slice());
        append_le(&mut out, content.len() as u64, LENGTH_PREFIX_LENGTH);
        append(&mut out, content);
        append_le(&mut out, to_unsigned(self.timestamp), TIMESTAMP_LENGTH);
        proof {
            lemma_le_bytes_len(byte_len(self@.content), LENGTH_PREFIX_LENGTH as nat);
            lemma_le_bytes_len(twos_complement(self.timestamp), TIMESTAMP_LENGTH as nat);
        }
        Ok(out)
    }
}

/// Where each field lies in the bytes of a stored record, and how long they are.
/// The tag comes first, the author's key at [`AUTHOR_OFFSET`], the content's
/// length at [`LENGTH_PREFIX_OFFSET`], the content at [`CONTENT_OFFSET`] and the
/// timestamp right behind the content.
pub proof fn lemma_stored_layout(record: MessageView, discriminator: Seq<u8>)
    requires
        discriminator.len() == DISCRIMINATOR_LENGTH,
    ensures
        ({
            let bytes = record.stored(discriminator);
            let end = CONTENT_OFFSET + byte_len(record.content);
            &&& bytes.len() == end + TIMESTAMP_LENGTH
            &&& bytes.subrange(0, AUTHOR_OFFSET as int) == discriminator
            &&& bytes.subrange(AUTHOR_OFFSET as int, LENGTH_PREFIX_OFFSET as int) == key_bytes(
                record.author,
            )@
            &&& bytes.subrange(LENGTH_PREFIX_OFFSET as int, CONTENT_OFFSET as int) == le_bytes(
                byte_len(record.content),
                LENGTH_PREFIX_LENGTH as nat,
            )
            &&& bytes.subrange(CONTENT_OFFSET as int, end) == encode_utf8(record.content)
            &&& bytes.subrange(end, end + TIMESTAMP_LENGTH) == le_bytes(
                twos_complement(record.timestamp),
                TIMESTAMP_LENGTH as nat,
            )
        }),
{
    lemma_le_bytes_len(byte_len(record.content), LENGTH_PREFIX_LENGTH as nat);
    lemma_le_bytes_len(twos_complement(record.timestamp), TIMESTAMP_LENGTH as nat);
}

/// The space reserved for a record is enough for every record whose content fits,
/// and the longest content there can be takes all of it.
pub proof fn lemma_stored_fits(record: MessageView, discriminator: Seq<u8>)
    requires
        discriminator.len() == DISCRIMINATOR_LENGTH,
        record.wf(),
    ensures
        record.stored(discriminator).len() <= MESSAGE_SPACE,
        byte_len(record.content) == MAX_CONTENT_LENGTH ==> record.stored(discriminator).len()
            == MESSAGE_SPACE,
{
    lemma_stored_layout(record, discriminator);
}

/// `le_bytes` gives as many bytes as it is asked for.
pub proof fn lemma_le_bytes_len(value: nat, width: nat)
    ensures
        le_bytes(value, width).len() == width,
    decreases width,
{
    if width > 0 {
        lemma_le_bytes_len(value / 256, (width - 1) as nat);
    }
}

/// Reads a signed number as an unsigned one, bit for bit.
fn to_unsigned(value: i64) -> (bits: u64)
    ensures
        bits == twos_complement(value),
{
    if value >= 0 {
        value as u64
    } else {
        u64::MAX - ((-(value + 1)) as u64)
    }
}

/// Appends `bytes` to `out`.
fn append(out: &mut Vec<u8>, bytes: &[u8])
    ensures
        final(out)@ == old(out)@ + bytes@,
{
    let mut i: usize = 0;
    while i < bytes.len()
        invariant
            i <= bytes.len(),
            out@ == old(out)@ + bytes@.subrange(0, i as int),
        decreases bytes.len() - i,
    {
        out.push(bytes[i]);
        i += 1;
    }
}

/// Appends the `width` low bytes of `value` to `out`, lowest first.
fn append_le(out: &mut Vec<u8>, value: u64, width: usize)
    ensures
        final(out)@ == old(out)@ + le_bytes(value as nat, width as nat),
{
    let mut rest: u64 = value;
    let mut i: usize = 0;
    while i < width
        invariant
            i <= width,
            out@ + le_bytes(rest as nat, (width - i) as nat) == old(out)@ + le_bytes(
                value as nat,
                width as nat,
            ),
        decreases width - i,
    {
        out.push((rest % 256) as u8);
        rest = rest / 256;
        i += 1;
    }
}

} // verus!
