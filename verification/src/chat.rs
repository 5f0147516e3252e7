//! Conversations: the messages a user and the model exchange, and the
//! attachments that travel with them.
//!
//! Reading an image file and putting a conversation on disk are the
//! caller's business; here live the data itself, the base64 form an
//! attachment takes on the wire, and the name a saved conversation file
//! gets.

use vstd::prelude::*;

use crate::text::{chars_to_string, dec_digit, push_str_chars};
use crate::wire::u64_dec;

verus! {

/// One message of a conversation.
#[derive(Debug, Clone)]
pub enum Text {
    User(MessageContent),
    Bot(MessageContent),
}

/// What a message holds: plain text or an attached image.
#[derive(Debug, Clone)]
pub enum MessageContent {
    Text(String),
    Image(ImageAttachment),
}

/// The kind of an attached image.
#[derive(Debug, Clone)]
pub enum ImageAttachment {
    Svg(Image),
    Raster(Image),
}

/// An attached image: its raw bytes, and the base64 text sent to the
/// model server.
#[derive(Debug, Clone)]
pub struct Image {
    pub base64: String,
    pub data: Vec<u8>,
}

/// The standard base64 text of a byte sequence, as the base64 crate's
/// padded standard-alphabet engine produces it.
pub uninterp spec fn base64_of(b: Seq<u8>) -> Seq<char>;

/// Relies on the base64 crate's `Engine::encode` with the `STANDARD`
/// engine: the result is a function of the input bytes alone.
#[verifier::external_body]
fn base64_encode(data: &Vec<u8>) -> (r: String)
    requires
        data@.len() <= usize::MAX / 4,
    ensures
        r@ == base64_of(data@),
{
    base64::Engine::encode(&base64::engine::general_purpose::STANDARD, data.as_slice())
}

impl Image {
    /// Wraps the raw bytes of an image file, carrying the base64 text the
    /// wire format wants beside them.
    pub fn new(data: Vec<u8>) -> (img: Image)
        requires
            data@.len() <= usize::MAX / 4,
        ensures
            img.data@ == data@,
            img.base64@ == base64_of(data@),
    {
        let base64 = base64_encode(&data);
        Image { base64, data }
    }
}

/// A conversation: the messages in the order they were exchanged.
#[derive(Debug, Clone)]
pub struct Conversation {
    pub messages: Vec<Text>,
}

impl Conversation {
    /// An empty conversation.
    pub fn new() -> (c: Conversation)
        ensures
            c.messages@ == Seq::<Text>::empty(),
    {
        Conversation { messages: Vec::new() }
    }

    /// Appends one message.
    pub fn push(&mut self, message: Text)
        ensures
            final(self).messages@ == old(self).messages@.push(message),
    {
        self.messages.push(message);
    }
}

/// A number in two digits, zero-padded.
pub open spec fn pad2(n: u64) -> Seq<char>
    recommends
        n <= 99,
{
    if n < 10 {
        seq!['0', dec_digit(n)]
    } else {
        u64_dec(n)
    }
}

/// A year in four digits, zero-padded.
pub open spec fn pad4(n: u64) -> Seq<char>
    recommends
        n <= 9999,
{
    if n < 10 {
        seq!['0', '0', '0', dec_digit(n)]
    } else if n < 100 {
        seq!['0', '0'] + u64_dec(n)
    } else if n < 1000 {
        seq!['0'] + u64_dec(n)
    } else {
        u64_dec(n)
    }
}

/// The name a conversation saved at the given local time gets:
/// `YYYY-MM-DD HH:MM:SS.ron`.
pub open spec fn filename_view(
    year: u64,
    month: u64,
    day: u64,
    hour: u64,
    minute: u64,
    second: u64,
) -> Seq<char> {
    pad4(year) + seq!['-'] + pad2(month) + seq!['-'] + pad2(day) + seq![' '] + pad2(hour)
        + seq![':'] + pad2(minute) + seq![':'] + pad2(second) + ".ron"@
}

/// Appends a number in two zero-padded digits.
fn push_pad2(out: &mut Vec<char>, n: u64)
    requires
        n <= 99,
    ensures
        final(out)@ == old(out)@ + pad2(n),
{
    if n < 10 {
        out.push('0');
    }
    crate::wire::push_u64_dec(out, n);
    assert(out@ =~= old(out)@ + pad2(n));
}

/// The file name of a conversation saved at the given local time.  The
/// clock is the caller's; this turns its reading into text.
pub fn conversation_filename(
    year: u64,
    month: u64,
    day: u64,
    hour: u64,
    minute: u64,
    second: u64,
) -> (r: String)
    requires
        year <= 9999,
        1 <= month <= 12,
        1 <= day <= 31,
        hour <= 23,
        minute <= 59,
        second <= 59,
    ensures
        r@ == filename_view(year, month, day, hour, minute, second),
{
    let mut out: Vec<char> = Vec::new();
    if year < 10 {
        out.push('0');
        out.push('0');
        out.push('0');
    } else if year < 100 {
        out.push('0');
        out.push('0');
    } else if year < 1000 {
        out.push('0');
    }
    crate::wire::push_u64_dec(&mut out, year);
    assert(out@ =~= pad4(year));
    out.push('-');
    push_pad2(&mut out, month);
    out.push('-');
    push_pad2(&mut out, day);
    out.push(' ');
    push_pad2(&mut out, hour);
    out.push(':');
    push_pad2(&mut out, minute);
    out.push(':');
    push_pad2(&mut out, second);
    push_str_chars(&mut out, ".ron");
    assert(out@ =~= filename_view(year, month, day, hour, minute, second));
    chars_to_string(&out)
}

} // verus!
