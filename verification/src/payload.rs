//! The text and byte payloads that travel in frames and events.

use axum::extract::ws::Utf8Bytes;
use axum::response::sse::Event;
use bytes::Bytes;
use vstd::prelude::*;
use vstd::utf8::encode_utf8;

verus! {

/// `axum`'s shared, immutable UTF-8 text.
#[verifier::external_type_specification]
#[verifier::external_body]
pub struct ExUtf8Bytes(axum::extract::ws::Utf8Bytes);

/// The shared, immutable byte string of the `bytes` crate.
#[verifier::external_type_specification]
#[verifier::external_body]
pub struct ExBytes(bytes::Bytes);

/// `axum`'s server-sent event, a buffer of encoded fields.
#[verifier::external_type_specification]
#[verifier::external_body]
pub struct ExEvent(axum::response::sse::Event);

/// The characters that a `Utf8Bytes` holds.
pub uninterp spec fn text_of(text: Utf8Bytes) -> Seq<char>;

/// The bytes that a `Bytes` holds.
pub uninterp spec fn bytes_of(bytes: Bytes) -> Seq<u8>;

/// The encoded fields that an `Event` holds in its buffer.
pub uninterp spec fn event_fields(event: Event) -> Seq<u8>;

/// The field prefix `data: `.
pub open spec fn data_prefix() -> Seq<u8> {
    seq![0x64u8, 0x61u8, 0x74u8, 0x61u8, 0x3Au8, 0x20u8]
}

/// `bytes` with the prefix `data: ` put behind every line feed and carriage return.
pub open spec fn continued_lines(bytes: Seq<u8>) -> Seq<u8>
    decreases bytes.len(),
{
    if bytes.len() == 0 {
        Seq::empty()
    } else {
        let line = continued_lines(bytes.drop_last()).push(bytes.last());
        if bytes.last() == 0x0Au8 || bytes.last() == 0x0Du8 {
            line + data_prefix()
        } else {
            line
        }
    }
}

/// The data field of an event whose data is `bytes`: nothing at all for empty data.
pub open spec fn data_field(bytes: Seq<u8>) -> Seq<u8> {
    if bytes.len() == 0 {
        Seq::empty()
    } else {
        (data_prefix() + continued_lines(bytes)).push(0x0Au8)
    }
}

/// `Utf8Bytes::as_str`: the text itself, borrowed.
#[verifier::external_body]
pub(crate) fn as_text(text: &Utf8Bytes) -> (s: &str)
    ensures
        s@ == text_of(*text),
{
    text.as_str()
}

/// `Utf8Bytes::clone`: another handle on the same characters.
#[verifier::external_body]
pub(crate) fn share_text(text: &Utf8Bytes) -> (shared: Utf8Bytes)
    ensures
        text_of(shared) == text_of(*text),
{
    text.clone()
}

/// `Utf8Bytes::from_static`: a handle on the characters of a static text.
#[verifier::external_body]
pub(crate) fn static_text(s: &'static str) -> (text: Utf8Bytes)
    ensures
        text_of(text) == s@,
{
    Utf8Bytes::from_static(s)
}

/// `Bytes::new`: no bytes.
#[verifier::external_body]
pub(crate) fn no_bytes() -> (bytes: Bytes)
    ensures
        bytes_of(bytes) == Seq::<u8>::empty(),
{
    Bytes::new()
}

/// `Event::data` on `Event::default()`: an event that holds one data field and nothing else.
#[verifier::external_body]
pub(crate) fn data_event(text: &str) -> (event: Event)
    ensures
        event_fields(event) == data_field(encode_utf8(text@)),
{
    Event::default().data(text)
}

/// The prefix spells `data: `.
pub proof fn law_the_prefix_spells_data()
    ensures
        data_prefix().len() == "data: "@.len(),
        forall|i: int| 0 <= i < "data: "@.len() ==> #[trigger] data_prefix()[i] == "data: "@[i] as u8,
{
    reveal_strlit("data: ");
}

/// Lines are continued byte by byte: a text in two parts is continued as its parts are, a line
/// feed or carriage return has the prefix behind it, and any other byte stays as it is.
pub proof fn law_lines_are_continued_byte_by_byte(a: Seq<u8>, b: Seq<u8>, byte: u8)
    ensures
        continued_lines(a + b) == continued_lines(a) + continued_lines(b),
        continued_lines(seq![byte]) == if byte == 10 || byte == 13 {
            seq![byte] + data_prefix()
        } else {
            seq![byte]
        },
    decreases b.len(),
{
    if b.len() == 0 {
        assert(a + b =~= a);
        assert(continued_lines(a) + continued_lines(b) =~= continued_lines(a));
    } else {
        law_lines_are_continued_byte_by_byte(a, b.drop_last(), byte);
        assert((a + b).drop_last() =~= a + b.drop_last());
        assert(continued_lines(a + b) =~= continued_lines(a) + continued_lines(b));
    }
    reveal_with_fuel(continued_lines, 2);
    assert(seq![byte].drop_last() =~= Seq::empty());
    assert(continued_lines(seq![byte]) =~= if byte == 10 || byte == 13 {
        seq![byte] + data_prefix()
    } else {
        seq![byte]
    });
}

/// Text on one line stands in its data field unchanged, between the prefix and a line feed.
pub proof fn law_one_line_stands_unchanged(bytes: Seq<u8>)
    requires
        bytes.len() > 0,
        forall|i: int| 0 <= i < bytes.len() ==> (#[trigger] bytes[i]) != 10 && bytes[i] != 13,
    ensures
        data_field(bytes) == (data_prefix() + bytes).push(10),
{
    lemma_one_line_is_continued_unchanged(bytes);
}

/// Bytes without a line break have nothing put between them.
proof fn lemma_one_line_is_continued_unchanged(bytes: Seq<u8>)
    requires
        forall|i: int| 0 <= i < bytes.len() ==> (#[trigger] bytes[i]) != 10 && bytes[i] != 13,
    ensures
        continued_lines(bytes) == bytes,
    decreases bytes.len(),
{
    if bytes.len() > 0 {
        let before = bytes.drop_last();
        assert forall|i: int| 0 <= i < before.len() implies (#[trigger] before[i]) != 10
            && before[i] != 13 by {
            assert(before[i] == bytes[i]);
        }
        lemma_one_line_is_continued_unchanged(before);
        assert(bytes[bytes.len() - 1] != 10 && bytes[bytes.len() - 1] != 13);
        assert(continued_lines(bytes) =~= bytes);
    } else {
        assert(continued_lines(bytes) =~= bytes);
    }
}

} // verus!
