//! Report lines: short runs of ASCII text held in a fixed 64-byte buffer.

use vstd::prelude::*;
use vstd::string::*;

verus! {

/// The number of bytes a report line can hold.
pub const LINE_CAPACITY: usize = 64;

/// `heapless::String`: text in a buffer of `N` bytes. Lines are held and
/// handed on as values of this type; nothing of its inside is known here.
#[verifier::external_type_specification]
#[verifier::external_body]
#[verifier::reject_recursive_types(N)]
pub struct ExHeaplessString<const N: usize>(heapless::String<N>);

/// One line of a report.
pub type ReportLine = heapless::String<64>;

/// The bytes that a line holds, in order: what `heapless::String::as_bytes`
/// gives for it.
pub uninterp spec fn line_bytes(line: heapless::String<64>) -> Seq<u8>;

/// `heapless::String::new`: a line that holds nothing.
#[verifier::external_body]
pub(crate) fn empty_line() -> (line: heapless::String<64>)
    ensures
        line_bytes(line) == Seq::<u8>::empty(),
{
    heapless::String::new()
}

/// `heapless::String::push_str`: appends the bytes of `text` where all of
/// them fit in the line's 64 bytes, and otherwise leaves the line as it was
/// and fails.
#[verifier::external_body]
pub(crate) fn push_text(line: &mut heapless::String<64>, text: &str) -> (done: Result<(), ()>)
    ensures
        line_bytes(*old(line)).len() + text.spec_bytes().len() <= 64 ==> done is Ok && line_bytes(
            *final(line),
        ) == line_bytes(*old(line)) + text.spec_bytes(),
        line_bytes(*old(line)).len() + text.spec_bytes().len() > 64 ==> done is Err && line_bytes(
            *final(line),
        ) == line_bytes(*old(line)),
{
    line.push_str(text)
}

/// `heapless::String::push` with an ASCII character: appends its one byte
/// where the line holds fewer than 64 bytes, and otherwise leaves the line
/// as it was and fails.
#[verifier::external_body]
pub(crate) fn push_ascii(line: &mut heapless::String<64>, byte: u8) -> (done: Result<(), ()>)
    requires
        byte < 128,
    ensures
        line_bytes(*old(line)).len() < 64 ==> done is Ok && line_bytes(*final(line))
            == line_bytes(*old(line)).push(byte),
        line_bytes(*old(line)).len() >= 64 ==> done is Err && line_bytes(*final(line))
            == line_bytes(*old(line)),
{
    line.push(byte as char)
}

/// The bytes of a run of ASCII characters, one for each.
pub open spec fn ascii_bytes(text: Seq<char>) -> Seq<u8> {
    Seq::new(text.len(), |i: int| text[i] as u8)
}

/// Appends ASCII text to a line that has room for it.
pub(crate) fn put_text(line: &mut heapless::String<64>, text: &str)
    requires
        is_ascii(text),
        line_bytes(*old(line)).len() + text@.len() <= 64,
    ensures
        line_bytes(*final(line)) == line_bytes(*old(line)) + ascii_bytes(text@),
{
    broadcast use is_ascii_spec_bytes;

    let _ = push_text(line, text);
}

/// Appends one ASCII byte to a line that has room for it.
pub(crate) fn put_byte(line: &mut heapless::String<64>, byte: u8)
    requires
        byte < 128,
        line_bytes(*old(line)).len() < 64,
    ensures
        line_bytes(*final(line)) == line_bytes(*old(line)).push(byte),
{
    let _ = push_ascii(line, byte);
}

} // verus!
