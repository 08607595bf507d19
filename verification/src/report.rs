//! The text of a report: identities and blocks in hexadecimal, the headers
//! that go with them, and the messages of errors.

use vstd::prelude::*;
use vstd::string::*;
use crate::card::{BlockData, CardIdentity};
use crate::layout::{classify, role_label, role_of, BlockRole};
use crate::line::{ascii_bytes, empty_line, line_bytes, put_byte, put_text, ReportLine};
use crate::session::{error_message, CardError};

verus! {

/// The lower-case hexadecimal digit of a value below sixteen.
pub open spec fn hex_digit(nibble: int) -> u8 {
    if nibble < 10 {
        (48 + nibble) as u8
    } else {
        (87 + nibble) as u8
    }
}

/// A byte as two hexadecimal digits and a space.
pub open spec fn hex_byte(byte: u8) -> Seq<u8> {
    seq![hex_digit(byte as int / 16), hex_digit(byte as int % 16), 32u8]
}

/// Bytes in hexadecimal: for each of them two digits and a space.
pub open spec fn hex_text(data: Seq<u8>) -> Seq<u8>
    decreases data.len(),
{
    if data.len() == 0 {
        Seq::empty()
    } else {
        hex_text(data.drop_last()) + hex_byte(data.last())
    }
}

/// A number in decimal, without leading zeros.
pub open spec fn decimal_text(n: nat) -> Seq<u8>
    decreases n,
{
    if n < 10 {
        seq![(48 + n) as u8]
    } else {
        decimal_text(n / 10).push((48 + n % 10) as u8)
    }
}

/// The line that reports the identity of a card.
pub open spec fn uid_text(identity: Seq<u8>) -> Seq<u8> {
    ascii_bytes("UID: "@) + hex_text(identity)
}

/// The header that opens the report of a sector.
pub open spec fn sector_header_text(sector_index: u8) -> Seq<u8> {
    ascii_bytes("\r\n-----------SECTOR "@) + decimal_text(sector_index as nat) + ascii_bytes(
        "-----------\r\n"@,
    )
}

/// The header that opens the report of a block: its absolute number and
/// its place in its sector.
pub open spec fn block_header_text(absolute_block: u8, relative_block: u8) -> Seq<u8> {
    ascii_bytes("\r\nBLOCK "@) + decimal_text(absolute_block as nat) + ascii_bytes(" (REL: "@)
        + decimal_text(relative_block as nat) + ascii_bytes(") | "@)
}

/// The note that closes the report of a block: its role.
pub open spec fn role_text(role: BlockRole) -> Seq<u8> {
    ascii_bytes("| "@) + ascii_bytes(role_label(role)) + ascii_bytes(" "@)
}

/// The end of a line.
pub open spec fn break_text() -> Seq<u8> {
    ascii_bytes("\r\n"@)
}

/// The banner above the blocks of a sector as they were before a write.
pub open spec fn before_write_text() -> Seq<u8> {
    ascii_bytes("\r\n----Before Write----\r\n"@)
}

/// The banner above the blocks of a sector as they are after a write.
pub open spec fn after_write_text() -> Seq<u8> {
    ascii_bytes("\r\n----After Write----\r\n"@)
}

/// The hexadecimal text of bytes is three times as long as they are.
pub proof fn lemma_hex_text_len(data: Seq<u8>)
    ensures
        hex_text(data).len() == 3 * data.len(),
    decreases data.len(),
{
    if data.len() > 0 {
        lemma_hex_text_len(data.drop_last());
    }
}

/// The hexadecimal text of bytes grows by one byte's text with each byte.
pub proof fn lemma_hex_text_step(data: Seq<u8>, i: int)
    requires
        0 <= i < data.len(),
    ensures
        hex_text(data.take(i + 1)) == hex_text(data.take(i)) + hex_byte(data[i]),
{
    assert(data.take(i + 1).drop_last() =~= data.take(i));
}

/// A number below 256 takes at most three decimal digits.
pub proof fn lemma_decimal_text_u8(n: u8)
    ensures
        1 <= decimal_text(n as nat).len() <= 3,
        n < 10 ==> decimal_text(n as nat) == seq![(48 + n) as u8],
        10 <= n < 100 ==> decimal_text(n as nat) == seq![(48 + n / 10) as u8, (48 + n % 10) as u8],
        100 <= n ==> decimal_text(n as nat) == seq![
            (48 + n / 100) as u8,
            (48 + (n / 10) % 10) as u8,
            (48 + n % 10) as u8,
        ],
{
    reveal_with_fuel(decimal_text, 4);
}

fn hex_char(nibble: u8) -> (digit: u8)
    requires
        nibble < 16,
    ensures
        digit == hex_digit(nibble as int),
        digit < 128,
{
    if nibble < 10 {
        48 + nibble
    } else {
        87 + nibble
    }
}

fn put_hex(line: &mut ReportLine, data: &[u8])
    requires
        line_bytes(*old(line)).len() + 3 * data@.len() <= 64,
    ensures
        line_bytes(*final(line)) == line_bytes(*old(line)) + hex_text(data@),
{
    let mut i: usize = 0;
    while i < data.len()
        invariant
            i <= data@.len(),
            line_bytes(*old(line)).len() + 3 * data@.len() <= 64,
            line_bytes(*line) == line_bytes(*old(line)) + hex_text(data@.take(i as int)),
        decreases data@.len() - i,
    {
        let byte = data[i];
        proof {
            lemma_hex_text_len(data@.take(i as int));
            lemma_hex_text_step(data@, i as int);
        }
        put_byte(line, hex_char(byte / 16));
        put_byte(line, hex_char(byte % 16));
        put_byte(line, 32);
        i += 1;
    }
    assert(data@.take(i as int) =~= data@);
}

fn put_decimal(line: &mut ReportLine, n: u8)
    requires
        line_bytes(*old(line)).len() + 3 <= 64,
    ensures
        line_bytes(*final(line)) == line_bytes(*old(line)) + decimal_text(n as nat),
{
    proof {
        lemma_decimal_text_u8(n);
    }
    if n >= 100 {
        put_byte(line, 48 + n / 100);
    }
    if n >= 10 {
        put_byte(line, 48 + (n / 10) % 10);
    }
    put_byte(line, 48 + n % 10);
}

/// Bytes in hexadecimal, as one line: two digits and a space for each.
/// A line holds up to twenty-one bytes so written; there is none for more.
pub fn hex_line(data: &[u8]) -> (line: Option<ReportLine>)
    ensures
        line is Some <==> data@.len() <= 21,
        line is Some ==> line_bytes(line->0) == hex_text(data@),
{
    if data.len() > 21 {
        return None;
    }
    let mut line = empty_line();
    put_hex(&mut line, data);
    Some(line)
}

/// The sixteen bytes of a block in hexadecimal.
pub fn block_line(data: &BlockData) -> (line: ReportLine)
    ensures
        line_bytes(line) == hex_text(data@),
{
    let mut line = empty_line();
    put_hex(&mut line, data.as_slice());
    line
}

/// The line that reports the identity of a card: `UID: ` and its bytes in
/// hexadecimal.
pub fn uid_line(identity: &CardIdentity) -> (line: ReportLine)
    ensures
        line_bytes(line) == uid_text(identity@),
{
    let mut line = empty_line();
    proof {
        reveal_strlit("UID: ");
    }
    put_text(&mut line, "UID: ");
    put_hex(&mut line, identity.as_bytes());
    line
}

/// The header that opens the report of a sector.
pub fn sector_header(sector_index: u8) -> (line: ReportLine)
    ensures
        line_bytes(line) == sector_header_text(sector_index),
{
    let mut line = empty_line();
    proof {
        reveal_strlit("\r\n-----------SECTOR ");
        reveal_strlit("-----------\r\n");
        lemma_decimal_text_u8(sector_index);
    }
    put_text(&mut line, "\r\n-----------SECTOR ");
    put_decimal(&mut line, sector_index);
    put_text(&mut line, "-----------\r\n");
    line
}

/// The header that opens the report of a block.
pub fn block_header(absolute_block: u8, relative_block: u8) -> (line: ReportLine)
    ensures
        line_bytes(line) == block_header_text(absolute_block, relative_block),
{
    let mut line = empty_line();
    proof {
        reveal_strlit("\r\nBLOCK ");
        reveal_strlit(" (REL: ");
        reveal_strlit(") | ");
        lemma_decimal_text_u8(absolute_block);
        lemma_decimal_text_u8(relative_block);
    }
    put_text(&mut line, "\r\nBLOCK ");
    put_decimal(&mut line, absolute_block);
    put_text(&mut line, " (REL: ");
    put_decimal(&mut line, relative_block);
    put_text(&mut line, ") | ");
    line
}

/// The names of the roles are ASCII and short.
pub proof fn lemma_role_label_ascii(role: BlockRole)
    ensures
        vstd::utf8::is_ascii_chars(role_label(role)),
        role_label(role).len() <= 7,
{
    reveal_strlit("MFD");
    reveal_strlit("TRAILER");
    reveal_strlit("DATA");
}

/// The messages of the errors are ASCII and short.
pub proof fn lemma_error_message_ascii(error: CardError)
    ensures
        vstd::utf8::is_ascii_chars(error_message(error)),
        error_message(error).len() <= 17,
{
    reveal_strlit("No card present");
    reveal_strlit("Select failed");
    reveal_strlit("Auth failed");
    reveal_strlit("Not authenticated");
    reveal_strlit("Read failed");
    reveal_strlit("Write failed");
    reveal_strlit("Transport error");
}

/// The note that closes the report of a block: the name of its role.
pub fn role_line(role: BlockRole) -> (line: ReportLine)
    ensures
        line_bytes(line) == role_text(role),
{
    let mut line = empty_line();
    proof {
        reveal_strlit("| ");
        reveal_strlit(" ");
        lemma_role_label_ascii(role);
    }
    put_text(&mut line, "| ");
    put_text(&mut line, role.label());
    put_text(&mut line, " ");
    line
}

/// The end of a line.
pub fn line_break() -> (line: ReportLine)
    ensures
        line_bytes(line) == break_text(),
{
    let mut line = empty_line();
    proof {
        reveal_strlit("\r\n");
    }
    put_text(&mut line, "\r\n");
    line
}

/// The line that reports an error: its message, word for word.
pub fn error_line(error: CardError) -> (line: ReportLine)
    ensures
        line_bytes(line) == ascii_bytes(error_message(error)),
{
    let mut line = empty_line();
    proof {
        lemma_error_message_ascii(error);
    }
    put_text(&mut line, error.message());
    line
}

/// The banner above the blocks of a sector as they were before a write.
pub fn before_write_banner() -> (line: ReportLine)
    ensures
        line_bytes(line) == before_write_text(),
{
    let mut line = empty_line();
    proof {
        reveal_strlit("\r\n----Before Write----\r\n");
    }
    put_text(&mut line, "\r\n----Before Write----\r\n");
    line
}

/// The banner above the blocks of a sector as they are after a write.
pub fn after_write_banner() -> (line: ReportLine)
    ensures
        line_bytes(line) == after_write_text(),
{
    let mut line = empty_line();
    proof {
        reveal_strlit("\r\n----After Write----\r\n");
    }
    put_text(&mut line, "\r\n----After Write----\r\n");
    line
}

/// The texts of lines, in their order.
pub open spec fn texts(lines: Seq<ReportLine>) -> Seq<Seq<u8>> {
    lines.map_values(|line: ReportLine| line_bytes(line))
}

/// What the report says of a block that was read, where blocks are
/// reported bare: its bytes, and the end of the line.
pub open spec fn plain_block_texts(data: BlockData) -> Seq<Seq<u8>> {
    seq![hex_text(data@), break_text()]
}

/// What the report says of a block that was read, where blocks are
/// reported with their numbers and roles. The last block of a sector also
/// ends the line.
pub open spec fn annotated_block_texts(absolute_block: u8, data: BlockData) -> Seq<Seq<u8>> {
    let sector = absolute_block as int / 4;
    let relative = absolute_block as int % 4;
    let block = seq![
        block_header_text(absolute_block, relative as u8),
        hex_text(data@),
        role_text(role_of(sector, relative)),
    ];
    if relative == 3 {
        block.push(break_text())
    } else {
        block
    }
}

/// What the report says of an error.
pub open spec fn failure_texts(error: CardError) -> Seq<Seq<u8>> {
    seq![ascii_bytes(error_message(error))]
}

/// Appends to a report what it says of a block, reported bare.
pub fn report_plain_block(lines: &mut Vec<ReportLine>, data: &BlockData)
    ensures
        texts(final(lines)@) == texts(old(lines)@) + plain_block_texts(*data),
{
    lines.push(block_line(data));
    lines.push(line_break());
}

/// Appends to a report what it says of a block, reported with its numbers
/// and its role.
pub fn report_annotated_block(lines: &mut Vec<ReportLine>, absolute_block: u8, data: &BlockData)
    ensures
        texts(final(lines)@) == texts(old(lines)@) + annotated_block_texts(absolute_block, *data),
{
    let sector = absolute_block / 4;
    let relative = absolute_block % 4;
    lines.push(block_header(absolute_block, relative));
    lines.push(block_line(data));
    lines.push(role_line(classify(sector, relative)));
    if relative == 3 {
        lines.push(line_break());
    }
}

/// Appends to a report what it says of an error.
pub fn report_failure(lines: &mut Vec<ReportLine>, error: CardError)
    ensures
        texts(final(lines)@) == texts(old(lines)@) + failure_texts(error),
{
    lines.push(error_line(error));
}

} // verus!
