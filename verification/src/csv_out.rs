//! CSV encoding of two-column records, through the `csv` crate.
//!
//! The writer is used with its default configuration: fields separated by
//! `,`, records terminated by `\n`, and quoting only where a field holds a
//! byte among `,`, `"`, `\r`, `\n`. Every field this library writes is a
//! plain field — non-empty, ASCII, free of those bytes — so each record is
//! its two fields written verbatim, separated by `,` and ended by `\n`.

use vstd::prelude::*;

verus! {

/// A character that may stand in a plain CSV field: ASCII, and none of the
/// bytes that would make the writer quote the field.
pub open spec fn csv_plain_char(c: char) -> bool {
    (c as u32) < 128 && c != ',' && c != '"' && c != '\n' && c != '\r'
}

/// A plain CSV field: non-empty and made of plain characters only. The
/// writer copies such a field to the output unchanged.
pub open spec fn csv_plain(s: Seq<char>) -> bool {
    s.len() > 0 && forall|i: int| 0 <= i < s.len() ==> csv_plain_char(#[trigger] s[i])
}

/// The bytes of a sequence of ASCII characters, one byte per character.
pub open spec fn ascii_bytes(s: Seq<char>) -> Seq<u8> {
    Seq::new(s.len(), |i: int| s[i] as u8)
}

/// The encoding of one record of two plain fields: the fields' bytes,
/// separated by `,` (byte 44) and terminated by `\n` (byte 10).
pub open spec fn csv_line(a: Seq<char>, b: Seq<char>) -> Seq<u8> {
    ascii_bytes(a) + seq![44u8] + ascii_bytes(b) + seq![10u8]
}

#[verifier::external_type_specification]
#[verifier::external_body]
pub struct ExCsvError(csv::Error);

/// A CSV writer over an in-memory byte buffer. The `csv` crate's writer
/// carries a generic bound the verifier does not take in a declaration, so
/// it is held opaquely in this struct and reached only through the trusted
/// functions below.
#[verifier::external_body]
pub struct CsvSink {
    writer: csv::Writer<Vec<u8>>,
}

/// All the bytes a sink's writer has produced so far, whether still in its
/// internal buffer or already handed to the underlying byte buffer.
pub uninterp spec fn sink_contents(s: CsvSink) -> Seq<u8>;

/// Relies on `csv::Writer::from_writer`: a fresh writer over an empty byte
/// buffer, with the crate's default configuration, has produced no bytes.
#[verifier::external_body]
pub(crate) fn sink_new() -> (s: CsvSink)
    ensures
        sink_contents(s) == Seq::<u8>::empty(),
{
    CsvSink { writer: csv::Writer::from_writer(Vec::new()) }
}

/// Relies on `csv::Writer::write_record` with the default configuration:
/// a record of two plain fields is appended verbatim as the fields' bytes,
/// separated by `,` and terminated by `\n`. The call always succeeds: its
/// only error paths are the record-length check, which never trips because
/// every record through this function has two fields, and a write error of
/// the underlying sink, which a `Vec<u8>` — an in-memory buffer that only
/// appends — never produces.
#[verifier::external_body]
pub(crate) fn sink_write_row(s: &mut CsvSink, a: &str, b: &str) -> (r: Result<(), csv::Error>)
    requires
        csv_plain(a@),
        csv_plain(b@),
    ensures
        r is Ok,
        sink_contents(*final(s)) == sink_contents(*old(s)) + csv_line(a@, b@),
{
    s.writer.write_record(&[a, b])
}

/// Relies on `csv::Writer::into_inner`: it flushes the writer and hands
/// back the byte buffer holding exactly the bytes produced. The call always
/// succeeds: the only error path is a flush failure of the underlying sink,
/// which a `Vec<u8>` never produces. The conversion of that error through
/// `IntoInnerError::into_error` and the crate's `From<io::Error>` is kept
/// so the signature states the call's own shape.
#[verifier::external_body]
pub(crate) fn sink_into_bytes(s: CsvSink) -> (r: Result<Vec<u8>, csv::Error>)
    ensures
        r is Ok,
        r matches Ok(bytes) ==> bytes@ == sink_contents(s),
{
    match s.writer.into_inner() {
        Ok(bytes) => Ok(bytes),
        Err(e) => Err(csv::Error::from(e.into_error())),
    }
}

} // verus!
