//! The whole conversion: message bytes to report.
use vstd::prelude::*;
use crate::decompress::{decompress, decompressed_of, gunzip_of, zip_entry_count_of, zip_entry_of};
use crate::mime::{mime_message_of, read_mime_message, select_part, selected_part, MimeMessage};
use crate::model::{ConvertError, Feedback, FeedbackView};
use crate::schema::{feedback_of, outcome_is, read_feedback};
use crate::xml::{read_xml_tree, xml_tree_of};

verus! {

/// The text that the bytes `b` encode in UTF-8, if they are valid UTF-8.
pub uninterp spec fn utf8_text_of(b: Seq<u8>) -> Option<Seq<char>>;

/// Relies on `String::from_utf8`: the bytes as text, or an error on invalid UTF-8.
#[verifier::external_body]
fn decode_utf8(b: Vec<u8>) -> (r: Option<String>)
    ensures
        r matches Some(s) ==> utf8_text_of(b@) == Some(s@),
        r is None ==> utf8_text_of(b@) is None,
{
    String::from_utf8(b).ok()
}

/// The report that the text bytes `text` hold.
pub open spec fn report_of(text: Seq<u8>) -> Result<FeedbackView, ConvertError> {
    match utf8_text_of(text) {
        None => Err(ConvertError::EncodingError),
        Some(s) => match xml_tree_of(s) {
            None => Err(ConvertError::StructuralParseError),
            Some(e) => feedback_of(e),
        },
    }
}

/// Reads the report from its text, given as bytes.
pub fn parse_report(text: Vec<u8>) -> (r: Result<Feedback, ConvertError>)
    ensures
        outcome_is(r, report_of(text@)),
{
    let s = match decode_utf8(text) {
        None => return Err(ConvertError::EncodingError),
        Some(s) => s,
    };
    match read_xml_tree(s.as_str()) {
        None => Err(ConvertError::StructuralParseError),
        Some(e) => read_feedback(&e),
    }
}

/// The report carried by a parsed message.
pub open spec fn message_report_of(m: MimeMessage) -> Result<FeedbackView, ConvertError> {
    match selected_part(m) {
        Err(x) => Err(x),
        Ok((ct, body)) => match decompressed_of(ct, body) {
            Err(x) => Err(x),
            Ok(text) => report_of(text),
        },
    }
}

/// The report carried by the raw message `raw`.
pub open spec fn convert_of(raw: Seq<u8>) -> Result<FeedbackView, ConvertError> {
    match mime_message_of(raw) {
        None => Err(ConvertError::MimeParseError),
        Some(m) => message_report_of(m),
    }
}

/// Reads the report from a parsed message.
pub fn message_to_report(m: &MimeMessage) -> (r: Result<Feedback, ConvertError>)
    ensures
        outcome_is(r, message_report_of(*m)),
{
    let (ct, body) = match select_part(m) {
        Err(x) => return Err(x),
        Ok(p) => p,
    };
    let text = match decompress(ct, body) {
        Err(x) => return Err(x),
        Ok(t) => t,
    };
    parse_report(text)
}

/// Extracts the aggregate report from a raw email message: selects the content
/// part, decompresses it by content type and reads the report from it.
pub fn mail_to_report(raw: &[u8]) -> (r: Result<Feedback, ConvertError>)
    ensures
        outcome_is(r, convert_of(raw@)),
{
    match read_mime_message(raw) {
        None => Err(ConvertError::MimeParseError),
        Some(m) => message_to_report(&m),
    }
}

} // verus!
verus! {

/// A message without subparts whose body is plain text yields exactly the report
/// that its body holds, and succeeds wherever that text is a valid report.
pub proof fn single_part_plain_text(raw: Seq<u8>, m: MimeMessage, body: Seq<u8>)
    requires
        mime_message_of(raw) == Some(m),
        m.parts@.len() == 0,
        m.top.content_type@ == "text/plain"@,
        m.top.body matches Some(b) && b@ == body,
    ensures
        convert_of(raw) == report_of(body),
{
}

/// A zip archive of exactly one entry reads as that entry's bytes would read
/// directly; one of two or more entries is refused with its entry count.
pub proof fn zip_archive_reads_its_entry(raw: Seq<u8>, m: MimeMessage, ct: String, body: Seq<u8>)
    requires
        mime_message_of(raw) == Some(m),
        selected_part(m) == Ok::<(String, Seq<u8>), ConvertError>((ct, body)),
        ct@ == "application/zip"@,
    ensures
        zip_entry_count_of(body) == Some(1usize) ==> match zip_entry_of(body, 0) {
            Some(entry) => convert_of(raw) == report_of(entry),
            None => convert_of(raw) == Err::<FeedbackView, ConvertError>(
                ConvertError::DecompressionError,
            ),
        },
        forall|n: usize|
            n >= 2 && zip_entry_count_of(body) == Some(n) ==> convert_of(raw) == Err::<
                FeedbackView,
                ConvertError,
            >(ConvertError::TooManyEntries(n)),
{
    reveal_strlit("application/zip");
    reveal_strlit("text/plain");
    assert(ct@ != "text/plain"@) by {
        assert(ct@.len() == 15);
    }
}

/// A gzip body reads as the text that it inflates to; a stream that does not
/// inflate is a decompression error.
pub proof fn gzip_body_reads_inflated(raw: Seq<u8>, m: MimeMessage, ct: String, body: Seq<u8>)
    requires
        mime_message_of(raw) == Some(m),
        selected_part(m) == Ok::<(String, Seq<u8>), ConvertError>((ct, body)),
        ct@ == "application/gzip"@,
    ensures
        match gunzip_of(body) {
            Some(text) => convert_of(raw) == report_of(text),
            None => convert_of(raw) == Err::<FeedbackView, ConvertError>(
                ConvertError::DecompressionError,
            ),
        },
{
    reveal_strlit("application/gzip");
    reveal_strlit("application/zip");
    reveal_strlit("text/plain");
    assert(ct@ != "text/plain"@ && ct@ != "application/zip"@) by {
        assert(ct@.len() == 16);
    }
}

} // verus!
