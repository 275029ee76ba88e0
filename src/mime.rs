//! Selection of the content part of a MIME message.
use vstd::prelude::*;
use crate::model::ConvertError;
use crate::scalar::same_text;

verus! {

/// One MIME part: its content type (`type/subtype`) and its body with the
/// transfer encoding reversed, or `None` where that decoding failed.
pub struct MimePart {
    pub content_type: String,
    pub body: Option<Vec<u8>>,
}

/// A parsed message: its own header and body, and its direct subparts in order.
pub struct MimeMessage {
    pub top: MimePart,
    pub parts: Vec<MimePart>,
}

/// The structure that mailparse reads from a raw message, if it reads one.
pub uninterp spec fn mime_message_of(raw: Seq<u8>) -> Option<MimeMessage>;

/// Relies on `mailparse::parse_mail` for the structure, `ParsedMail::ctype.mimetype`
/// for each content type and `ParsedMail::get_body_raw` for each decoded body.
#[verifier::external_body]
pub(crate) fn read_mime_message(raw: &[u8]) -> (r: Option<MimeMessage>)
    ensures
        r == mime_message_of(raw@),
{
    let mail = mailparse::parse_mail(raw).ok()?;
    let part = |m: &mailparse::ParsedMail| MimePart {
        content_type: m.ctype.mimetype.clone(),
        body: m.get_body_raw().ok(),
    };
    Some(MimeMessage { top: part(&mail), parts: mail.subparts.iter().map(part).collect() })
}

/// The index of the first part of `ps`, from `i` on, whose type is not `multipart/related`.
pub open spec fn first_content_from(ps: Seq<MimePart>, i: nat) -> Option<nat>
    decreases ps.len() - i,
{
    if i >= ps.len() {
        None
    } else if ps[i as int].content_type@ != "multipart/related"@ {
        Some(i)
    } else {
        first_content_from(ps, i + 1)
    }
}

/// The content type and decoded body of a part, or `MimeParseError` where its
/// body could not be decoded.
pub open spec fn part_content(p: MimePart) -> Result<(String, Seq<u8>), ConvertError> {
    match p.body {
        Some(b) => Ok((p.content_type, b@)),
        None => Err(ConvertError::MimeParseError),
    }
}

/// The part of `m` that carries the report: the message itself when it has no
/// subparts, else its first subpart that is not `multipart/related`.
pub open spec fn selected_part(m: MimeMessage) -> Result<(String, Seq<u8>), ConvertError> {
    if m.parts@.len() == 0 {
        part_content(m.top)
    } else {
        match first_content_from(m.parts@, 0) {
            Some(i) => part_content(m.parts@[i as int]),
            None => Err(ConvertError::NoContentPart),
        }
    }
}

fn take_content(p: &MimePart) -> (r: Result<(String, Vec<u8>), ConvertError>)
    ensures
        match part_content(*p) {
            Ok((t, b)) => r matches Ok((t2, b2)) && t2 == t && b2@ == b,
            Err(x) => r == Err::<(String, Vec<u8>), ConvertError>(x),
        },
{
    match &p.body {
        Some(b) => {
            let body = b.clone();
            assert(body@ =~= b@);
            Ok((p.content_type.clone(), body))
        },
        None => Err(ConvertError::MimeParseError),
    }
}

/// Picks the content type and body that carry the report.
pub fn select_part(m: &MimeMessage) -> (r: Result<(String, Vec<u8>), ConvertError>)
    ensures
        match selected_part(*m) {
            Ok((t, b)) => r matches Ok((t2, b2)) && t2 == t && b2@ == b,
            Err(x) => r == Err::<(String, Vec<u8>), ConvertError>(x),
        },
{
    if m.parts.len() == 0 {
        return take_content(&m.top);
    }
    let mut i: usize = 0;
    while i < m.parts.len()
        invariant
            i <= m.parts@.len(),
            m.parts@.len() > 0,
            first_content_from(m.parts@, 0) == first_content_from(m.parts@, i as nat),
        decreases m.parts@.len() - i,
    {
        if !same_text(m.parts[i].content_type.as_str(), "multipart/related") {
            return take_content(&m.parts[i]);
        }
        i = i + 1;
    }
    Err(ConvertError::NoContentPart)
}

} // verus!
