//! Turning the body of the content part into the report text, by content type.
use vstd::prelude::*;
use crate::model::ConvertError;
use crate::scalar::same_text;

verus! {

/// The number of entries that the zip crate finds in an archive, if it opens it.
pub uninterp spec fn zip_entry_count_of(b: Seq<u8>) -> Option<usize>;

/// The contents of entry `i` of an archive as the zip crate reads them, if it can.
pub uninterp spec fn zip_entry_of(b: Seq<u8>, i: usize) -> Option<Seq<u8>>;

/// What flate2 inflates from a gzip stream, if the stream is sound.
pub uninterp spec fn gunzip_of(b: Seq<u8>) -> Option<Seq<u8>>;

/// Relies on `zip::ZipArchive::new` to open the archive and `ZipArchive::len`
/// for its number of entries.
#[verifier::external_body]
fn zip_entry_count(b: &[u8]) -> (r: Option<usize>)
    ensures
        r == zip_entry_count_of(b@),
{
    zip::ZipArchive::new(std::io::Cursor::new(b)).ok().map(|a| a.len())
}

/// Relies on `zip::ZipArchive::new`, `ZipArchive::by_index` and the `Read` impl
/// of `ZipFile` to read entry `i` whole.
#[verifier::external_body]
fn zip_entry(b: &[u8], i: usize) -> (r: Option<Vec<u8>>)
    ensures
        r matches Some(v) ==> zip_entry_of(b@, i) == Some(v@),
        r is None ==> zip_entry_of(b@, i) is None,
{
    let mut archive = zip::ZipArchive::new(std::io::Cursor::new(b)).ok()?;
    let mut file = archive.by_index(i).ok()?;
    let mut buf = Vec::new();
    std::io::Read::read_to_end(&mut file, &mut buf).ok()?;
    Some(buf)
}

/// Relies on `flate2::read::GzDecoder` to inflate a single-member gzip stream whole.
#[verifier::external_body]
fn gunzip(b: &[u8]) -> (r: Option<Vec<u8>>)
    ensures
        r matches Some(v) ==> gunzip_of(b@) == Some(v@),
        r is None ==> gunzip_of(b@) is None,
{
    let mut buf = Vec::new();
    let mut decoder = flate2::read::GzDecoder::new(b);
    std::io::Read::read_to_end(&mut decoder, &mut buf).ok()?;
    Some(buf)
}

/// What an archive of `count` entries allows: exactly one entry is read.
pub open spec fn entry_count_check(count: usize) -> Result<(), ConvertError> {
    if count == 0 {
        Err(ConvertError::EmptyArchive)
    } else if count > 1 {
        Err(ConvertError::TooManyEntries(count))
    } else {
        Ok(())
    }
}

/// Accepts an archive of exactly one entry.
pub fn check_entry_count(count: usize) -> (r: Result<(), ConvertError>)
    ensures
        r == entry_count_check(count),
{
    if count == 0 {
        Err(ConvertError::EmptyArchive)
    } else if count > 1 {
        Err(ConvertError::TooManyEntries(count))
    } else {
        Ok(())
    }
}

/// The report text carried by a body of content type `ct`.
pub open spec fn decompressed_of(ct: String, body: Seq<u8>) -> Result<Seq<u8>, ConvertError> {
    if ct@ == "text/plain"@ {
        Ok(body)
    } else if ct@ == "application/zip"@ {
        match zip_entry_count_of(body) {
            None => Err(ConvertError::DecompressionError),
            Some(n) => match entry_count_check(n) {
                Err(x) => Err(x),
                Ok(_) => match zip_entry_of(body, 0) {
                    Some(d) => Ok(d),
                    None => Err(ConvertError::DecompressionError),
                },
            },
        }
    } else if ct@ == "application/gzip"@ {
        match gunzip_of(body) {
            Some(d) => Ok(d),
            None => Err(ConvertError::DecompressionError),
        }
    } else {
        Err(ConvertError::UnsupportedContentType(ct))
    }
}

/// Decompresses `body` according to its content type `ct`.
///
/// No bound is put on the size of the output: a caller that takes bodies from
/// untrusted senders bounds their size first.
pub fn decompress(ct: String, body: Vec<u8>) -> (r: Result<Vec<u8>, ConvertError>)
    ensures
        match decompressed_of(ct, body@) {
            Ok(d) => r matches Ok(v) && v@ == d,
            Err(x) => r == Err::<Vec<u8>, ConvertError>(x),
        },
{
    if same_text(ct.as_str(), "text/plain") {
        Ok(body)
    } else if same_text(ct.as_str(), "application/zip") {
        let n = match zip_entry_count(body.as_slice()) {
            None => return Err(ConvertError::DecompressionError),
            Some(n) => n,
        };
        match check_entry_count(n) {
            Err(x) => return Err(x),
            Ok(_) => {},
        }
        match zip_entry(body.as_slice(), 0) {
            Some(d) => Ok(d),
            None => Err(ConvertError::DecompressionError),
        }
    } else if same_text(ct.as_str(), "application/gzip") {
        match gunzip(body.as_slice()) {
            Some(d) => Ok(d),
            None => Err(ConvertError::DecompressionError),
        }
    } else {
        Err(ConvertError::UnsupportedContentType(ct))
    }
}

} // verus!
