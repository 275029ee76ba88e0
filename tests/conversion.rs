use std::io::Write;

use dmarc_email_parser::{
    mail_to_report, parse_report, Alignment, ConvertError, DkimResult, Disposition, DmarcResult,
    IpAddress, SpfResult,
};

const REPORT: &str = r#"<?xml version="1.0" encoding="UTF-8"?>
<feedback>
  <version>1.0</version>
  <report_metadata>
    <org_name>example.net</org_name>
    <email>noreply@example.net</email>
    <report_id>abc-123</report_id>
    <date_range><begin>1000</begin><end>2000</end></date_range>
    <error>first</error>
    <error>second</error>
    <error>third</error>
  </report_metadata>
  <policy_published>
    <domain>example.com</domain>
    <adkim>r</adkim>
    <aspf>s</aspf>
    <p>reject</p>
    <sp>quarantine</sp>
    <pct>100</pct>
  </policy_published>
  <record>
    <row>
      <source_ip>192.0.2.1</source_ip>
      <count>3</count>
      <policy_evaluated><disposition>none</disposition><dkim>pass</dkim><spf>fail</spf></policy_evaluated>
    </row>
    <identifiers><header_from>example.com</header_from></identifiers>
    <auth_results>
      <dkim><domain>example.com</domain><result>pass</result></dkim>
      <spf><domain>example.com</domain><result>softfail</result></spf>
    </auth_results>
  </record>
  <record>
    <row>
      <source_ip>2001:db8:0:0:0:0:0:1</source_ip>
      <count>7</count>
      <policy_evaluated><disposition>quarantine</disposition><dkim>fail</dkim><spf>pass</spf></policy_evaluated>
    </row>
    <identifiers><envelope_from>bounce.example.com</envelope_from><header_from>example.com</header_from></identifiers>
    <auth_results>
      <spf><domain>bounce.example.com</domain><result>pass</result></spf>
    </auth_results>
  </record>
</feedback>
"#;

const MINIMAL: &str = "<feedback><version>1.0</version><report_metadata><org_name>o</org_name>\
<email>e</email><report_id>r</report_id><date_range><begin>1000</begin><end>2000</end></date_range>\
</report_metadata><policy_published><domain>d</domain><p>none</p><sp>none</sp><pct>0</pct>\
</policy_published></feedback>";

fn base64(data: &[u8]) -> String {
    let table = b"ABCDEFGHIJKLMNOPQRSTUVWXYZabcdefghijklmnopqrstuvwxyz0123456789+/";
    let mut out = String::new();
    for chunk in data.chunks(3) {
        let b = [chunk[0], *chunk.get(1).unwrap_or(&0), *chunk.get(2).unwrap_or(&0)];
        let n = ((b[0] as u32) << 16) | ((b[1] as u32) << 8) | b[2] as u32;
        for k in 0..4 {
            if k <= chunk.len() {
                out.push(table[((n >> (18 - 6 * k)) & 63) as usize] as char);
            } else {
                out.push('=');
            }
        }
    }
    let mut wrapped = String::new();
    for (i, c) in out.chars().enumerate() {
        if i > 0 && i % 76 == 0 {
            wrapped.push_str("\r\n");
        }
        wrapped.push(c);
    }
    wrapped
}

fn single_part(content_type: &str, body: &[u8]) -> Vec<u8> {
    format!(
        "From: a@example.net\r\nTo: b@example.com\r\nSubject: report\r\nMIME-Version: 1.0\r\n\
Content-Type: {content_type}\r\nContent-Transfer-Encoding: base64\r\n\r\n{}\r\n",
        base64(body)
    )
    .into_bytes()
}

fn multipart(parts: &[(&str, &[u8])]) -> Vec<u8> {
    let mut s = String::from(
        "From: a@example.net\r\nTo: b@example.com\r\nSubject: report\r\nMIME-Version: 1.0\r\n\
Content-Type: multipart/mixed; boundary=\"XYZ\"\r\n\r\npreamble\r\n",
    );
    for (ct, body) in parts {
        s.push_str(&format!(
            "--XYZ\r\nContent-Type: {ct}\r\nContent-Transfer-Encoding: base64\r\n\r\n{}\r\n",
            base64(body)
        ));
    }
    s.push_str("--XYZ--\r\n");
    s.into_bytes()
}

fn gzip(data: &[u8]) -> Vec<u8> {
    let mut enc = flate2::write::GzEncoder::new(Vec::new(), flate2::Compression::default());
    enc.write_all(data).unwrap();
    enc.finish().unwrap()
}

fn zip_of(entries: &[(&str, &[u8])]) -> Vec<u8> {
    let mut w = zip::ZipWriter::new(std::io::Cursor::new(Vec::new()));
    for (name, data) in entries {
        w.start_file(*name, zip::write::SimpleFileOptions::default()).unwrap();
        w.write_all(data).unwrap();
    }
    w.finish().unwrap().into_inner()
}

#[test]
fn plain_text_report_reads_every_field() {
    let f = mail_to_report(&single_part("text/plain", REPORT.as_bytes())).unwrap();
    assert_eq!(f.version, "1.0");
    let m = &f.report_metadata;
    assert_eq!(m.org_name, "example.net");
    assert_eq!(m.email, "noreply@example.net");
    assert_eq!(m.extra_contact_info, None);
    assert_eq!(m.report_id, "abc-123");
    assert_eq!((m.date_range.begin, m.date_range.end), (1000, 2000));
    assert_eq!(m.errors, vec!["first", "second", "third"]);
    let p = &f.policy_published;
    assert_eq!(p.domain, "example.com");
    assert_eq!(p.adkim, Some(Alignment::Relaxed));
    assert_eq!(p.aspf, Some(Alignment::Strict));
    assert_eq!(p.p, Disposition::Reject);
    assert_eq!(p.sp, Disposition::Quarantine);
    assert_eq!(p.pct, 100);
    assert_eq!(p.fo, None);
    assert_eq!(f.records.len(), 2);
    let r0 = &f.records[0];
    assert_eq!(r0.row.source_ip, IpAddress::V4(192, 0, 2, 1));
    assert_eq!(r0.row.count, 3);
    assert_eq!(r0.row.policy_evaluated.disposition, Disposition::NoAction);
    assert_eq!(r0.row.policy_evaluated.dkim, DmarcResult::Pass);
    assert_eq!(r0.row.policy_evaluated.spf, DmarcResult::Fail);
    assert_eq!(r0.identifiers.header_from, "example.com");
    let dkim = r0.auth_results.dkim.as_ref().unwrap();
    assert_eq!((dkim.domain.as_str(), dkim.result), ("example.com", DkimResult::Pass));
    let spf = r0.auth_results.spf.as_ref().unwrap();
    assert_eq!((spf.domain.as_str(), spf.result), ("example.com", SpfResult::SoftFail));
    let r1 = &f.records[1];
    assert_eq!(r1.row.source_ip, IpAddress::V6(0x2001, 0xdb8, 0, 0, 0, 0, 0, 1));
    assert_eq!(r1.row.count, 7);
    assert_eq!(r1.identifiers.envelope_from.as_deref(), Some("bounce.example.com"));
    assert_eq!(r1.identifiers.envelope_to, None);
}

#[test]
fn absent_dkim_block_is_none() {
    let f = parse_report(REPORT.as_bytes().to_vec()).unwrap();
    assert!(f.records[1].auth_results.dkim.is_none());
    assert_eq!(f.records[1].auth_results.spf.as_ref().unwrap().result, SpfResult::Pass);
}

#[test]
fn zero_errors_give_empty_list() {
    let f = parse_report(MINIMAL.as_bytes().to_vec()).unwrap();
    assert!(f.report_metadata.errors.is_empty());
    assert!(f.records.is_empty());
}

#[test]
fn gzip_report_end_to_end() {
    let raw = multipart(&[("application/gzip", &gzip(MINIMAL.as_bytes()))]);
    let f = mail_to_report(&raw).unwrap();
    assert_eq!(f.version, "1.0");
    assert_eq!(f.report_metadata.date_range.begin, 1000);
    assert_eq!(f.report_metadata.date_range.end, 2000);
    assert!(f.report_metadata.errors.is_empty());
    assert!(f.records.is_empty());
}

#[test]
fn corrupt_gzip_header_is_decompression_error() {
    let mut z = gzip(MINIMAL.as_bytes());
    z[0] = 0;
    z[1] = 0;
    let r = mail_to_report(&single_part("application/gzip", &z));
    assert!(matches!(r, Err(ConvertError::DecompressionError)));
}

#[test]
fn zip_single_entry_reads_as_entry() {
    let raw = single_part("application/zip", &zip_of(&[("report.xml", REPORT.as_bytes())]));
    let a = mail_to_report(&raw).unwrap();
    let b = parse_report(REPORT.as_bytes().to_vec()).unwrap();
    assert_eq!(format!("{a:?}"), format!("{b:?}"));
}

#[test]
fn zip_two_entries_refused() {
    let raw = single_part(
        "application/zip",
        &zip_of(&[("a.xml", MINIMAL.as_bytes()), ("b.xml", MINIMAL.as_bytes())]),
    );
    assert!(matches!(mail_to_report(&raw), Err(ConvertError::TooManyEntries(2))));
}

#[test]
fn zip_three_entries_refused() {
    let raw = single_part(
        "application/zip",
        &zip_of(&[("a", b"1"), ("b", b"2"), ("c", b"3")]),
    );
    assert!(matches!(mail_to_report(&raw), Err(ConvertError::TooManyEntries(3))));
}

#[test]
fn empty_zip_is_empty_archive() {
    let raw = single_part("application/zip", &zip_of(&[]));
    assert!(matches!(mail_to_report(&raw), Err(ConvertError::EmptyArchive)));
}

#[test]
fn corrupt_zip_is_decompression_error() {
    let raw = single_part("application/zip", b"this is not an archive");
    assert!(matches!(mail_to_report(&raw), Err(ConvertError::DecompressionError)));
}

#[test]
fn pdf_is_unsupported() {
    let raw = single_part("application/pdf", b"%PDF-1.4");
    match mail_to_report(&raw) {
        Err(ConvertError::UnsupportedContentType(t)) => assert_eq!(t, "application/pdf"),
        other => panic!("unexpected {other:?}"),
    }
}

#[test]
fn related_parts_are_skipped() {
    let raw = multipart(&[
        ("multipart/related", b"ignored"),
        ("text/plain", MINIMAL.as_bytes()),
    ]);
    assert_eq!(mail_to_report(&raw).unwrap().version, "1.0");
}

#[test]
fn only_related_parts_is_no_content() {
    let raw = multipart(&[("multipart/related", b"ignored")]);
    assert!(matches!(mail_to_report(&raw), Err(ConvertError::NoContentPart)));
}

#[test]
fn invalid_utf8_is_encoding_error() {
    let raw = single_part("text/plain", &[0x3c, 0xff, 0xfe, 0x3e]);
    assert!(matches!(mail_to_report(&raw), Err(ConvertError::EncodingError)));
}

#[test]
fn malformed_xml_is_structural_error() {
    let r = parse_report(b"<feedback><version>1.0</feedback>".to_vec());
    assert!(matches!(r, Err(ConvertError::StructuralParseError)));
    let r = parse_report(b"<report><version>1.0</version></report>".to_vec());
    assert!(matches!(r, Err(ConvertError::StructuralParseError)));
}

#[test]
fn missing_field_names_field_and_container() {
    let doc = MINIMAL.replace("<email>e</email>", "");
    match parse_report(doc.into_bytes()) {
        Err(ConvertError::MissingField { field, container }) => {
            assert_eq!((field, container), ("email", "report_metadata"))
        }
        other => panic!("unexpected {other:?}"),
    }
}

#[test]
fn wrong_case_disposition_is_unknown() {
    let doc = MINIMAL.replace("<p>none</p>", "<p>REJECT</p>");
    match parse_report(doc.into_bytes()) {
        Err(ConvertError::UnknownEnumValue { field, container, raw_text }) => {
            assert_eq!((field, container, raw_text.as_str()), ("p", "policy_published", "REJECT"))
        }
        other => panic!("unexpected {other:?}"),
    }
}

#[test]
fn pct_out_of_range_is_invalid_value() {
    let doc = MINIMAL.replace("<pct>0</pct>", "<pct>256</pct>");
    match parse_report(doc.into_bytes()) {
        Err(ConvertError::InvalidValue { field, raw_text }) => {
            assert_eq!((field, raw_text.as_str()), ("pct", "256"))
        }
        other => panic!("unexpected {other:?}"),
    }
}

#[test]
fn bad_source_ip_is_invalid_address() {
    let doc = REPORT.replace("192.0.2.1", "192.0.2.256");
    match parse_report(doc.into_bytes()) {
        Err(ConvertError::InvalidAddress { raw_text }) => assert_eq!(raw_text, "192.0.2.256"),
        other => panic!("unexpected {other:?}"),
    }
}

#[test]
fn unknown_elements_are_ignored() {
    let doc = MINIMAL.replace("<version>1.0</version>", "<version>1.0</version><extra>x</extra>");
    assert!(parse_report(doc.into_bytes()).is_ok());
}

#[test]
fn garbage_message_fails_cleanly() {
    let r = mail_to_report(b"Content-Type: multipart/mixed; boundary=\"Q\"\r\n\r\n--Q--\r\n");
    assert!(r.is_err());
}
