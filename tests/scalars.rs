use dmarc_email_parser::model::{Alignment, Disposition, DkimResult, DmarcResult, IpAddress, SpfResult};
use dmarc_email_parser::scalar::{
    parse_alignment, parse_decimal, parse_disposition, parse_dkim_result, parse_dmarc_result,
    parse_ip_address, parse_spf_result, split_fields,
};
use dmarc_email_parser::decompress::check_entry_count;
use dmarc_email_parser::ConvertError;

#[test]
fn disposition_tokens() {
    assert_eq!(parse_disposition("none"), Some(Disposition::NoAction));
    assert_eq!(parse_disposition("quarantine"), Some(Disposition::Quarantine));
    assert_eq!(parse_disposition("reject"), Some(Disposition::Reject));
    assert_eq!(parse_disposition("REJECT"), None);
    assert_eq!(parse_disposition(""), None);
}

#[test]
fn other_tokens() {
    assert_eq!(parse_alignment("r"), Some(Alignment::Relaxed));
    assert_eq!(parse_alignment("s"), Some(Alignment::Strict));
    assert_eq!(parse_alignment("R"), None);
    assert_eq!(parse_dmarc_result("pass"), Some(DmarcResult::Pass));
    assert_eq!(parse_dmarc_result("fail"), Some(DmarcResult::Fail));
    assert_eq!(parse_dmarc_result("none"), None);
    assert_eq!(parse_dkim_result("none"), Some(DkimResult::NoResult));
    assert_eq!(parse_dkim_result("policy"), Some(DkimResult::Policy));
    assert_eq!(parse_dkim_result("temperror"), Some(DkimResult::TempError));
    assert_eq!(parse_dkim_result("permerror"), Some(DkimResult::PermError));
    assert_eq!(parse_dkim_result("softfail"), None);
    assert_eq!(parse_spf_result("softfail"), Some(SpfResult::SoftFail));
    assert_eq!(parse_spf_result("neutral"), Some(SpfResult::Neutral));
    assert_eq!(parse_spf_result("policy"), None);
}

#[test]
fn decimals() {
    assert_eq!(parse_decimal("0", 255), Some(0));
    assert_eq!(parse_decimal("255", 255), Some(255));
    assert_eq!(parse_decimal("256", 255), None);
    assert_eq!(parse_decimal("", 255), None);
    assert_eq!(parse_decimal("-1", 255), None);
    assert_eq!(parse_decimal("1a", 255), None);
    assert_eq!(parse_decimal("18446744073709551615", u64::MAX), Some(u64::MAX));
    assert_eq!(parse_decimal("18446744073709551616", u64::MAX), None);
    assert_eq!(parse_decimal("99999999999999999999999", u64::MAX), None);
}

#[test]
fn addresses() {
    assert_eq!(parse_ip_address("10.0.0.255"), Some(IpAddress::V4(10, 0, 0, 255)));
    assert_eq!(parse_ip_address("10.0.0"), None);
    assert_eq!(parse_ip_address("10.0.0.01"), None);
    assert_eq!(parse_ip_address("10.0.0.1.2"), None);
    assert_eq!(
        parse_ip_address("fe80:0:0:0:0:0:0:ABCD"),
        Some(IpAddress::V6(0xfe80, 0, 0, 0, 0, 0, 0, 0xabcd))
    );
    assert_eq!(parse_ip_address("fe80:0:0:0:0:0:0:12345"), None);
    assert_eq!(parse_ip_address("not an address"), None);
}

#[test]
fn fields_split() {
    assert_eq!(split_fields("a.b..c", '.'), vec!["a", "b", "", "c"]);
    assert_eq!(split_fields("", '.'), vec![""]);
}

#[test]
fn entry_counts() {
    assert!(matches!(check_entry_count(0), Err(ConvertError::EmptyArchive)));
    assert!(check_entry_count(1).is_ok());
    assert!(matches!(check_entry_count(3), Err(ConvertError::TooManyEntries(3))));
}

#[test]
fn compressed_ipv6_addresses() {
    assert_eq!(parse_ip_address("::"), Some(IpAddress::V6(0, 0, 0, 0, 0, 0, 0, 0)));
    assert_eq!(parse_ip_address("::1"), Some(IpAddress::V6(0, 0, 0, 0, 0, 0, 0, 1)));
    assert_eq!(parse_ip_address("fe80::"), Some(IpAddress::V6(0xfe80, 0, 0, 0, 0, 0, 0, 0)));
    assert_eq!(
        parse_ip_address("2001:db8::ff00:42:8329"),
        Some(IpAddress::V6(0x2001, 0xdb8, 0, 0, 0, 0xff00, 0x42, 0x8329))
    );
    assert_eq!(parse_ip_address("1:2:3:4:5:6:7::8"), None);
    assert_eq!(parse_ip_address("1:::2"), None);
    assert_eq!(parse_ip_address("1::2::3"), None);
    assert_eq!(parse_ip_address(":1"), None);
}

#[test]
fn ipv6_with_dotted_quad() {
    assert_eq!(
        parse_ip_address("::ffff:192.0.2.1"),
        Some(IpAddress::V6(0, 0, 0, 0, 0, 0xffff, 0xc000, 0x0201))
    );
    assert_eq!(
        parse_ip_address("1:2:3:4:5:6:10.0.0.1"),
        Some(IpAddress::V6(1, 2, 3, 4, 5, 6, 0x0a00, 0x0001))
    );
    assert_eq!(parse_ip_address("1.2.3.4::"), None);
    assert_eq!(parse_ip_address("::1.2.3.4:5"), None);
}
