//! The report schema: which child elements each part of the report is read from,
//! which of them are required, and how their text is read.
//!
//! A single-valued field is read from the first child element of its name;
//! elements that the schema does not name are ignored.
use vstd::prelude::*;
use crate::model::{
    Alignment, AuthResults, ConvertError, DateRange, DkimAuthResult, DkimResult, Disposition,
    DmarcResult, Feedback, FeedbackView, Identifiers, PolicyEvaluated, PolicyPublished,
    Record, ReportMetadata, ReportMetadataView, Row, SpfAuthResult, SpfResult,
};
use crate::scalar::{
    ip_address_of, parse_ip_address,
    alignment_of, decimal_of, disposition_of, dkim_result_of, dmarc_result_of, parse_alignment,
    parse_decimal, parse_disposition, parse_dkim_result, parse_dmarc_result, parse_spf_result,
    spf_result_of,
};
use crate::xml::{child_named, child_text, find_child, get_child_text, get_children_texts, named, texts_named, texts_of, XmlElement};

verus! {

/// The text of the required field `field` of `e`.
pub open spec fn required_text(e: XmlElement, field: &'static str, container: &'static str) -> Result<
    String,
    ConvertError,
> {
    match child_text(e, field@) {
        Some(t) => Ok(t),
        None => Err(ConvertError::MissingField { field, container }),
    }
}

fn read_required_text(e: &XmlElement, field: &'static str, container: &'static str) -> (r: Result<
    String,
    ConvertError,
>)
    ensures
        r == required_text(*e, field, container),
{
    match get_child_text(e, field) {
        Some(t) => Ok(t),
        None => Err(ConvertError::MissingField { field, container }),
    }
}

/// A required enumerated field of `e`, read by `token`.
pub open spec fn required_token<T>(
    e: XmlElement,
    field: &'static str,
    container: &'static str,
    token: spec_fn(Seq<char>) -> Option<T>,
) -> Result<T, ConvertError> {
    match child_text(e, field@) {
        Some(t) => match token(t@) {
            Some(v) => Ok(v),
            None => Err(ConvertError::UnknownEnumValue { field, container, raw_text: t }),
        },
        None => Err(ConvertError::MissingField { field, container }),
    }
}

fn read_disposition(e: &XmlElement, field: &'static str, container: &'static str) -> (r: Result<
    Disposition,
    ConvertError,
>)
    ensures
        r == required_token(*e, field, container, |s| disposition_of(s)),
{
    match get_child_text(e, field) {
        Some(t) => match parse_disposition(t.as_str()) {
            Some(v) => Ok(v),
            None => Err(ConvertError::UnknownEnumValue { field, container, raw_text: t }),
        },
        None => Err(ConvertError::MissingField { field, container }),
    }
}

fn read_dmarc_result(e: &XmlElement, field: &'static str, container: &'static str) -> (r: Result<
    DmarcResult,
    ConvertError,
>)
    ensures
        r == required_token(*e, field, container, |s| dmarc_result_of(s)),
{
    match get_child_text(e, field) {
        Some(t) => match parse_dmarc_result(t.as_str()) {
            Some(v) => Ok(v),
            None => Err(ConvertError::UnknownEnumValue { field, container, raw_text: t }),
        },
        None => Err(ConvertError::MissingField { field, container }),
    }
}

fn read_dkim_result(e: &XmlElement, field: &'static str, container: &'static str) -> (r: Result<
    DkimResult,
    ConvertError,
>)
    ensures
        r == required_token(*e, field, container, |s| dkim_result_of(s)),
{
    match get_child_text(e, field) {
        Some(t) => match parse_dkim_result(t.as_str()) {
            Some(v) => Ok(v),
            None => Err(ConvertError::UnknownEnumValue { field, container, raw_text: t }),
        },
        None => Err(ConvertError::MissingField { field, container }),
    }
}

fn read_spf_result(e: &XmlElement, field: &'static str, container: &'static str) -> (r: Result<
    SpfResult,
    ConvertError,
>)
    ensures
        r == required_token(*e, field, container, |s| spf_result_of(s)),
{
    match get_child_text(e, field) {
        Some(t) => match parse_spf_result(t.as_str()) {
            Some(v) => Ok(v),
            None => Err(ConvertError::UnknownEnumValue { field, container, raw_text: t }),
        },
        None => Err(ConvertError::MissingField { field, container }),
    }
}

/// An optional alignment field of `e`: absent is `None`, present must be a valid token.
pub open spec fn optional_alignment(e: XmlElement, field: &'static str, container: &'static str) -> Result<
    Option<Alignment>,
    ConvertError,
> {
    match child_text(e, field@) {
        Some(t) => match alignment_of(t@) {
            Some(v) => Ok(Some(v)),
            None => Err(ConvertError::UnknownEnumValue { field, container, raw_text: t }),
        },
        None => Ok(None),
    }
}

fn read_optional_alignment(e: &XmlElement, field: &'static str, container: &'static str) -> (r: Result<
    Option<Alignment>,
    ConvertError,
>)
    ensures
        r == optional_alignment(*e, field, container),
{
    match get_child_text(e, field) {
        Some(t) => match parse_alignment(t.as_str()) {
            Some(v) => Ok(Some(v)),
            None => Err(ConvertError::UnknownEnumValue { field, container, raw_text: t }),
        },
        None => Ok(None),
    }
}

/// A required numeric field of `e`, no larger than `max`.
pub open spec fn required_number(e: XmlElement, field: &'static str, container: &'static str, max: u64) -> Result<
    u64,
    ConvertError,
> {
    match child_text(e, field@) {
        Some(t) => match decimal_of(t@, max) {
            Some(v) => Ok(v),
            None => Err(ConvertError::InvalidValue { field, raw_text: t }),
        },
        None => Err(ConvertError::MissingField { field, container }),
    }
}

fn read_number(e: &XmlElement, field: &'static str, container: &'static str, max: u64) -> (r: Result<
    u64,
    ConvertError,
>)
    ensures
        r == required_number(*e, field, container, max),
        r matches Ok(v) ==> v <= max,
{
    match get_child_text(e, field) {
        Some(t) => match parse_decimal(t.as_str(), max) {
            Some(v) => Ok(v),
            None => Err(ConvertError::InvalidValue { field, raw_text: t }),
        },
        None => Err(ConvertError::MissingField { field, container }),
    }
}

/// The required child element `field` of `e`.
pub open spec fn required_child(e: XmlElement, field: &'static str, container: &'static str) -> Result<
    XmlElement,
    ConvertError,
> {
    match child_named(e, field@) {
        Some(c) => Ok(c),
        None => Err(ConvertError::MissingField { field, container }),
    }
}

pub open spec fn date_range_of(e: XmlElement) -> Result<DateRange, ConvertError> {
    match required_number(e, "begin", "date_range", u64::MAX) {
        Err(x) => Err(x),
        Ok(begin) => match required_number(e, "end", "date_range", u64::MAX) {
            Err(x) => Err(x),
            Ok(end) => Ok(DateRange { begin, end }),
        },
    }
}

/// Reads a `date_range` element.
pub fn read_date_range(e: &XmlElement) -> (r: Result<DateRange, ConvertError>)
    ensures
        r == date_range_of(*e),
{
    let begin = match read_number(e, "begin", "date_range", u64::MAX) {
        Err(x) => return Err(x),
        Ok(v) => v,
    };
    let end = match read_number(e, "end", "date_range", u64::MAX) {
        Err(x) => return Err(x),
        Ok(v) => v,
    };
    Ok(DateRange { begin, end })
}

} // verus!
verus! {

pub open spec fn policy_published_of(e: XmlElement) -> Result<PolicyPublished, ConvertError> {
    let c = "policy_published";
    match required_text(e, "domain", c) {
        Err(x) => Err(x),
        Ok(domain) => match optional_alignment(e, "adkim", c) {
            Err(x) => Err(x),
            Ok(adkim) => match optional_alignment(e, "aspf", c) {
                Err(x) => Err(x),
                Ok(aspf) => match required_token(e, "p", c, |s| disposition_of(s)) {
                    Err(x) => Err(x),
                    Ok(p) => match required_token(e, "sp", c, |s| disposition_of(s)) {
                        Err(x) => Err(x),
                        Ok(sp) => match required_number(e, "pct", c, 255) {
                            Err(x) => Err(x),
                            Ok(pct) => Ok(
                                PolicyPublished {
                                    domain,
                                    adkim,
                                    aspf,
                                    p,
                                    sp,
                                    pct: pct as u8,
                                    fo: child_text(e, "fo"@),
                                },
                            ),
                        },
                    },
                },
            },
        },
    }
}

/// Reads a `policy_published` element.
pub fn read_policy_published(e: &XmlElement) -> (r: Result<PolicyPublished, ConvertError>)
    ensures
        r == policy_published_of(*e),
{
    let c = "policy_published";
    let domain = match read_required_text(e, "domain", c) {
        Err(x) => return Err(x),
        Ok(v) => v,
    };
    let adkim = match read_optional_alignment(e, "adkim", c) {
        Err(x) => return Err(x),
        Ok(v) => v,
    };
    let aspf = match read_optional_alignment(e, "aspf", c) {
        Err(x) => return Err(x),
        Ok(v) => v,
    };
    let p = match read_disposition(e, "p", c) {
        Err(x) => return Err(x),
        Ok(v) => v,
    };
    let sp = match read_disposition(e, "sp", c) {
        Err(x) => return Err(x),
        Ok(v) => v,
    };
    let pct = match read_number(e, "pct", c, 255) {
        Err(x) => return Err(x),
        Ok(v) => v as u8,
    };
    let fo = get_child_text(e, "fo");
    Ok(PolicyPublished { domain, adkim, aspf, p, sp, pct, fo })
}

pub open spec fn policy_evaluated_of(e: XmlElement) -> Result<PolicyEvaluated, ConvertError> {
    let c = "policy_evaluated";
    match required_token(e, "disposition", c, |s| disposition_of(s)) {
        Err(x) => Err(x),
        Ok(disposition) => match required_token(e, "dkim", c, |s| dmarc_result_of(s)) {
            Err(x) => Err(x),
            Ok(dkim) => match required_token(e, "spf", c, |s| dmarc_result_of(s)) {
                Err(x) => Err(x),
                Ok(spf) => Ok(PolicyEvaluated { disposition, dkim, spf }),
            },
        },
    }
}

/// Reads a `policy_evaluated` element.
pub fn read_policy_evaluated(e: &XmlElement) -> (r: Result<PolicyEvaluated, ConvertError>)
    ensures
        r == policy_evaluated_of(*e),
{
    let c = "policy_evaluated";
    let disposition = match read_disposition(e, "disposition", c) {
        Err(x) => return Err(x),
        Ok(v) => v,
    };
    let dkim = match read_dmarc_result(e, "dkim", c) {
        Err(x) => return Err(x),
        Ok(v) => v,
    };
    let spf = match read_dmarc_result(e, "spf", c) {
        Err(x) => return Err(x),
        Ok(v) => v,
    };
    Ok(PolicyEvaluated { disposition, dkim, spf })
}

pub open spec fn row_of(e: XmlElement) -> Result<Row, ConvertError> {
    let c = "row";
    match required_text(e, "source_ip", c) {
        Err(x) => Err(x),
        Ok(ip) => match ip_address_of(ip@) {
            None => Err(ConvertError::InvalidAddress { raw_text: ip }),
            Some(source_ip) => match required_number(e, "count", c, 0xffff_ffff) {
                Err(x) => Err(x),
                Ok(count) => match required_child(e, "policy_evaluated", c) {
                    Err(x) => Err(x),
                    Ok(pe) => match policy_evaluated_of(pe) {
                        Err(x) => Err(x),
                        Ok(policy_evaluated) => Ok(
                            Row { source_ip, count: count as u32, policy_evaluated },
                        ),
                    },
                },
            },
        },
    }
}

/// Reads a `row` element.
pub fn read_row(e: &XmlElement) -> (r: Result<Row, ConvertError>)
    ensures
        r == row_of(*e),
{
    let c = "row";
    let ip = match read_required_text(e, "source_ip", c) {
        Err(x) => return Err(x),
        Ok(v) => v,
    };
    let source_ip = match parse_ip_address(ip.as_str()) {
        None => return Err(ConvertError::InvalidAddress { raw_text: ip }),
        Some(a) => a,
    };
    let count = match read_number(e, "count", c, 0xffff_ffff) {
        Err(x) => return Err(x),
        Ok(v) => v as u32,
    };
    let policy_evaluated = match find_child(e, "policy_evaluated") {
        None => return Err(ConvertError::MissingField { field: "policy_evaluated", container: c }),
        Some(i) => match read_policy_evaluated(&e.children[i]) {
            Err(x) => return Err(x),
            Ok(v) => v,
        },
    };
    Ok(Row { source_ip, count, policy_evaluated })
}

pub open spec fn identifiers_of(e: XmlElement) -> Result<Identifiers, ConvertError> {
    match required_text(e, "header_from", "identifiers") {
        Err(x) => Err(x),
        Ok(header_from) => Ok(
            Identifiers {
                envelope_to: child_text(e, "envelope_to"@),
                envelope_from: child_text(e, "envelope_from"@),
                header_from,
            },
        ),
    }
}

/// Reads an `identifiers` element.
pub fn read_identifiers(e: &XmlElement) -> (r: Result<Identifiers, ConvertError>)
    ensures
        r == identifiers_of(*e),
{
    let envelope_to = get_child_text(e, "envelope_to");
    let envelope_from = get_child_text(e, "envelope_from");
    match read_required_text(e, "header_from", "identifiers") {
        Err(x) => Err(x),
        Ok(header_from) => Ok(Identifiers { envelope_to, envelope_from, header_from }),
    }
}

pub open spec fn dkim_auth_result_of(e: XmlElement) -> Result<DkimAuthResult, ConvertError> {
    match required_text(e, "domain", "dkim") {
        Err(x) => Err(x),
        Ok(domain) => match required_token(e, "result", "dkim", |s| dkim_result_of(s)) {
            Err(x) => Err(x),
            Ok(result) => Ok(DkimAuthResult { domain, result }),
        },
    }
}

/// Reads a `dkim` element of `auth_results`.
pub fn read_dkim_auth_result(e: &XmlElement) -> (r: Result<DkimAuthResult, ConvertError>)
    ensures
        r == dkim_auth_result_of(*e),
{
    let domain = match read_required_text(e, "domain", "dkim") {
        Err(x) => return Err(x),
        Ok(v) => v,
    };
    match read_dkim_result(e, "result", "dkim") {
        Err(x) => Err(x),
        Ok(result) => Ok(DkimAuthResult { domain, result }),
    }
}

pub open spec fn spf_auth_result_of(e: XmlElement) -> Result<SpfAuthResult, ConvertError> {
    match required_text(e, "domain", "spf") {
        Err(x) => Err(x),
        Ok(domain) => match required_token(e, "result", "spf", |s| spf_result_of(s)) {
            Err(x) => Err(x),
            Ok(result) => Ok(SpfAuthResult { domain, result }),
        },
    }
}

/// Reads an `spf` element of `auth_results`.
pub fn read_spf_auth_result(e: &XmlElement) -> (r: Result<SpfAuthResult, ConvertError>)
    ensures
        r == spf_auth_result_of(*e),
{
    let domain = match read_required_text(e, "domain", "spf") {
        Err(x) => return Err(x),
        Ok(v) => v,
    };
    match read_spf_result(e, "result", "spf") {
        Err(x) => Err(x),
        Ok(result) => Ok(SpfAuthResult { domain, result }),
    }
}

/// `auth_results`: each of `dkim` and `spf` is absent when its element is.
pub open spec fn auth_results_of(e: XmlElement) -> Result<AuthResults, ConvertError> {
    let dkim = match child_named(e, "dkim"@) {
        None => Ok(None),
        Some(d) => match dkim_auth_result_of(d) {
            Ok(v) => Ok(Some(v)),
            Err(x) => Err(x),
        },
    };
    match dkim {
        Err(x) => Err(x),
        Ok(dkim) => match child_named(e, "spf"@) {
            None => Ok(AuthResults { dkim, spf: None }),
            Some(s) => match spf_auth_result_of(s) {
                Ok(v) => Ok(AuthResults { dkim, spf: Some(v) }),
                Err(x) => Err(x),
            },
        },
    }
}

/// Reads an `auth_results` element.
pub fn read_auth_results(e: &XmlElement) -> (r: Result<AuthResults, ConvertError>)
    ensures
        r == auth_results_of(*e),
{
    let dkim = match find_child(e, "dkim") {
        None => None,
        Some(i) => match read_dkim_auth_result(&e.children[i]) {
            Ok(v) => Some(v),
            Err(x) => return Err(x),
        },
    };
    let spf = match find_child(e, "spf") {
        None => None,
        Some(i) => match read_spf_auth_result(&e.children[i]) {
            Ok(v) => Some(v),
            Err(x) => return Err(x),
        },
    };
    Ok(AuthResults { dkim, spf })
}

pub open spec fn record_of(e: XmlElement) -> Result<Record, ConvertError> {
    let c = "record";
    match required_child(e, "row", c) {
        Err(x) => Err(x),
        Ok(re) => match row_of(re) {
            Err(x) => Err(x),
            Ok(row) => match required_child(e, "identifiers", c) {
                Err(x) => Err(x),
                Ok(ie) => match identifiers_of(ie) {
                    Err(x) => Err(x),
                    Ok(identifiers) => match required_child(e, "auth_results", c) {
                        Err(x) => Err(x),
                        Ok(ae) => match auth_results_of(ae) {
                            Err(x) => Err(x),
                            Ok(auth_results) => Ok(Record { row, identifiers, auth_results }),
                        },
                    },
                },
            },
        },
    }
}

/// Reads a `record` element.
pub fn read_record(e: &XmlElement) -> (r: Result<Record, ConvertError>)
    ensures
        r == record_of(*e),
{
    let c = "record";
    let row = match find_child(e, "row") {
        None => return Err(ConvertError::MissingField { field: "row", container: c }),
        Some(i) => match read_row(&e.children[i]) {
            Err(x) => return Err(x),
            Ok(v) => v,
        },
    };
    let identifiers = match find_child(e, "identifiers") {
        None => return Err(ConvertError::MissingField { field: "identifiers", container: c }),
        Some(i) => match read_identifiers(&e.children[i]) {
            Err(x) => return Err(x),
            Ok(v) => v,
        },
    };
    let auth_results = match find_child(e, "auth_results") {
        None => return Err(ConvertError::MissingField { field: "auth_results", container: c }),
        Some(i) => match read_auth_results(&e.children[i]) {
            Err(x) => return Err(x),
            Ok(v) => v,
        },
    };
    Ok(Record { row, identifiers, auth_results })
}

/// The records of the `record` elements among `cs`, in order; the first that
/// fails to read is the error.
pub open spec fn records_of(cs: Seq<XmlElement>) -> Result<Seq<Record>, ConvertError>
    decreases cs.len(),
{
    if cs.len() == 0 {
        Ok(Seq::empty())
    } else {
        match records_of(cs.drop_last()) {
            Err(x) => Err(x),
            Ok(rs) => if cs.last().name@ == "record"@ {
                match record_of(cs.last()) {
                    Err(x) => Err(x),
                    Ok(r) => Ok(rs.push(r)),
                }
            } else {
                Ok(rs)
            },
        }
    }
}

/// Reads every `record` child of `e`, in document order.
pub fn read_records(e: &XmlElement) -> (r: Result<Vec<Record>, ConvertError>)
    ensures
        match records_of(e.children@) {
            Ok(rs) => r matches Ok(v) && v@ == rs,
            Err(x) => r == Err::<Vec<Record>, ConvertError>(x),
        },
{
    let mut out: Vec<Record> = Vec::new();
    let mut i: usize = 0;
    while i < e.children.len()
        invariant
            i <= e.children@.len(),
            records_of(e.children@.take(i as int)) == Ok::<Seq<Record>, ConvertError>(out@),
        decreases e.children@.len() - i,
    {
        assert(e.children@.take(i + 1).drop_last() =~= e.children@.take(i as int));
        assert(e.children@.take(i + 1).last() == e.children@[i as int]);
        if e.children[i].name.as_str().to_owned() == "record".to_owned() {
            match read_record(&e.children[i]) {
                Err(x) => {
                    proof {
                        lemma_records_error_stays(e.children@, i as int + 1);
                    }
                    return Err(x);
                },
                Ok(rec) => out.push(rec),
            }
        }
        i = i + 1;
    }
    assert(e.children@.take(i as int) =~= e.children@);
    Ok(out)
}

/// Once a prefix of `cs` fails to read, so does `cs`, with the same error.
proof fn lemma_records_error_stays(cs: Seq<XmlElement>, k: int)
    requires
        0 <= k <= cs.len(),
        records_of(cs.take(k)) is Err,
    ensures
        records_of(cs) == records_of(cs.take(k)),
    decreases cs.len() - k,
{
    if k < cs.len() {
        assert(cs.take(k + 1).drop_last() =~= cs.take(k));
        lemma_records_error_stays(cs, k + 1);
    } else {
        assert(cs.take(k) =~= cs);
    }
}

pub open spec fn report_metadata_of(e: XmlElement) -> Result<ReportMetadataView, ConvertError> {
    let c = "report_metadata";
    match required_text(e, "org_name", c) {
        Err(x) => Err(x),
        Ok(org_name) => match required_text(e, "email", c) {
            Err(x) => Err(x),
            Ok(email) => match required_text(e, "report_id", c) {
                Err(x) => Err(x),
                Ok(report_id) => match required_child(e, "date_range", c) {
                    Err(x) => Err(x),
                    Ok(de) => match date_range_of(de) {
                        Err(x) => Err(x),
                        Ok(date_range) => Ok(
                            ReportMetadataView {
                                org_name,
                                email,
                                extra_contact_info: child_text(e, "extra_contact_info"@),
                                report_id,
                                date_range,
                                errors: texts_named(e.children@, "error"@),
                            },
                        ),
                    },
                },
            },
        },
    }
}

/// Reads a `report_metadata` element.
pub fn read_report_metadata(e: &XmlElement) -> (r: Result<ReportMetadata, ConvertError>)
    ensures
        match report_metadata_of(*e) {
            Ok(m) => r matches Ok(v) && v@ == m,
            Err(x) => r == Err::<ReportMetadata, ConvertError>(x),
        },
{
    let c = "report_metadata";
    let org_name = match read_required_text(e, "org_name", c) {
        Err(x) => return Err(x),
        Ok(v) => v,
    };
    let email = match read_required_text(e, "email", c) {
        Err(x) => return Err(x),
        Ok(v) => v,
    };
    let report_id = match read_required_text(e, "report_id", c) {
        Err(x) => return Err(x),
        Ok(v) => v,
    };
    let date_range = match find_child(e, "date_range") {
        None => return Err(ConvertError::MissingField { field: "date_range", container: c }),
        Some(i) => match read_date_range(&e.children[i]) {
            Err(x) => return Err(x),
            Ok(v) => v,
        },
    };
    let extra_contact_info = get_child_text(e, "extra_contact_info");
    let errors = get_children_texts(e, "error");
    Ok(ReportMetadata { org_name, email, extra_contact_info, report_id, date_range, errors })
}

/// The report of a document whose root element is `e`.
pub open spec fn feedback_of(e: XmlElement) -> Result<FeedbackView, ConvertError> {
    let c = "feedback";
    if e.name@ != "feedback"@ {
        Err(ConvertError::StructuralParseError)
    } else {
        match required_text(e, "version", c) {
            Err(x) => Err(x),
            Ok(version) => match required_child(e, "report_metadata", c) {
                Err(x) => Err(x),
                Ok(me) => match report_metadata_of(me) {
                    Err(x) => Err(x),
                    Ok(report_metadata) => match required_child(e, "policy_published", c) {
                        Err(x) => Err(x),
                        Ok(pe) => match policy_published_of(pe) {
                            Err(x) => Err(x),
                            Ok(policy_published) => match records_of(e.children@) {
                                Err(x) => Err(x),
                                Ok(records) => Ok(
                                    FeedbackView {
                                        version,
                                        report_metadata,
                                        policy_published,
                                        records,
                                    },
                                ),
                            },
                        },
                    },
                },
            },
        }
    }
}

/// Whether `r` is the outcome that `s` describes.
pub open spec fn outcome_is(r: Result<Feedback, ConvertError>, s: Result<FeedbackView, ConvertError>) -> bool {
    match s {
        Ok(f) => r matches Ok(v) && v@ == f,
        Err(x) => r == Err::<Feedback, ConvertError>(x),
    }
}

/// Reads the report from the root element of a document.
pub fn read_feedback(e: &XmlElement) -> (r: Result<Feedback, ConvertError>)
    ensures
        outcome_is(r, feedback_of(*e)),
{
    let c = "feedback";
    if e.name.as_str().to_owned() != "feedback".to_owned() {
        return Err(ConvertError::StructuralParseError);
    }
    let version = match read_required_text(e, "version", c) {
        Err(x) => return Err(x),
        Ok(v) => v,
    };
    let report_metadata = match find_child(e, "report_metadata") {
        None => return Err(ConvertError::MissingField { field: "report_metadata", container: c }),
        Some(i) => match read_report_metadata(&e.children[i]) {
            Err(x) => return Err(x),
            Ok(v) => v,
        },
    };
    let policy_published = match find_child(e, "policy_published") {
        None => return Err(ConvertError::MissingField { field: "policy_published", container: c }),
        Some(i) => match read_policy_published(&e.children[i]) {
            Err(x) => return Err(x),
            Ok(v) => v,
        },
    };
    let records = match read_records(e) {
        Err(x) => return Err(x),
        Ok(v) => v,
    };
    Ok(Feedback { version, report_metadata, policy_published, records })
}

} // verus!
verus! {

/// Where `auth_results` has no `dkim` element, the DKIM result is absent and
/// reading depends on the `spf` element alone.
pub proof fn absent_dkim_block(e: XmlElement)
    requires
        child_named(e, "dkim"@) is None,
    ensures
        auth_results_of(e) == match child_named(e, "spf"@) {
            None => Ok(AuthResults { dkim: None, spf: None }),
            Some(s) => match spf_auth_result_of(s) {
                Ok(v) => Ok(AuthResults { dkim: None, spf: Some(v) }),
                Err(x) => Err(x),
            },
        },
{
}

/// The error list of `report_metadata` holds the text of each `error` element,
/// in document order; without such elements it is empty.
pub proof fn error_list_in_order(e: XmlElement)
    requires
        report_metadata_of(e) is Ok,
    ensures
        report_metadata_of(e)->Ok_0.errors == texts_of(e.children@.filter(named("error"@))),
{
    crate::xml::texts_named_in_order(e.children@, "error"@);
}

} // verus!
