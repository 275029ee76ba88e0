//! The typed report model.
use vstd::prelude::*;

verus! {

/// DMARC identifier alignment mode.
#[derive(Clone, Copy, Debug, PartialEq, Eq, Structural)]
pub enum Alignment {
    Relaxed,
    Strict,
}

/// Policy action requested by the domain owner.
#[derive(Clone, Copy, Debug, PartialEq, Eq, Structural)]
pub enum Disposition {
    /// The token `none`: monitor only.
    NoAction,
    Quarantine,
    Reject,
}

/// DMARC-level verdict of DKIM or SPF.
#[derive(Clone, Copy, Debug, PartialEq, Eq, Structural)]
pub enum DmarcResult {
    Pass,
    Fail,
}

/// Raw DKIM verdict.
#[derive(Clone, Copy, Debug, PartialEq, Eq, Structural)]
pub enum DkimResult {
    /// The token `none`.
    NoResult,
    Pass,
    Fail,
    Policy,
    Neutral,
    TempError,
    PermError,
}

/// Raw SPF verdict.
#[derive(Clone, Copy, Debug, PartialEq, Eq, Structural)]
pub enum SpfResult {
    /// The token `none`.
    NoResult,
    Neutral,
    Pass,
    Fail,
    SoftFail,
    TempError,
    PermError,
}

/// An IPv4 or IPv6 address, as its octets or its eight 16-bit groups.
#[derive(Clone, Copy, Debug, PartialEq, Eq, Structural)]
pub enum IpAddress {
    V4(u8, u8, u8, u8),
    V6(u16, u16, u16, u16, u16, u16, u16, u16),
}

/// Reporting period, in Unix epoch seconds. No order between the two is enforced.
#[derive(Clone, Copy, Debug, PartialEq, Eq, Structural)]
pub struct DateRange {
    pub begin: u64,
    pub end: u64,
}

/// What the receiver applied to the messages of a record.
#[derive(Clone, Copy, Debug, PartialEq, Eq, Structural)]
pub struct PolicyEvaluated {
    pub disposition: Disposition,
    pub dkim: DmarcResult,
    pub spf: DmarcResult,
}

/// Source address and message count of a record.
#[derive(Clone, Copy, Debug, PartialEq, Eq, Structural)]
pub struct Row {
    pub source_ip: IpAddress,
    pub count: u32,
    pub policy_evaluated: PolicyEvaluated,
}

#[derive(Clone, Debug)]
pub struct Identifiers {
    pub envelope_to: Option<String>,
    pub envelope_from: Option<String>,
    pub header_from: String,
}

#[derive(Clone, Debug)]
pub struct DkimAuthResult {
    pub domain: String,
    pub result: DkimResult,
}

#[derive(Clone, Debug)]
pub struct SpfAuthResult {
    pub domain: String,
    pub result: SpfResult,
}

#[derive(Clone, Debug)]
pub struct AuthResults {
    pub dkim: Option<DkimAuthResult>,
    pub spf: Option<SpfAuthResult>,
}

#[derive(Clone, Debug)]
pub struct Record {
    pub row: Row,
    pub identifiers: Identifiers,
    pub auth_results: AuthResults,
}

#[derive(Clone, Debug)]
pub struct PolicyPublished {
    pub domain: String,
    /// DKIM alignment
    pub adkim: Option<Alignment>,
    /// SPF alignment
    pub aspf: Option<Alignment>,
    /// Overall policy
    pub p: Disposition,
    /// Subdomain policy
    pub sp: Disposition,
    pub pct: u8,
    /// Failure reporting options
    pub fo: Option<String>,
}

#[derive(Clone, Debug)]
pub struct ReportMetadata {
    pub org_name: String,
    pub email: String,
    pub extra_contact_info: Option<String>,
    pub report_id: String,
    pub date_range: DateRange,
    pub errors: Vec<String>,
}

/// `ReportMetadata` with its error list as a sequence.
pub struct ReportMetadataView {
    pub org_name: String,
    pub email: String,
    pub extra_contact_info: Option<String>,
    pub report_id: String,
    pub date_range: DateRange,
    pub errors: Seq<String>,
}

impl View for ReportMetadata {
    type V = ReportMetadataView;

    open spec fn view(&self) -> ReportMetadataView {
        ReportMetadataView {
            org_name: self.org_name,
            email: self.email,
            extra_contact_info: self.extra_contact_info,
            report_id: self.report_id,
            date_range: self.date_range,
            errors: self.errors@,
        }
    }
}

/// A complete aggregate report.
#[derive(Clone, Debug)]
pub struct Feedback {
    pub version: String,
    pub report_metadata: ReportMetadata,
    pub policy_published: PolicyPublished,
    pub records: Vec<Record>,
}

/// `Feedback` with its lists as sequences.
pub struct FeedbackView {
    pub version: String,
    pub report_metadata: ReportMetadataView,
    pub policy_published: PolicyPublished,
    pub records: Seq<Record>,
}

impl View for Feedback {
    type V = FeedbackView;

    open spec fn view(&self) -> FeedbackView {
        FeedbackView {
            version: self.version,
            report_metadata: self.report_metadata@,
            policy_published: self.policy_published,
            records: self.records@,
        }
    }
}

/// Why a message could not be turned into a report.
#[derive(Clone, Debug)]
pub enum ConvertError {
    /// The message envelope is not valid MIME.
    MimeParseError,
    /// Every subpart of the message was skipped.
    NoContentPart,
    /// The content part has a type that carries no report.
    UnsupportedContentType(String),
    /// The zip archive holds more than one entry.
    TooManyEntries(usize),
    /// The zip archive holds no entry.
    EmptyArchive,
    /// The archive or compressed stream is corrupt.
    DecompressionError,
    /// The report text is not valid UTF-8.
    EncodingError,
    /// The report text is not a well-formed XML document rooted at `feedback`.
    StructuralParseError,
    /// A required element is absent from its parent element.
    MissingField { field: &'static str, container: &'static str },
    /// An enumerated field holds text outside its fixed set of tokens.
    UnknownEnumValue { field: &'static str, container: &'static str, raw_text: String },
    /// The source address is neither an IPv4 nor an IPv6 literal.
    InvalidAddress { raw_text: String },
    /// A numeric field is not a decimal number in its range.
    InvalidValue { field: &'static str, raw_text: String },
}

} // verus!
