//! Extraction of DMARC aggregate-feedback reports from email messages.
//!
//! The pipeline has three stages: pick the content part of a MIME message,
//! decompress it according to its content type, and map the resulting XML
//! document onto the typed report model. Each stage fails with its own error,
//! and no partly read report is ever returned.
pub mod decompress;
pub mod mime;
pub mod model;
pub mod report;
pub mod scalar;
pub mod schema;
pub mod xml;

pub use model::{
    Alignment, AuthResults, ConvertError, DateRange, DkimAuthResult, DkimResult, Disposition,
    DmarcResult, Feedback, Identifiers, IpAddress, PolicyEvaluated, PolicyPublished, Record,
    ReportMetadata, Row, SpfAuthResult, SpfResult,
};
pub use report::{mail_to_report, parse_report};
