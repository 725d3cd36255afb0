//! The server side of the Internet Printing Protocol: the printer and its jobs, the attributes
//! that describe them, the response builder and the operation dispatcher.
pub mod attributes;
pub mod builder;
pub mod catalog;
pub mod dispatch;
pub mod job;
pub mod kinds;
pub mod message;
pub mod printer;
pub mod state;
pub mod text;
pub mod uri;
pub mod value;

pub use attributes::{JobAttribute, OperationAttributes, PrinterAttribute};
pub use builder::IppResponseBuilder;
pub use job::Job;
pub use kinds::{
    Charset, Compression, IppVersion, MimeMediaType, NaturalLanguage, Operation, PdlOverride,
};
pub use message::{AttributeGroup, DelimiterTag, IppRequest, IppResponse, StatusCode};
pub use printer::Printer;
pub use state::{
    JobState, JobStateReason, PrinterState, PrinterStateReason, PrinterStateReasonKeyword,
    PrinterStateReasonSeverity,
};
pub use uri::{PrinterUri, UriAuthenticationMethod, UriSecurityMethod};
pub use value::{Attribute, AttributeValue, Value};
