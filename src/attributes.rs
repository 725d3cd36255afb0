use vstd::prelude::*;

use crate::text::same_text;

verus! {

/// An attribute of the operation group.
#[derive(Clone, Copy, Debug, PartialEq, Eq, Structural)]
pub enum OperationAttributes {
    AttributesCharset,
    AttributesNaturalLanguage,
    StatusMessage,
    DetailedStatusMessage,
}

impl OperationAttributes {
    /// The attribute's name on the wire.
    pub open spec fn spec_name(self) -> Seq<char> {
        match self {
            OperationAttributes::AttributesCharset => "attributes-charset"@,
            OperationAttributes::AttributesNaturalLanguage => "attributes-natural-language"@,
            OperationAttributes::StatusMessage => "status-message"@,
            OperationAttributes::DetailedStatusMessage => "detailed-status-message"@,
        }
    }

    /// The attribute's name.
    pub fn name(&self) -> (r: String)
        ensures
            r@ == self.spec_name(),
    {
        match self {
            OperationAttributes::AttributesCharset => String::from_str("attributes-charset"),
            OperationAttributes::AttributesNaturalLanguage => String::from_str("attributes-natural-language"),
            OperationAttributes::StatusMessage => String::from_str("status-message"),
            OperationAttributes::DetailedStatusMessage => String::from_str("detailed-status-message"),
        }
    }
}

/// An attribute that describes the printer.
#[derive(Clone, Copy, Debug, PartialEq, Eq, Structural)]
pub enum PrinterAttribute {
    CharsetConfigured,
    CharsetSupported,
    CompressionSupported,
    DocumentFormatDefault,
    DocumentFormatSupported,
    GeneratedNaturalLanguageSupported,
    IppVersionsSupported,
    NaturalLanguageConfigured,
    OperationsSupported,
    PdlOverrideSupported,
    PrinterIsAcceptingJobs,
    PrinterName,
    PrinterState,
    PrinterStateReasons,
    PrinterUpTime,
    PrinterUriSupported,
    QueuedJobCount,
    UriAuthenticationSupported,
    UriSecuritySupported,
}

impl PrinterAttribute {
    /// The attribute's name on the wire.
    pub open spec fn spec_name(self) -> Seq<char> {
        match self {
            PrinterAttribute::CharsetConfigured => "charset-configured"@,
            PrinterAttribute::CharsetSupported => "charset-supported"@,
            PrinterAttribute::CompressionSupported => "compression-supported"@,
            PrinterAttribute::DocumentFormatDefault => "document-format-default"@,
            PrinterAttribute::DocumentFormatSupported => "document-format-supported"@,
            PrinterAttribute::GeneratedNaturalLanguageSupported => "generated-natural-language-supported"@,
            PrinterAttribute::IppVersionsSupported => "ipp-versions-supported"@,
            PrinterAttribute::NaturalLanguageConfigured => "natural-language-configured"@,
            PrinterAttribute::OperationsSupported => "operations-supported"@,
            PrinterAttribute::PdlOverrideSupported => "pdl-override-supported"@,
            PrinterAttribute::PrinterIsAcceptingJobs => "printer-is-accepting-jobs"@,
            PrinterAttribute::PrinterName => "printer-name"@,
            PrinterAttribute::PrinterState => "printer-state"@,
            PrinterAttribute::PrinterStateReasons => "printer-state-reasons"@,
            PrinterAttribute::PrinterUpTime => "printer-up-time"@,
            PrinterAttribute::PrinterUriSupported => "printer-uri-supported"@,
            PrinterAttribute::QueuedJobCount => "queued-job-count"@,
            PrinterAttribute::UriAuthenticationSupported => "uri-authentication-supported"@,
            PrinterAttribute::UriSecuritySupported => "uri-security-supported"@,
        }
    }

    /// The attribute's name.
    pub fn name(&self) -> (r: String)
        ensures
            r@ == self.spec_name(),
    {
        match self {
            PrinterAttribute::CharsetConfigured => String::from_str("charset-configured"),
            PrinterAttribute::CharsetSupported => String::from_str("charset-supported"),
            PrinterAttribute::CompressionSupported => String::from_str("compression-supported"),
            PrinterAttribute::DocumentFormatDefault => String::from_str("document-format-default"),
            PrinterAttribute::DocumentFormatSupported => String::from_str("document-format-supported"),
            PrinterAttribute::GeneratedNaturalLanguageSupported => String::from_str("generated-natural-language-supported"),
            PrinterAttribute::IppVersionsSupported => String::from_str("ipp-versions-supported"),
            PrinterAttribute::NaturalLanguageConfigured => String::from_str("natural-language-configured"),
            PrinterAttribute::OperationsSupported => String::from_str("operations-supported"),
            PrinterAttribute::PdlOverrideSupported => String::from_str("pdl-override-supported"),
            PrinterAttribute::PrinterIsAcceptingJobs => String::from_str("printer-is-accepting-jobs"),
            PrinterAttribute::PrinterName => String::from_str("printer-name"),
            PrinterAttribute::PrinterState => String::from_str("printer-state"),
            PrinterAttribute::PrinterStateReasons => String::from_str("printer-state-reasons"),
            PrinterAttribute::PrinterUpTime => String::from_str("printer-up-time"),
            PrinterAttribute::PrinterUriSupported => String::from_str("printer-uri-supported"),
            PrinterAttribute::QueuedJobCount => String::from_str("queued-job-count"),
            PrinterAttribute::UriAuthenticationSupported => String::from_str("uri-authentication-supported"),
            PrinterAttribute::UriSecuritySupported => String::from_str("uri-security-supported"),
        }
    }

    /// The printer attribute with a given name, if there is one.
    pub fn from_name(text: &str) -> (r: Option<PrinterAttribute>)
        ensures
            r matches Some(a) ==> a.spec_name() == text@,
            r is None ==> forall|a: PrinterAttribute| a.spec_name() != text@,
    {
        if same_text(text, "charset-configured") {
            return Some(PrinterAttribute::CharsetConfigured);
        }
        if same_text(text, "charset-supported") {
            return Some(PrinterAttribute::CharsetSupported);
        }
        if same_text(text, "compression-supported") {
            return Some(PrinterAttribute::CompressionSupported);
        }
        if same_text(text, "document-format-default") {
            return Some(PrinterAttribute::DocumentFormatDefault);
        }
        if same_text(text, "document-format-supported") {
            return Some(PrinterAttribute::DocumentFormatSupported);
        }
        if same_text(text, "generated-natural-language-supported") {
            return Some(PrinterAttribute::GeneratedNaturalLanguageSupported);
        }
        if same_text(text, "ipp-versions-supported") {
            return Some(PrinterAttribute::IppVersionsSupported);
        }
        if same_text(text, "natural-language-configured") {
            return Some(PrinterAttribute::NaturalLanguageConfigured);
        }
        if same_text(text, "operations-supported") {
            return Some(PrinterAttribute::OperationsSupported);
        }
        if same_text(text, "pdl-override-supported") {
            return Some(PrinterAttribute::PdlOverrideSupported);
        }
        if same_text(text, "printer-is-accepting-jobs") {
            return Some(PrinterAttribute::PrinterIsAcceptingJobs);
        }
        if same_text(text, "printer-name") {
            return Some(PrinterAttribute::PrinterName);
        }
        if same_text(text, "printer-state") {
            return Some(PrinterAttribute::PrinterState);
        }
        if same_text(text, "printer-state-reasons") {
            return Some(PrinterAttribute::PrinterStateReasons);
        }
        if same_text(text, "printer-up-time") {
            return Some(PrinterAttribute::PrinterUpTime);
        }
        if same_text(text, "printer-uri-supported") {
            return Some(PrinterAttribute::PrinterUriSupported);
        }
        if same_text(text, "queued-job-count") {
            return Some(PrinterAttribute::QueuedJobCount);
        }
        if same_text(text, "uri-authentication-supported") {
            return Some(PrinterAttribute::UriAuthenticationSupported);
        }
        if same_text(text, "uri-security-supported") {
            return Some(PrinterAttribute::UriSecuritySupported);
        }
        proof {
            assert forall|a: PrinterAttribute| a.spec_name() != text@ by {
                match a {
                    PrinterAttribute::CharsetConfigured => {},
                    PrinterAttribute::CharsetSupported => {},
                    PrinterAttribute::CompressionSupported => {},
                    PrinterAttribute::DocumentFormatDefault => {},
                    PrinterAttribute::DocumentFormatSupported => {},
                    PrinterAttribute::GeneratedNaturalLanguageSupported => {},
                    PrinterAttribute::IppVersionsSupported => {},
                    PrinterAttribute::NaturalLanguageConfigured => {},
                    PrinterAttribute::OperationsSupported => {},
                    PrinterAttribute::PdlOverrideSupported => {},
                    PrinterAttribute::PrinterIsAcceptingJobs => {},
                    PrinterAttribute::PrinterName => {},
                    PrinterAttribute::PrinterState => {},
                    PrinterAttribute::PrinterStateReasons => {},
                    PrinterAttribute::PrinterUpTime => {},
                    PrinterAttribute::PrinterUriSupported => {},
                    PrinterAttribute::QueuedJobCount => {},
                    PrinterAttribute::UriAuthenticationSupported => {},
                    PrinterAttribute::UriSecuritySupported => {},
                }
            }
        }
        None
    }
}

/// Every printer attribute, in the order in which a full response lists them.
pub open spec fn spec_all_printer_attributes() -> Seq<PrinterAttribute> {
    seq![
        PrinterAttribute::CharsetConfigured,
        PrinterAttribute::CharsetSupported,
        PrinterAttribute::CompressionSupported,
        PrinterAttribute::DocumentFormatDefault,
        PrinterAttribute::DocumentFormatSupported,
        PrinterAttribute::GeneratedNaturalLanguageSupported,
        PrinterAttribute::IppVersionsSupported,
        PrinterAttribute::NaturalLanguageConfigured,
        PrinterAttribute::OperationsSupported,
        PrinterAttribute::PdlOverrideSupported,
        PrinterAttribute::PrinterIsAcceptingJobs,
        PrinterAttribute::PrinterName,
        PrinterAttribute::PrinterState,
        PrinterAttribute::PrinterStateReasons,
        PrinterAttribute::PrinterUpTime,
        PrinterAttribute::PrinterUriSupported,
        PrinterAttribute::QueuedJobCount,
        PrinterAttribute::UriAuthenticationSupported,
        PrinterAttribute::UriSecuritySupported,
    ]
}

/// Every printer attribute, in the order in which a full response lists them.
pub fn all_printer_attributes() -> (r: Vec<PrinterAttribute>)
    ensures
        r@ == spec_all_printer_attributes(),
{
    let mut r: Vec<PrinterAttribute> = Vec::new();
    r.push(PrinterAttribute::CharsetConfigured);
    r.push(PrinterAttribute::CharsetSupported);
    r.push(PrinterAttribute::CompressionSupported);
    r.push(PrinterAttribute::DocumentFormatDefault);
    r.push(PrinterAttribute::DocumentFormatSupported);
    r.push(PrinterAttribute::GeneratedNaturalLanguageSupported);
    r.push(PrinterAttribute::IppVersionsSupported);
    r.push(PrinterAttribute::NaturalLanguageConfigured);
    r.push(PrinterAttribute::OperationsSupported);
    r.push(PrinterAttribute::PdlOverrideSupported);
    r.push(PrinterAttribute::PrinterIsAcceptingJobs);
    r.push(PrinterAttribute::PrinterName);
    r.push(PrinterAttribute::PrinterState);
    r.push(PrinterAttribute::PrinterStateReasons);
    r.push(PrinterAttribute::PrinterUpTime);
    r.push(PrinterAttribute::PrinterUriSupported);
    r.push(PrinterAttribute::QueuedJobCount);
    r.push(PrinterAttribute::UriAuthenticationSupported);
    r.push(PrinterAttribute::UriSecuritySupported);
    assert(r@ =~= spec_all_printer_attributes());
    r
}

/// An attribute that describes a job.
#[derive(Clone, Copy, Debug, PartialEq, Eq, Structural)]
pub enum JobAttribute {
    JobId,
    JobUri,
    JobState,
    JobStateReasons,
}

impl JobAttribute {
    /// The attribute's name on the wire.
    pub open spec fn spec_name(self) -> Seq<char> {
        match self {
            JobAttribute::JobId => "job-id"@,
            JobAttribute::JobUri => "job-uri"@,
            JobAttribute::JobState => "job-state"@,
            JobAttribute::JobStateReasons => "job-state-reasons"@,
        }
    }

    /// The attribute's name.
    pub fn name(&self) -> (r: String)
        ensures
            r@ == self.spec_name(),
    {
        match self {
            JobAttribute::JobId => String::from_str("job-id"),
            JobAttribute::JobUri => String::from_str("job-uri"),
            JobAttribute::JobState => String::from_str("job-state"),
            JobAttribute::JobStateReasons => String::from_str("job-state-reasons"),
        }
    }

    /// The job attribute with a given name, if there is one.
    pub fn from_name(text: &str) -> (r: Option<JobAttribute>)
        ensures
            r matches Some(a) ==> a.spec_name() == text@,
            r is None ==> forall|a: JobAttribute| a.spec_name() != text@,
    {
        if same_text(text, "job-id") {
            return Some(JobAttribute::JobId);
        }
        if same_text(text, "job-uri") {
            return Some(JobAttribute::JobUri);
        }
        if same_text(text, "job-state") {
            return Some(JobAttribute::JobState);
        }
        if same_text(text, "job-state-reasons") {
            return Some(JobAttribute::JobStateReasons);
        }
        proof {
            assert forall|a: JobAttribute| a.spec_name() != text@ by {
                match a {
                    JobAttribute::JobId => {},
                    JobAttribute::JobUri => {},
                    JobAttribute::JobState => {},
                    JobAttribute::JobStateReasons => {},
                }
            }
        }
        None
    }
}

/// Every job attribute, in the order in which a full response lists them.
pub open spec fn spec_all_job_attributes() -> Seq<JobAttribute> {
    seq![
        JobAttribute::JobId,
        JobAttribute::JobUri,
        JobAttribute::JobState,
        JobAttribute::JobStateReasons,
    ]
}

/// Every job attribute, in the order in which a full response lists them.
pub fn all_job_attributes() -> (r: Vec<JobAttribute>)
    ensures
        r@ == spec_all_job_attributes(),
{
    let mut r: Vec<JobAttribute> = Vec::new();
    r.push(JobAttribute::JobId);
    r.push(JobAttribute::JobUri);
    r.push(JobAttribute::JobState);
    r.push(JobAttribute::JobStateReasons);
    assert(r@ =~= spec_all_job_attributes());
    r
}

} // verus!
