use vstd::prelude::*;

use crate::text::{lowercase_of, to_lowercase, same_text};

verus! {

/// A character set that the printer accepts.
#[derive(Clone, Copy, Debug, PartialEq, Eq, Structural)]
pub enum Charset {
    Utf8,
}

impl Charset {
    pub open spec fn spec_name(self) -> Seq<char> {
        match self {
            Charset::Utf8 => "utf-8"@,
        }
    }

    /// The charset's registered name.
    pub fn name(&self) -> (r: String)
        ensures
            r@ == self.spec_name(),
    {
        match self {
            Charset::Utf8 => String::from_str("utf-8"),
        }
    }

    /// The charset named by an already lower-cased text.
    pub fn from_lowercase(lower: &str) -> (r: Option<Charset>)
        ensures
            r == (if lower@ == "utf-8"@ { Some(Charset::Utf8) } else { None::<Charset> }),
    {
        if same_text(lower, "utf-8") {
            Some(Charset::Utf8)
        } else {
            None
        }
    }

    /// Reads a charset name, ignoring case.
    pub fn parse(value: &str) -> (r: Result<Charset, String>)
        ensures
            lowercase_of(value@) == "utf-8"@ ==> r == Ok::<Charset, String>(Charset::Utf8),
            lowercase_of(value@) != "utf-8"@ ==> (r matches Err(e) && e@ == "Unknown Charset "@
                + value@),
    {
        let lower = to_lowercase(value);
        match Charset::from_lowercase(lower.as_str()) {
            Some(c) => Ok(c),
            None => {
                let e = String::from_str("Unknown Charset ");
                Err(e.concat(value))
            },
        }
    }
}

/// A compression method that the printer accepts.
#[derive(Clone, Copy, Debug, PartialEq, Eq, Structural)]
pub enum Compression {
    NoCompression,
    Deflate,
    GZip,
    Compress,
}

impl Compression {
    pub open spec fn spec_name(self) -> Seq<char> {
        match self {
            Compression::NoCompression => "none"@,
            Compression::Deflate => "deflate"@,
            Compression::GZip => "gzip"@,
            Compression::Compress => "compress"@,
        }
    }

    /// The method's keyword.
    pub fn name(&self) -> (r: String)
        ensures
            r@ == self.spec_name(),
    {
        match self {
            Compression::NoCompression => String::from_str("none"),
            Compression::Deflate => String::from_str("deflate"),
            Compression::GZip => String::from_str("gzip"),
            Compression::Compress => String::from_str("compress"),
        }
    }
}

/// A version of the protocol.
#[derive(Clone, Copy, Debug, PartialEq, Eq, Structural)]
pub enum IppVersion {
    V1_0,
    V1_1,
    V2_0,
    V2_1,
    V2_2,
}

impl IppVersion {
    pub open spec fn spec_name(self) -> Seq<char> {
        match self {
            IppVersion::V1_0 => "1.0"@,
            IppVersion::V1_1 => "1.1"@,
            IppVersion::V2_0 => "2.0"@,
            IppVersion::V2_1 => "2.1"@,
            IppVersion::V2_2 => "2.2"@,
        }
    }

    /// The version number in the header: major number in the high byte, minor in the low one.
    pub open spec fn spec_code(self) -> u16 {
        match self {
            IppVersion::V1_0 => 0x0100,
            IppVersion::V1_1 => 0x0101,
            IppVersion::V2_0 => 0x0200,
            IppVersion::V2_1 => 0x0201,
            IppVersion::V2_2 => 0x0202,
        }
    }

    /// The version as a keyword, such as `1.1`.
    pub fn name(&self) -> (r: String)
        ensures
            r@ == self.spec_name(),
    {
        match self {
            IppVersion::V1_0 => String::from_str("1.0"),
            IppVersion::V1_1 => String::from_str("1.1"),
            IppVersion::V2_0 => String::from_str("2.0"),
            IppVersion::V2_1 => String::from_str("2.1"),
            IppVersion::V2_2 => String::from_str("2.2"),
        }
    }

    pub fn code(&self) -> (r: u16)
        ensures
            r == self.spec_code(),
    {
        match self {
            IppVersion::V1_0 => 0x0100,
            IppVersion::V1_1 => 0x0101,
            IppVersion::V2_0 => 0x0200,
            IppVersion::V2_1 => 0x0201,
            IppVersion::V2_2 => 0x0202,
        }
    }

    /// The version with a given header number, if it is one of the known versions.
    pub fn from_code(code: u16) -> (r: Option<IppVersion>)
        ensures
            r matches Some(v) ==> v.spec_code() == code,
            r is None ==> forall|v: IppVersion| v.spec_code() != code,
    {
        if code == 0x0100 {
            Some(IppVersion::V1_0)
        } else if code == 0x0101 {
            Some(IppVersion::V1_1)
        } else if code == 0x0200 {
            Some(IppVersion::V2_0)
        } else if code == 0x0201 {
            Some(IppVersion::V2_1)
        } else if code == 0x0202 {
            Some(IppVersion::V2_2)
        } else {
            assert forall|v: IppVersion| v.spec_code() != code by {
                match v {
                    IppVersion::V1_0 => {},
                    IppVersion::V1_1 => {},
                    IppVersion::V2_0 => {},
                    IppVersion::V2_1 => {},
                    IppVersion::V2_2 => {},
                }
            }
            None
        }
    }
}

/// A document format.
#[derive(Clone, Copy, Debug, PartialEq, Eq, Structural)]
pub enum MimeMediaType {
    Html,
    PlainText,
    PlainTextAscii,
    PlainTextLatin1,
    PlainTextUtf8,
    Postscript,
    HpPcl,
    Pdf,
    AutoSense,
}

impl MimeMediaType {
    pub open spec fn spec_name(self) -> Seq<char> {
        match self {
            MimeMediaType::Html => "text/html"@,
            MimeMediaType::PlainText => "text/plain"@,
            MimeMediaType::PlainTextAscii => "text/plain; charset = US-ASCII"@,
            MimeMediaType::PlainTextLatin1 => "text/plain; charset = ISO-8859-1"@,
            MimeMediaType::PlainTextUtf8 => "text/plain; charset = utf-8"@,
            MimeMediaType::Postscript => "application/postscript"@,
            MimeMediaType::HpPcl => "application/vnd.hp-PCL"@,
            MimeMediaType::Pdf => "application/pdf"@,
            MimeMediaType::AutoSense => "application/octet-stream"@,
        }
    }

    /// The media type as written on the wire.
    pub fn name(&self) -> (r: String)
        ensures
            r@ == self.spec_name(),
    {
        match self {
            MimeMediaType::Html => String::from_str("text/html"),
            MimeMediaType::PlainText => String::from_str("text/plain"),
            MimeMediaType::PlainTextAscii => String::from_str("text/plain; charset = US-ASCII"),
            MimeMediaType::PlainTextLatin1 => String::from_str("text/plain; charset = ISO-8859-1"),
            MimeMediaType::PlainTextUtf8 => String::from_str("text/plain; charset = utf-8"),
            MimeMediaType::Postscript => String::from_str("application/postscript"),
            MimeMediaType::HpPcl => String::from_str("application/vnd.hp-PCL"),
            MimeMediaType::Pdf => String::from_str("application/pdf"),
            MimeMediaType::AutoSense => String::from_str("application/octet-stream"),
        }
    }
}

/// A natural language of the printer's messages.
#[derive(Clone, Copy, Debug, PartialEq, Eq, Structural)]
pub enum NaturalLanguage {
    EN,
}

impl NaturalLanguage {
    pub open spec fn spec_name(self) -> Seq<char> {
        match self {
            NaturalLanguage::EN => "en"@,
        }
    }

    /// The language tag.
    pub fn name(&self) -> (r: String)
        ensures
            r@ == self.spec_name(),
    {
        match self {
            NaturalLanguage::EN => String::from_str("en"),
        }
    }
}

/// Whether the printer attempts to make the document data agree with the job's attributes.
#[derive(Clone, Copy, Debug, PartialEq, Eq, Structural)]
pub enum PdlOverride {
    Attempted,
    NotAttempted,
}

impl PdlOverride {
    pub open spec fn spec_name(self) -> Seq<char> {
        match self {
            PdlOverride::Attempted => "attempted"@,
            PdlOverride::NotAttempted => "not-attempted"@,
        }
    }

    /// The policy's keyword.
    pub fn name(&self) -> (r: String)
        ensures
            r@ == self.spec_name(),
    {
        match self {
            PdlOverride::Attempted => String::from_str("attempted"),
            PdlOverride::NotAttempted => String::from_str("not-attempted"),
        }
    }
}

/// An operation of the protocol, as listed in the printer's `operations-supported`.
#[derive(Clone, Copy, Debug, PartialEq, Eq, Structural)]
pub enum Operation {
    PrintJob,
    PrintUri,
    ValidateJob,
    CreateJob,
    SendDocument,
    SendUri,
    CancelJob,
    GetJobAttributes,
    GetJobs,
    GetPrinterAttributes,
    HoldJob,
    ReleaseJob,
    RestartJob,
    PausePrinter,
    ResumePrinter,
    PurgeJobs,
}

impl Operation {
    /// The operation's registered code.
    pub open spec fn spec_code(self) -> u16 {
        match self {
            Operation::PrintJob => 0x0002,
            Operation::PrintUri => 0x0003,
            Operation::ValidateJob => 0x0004,
            Operation::CreateJob => 0x0005,
            Operation::SendDocument => 0x0006,
            Operation::SendUri => 0x0007,
            Operation::CancelJob => 0x0008,
            Operation::GetJobAttributes => 0x0009,
            Operation::GetJobs => 0x000A,
            Operation::GetPrinterAttributes => 0x000B,
            Operation::HoldJob => 0x000C,
            Operation::ReleaseJob => 0x000D,
            Operation::RestartJob => 0x000E,
            Operation::PausePrinter => 0x0010,
            Operation::ResumePrinter => 0x0011,
            Operation::PurgeJobs => 0x0012,
        }
    }

    pub fn code(&self) -> (r: u16)
        ensures
            r == self.spec_code(),
    {
        match self {
            Operation::PrintJob => 0x0002,
            Operation::PrintUri => 0x0003,
            Operation::ValidateJob => 0x0004,
            Operation::CreateJob => 0x0005,
            Operation::SendDocument => 0x0006,
            Operation::SendUri => 0x0007,
            Operation::CancelJob => 0x0008,
            Operation::GetJobAttributes => 0x0009,
            Operation::GetJobs => 0x000A,
            Operation::GetPrinterAttributes => 0x000B,
            Operation::HoldJob => 0x000C,
            Operation::ReleaseJob => 0x000D,
            Operation::RestartJob => 0x000E,
            Operation::PausePrinter => 0x0010,
            Operation::ResumePrinter => 0x0011,
            Operation::PurgeJobs => 0x0012,
        }
    }

    /// The operation with a given code, if the code is one of the registered ones above.
    pub fn from_code(code: u16) -> (r: Option<Operation>)
        ensures
            r matches Some(op) ==> op.spec_code() == code,
            r is None ==> forall|op: Operation| op.spec_code() != code,
    {
        match code {
            0x0002 => Some(Operation::PrintJob),
            0x0003 => Some(Operation::PrintUri),
            0x0004 => Some(Operation::ValidateJob),
            0x0005 => Some(Operation::CreateJob),
            0x0006 => Some(Operation::SendDocument),
            0x0007 => Some(Operation::SendUri),
            0x0008 => Some(Operation::CancelJob),
            0x0009 => Some(Operation::GetJobAttributes),
            0x000A => Some(Operation::GetJobs),
            0x000B => Some(Operation::GetPrinterAttributes),
            0x000C => Some(Operation::HoldJob),
            0x000D => Some(Operation::ReleaseJob),
            0x000E => Some(Operation::RestartJob),
            0x0010 => Some(Operation::PausePrinter),
            0x0011 => Some(Operation::ResumePrinter),
            0x0012 => Some(Operation::PurgeJobs),
            _ => {
                assert forall|op: Operation| op.spec_code() != code by {
                    match op {
                        Operation::PrintJob => {},
                        Operation::PrintUri => {},
                        Operation::ValidateJob => {},
                        Operation::CreateJob => {},
                        Operation::SendDocument => {},
                        Operation::SendUri => {},
                        Operation::CancelJob => {},
                        Operation::GetJobAttributes => {},
                        Operation::GetJobs => {},
                        Operation::GetPrinterAttributes => {},
                        Operation::HoldJob => {},
                        Operation::ReleaseJob => {},
                        Operation::RestartJob => {},
                        Operation::PausePrinter => {},
                        Operation::ResumePrinter => {},
                        Operation::PurgeJobs => {},
                    }
                }
                None
            },
        }
    }
}

} // verus!
