use vstd::prelude::*;

use crate::attributes::{JobAttribute, PrinterAttribute};
use crate::job::Job;
use crate::kinds::{Charset, Compression, IppVersion, MimeMediaType, NaturalLanguage, Operation};
use crate::printer::{queued_jobs, Printer};
use crate::state::{JobStateReason, PrinterStateReason};
use crate::uri::PrinterUri;
use crate::value::{views_of, Attribute, AttributeValue, AttributeValueView, AttributeView, Value, ValueView};

verus! {

/// A count or an id as the 32-bit signed integer of the wire: numbers above `i32::MAX` wrap
/// around, as a two's complement cast does.
pub open spec fn as_int32(n: int) -> i32 {
    if n <= i32::MAX {
        n as i32
    } else {
        (n - 0x1_0000_0000) as i32
    }
}

pub fn int32_of(n: u32) -> (r: i32)
    ensures
        r == as_int32(n as int),
{
    if n <= 0x7fff_ffff {
        n as i32
    } else {
        (n - 0x8000_0000) as i32 + i32::MIN
    }
}

/// The values that list the charsets, in order.
pub open spec fn charset_values(s: Seq<Charset>) -> Seq<ValueView> {
    s.map_values(|x: Charset| ValueView::Charset(x.spec_name()))
}

fn make_charset_values(items: &Vec<Charset>) -> (r: Vec<Value>)
    ensures
        views_of(r@) == charset_values(items@),
{
    let mut out: Vec<Value> = Vec::new();
    let mut i: usize = 0;
    while i < items.len()
        invariant
            i <= items@.len(),
            out@.len() == i,
            views_of(out@) == charset_values(items@.subrange(0, i as int)),
        decreases items@.len() - i,
    {
        let x = &items[i];
        let v = Value::Charset(x.name());
        let ghost before = out@;
        out.push(v);
        proof {
            let ghost next = items@.subrange(0, i + 1);
            assert(out@ == before.push(v));
            assert(views_of(out@)[i as int] == v@);
            assert forall|k: int| 0 <= k < i + 1 implies #[trigger] views_of(out@)[k] == charset_values(
                next,
            )[k] by {
                if k < i {
                    assert(out@[k] == before[k]);
                    assert(views_of(before)[k] == charset_values(items@.subrange(0, i as int))[k]);
                }
            }
            assert(views_of(out@) =~= charset_values(next));
        }
        i = i + 1;
    }
    assert(items@.subrange(0, i as int) =~= items@);
    out
}

/// The values that list the compression methods, in order.
pub open spec fn compression_values(s: Seq<Compression>) -> Seq<ValueView> {
    s.map_values(|x: Compression| ValueView::Keyword(x.spec_name()))
}

fn make_compression_values(items: &Vec<Compression>) -> (r: Vec<Value>)
    ensures
        views_of(r@) == compression_values(items@),
{
    let mut out: Vec<Value> = Vec::new();
    let mut i: usize = 0;
    while i < items.len()
        invariant
            i <= items@.len(),
            out@.len() == i,
            views_of(out@) == compression_values(items@.subrange(0, i as int)),
        decreases items@.len() - i,
    {
        let x = &items[i];
        let v = Value::Keyword(x.name());
        let ghost before = out@;
        out.push(v);
        proof {
            let ghost next = items@.subrange(0, i + 1);
            assert(out@ == before.push(v));
            assert(views_of(out@)[i as int] == v@);
            assert forall|k: int| 0 <= k < i + 1 implies #[trigger] views_of(out@)[k] == compression_values(
                next,
            )[k] by {
                if k < i {
                    assert(out@[k] == before[k]);
                    assert(views_of(before)[k] == compression_values(items@.subrange(0, i as int))[k]);
                }
            }
            assert(views_of(out@) =~= compression_values(next));
        }
        i = i + 1;
    }
    assert(items@.subrange(0, i as int) =~= items@);
    out
}

/// The values that list the document formats, in order.
pub open spec fn format_values(s: Seq<MimeMediaType>) -> Seq<ValueView> {
    s.map_values(|x: MimeMediaType| ValueView::MimeMediaType(x.spec_name()))
}

fn make_format_values(items: &Vec<MimeMediaType>) -> (r: Vec<Value>)
    ensures
        views_of(r@) == format_values(items@),
{
    let mut out: Vec<Value> = Vec::new();
    let mut i: usize = 0;
    while i < items.len()
        invariant
            i <= items@.len(),
            out@.len() == i,
            views_of(out@) == format_values(items@.subrange(0, i as int)),
        decreases items@.len() - i,
    {
        let x = &items[i];
        let v = Value::MimeMediaType(x.name());
        let ghost before = out@;
        out.push(v);
        proof {
            let ghost next = items@.subrange(0, i + 1);
            assert(out@ == before.push(v));
            assert(views_of(out@)[i as int] == v@);
            assert forall|k: int| 0 <= k < i + 1 implies #[trigger] views_of(out@)[k] == format_values(
                next,
            )[k] by {
                if k < i {
                    assert(out@[k] == before[k]);
                    assert(views_of(before)[k] == format_values(items@.subrange(0, i as int))[k]);
                }
            }
            assert(views_of(out@) =~= format_values(next));
        }
        i = i + 1;
    }
    assert(items@.subrange(0, i as int) =~= items@);
    out
}

/// The values that list the natural languages, in order.
pub open spec fn language_values(s: Seq<NaturalLanguage>) -> Seq<ValueView> {
    s.map_values(|x: NaturalLanguage| ValueView::NaturalLanguage(x.spec_name()))
}

fn make_language_values(items: &Vec<NaturalLanguage>) -> (r: Vec<Value>)
    ensures
        views_of(r@) == language_values(items@),
{
    let mut out: Vec<Value> = Vec::new();
    let mut i: usize = 0;
    while i < items.len()
        invariant
            i <= items@.len(),
            out@.len() == i,
            views_of(out@) == language_values(items@.subrange(0, i as int)),
        decreases items@.len() - i,
    {
        let x = &items[i];
        let v = Value::NaturalLanguage(x.name());
        let ghost before = out@;
        out.push(v);
        proof {
            let ghost next = items@.subrange(0, i + 1);
            assert(out@ == before.push(v));
            assert(views_of(out@)[i as int] == v@);
            assert forall|k: int| 0 <= k < i + 1 implies #[trigger] views_of(out@)[k] == language_values(
                next,
            )[k] by {
                if k < i {
                    assert(out@[k] == before[k]);
                    assert(views_of(before)[k] == language_values(items@.subrange(0, i as int))[k]);
                }
            }
            assert(views_of(out@) =~= language_values(next));
        }
        i = i + 1;
    }
    assert(items@.subrange(0, i as int) =~= items@);
    out
}

/// The values that list the protocol versions, in order.
pub open spec fn version_values(s: Seq<IppVersion>) -> Seq<ValueView> {
    s.map_values(|x: IppVersion| ValueView::Keyword(x.spec_name()))
}

fn make_version_values(items: &Vec<IppVersion>) -> (r: Vec<Value>)
    ensures
        views_of(r@) == version_values(items@),
{
    let mut out: Vec<Value> = Vec::new();
    let mut i: usize = 0;
    while i < items.len()
        invariant
            i <= items@.len(),
            out@.len() == i,
            views_of(out@) == version_values(items@.subrange(0, i as int)),
        decreases items@.len() - i,
    {
        let x = &items[i];
        let v = Value::Keyword(x.name());
        let ghost before = out@;
        out.push(v);
        proof {
            let ghost next = items@.subrange(0, i + 1);
            assert(out@ == before.push(v));
            assert(views_of(out@)[i as int] == v@);
            assert forall|k: int| 0 <= k < i + 1 implies #[trigger] views_of(out@)[k] == version_values(
                next,
            )[k] by {
                if k < i {
                    assert(out@[k] == before[k]);
                    assert(views_of(before)[k] == version_values(items@.subrange(0, i as int))[k]);
                }
            }
            assert(views_of(out@) =~= version_values(next));
        }
        i = i + 1;
    }
    assert(items@.subrange(0, i as int) =~= items@);
    out
}

/// The values that list the operations, in order.
pub open spec fn operation_values(s: Seq<Operation>) -> Seq<ValueView> {
    s.map_values(|x: Operation| ValueView::Enum(x.spec_code() as i32))
}

fn make_operation_values(items: &Vec<Operation>) -> (r: Vec<Value>)
    ensures
        views_of(r@) == operation_values(items@),
{
    let mut out: Vec<Value> = Vec::new();
    let mut i: usize = 0;
    while i < items.len()
        invariant
            i <= items@.len(),
            out@.len() == i,
            views_of(out@) == operation_values(items@.subrange(0, i as int)),
        decreases items@.len() - i,
    {
        let x = &items[i];
        let v = Value::Enum(x.code() as i32);
        let ghost before = out@;
        out.push(v);
        proof {
            let ghost next = items@.subrange(0, i + 1);
            assert(out@ == before.push(v));
            assert(views_of(out@)[i as int] == v@);
            assert forall|k: int| 0 <= k < i + 1 implies #[trigger] views_of(out@)[k] == operation_values(
                next,
            )[k] by {
                if k < i {
                    assert(out@[k] == before[k]);
                    assert(views_of(before)[k] == operation_values(items@.subrange(0, i as int))[k]);
                }
            }
            assert(views_of(out@) =~= operation_values(next));
        }
        i = i + 1;
    }
    assert(items@.subrange(0, i as int) =~= items@);
    out
}

/// The values that list the printer state reasons, in order.
pub open spec fn printer_reason_values(s: Seq<PrinterStateReason>) -> Seq<ValueView> {
    s.map_values(|x: PrinterStateReason| ValueView::Keyword(x.spec_name()))
}

fn make_printer_reason_values(items: &Vec<PrinterStateReason>) -> (r: Vec<Value>)
    ensures
        views_of(r@) == printer_reason_values(items@),
{
    let mut out: Vec<Value> = Vec::new();
    let mut i: usize = 0;
    while i < items.len()
        invariant
            i <= items@.len(),
            out@.len() == i,
            views_of(out@) == printer_reason_values(items@.subrange(0, i as int)),
        decreases items@.len() - i,
    {
        let x = &items[i];
        let v = Value::Keyword(x.name());
        let ghost before = out@;
        out.push(v);
        proof {
            let ghost next = items@.subrange(0, i + 1);
            assert(out@ == before.push(v));
            assert(views_of(out@)[i as int] == v@);
            assert forall|k: int| 0 <= k < i + 1 implies #[trigger] views_of(out@)[k] == printer_reason_values(
                next,
            )[k] by {
                if k < i {
                    assert(out@[k] == before[k]);
                    assert(views_of(before)[k] == printer_reason_values(items@.subrange(0, i as int))[k]);
                }
            }
            assert(views_of(out@) =~= printer_reason_values(next));
        }
        i = i + 1;
    }
    assert(items@.subrange(0, i as int) =~= items@);
    out
}

/// The values that list the printer addresses, in order.
pub open spec fn uri_values(s: Seq<PrinterUri>) -> Seq<ValueView> {
    s.map_values(|x: PrinterUri| ValueView::Uri(x.uri@))
}

fn make_uri_values(items: &Vec<PrinterUri>) -> (r: Vec<Value>)
    ensures
        views_of(r@) == uri_values(items@),
{
    let mut out: Vec<Value> = Vec::new();
    let mut i: usize = 0;
    while i < items.len()
        invariant
            i <= items@.len(),
            out@.len() == i,
            views_of(out@) == uri_values(items@.subrange(0, i as int)),
        decreases items@.len() - i,
    {
        let x = &items[i];
        let v = Value::Uri(x.uri.clone());
        let ghost before = out@;
        out.push(v);
        proof {
            let ghost next = items@.subrange(0, i + 1);
            assert(out@ == before.push(v));
            assert(views_of(out@)[i as int] == v@);
            assert forall|k: int| 0 <= k < i + 1 implies #[trigger] views_of(out@)[k] == uri_values(
                next,
            )[k] by {
                if k < i {
                    assert(out@[k] == before[k]);
                    assert(views_of(before)[k] == uri_values(items@.subrange(0, i as int))[k]);
                }
            }
            assert(views_of(out@) =~= uri_values(next));
        }
        i = i + 1;
    }
    assert(items@.subrange(0, i as int) =~= items@);
    out
}

/// The values that list the authentication methods of the printer addresses, in order.
pub open spec fn authentication_values(s: Seq<PrinterUri>) -> Seq<ValueView> {
    s.map_values(|x: PrinterUri| ValueView::Keyword(x.authentication.spec_name()))
}

fn make_authentication_values(items: &Vec<PrinterUri>) -> (r: Vec<Value>)
    ensures
        views_of(r@) == authentication_values(items@),
{
    let mut out: Vec<Value> = Vec::new();
    let mut i: usize = 0;
    while i < items.len()
        invariant
            i <= items@.len(),
            out@.len() == i,
            views_of(out@) == authentication_values(items@.subrange(0, i as int)),
        decreases items@.len() - i,
    {
        let x = &items[i];
        let v = Value::Keyword(x.authentication.name());
        let ghost before = out@;
        out.push(v);
        proof {
            let ghost next = items@.subrange(0, i + 1);
            assert(out@ == before.push(v));
            assert(views_of(out@)[i as int] == v@);
            assert forall|k: int| 0 <= k < i + 1 implies #[trigger] views_of(out@)[k] == authentication_values(
                next,
            )[k] by {
                if k < i {
                    assert(out@[k] == before[k]);
                    assert(views_of(before)[k] == authentication_values(items@.subrange(0, i as int))[k]);
                }
            }
            assert(views_of(out@) =~= authentication_values(next));
        }
        i = i + 1;
    }
    assert(items@.subrange(0, i as int) =~= items@);
    out
}

/// The values that list the security methods of the printer addresses, in order.
pub open spec fn security_values(s: Seq<PrinterUri>) -> Seq<ValueView> {
    s.map_values(|x: PrinterUri| ValueView::Keyword(x.security.spec_name()))
}

fn make_security_values(items: &Vec<PrinterUri>) -> (r: Vec<Value>)
    ensures
        views_of(r@) == security_values(items@),
{
    let mut out: Vec<Value> = Vec::new();
    let mut i: usize = 0;
    while i < items.len()
        invariant
            i <= items@.len(),
            out@.len() == i,
            views_of(out@) == security_values(items@.subrange(0, i as int)),
        decreases items@.len() - i,
    {
        let x = &items[i];
        let v = Value::Keyword(x.security.name());
        let ghost before = out@;
        out.push(v);
        proof {
            let ghost next = items@.subrange(0, i + 1);
            assert(out@ == before.push(v));
            assert(views_of(out@)[i as int] == v@);
            assert forall|k: int| 0 <= k < i + 1 implies #[trigger] views_of(out@)[k] == security_values(
                next,
            )[k] by {
                if k < i {
                    assert(out@[k] == before[k]);
                    assert(views_of(before)[k] == security_values(items@.subrange(0, i as int))[k]);
                }
            }
            assert(views_of(out@) =~= security_values(next));
        }
        i = i + 1;
    }
    assert(items@.subrange(0, i as int) =~= items@);
    out
}

/// The values that list the job state reasons, in order.
pub open spec fn job_reason_values(s: Seq<JobStateReason>) -> Seq<ValueView> {
    s.map_values(|x: JobStateReason| ValueView::Keyword(x.spec_name()))
}

fn make_job_reason_values(items: &Vec<JobStateReason>) -> (r: Vec<Value>)
    ensures
        views_of(r@) == job_reason_values(items@),
{
    let mut out: Vec<Value> = Vec::new();
    let mut i: usize = 0;
    while i < items.len()
        invariant
            i <= items@.len(),
            out@.len() == i,
            views_of(out@) == job_reason_values(items@.subrange(0, i as int)),
        decreases items@.len() - i,
    {
        let x = &items[i];
        let v = Value::Keyword(x.name());
        let ghost before = out@;
        out.push(v);
        proof {
            let ghost next = items@.subrange(0, i + 1);
            assert(out@ == before.push(v));
            assert(views_of(out@)[i as int] == v@);
            assert forall|k: int| 0 <= k < i + 1 implies #[trigger] views_of(out@)[k] == job_reason_values(
                next,
            )[k] by {
                if k < i {
                    assert(out@[k] == before[k]);
                    assert(views_of(before)[k] == job_reason_values(items@.subrange(0, i as int))[k]);
                }
            }
            assert(views_of(out@) =~= job_reason_values(next));
        }
        i = i + 1;
    }
    assert(items@.subrange(0, i as int) =~= items@);
    out
}

/// The value of a printer attribute, read from the printer's configuration and state.
pub open spec fn printer_attribute_value(p: Printer, a: PrinterAttribute) -> AttributeValueView {
    match a {
        PrinterAttribute::CharsetConfigured => AttributeValueView::Single(
            ValueView::Charset(p.charset_configured.spec_name()),
        ),
        PrinterAttribute::CharsetSupported => AttributeValueView::Array(
            charset_values(p.charset_supported@),
        ),
        PrinterAttribute::CompressionSupported => AttributeValueView::Array(
            compression_values(p.compression_supported@),
        ),
        PrinterAttribute::DocumentFormatDefault => AttributeValueView::Single(
            ValueView::MimeMediaType(p.document_format_default.spec_name()),
        ),
        PrinterAttribute::DocumentFormatSupported => AttributeValueView::Array(
            format_values(p.document_format_supported@),
        ),
        PrinterAttribute::GeneratedNaturalLanguageSupported => AttributeValueView::Array(
            language_values(p.generated_natural_language_supported@),
        ),
        PrinterAttribute::IppVersionsSupported => AttributeValueView::Array(
            version_values(p.ipp_versions_supported@),
        ),
        PrinterAttribute::NaturalLanguageConfigured => AttributeValueView::Single(
            ValueView::NaturalLanguage(p.natural_language_configured.spec_name()),
        ),
        PrinterAttribute::OperationsSupported => AttributeValueView::Array(
            operation_values(p.operations_supported@),
        ),
        PrinterAttribute::PdlOverrideSupported => AttributeValueView::Single(
            ValueView::Keyword(p.pdl_override_supported.spec_name()),
        ),
        PrinterAttribute::PrinterIsAcceptingJobs => AttributeValueView::Single(
            ValueView::Boolean(p.printer_is_accepting_jobs),
        ),
        PrinterAttribute::PrinterName => AttributeValueView::Single(
            ValueView::NameWithoutLanguage(p.printer_name@),
        ),
        PrinterAttribute::PrinterState => AttributeValueView::Single(
            ValueView::Enum(p.printer_state.spec_code()),
        ),
        PrinterAttribute::PrinterStateReasons => AttributeValueView::Array(
            printer_reason_values(p.printer_state_reasons@),
        ),
        PrinterAttribute::PrinterUpTime => AttributeValueView::Single(
            ValueView::Integer(as_int32(p.printer_up_time as int)),
        ),
        PrinterAttribute::PrinterUriSupported => AttributeValueView::Array(
            uri_values(p.printer_uri_supported@),
        ),
        PrinterAttribute::QueuedJobCount => AttributeValueView::Single(
            ValueView::Integer(as_int32(queued_jobs(p.jobs@).len() as int)),
        ),
        PrinterAttribute::UriAuthenticationSupported => AttributeValueView::Array(
            authentication_values(p.printer_uri_supported@),
        ),
        PrinterAttribute::UriSecuritySupported => AttributeValueView::Array(
            security_values(p.printer_uri_supported@),
        ),
    }
}

/// A printer attribute: its name, and its value on the printer `p`.
pub open spec fn printer_attribute(p: Printer, a: PrinterAttribute) -> AttributeView {
    AttributeView { name: a.spec_name(), value: printer_attribute_value(p, a) }
}

/// The value of a job attribute, read from the job.
pub open spec fn job_attribute_value(j: Job, a: JobAttribute) -> AttributeValueView {
    match a {
        JobAttribute::JobId => AttributeValueView::Single(ValueView::Integer(as_int32(j.id as int))),
        JobAttribute::JobUri => AttributeValueView::Single(ValueView::Uri(j.uri@)),
        JobAttribute::JobState => AttributeValueView::Single(ValueView::Enum(j.state.spec_code())),
        JobAttribute::JobStateReasons => AttributeValueView::Array(
            job_reason_values(j.state_reasons@),
        ),
    }
}

/// A job attribute: its name, and its value on the job `j`.
pub open spec fn job_attribute(j: Job, a: JobAttribute) -> AttributeView {
    AttributeView { name: a.spec_name(), value: job_attribute_value(j, a) }
}

impl Printer {
    /// The attribute `attribute` of this printer, named as the protocol names it.
    pub fn resolve(&self, attribute: PrinterAttribute) -> (r: Attribute)
        requires
            self.jobs@.len() <= u32::MAX,
        ensures
            r@ == printer_attribute(*self, attribute),
            r@.name == attribute.spec_name(),
    {
        let value = match attribute {
            PrinterAttribute::CharsetConfigured => AttributeValue::Single(
                Value::Charset(self.charset_configured.name()),
            ),
            PrinterAttribute::CharsetSupported => AttributeValue::Array(
                make_charset_values(&self.charset_supported),
            ),
            PrinterAttribute::CompressionSupported => AttributeValue::Array(
                make_compression_values(&self.compression_supported),
            ),
            PrinterAttribute::DocumentFormatDefault => AttributeValue::Single(
                Value::MimeMediaType(self.document_format_default.name()),
            ),
            PrinterAttribute::DocumentFormatSupported => AttributeValue::Array(
                make_format_values(&self.document_format_supported),
            ),
            PrinterAttribute::GeneratedNaturalLanguageSupported => AttributeValue::Array(
                make_language_values(&self.generated_natural_language_supported),
            ),
            PrinterAttribute::IppVersionsSupported => AttributeValue::Array(
                make_version_values(&self.ipp_versions_supported),
            ),
            PrinterAttribute::NaturalLanguageConfigured => AttributeValue::Single(
                Value::NaturalLanguage(self.natural_language_configured.name()),
            ),
            PrinterAttribute::OperationsSupported => AttributeValue::Array(
                make_operation_values(&self.operations_supported),
            ),
            PrinterAttribute::PdlOverrideSupported => AttributeValue::Single(
                Value::Keyword(self.pdl_override_supported.name()),
            ),
            PrinterAttribute::PrinterIsAcceptingJobs => AttributeValue::Single(
                Value::Boolean(self.printer_is_accepting_jobs),
            ),
            PrinterAttribute::PrinterName => AttributeValue::Single(
                Value::NameWithoutLanguage(self.printer_name.clone()),
            ),
            PrinterAttribute::PrinterState => AttributeValue::Single(
                Value::Enum(self.printer_state.code()),
            ),
            PrinterAttribute::PrinterStateReasons => AttributeValue::Array(
                make_printer_reason_values(&self.printer_state_reasons),
            ),
            PrinterAttribute::PrinterUpTime => AttributeValue::Single(
                Value::Integer(int32_of(self.printer_up_time)),
            ),
            PrinterAttribute::PrinterUriSupported => AttributeValue::Array(
                make_uri_values(&self.printer_uri_supported),
            ),
            PrinterAttribute::QueuedJobCount => AttributeValue::Single(
                Value::Integer(int32_of(self.queued_job_count())),
            ),
            PrinterAttribute::UriAuthenticationSupported => AttributeValue::Array(
                make_authentication_values(&self.printer_uri_supported),
            ),
            PrinterAttribute::UriSecuritySupported => AttributeValue::Array(
                make_security_values(&self.printer_uri_supported),
            ),
        };
        Attribute { name: attribute.name(), value }
    }
}

impl Job {
    /// The attribute `attribute` of this job, named as the protocol names it.
    pub fn resolve(&self, attribute: JobAttribute) -> (r: Attribute)
        ensures
            r@ == job_attribute(*self, attribute),
            r@.name == attribute.spec_name(),
    {
        let value = match attribute {
            JobAttribute::JobId => AttributeValue::Single(Value::Integer(int32_of(self.id))),
            JobAttribute::JobUri => AttributeValue::Single(Value::Uri(self.uri.clone())),
            JobAttribute::JobState => AttributeValue::Single(Value::Enum(self.state.code())),
            JobAttribute::JobStateReasons => AttributeValue::Array(
                make_job_reason_values(&self.state_reasons),
            ),
        };
        Attribute { name: attribute.name(), value }
    }
}

} // verus!
