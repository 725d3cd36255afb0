use ipp_printer::attributes::all_printer_attributes;
use ipp_printer::dispatch::{expects_continue, handle_parse_error};
use ipp_printer::text::decimal_string;
use ipp_printer::{
    Attribute, AttributeValue, Charset, Compression, DelimiterTag, IppResponseBuilder, IppVersion,
    Job, JobAttribute, JobState, MimeMediaType, Operation, Printer, PrinterAttribute,
    PrinterState, PrinterStateReason, PrinterStateReasonKeyword, PrinterStateReasonSeverity,
    PrinterUri, StatusCode, UriAuthenticationMethod, UriSecurityMethod, Value,
};

#[test]
fn printer_attribute_names_are_the_registered_ones() {
    let expected = [
        "charset-configured",
        "charset-supported",
        "compression-supported",
        "document-format-default",
        "document-format-supported",
        "generated-natural-language-supported",
        "ipp-versions-supported",
        "natural-language-configured",
        "operations-supported",
        "pdl-override-supported",
        "printer-is-accepting-jobs",
        "printer-name",
        "printer-state",
        "printer-state-reasons",
        "printer-up-time",
        "printer-uri-supported",
        "queued-job-count",
        "uri-authentication-supported",
        "uri-security-supported",
    ];
    let printer = Printer::default();
    let all = all_printer_attributes();
    assert_eq!(all.len(), expected.len());
    for (attr, name) in all.iter().zip(expected.iter()) {
        assert_eq!(printer.resolve(*attr).name, *name);
        assert_eq!(PrinterAttribute::from_name(name), Some(*attr));
    }
    assert_eq!(PrinterAttribute::from_name("printer-location"), None);
}

#[test]
fn queued_job_count_counts_pending_and_processing_jobs() {
    let mut printer = Printer::default();
    assert_eq!(printer.queued_job_count(), 0);
    for _ in 0..5 {
        printer.new_job(b"doc");
    }
    printer.jobs[1].state = JobState::Processing;
    printer.jobs[2].state = JobState::Completed;
    printer.jobs[3].state = JobState::Canceled;
    printer.jobs[4].state = JobState::PendingHeld;
    assert_eq!(printer.queued_job_count(), 2);
    assert_eq!(
        printer.resolve(PrinterAttribute::QueuedJobCount).value,
        AttributeValue::Single(Value::Integer(2))
    );
}

#[test]
fn job_uri_is_printer_uri_slash_id() {
    let mut printer = Printer::default();
    printer.printer_uri_supported = vec![PrinterUri::new(
        "ipps://printer.example/queue",
        UriAuthenticationMethod::Basic,
        UriSecurityMethod::Tls,
    )];
    printer.next_job_id = 4096;
    let job = printer.new_job(&[1, 2, 3]);
    assert_eq!(job.id, 4096);
    assert_eq!(job.uri, "ipps://printer.example/queue/4096");
    assert_eq!(printer.next_job_id, 4097);
    assert_eq!(printer.jobs.len(), 1);
    assert_eq!(printer.jobs[0].uri, job.uri);
}

#[test]
fn builder_orders_groups_whatever_the_call_order() {
    let printer = Printer::default();
    let job = Job::new(5, String::from("ipp://h/p/5"), &[]);
    let mut builder = IppResponseBuilder::new(StatusCode::SuccessfulOk, 99);
    builder.add_job_attribute(&job, JobAttribute::JobId);
    builder.add_printer_attribute(&printer, PrinterAttribute::PrinterName);
    builder.add_unsupported_attribute(Attribute::new(
        String::from("job-priority"),
        AttributeValue::Single(Value::Integer(50)),
    ));
    builder.add_operation_attribute(Attribute::new(
        String::from("attributes-charset"),
        AttributeValue::Single(Value::Charset(String::from("utf-8"))),
    ));
    builder.add_job_attribute(&job, JobAttribute::JobState);
    let response = builder.build();
    let tags: Vec<DelimiterTag> = response.groups.iter().map(|g| g.tag).collect();
    assert_eq!(
        tags,
        vec![
            DelimiterTag::OperationAttributes,
            DelimiterTag::UnsupportedAttributes,
            DelimiterTag::PrinterAttributes,
            DelimiterTag::JobAttributes,
        ]
    );
    let job_names: Vec<&str> = response.groups[3].attributes.iter().map(|a| a.name.as_str()).collect();
    assert_eq!(job_names, vec!["job-id", "job-state"]);
    assert_eq!(response.request_id, 99);
}

#[test]
fn empty_builder_has_no_groups() {
    let builder = IppResponseBuilder::new(StatusCode::ServerErrorOperationNotSupported, 1);
    let response = builder.build();
    assert!(response.groups.is_empty());
    assert_eq!(response.version, IppVersion::V1_1);
}

#[test]
fn required_job_attributes_in_catalog_order() {
    let job = Job::new(8, String::from("ipp://h/p/8"), b"abc");
    let mut builder = IppResponseBuilder::new(StatusCode::SuccessfulOk, 2);
    builder.add_required_job_attributes(&job);
    let response = builder.build();
    let names: Vec<&str> = response.groups[0].attributes.iter().map(|a| a.name.as_str()).collect();
    assert_eq!(names, vec!["job-id", "job-uri", "job-state", "job-state-reasons"]);
}

#[test]
fn decimal_strings() {
    assert_eq!(decimal_string(0), "0");
    assert_eq!(decimal_string(7), "7");
    assert_eq!(decimal_string(10), "10");
    assert_eq!(decimal_string(4096), "4096");
    assert_eq!(decimal_string(u32::MAX), "4294967295");
}

#[test]
fn charset_names_are_read_without_regard_to_case() {
    assert_eq!(Charset::parse("UTF-8"), Ok(Charset::Utf8));
    assert_eq!(Charset::parse("utf-8"), Ok(Charset::Utf8));
    assert_eq!(Charset::parse("latin1"), Err(String::from("Unknown Charset latin1")));
    assert_eq!(Charset::from_lowercase("UTF-8"), None);
    assert_eq!(Charset::Utf8.name(), "utf-8");
}

#[test]
fn expect_continue_header_is_read_without_regard_to_case() {
    assert!(expects_continue("Expect", "100-Continue"));
    assert!(expects_continue("expect", "100-continue"));
    assert!(!expects_continue("Expect", "200-ok"));
    assert!(!expects_continue("Accept", "100-continue"));
}

#[test]
fn unparseable_message_gets_bad_request_with_its_id() {
    let bytes = [0x01u8, 0x01, 0x00, 0x0B, 0x00, 0x01, 0x02, 0x03, 0xFF];
    let response = handle_parse_error(&bytes).expect("long enough");
    assert_eq!(response.status, StatusCode::ClientErrorBadRequest);
    assert_eq!(response.status.code(), 0x0400);
    assert_eq!(response.request_id, 0x0001_0203);
    assert!(response.groups.is_empty());
    assert!(handle_parse_error(&[1, 1, 0]).is_none());
}

#[test]
fn state_codes_and_reasons() {
    assert_eq!(PrinterState::Idle.code(), 3);
    assert_eq!(PrinterState::Stopped.code(), 5);
    assert_eq!(JobState::Pending.code(), 3);
    assert_eq!(JobState::Completed.code(), 9);
    let reason = PrinterStateReason {
        keyword: PrinterStateReasonKeyword::TonerLow,
        severity: Some(PrinterStateReasonSeverity::Warning),
    };
    assert_eq!(reason.name(), "toner-low-warning");
    let bare = PrinterStateReason { keyword: PrinterStateReasonKeyword::MediaJam, severity: None };
    assert_eq!(bare.name(), "media-jam");
}

#[test]
fn numbers_wrap_to_signed_32_bits() {
    let mut printer = Printer::default();
    printer.printer_up_time = u32::MAX;
    assert_eq!(
        printer.resolve(PrinterAttribute::PrinterUpTime).value,
        AttributeValue::Single(Value::Integer(-1))
    );
    printer.printer_up_time = 120;
    assert_eq!(
        printer.resolve(PrinterAttribute::PrinterUpTime).value,
        AttributeValue::Single(Value::Integer(120))
    );
}

#[test]
fn array_attributes_follow_configuration_order() {
    let mut printer = Printer::default();
    printer.compression_supported = vec![Compression::GZip, Compression::NoCompression];
    printer.operations_supported =
        vec![Operation::PrintJob, Operation::ValidateJob, Operation::GetPrinterAttributes];
    printer.document_format_supported = vec![MimeMediaType::PlainTextUtf8];
    assert_eq!(
        printer.resolve(PrinterAttribute::CompressionSupported).value,
        AttributeValue::Array(vec![
            Value::Keyword(String::from("gzip")),
            Value::Keyword(String::from("none")),
        ])
    );
    assert_eq!(
        printer.resolve(PrinterAttribute::OperationsSupported).value,
        AttributeValue::Array(vec![Value::Enum(2), Value::Enum(4), Value::Enum(11)])
    );
    assert_eq!(
        printer.resolve(PrinterAttribute::DocumentFormatSupported).value,
        AttributeValue::Array(vec![Value::MimeMediaType(String::from(
            "text/plain; charset = utf-8"
        ))])
    );
    assert_eq!(
        printer.resolve(PrinterAttribute::UriSecuritySupported).value,
        AttributeValue::Array(vec![Value::Keyword(String::from("none"))])
    );
    printer.printer_uri_supported = vec![];
    assert_eq!(
        printer.resolve(PrinterAttribute::PrinterUriSupported).value,
        AttributeValue::Array(vec![])
    );
    assert!(!printer.can_create_job());
}

#[test]
fn codes_round_trip() {
    assert_eq!(Operation::from_code(0x000B), Some(Operation::GetPrinterAttributes));
    assert_eq!(Operation::from_code(0x0001), None);
    assert_eq!(Operation::PurgeJobs.code(), 0x0012);
    assert_eq!(IppVersion::from_code(0x0200), Some(IppVersion::V2_0));
    assert_eq!(IppVersion::from_code(0x0300), None);
    assert_eq!(IppVersion::V2_2.name(), "2.2");
    assert_eq!(DelimiterTag::UnsupportedAttributes.code(), 0x05);
}
