use ipp_printer::dispatch::{
    handle_ipp, is_ipp_endpoint, requested_attributes, route, select_printer_attributes, Route,
};
use ipp_printer::{
    Attribute, AttributeGroup, AttributeValue, DelimiterTag, IppRequest, IppResponse, IppVersion,
    JobState, JobStateReason, Printer, PrinterAttribute, StatusCode, Value,
};

fn request(operation_code: u16, request_id: u32) -> IppRequest {
    IppRequest { version: (1, 1), operation_code, request_id, groups: Vec::new() }
}

fn find<'a>(response: &'a IppResponse, tag: DelimiterTag, name: &str) -> &'a AttributeValue {
    let group = response.groups.iter().find(|g| g.tag == tag).expect("group present");
    &group.attributes.iter().find(|a| a.name == name).expect("attribute present").value
}

#[test]
fn get_printer_attributes_on_default_printer() {
    let mut printer = Printer::default();
    let response = handle_ipp(&mut printer, &request(0x000B, 7), &[]);
    assert_eq!(response.status, StatusCode::SuccessfulOk);
    assert_eq!(response.status.code(), 0x0000);
    assert_eq!(response.request_id, 7);
    assert_eq!(response.version, IppVersion::V1_1);
    assert_eq!(response.groups.len(), 1);
    assert_eq!(response.groups[0].tag, DelimiterTag::PrinterAttributes);
    assert_eq!(response.groups[0].attributes.len(), 19);
    assert_eq!(
        find(&response, DelimiterTag::PrinterAttributes, "printer-name"),
        &AttributeValue::Single(Value::NameWithoutLanguage(String::from("Default Printer Name")))
    );
    assert_eq!(
        find(&response, DelimiterTag::PrinterAttributes, "printer-state"),
        &AttributeValue::Single(Value::Enum(3))
    );
    assert_eq!(
        find(&response, DelimiterTag::PrinterAttributes, "charset-configured"),
        &AttributeValue::Single(Value::Charset(String::from("utf-8")))
    );
    assert_eq!(
        find(&response, DelimiterTag::PrinterAttributes, "ipp-versions-supported"),
        &AttributeValue::Array(vec![Value::Keyword(String::from("1.1"))])
    );
}

#[test]
fn print_job_on_empty_printer_creates_job_one() {
    let mut printer = Printer::default();
    let payload = [0x25u8, 0x50, 0x44, 0x46];
    let response = handle_ipp(&mut printer, &request(0x0002, 3), &payload);
    assert_eq!(printer.jobs.len(), 1);
    let job = &printer.jobs[0];
    assert_eq!(job.id, 1);
    assert_eq!(job.uri, "ipp://127.0.0.1:3000/ipp/print/1");
    assert_eq!(job.state, JobState::Pending);
    assert_eq!(job.state_reasons, vec![JobStateReason::NoReason]);
    assert_eq!(job.data, payload.to_vec());
    assert_eq!(response.status, StatusCode::SuccessfulOk);
    assert_eq!(response.request_id, 3);
    assert_eq!(response.groups.len(), 1);
    assert_eq!(response.groups[0].tag, DelimiterTag::JobAttributes);
    assert_eq!(
        find(&response, DelimiterTag::JobAttributes, "job-id"),
        &AttributeValue::Single(Value::Integer(1))
    );
    assert_eq!(
        find(&response, DelimiterTag::JobAttributes, "job-state"),
        &AttributeValue::Single(Value::Enum(3))
    );
    assert_eq!(
        find(&response, DelimiterTag::JobAttributes, "job-uri"),
        &AttributeValue::Single(Value::Uri(String::from("ipp://127.0.0.1:3000/ipp/print/1")))
    );
    assert_eq!(
        find(&response, DelimiterTag::JobAttributes, "job-state-reasons"),
        &AttributeValue::Array(vec![Value::Keyword(String::from("none"))])
    );
}

#[test]
fn two_print_jobs_get_ids_one_then_two() {
    let mut printer = Printer::default();
    let first = handle_ipp(&mut printer, &request(0x0002, 1), b"first");
    let second = handle_ipp(&mut printer, &request(0x0002, 2), b"second");
    assert_eq!(
        find(&first, DelimiterTag::JobAttributes, "job-id"),
        &AttributeValue::Single(Value::Integer(1))
    );
    assert_eq!(
        find(&second, DelimiterTag::JobAttributes, "job-id"),
        &AttributeValue::Single(Value::Integer(2))
    );
    assert_eq!(printer.jobs[0].id, 1);
    assert_eq!(printer.jobs[1].id, 2);
    assert_eq!(printer.jobs[1].uri, "ipp://127.0.0.1:3000/ipp/print/2");
    assert_eq!(printer.next_job_id, 3);
}

#[test]
fn unmodeled_operation_is_not_supported() {
    let mut printer = Printer::default();
    let response = handle_ipp(&mut printer, &request(0x0008, 11), &[]);
    assert_eq!(response.status, StatusCode::ServerErrorOperationNotSupported);
    assert_eq!(response.status.code(), 0x0501);
    assert_eq!(response.request_id, 11);
    assert!(response.groups.is_empty());
    assert!(printer.jobs.is_empty());
    let unknown = handle_ipp(&mut printer, &request(0x7777, 12), &[]);
    assert_eq!(unknown.status, StatusCode::ServerErrorOperationNotSupported);
    assert!(unknown.groups.is_empty());
}

#[test]
fn http_get_is_not_the_ipp_endpoint() {
    assert!(!is_ipp_endpoint("GET", "/ipp/print"));
    assert!(!is_ipp_endpoint("POST", "/other"));
    assert!(is_ipp_endpoint("POST", "/ipp/print"));
}

#[test]
fn validate_job_answers_with_headers_only() {
    let mut printer = Printer::default();
    let response = handle_ipp(&mut printer, &request(0x0004, 5), b"data");
    assert_eq!(response.status, StatusCode::SuccessfulOk);
    assert_eq!(response.request_id, 5);
    assert!(response.groups.is_empty());
    assert!(printer.jobs.is_empty());
}

#[test]
fn routes_by_operation_code() {
    assert_eq!(route(0x000B), Route::GetPrinterAttributes);
    assert_eq!(route(0x0004), Route::ValidateJob);
    assert_eq!(route(0x0002), Route::PrintJob);
    assert_eq!(route(0x0003), Route::NotSupported);
    assert_eq!(route(0xFFFF), Route::NotSupported);
}

#[test]
fn requested_attributes_filter_the_printer_group() {
    let mut printer = Printer::default();
    let mut req = request(0x000B, 9);
    req.groups.push(AttributeGroup {
        tag: DelimiterTag::OperationAttributes,
        attributes: vec![Attribute {
            name: String::from("requested-attributes"),
            value: AttributeValue::Array(vec![
                Value::Keyword(String::from("printer-state")),
                Value::Integer(4),
                Value::Keyword(String::from("printer-name")),
                Value::Keyword(String::from("no-such-attribute")),
            ]),
        }],
    });
    let response = handle_ipp(&mut printer, &req, &[]);
    assert_eq!(response.groups.len(), 1);
    let names: Vec<&str> = response.groups[0].attributes.iter().map(|a| a.name.as_str()).collect();
    assert_eq!(names, vec!["printer-name", "printer-state"]);
}

#[test]
fn requested_all_gives_every_printer_attribute() {
    let mut printer = Printer::default();
    let mut req = request(0x000B, 9);
    req.groups.push(AttributeGroup {
        tag: DelimiterTag::OperationAttributes,
        attributes: vec![Attribute {
            name: String::from("requested-attributes"),
            value: AttributeValue::Array(vec![Value::Keyword(String::from("all"))]),
        }],
    });
    let response = handle_ipp(&mut printer, &req, &[]);
    assert_eq!(response.groups[0].attributes.len(), 19);
}

#[test]
fn print_job_without_free_id_is_an_internal_error() {
    let mut printer = Printer::default();
    printer.next_job_id = u32::MAX;
    assert!(!printer.can_create_job());
    let response = handle_ipp(&mut printer, &request(0x0002, 4), b"x");
    assert_eq!(response.status, StatusCode::ServerErrorInternalError);
    assert!(response.groups.is_empty());
    assert!(printer.jobs.is_empty());
    assert_eq!(printer.next_job_id, u32::MAX);
}

#[test]
fn requested_attributes_are_gathered_from_every_operation_group() {
    let mut req = request(0x000B, 1);
    for names in [vec!["printer-up-time"], vec!["queued-job-count", "charset-configured"]] {
        req.groups.push(AttributeGroup {
            tag: DelimiterTag::OperationAttributes,
            attributes: vec![Attribute::new(
                String::from("requested-attributes"),
                AttributeValue::Array(names.iter().map(|n| Value::Keyword(n.to_string())).collect()),
            )],
        });
    }
    req.groups.push(AttributeGroup {
        tag: DelimiterTag::JobAttributes,
        attributes: vec![Attribute::new(
            String::from("requested-attributes"),
            AttributeValue::Array(vec![Value::Keyword(String::from("printer-name"))]),
        )],
    });
    let requested = requested_attributes(&req);
    assert_eq!(requested, vec!["printer-up-time", "queued-job-count", "charset-configured"]);
    assert_eq!(
        select_printer_attributes(&requested),
        vec![
            PrinterAttribute::CharsetConfigured,
            PrinterAttribute::PrinterUpTime,
            PrinterAttribute::QueuedJobCount,
        ]
    );
    let every = select_printer_attributes(&vec![String::from("printer-description")]);
    assert_eq!(every.len(), 19);
}
