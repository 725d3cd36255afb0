use vstd::prelude::*;

use crate::attributes::{all_printer_attributes, spec_all_printer_attributes, PrinterAttribute,
    spec_all_job_attributes};
use crate::builder::{group_if, job_attributes_of, printer_attributes_of, IppResponseBuilder};
use crate::kinds::{IppVersion, Operation};
use crate::message::{
    attribute_views, DelimiterTag, GroupView, IppRequest, IppResponse, ResponseView, StatusCode,
    group_views,
};
use crate::printer::{job_uri, Printer};
use crate::state::{JobState, JobStateReason};
use crate::text::{lowercase_of, same_text, to_lowercase};
use crate::value::{Attribute, AttributeValue, AttributeValueView, AttributeView, Value, ValueView};

verus! {

/// The texts of a list of strings, in order.
pub open spec fn texts_of(strings: Seq<String>) -> Seq<Seq<char>> {
    strings.map_values(|s: String| s@)
}

/// The keywords among `values`, in order; values of other syntaxes are skipped.
pub open spec fn keywords_of(values: Seq<ValueView>) -> Seq<Seq<char>>
    decreases values.len(),
{
    if values.len() == 0 {
        Seq::empty()
    } else {
        keywords_of(values.drop_last()) + match values.last() {
            ValueView::Keyword(k) => seq![k],
            _ => Seq::empty(),
        }
    }
}

/// The first attribute of `attributes` named `name`, if there is one.
pub open spec fn first_named(attributes: Seq<AttributeView>, name: Seq<char>) -> Option<
    AttributeView,
>
    decreases attributes.len(),
{
    if attributes.len() == 0 {
        None
    } else if attributes[0].name == name {
        Some(attributes[0])
    } else {
        first_named(attributes.subrange(1, attributes.len() as int), name)
    }
}

/// The keywords that the `requested-attributes` attribute of a group lists; nothing when the
/// group has no such attribute or its value is not a list.
pub open spec fn requested_in_group(attributes: Seq<AttributeView>) -> Seq<Seq<char>> {
    match first_named(attributes, "requested-attributes"@) {
        Some(a) => match a.value {
            AttributeValueView::Array(values) => keywords_of(values),
            AttributeValueView::Single(_) => Seq::empty(),
        },
        None => Seq::empty(),
    }
}

/// The attributes that a request asks for, over all of its operation groups, in order.
pub open spec fn requested_of(groups: Seq<GroupView>) -> Seq<Seq<char>>
    decreases groups.len(),
{
    if groups.len() == 0 {
        Seq::empty()
    } else {
        requested_of(groups.drop_last()) + if groups.last().tag
            == DelimiterTag::OperationAttributes {
            requested_in_group(groups.last().attributes)
        } else {
            Seq::empty()
        }
    }
}

fn keywords_in(values: &Vec<Value>) -> (r: Vec<String>)
    ensures
        texts_of(r@) == keywords_of(values@.map_values(|v: Value| v@)),
{
    let ghost views = values@.map_values(|v: Value| v@);
    let mut out: Vec<String> = Vec::new();
    let mut i: usize = 0;
    while i < values.len()
        invariant
            i <= values@.len(),
            views == values@.map_values(|v: Value| v@),
            texts_of(out@) == keywords_of(views.subrange(0, i as int)),
        decreases values@.len() - i,
    {
        let ghost before = out@;
        proof {
            assert(views.subrange(0, i + 1).drop_last() =~= views.subrange(0, i as int));
        }
        match &values[i] {
            Value::Keyword(k) => {
                out.push(k.clone());
                assert(texts_of(out@) =~= texts_of(before).push(k@));
            },
            _ => {},
        }
        i = i + 1;
    }
    assert(views.subrange(0, i as int) =~= views);
    out
}

fn requested_in(attributes: &Vec<Attribute>) -> (r: Vec<String>)
    ensures
        texts_of(r@) == requested_in_group(attribute_views(attributes@)),
{
    let ghost views = attribute_views(attributes@);
    assert(views.subrange(0, views.len() as int) =~= views);
    let mut i: usize = 0;
    while i < attributes.len()
        invariant
            i <= attributes@.len(),
            views == attribute_views(attributes@),
            first_named(views, "requested-attributes"@) == first_named(
                views.subrange(i as int, views.len() as int),
                "requested-attributes"@,
            ),
        decreases attributes@.len() - i,
    {
        let ghost rest = views.subrange(i as int, views.len() as int);
        if same_text(attributes[i].name.as_str(), "requested-attributes") {
            assert(rest[0] == views[i as int]);
            return match &attributes[i].value {
                AttributeValue::Array(values) => keywords_in(values),
                AttributeValue::Single(_) => {
                    let none: Vec<String> = Vec::new();
                    assert(texts_of(none@) =~= Seq::empty());
                    none
                },
            };
        }
        assert(rest.subrange(1, rest.len() as int) =~= views.subrange(i + 1, views.len() as int));
        i = i + 1;
    }
    let none: Vec<String> = Vec::new();
    assert(texts_of(none@) =~= Seq::empty());
    none
}

/// The attributes that a request asks for in `requested-attributes`, over all of its operation
/// groups, in order. Values that are not keywords are skipped.
pub fn requested_attributes(request: &IppRequest) -> (r: Vec<String>)
    ensures
        texts_of(r@) == requested_of(group_views(request.groups@)),
{
    let ghost groups = group_views(request.groups@);
    let mut out: Vec<String> = Vec::new();
    let mut i: usize = 0;
    while i < request.groups.len()
        invariant
            i <= request.groups@.len(),
            groups == group_views(request.groups@),
            texts_of(out@) == requested_of(groups.subrange(0, i as int)),
        decreases request.groups@.len() - i,
    {
        proof {
            assert(groups.subrange(0, i + 1).drop_last() =~= groups.subrange(0, i as int));
        }
        let group = &request.groups[i];
        if group.tag == DelimiterTag::OperationAttributes {
            let found = requested_in(&group.attributes);
            let ghost before = out@;
            let mut j: usize = 0;
            while j < found.len()
                invariant
                    j <= found@.len(),
                    texts_of(out@) == texts_of(before) + texts_of(found@.subrange(0, j as int)),
                decreases found@.len() - j,
            {
                let ghost mid = out@;
                out.push(found[j].clone());
                assert(texts_of(out@) =~= texts_of(mid).push(found@[j as int]@));
                assert(texts_of(found@.subrange(0, j + 1)) =~= texts_of(
                    found@.subrange(0, j as int),
                ).push(found@[j as int]@));
                j = j + 1;
            }
            assert(found@.subrange(0, j as int) =~= found@);
        }
        i = i + 1;
    }
    assert(groups.subrange(0, i as int) =~= groups);
    out
}

/// Whether a request that asks for `requested` gets the printer attribute `a`: every attribute
/// when it asks for none in particular, for `all` or for `printer-description`; otherwise the
/// attributes that it names.
pub open spec fn selects(requested: Seq<Seq<char>>, a: PrinterAttribute) -> bool {
    requested.len() == 0 || requested.contains("all"@) || requested.contains(
        "printer-description"@,
    ) || requested.contains(a.spec_name())
}

/// The printer attributes that a request asking for `requested` gets, in the catalog's order.
pub open spec fn selected_attributes(requested: Seq<Seq<char>>) -> Seq<PrinterAttribute> {
    spec_all_printer_attributes().filter(|a: PrinterAttribute| selects(requested, a))
}

fn contains_text(list: &Vec<String>, text: &str) -> (r: bool)
    ensures
        r == texts_of(list@).contains(text@),
{
    let mut i: usize = 0;
    while i < list.len()
        invariant
            i <= list@.len(),
            forall|k: int| 0 <= k < i ==> texts_of(list@)[k] != text@,
        decreases list@.len() - i,
    {
        if same_text(list[i].as_str(), text) {
            assert(texts_of(list@)[i as int] == text@);
            return true;
        }
        i = i + 1;
    }
    false
}

/// The printer attributes that a request asking for `requested` gets, in the catalog's order.
pub fn select_printer_attributes(requested: &Vec<String>) -> (r: Vec<PrinterAttribute>)
    ensures
        r@ == selected_attributes(texts_of(requested@)),
{
    let ghost names = texts_of(requested@);
    let every = requested.len() == 0 || contains_text(requested, "all") || contains_text(
        requested,
        "printer-description",
    );
    let all = all_printer_attributes();
    let mut out: Vec<PrinterAttribute> = Vec::new();
    let mut i: usize = 0;
    while i < all.len()
        invariant
            i <= all@.len(),
            all@ == spec_all_printer_attributes(),
            names == texts_of(requested@),
            every == (names.len() == 0 || names.contains("all"@) || names.contains(
                "printer-description"@,
            )),
            out@ == all@.subrange(0, i as int).filter(|a: PrinterAttribute| selects(names, a)),
        decreases all@.len() - i,
    {
        let a = all[i];
        proof {
            assert(all@.subrange(0, i + 1) =~= all@.subrange(0, i as int).push(a));
            all@.subrange(0, i as int).lemma_filter_push(a, |a: PrinterAttribute| selects(names, a));
        }
        if every {
            out.push(a);
        } else {
            let name = a.name();
            if contains_text(requested, name.as_str()) {
                out.push(a);
            }
        }
        i = i + 1;
    }
    assert(all@.subrange(0, i as int) =~= all@);
    out
}

/// A version 1.1 response with this status, request id and groups.
pub open spec fn response_of(status: StatusCode, request_id: u32, groups: Seq<GroupView>) -> ResponseView {
    ResponseView { version: IppVersion::V1_1, status, request_id, groups }
}

/// The answer to Get-Printer-Attributes: success, with the printer attributes that the request
/// asks for.
pub open spec fn printer_attributes_response(p: Printer, request: IppRequest) -> ResponseView {
    response_of(
        StatusCode::SuccessfulOk,
        request.request_id,
        group_if(
            DelimiterTag::PrinterAttributes,
            printer_attributes_of(p, selected_attributes(requested_of(group_views(request.groups@)))),
        ),
    )
}

/// Answers Get-Printer-Attributes.
pub fn handle_get_printer_attributes(printer: &Printer, request: &IppRequest) -> (r: IppResponse)
    requires
        printer.jobs@.len() <= u32::MAX,
    ensures
        r@ == printer_attributes_response(*printer, *request),
{
    let requested = requested_attributes(request);
    let selected = select_printer_attributes(&requested);
    let mut builder = IppResponseBuilder::new(StatusCode::SuccessfulOk, request.request_id);
    builder.add_printer_attributes(printer, &selected);
    let r = builder.build();
    assert(r@.groups =~= printer_attributes_response(*printer, *request).groups);
    r
}

/// Answers Validate-Job: success, with the operation and unsupported groups that Print-Job gives
/// (none) and no job group.
pub fn handle_validate_job(request: &IppRequest) -> (r: IppResponse)
    ensures
        r@ == response_of(StatusCode::SuccessfulOk, request.request_id, Seq::empty()),
{
    let builder = IppResponseBuilder::new(StatusCode::SuccessfulOk, request.request_id);
    let r = builder.build();
    assert(r@.groups =~= Seq::<GroupView>::empty());
    r
}

/// Answers an operation that the printer does not implement.
pub fn handle_unsupported(request: &IppRequest) -> (r: IppResponse)
    ensures
        r@ == response_of(
            StatusCode::ServerErrorOperationNotSupported,
            request.request_id,
            Seq::empty(),
        ),
{
    let builder = IppResponseBuilder::new(
        StatusCode::ServerErrorOperationNotSupported,
        request.request_id,
    );
    let r = builder.build();
    assert(r@.groups =~= Seq::<GroupView>::empty());
    r
}

/// Answers a request that the server could not carry out, such as one whose document data
/// could not be read.
pub fn handle_internal_error(request: &IppRequest) -> (r: IppResponse)
    ensures
        r@ == response_of(StatusCode::ServerErrorInternalError, request.request_id, Seq::empty()),
{
    let builder = IppResponseBuilder::new(StatusCode::ServerErrorInternalError, request.request_id);
    let r = builder.build();
    assert(r@.groups =~= Seq::<GroupView>::empty());
    r
}

/// `after` is `before` with one more job, made from `data`: it got the next id, the address
/// derived from that id, and is pending; nothing else changed.
pub open spec fn job_added(before: Printer, after: Printer, data: Seq<u8>) -> bool {
    let j = after.jobs@.last();
    &&& after.jobs@.len() == before.jobs@.len() + 1
    &&& forall|i: int| 0 <= i < before.jobs@.len() ==> #[trigger] after.jobs@[i] == before.jobs@[i]
    &&& j.id == before.next_job_id
    &&& j.uri@ == job_uri(before.primary_uri(), j.id)
    &&& j.state == JobState::Pending
    &&& j.state_reasons@ == seq![JobStateReason::NoReason]
    &&& j.data@ == data
    &&& after.next_job_id == before.next_job_id + 1
    &&& after.same_configuration(before)
    &&& (before.wf() ==> after.wf())
}

/// Answers Print-Job: creates a job for `data` and answers with its attributes. When no job can
/// be created (the printer has no address, or job ids are used up), the printer is left as it
/// was and the answer is an internal error.
pub fn handle_print_job(printer: &mut Printer, request: &IppRequest, data: &[u8]) -> (r: IppResponse)
    ensures
        old(printer).printer_uri_supported@.len() >= 1 && old(printer).next_job_id < u32::MAX ==> {
            &&& job_added(*old(printer), *final(printer), data@)
            &&& r@ == response_of(
                StatusCode::SuccessfulOk,
                request.request_id,
                group_if(
                    DelimiterTag::JobAttributes,
                    job_attributes_of(final(printer).jobs@.last(), spec_all_job_attributes()),
                ),
            )
        },
        !(old(printer).printer_uri_supported@.len() >= 1 && old(printer).next_job_id < u32::MAX)
            ==> {
            &&& *final(printer) == *old(printer)
            &&& r@ == response_of(
                StatusCode::ServerErrorInternalError,
                request.request_id,
                Seq::empty(),
            )
        },
{
    if !printer.can_create_job() {
        return handle_internal_error(request);
    }
    let job = printer.new_job(data);
    let ghost last = printer.jobs@.last();
    proof {
        assert(crate::printer::job_views(printer.jobs@).last() == last@);
        assert(job_attributes_of(last, spec_all_job_attributes()) =~= job_attributes_of(
            job,
            spec_all_job_attributes(),
        ));
    }
    let mut builder = IppResponseBuilder::new(StatusCode::SuccessfulOk, request.request_id);
    builder.add_required_job_attributes(&job);
    let r = builder.build();
    assert(r@.groups =~= group_if(
        DelimiterTag::JobAttributes,
        job_attributes_of(last, spec_all_job_attributes()),
    ));
    r
}

/// Which handler answers a request.
#[derive(Clone, Copy, Debug, PartialEq, Eq, Structural)]
pub enum Route {
    GetPrinterAttributes,
    ValidateJob,
    PrintJob,
    NotSupported,
}

/// The handler for an operation code: the three implemented operations have their own, any
/// other code is not supported.
pub open spec fn spec_route(operation_code: u16) -> Route {
    if operation_code == Operation::GetPrinterAttributes.spec_code() {
        Route::GetPrinterAttributes
    } else if operation_code == Operation::ValidateJob.spec_code() {
        Route::ValidateJob
    } else if operation_code == Operation::PrintJob.spec_code() {
        Route::PrintJob
    } else {
        Route::NotSupported
    }
}

/// The handler for an operation code.
pub fn route(operation_code: u16) -> (r: Route)
    ensures
        r == spec_route(operation_code),
{
    match Operation::from_code(operation_code) {
        Some(Operation::GetPrinterAttributes) => Route::GetPrinterAttributes,
        Some(Operation::ValidateJob) => Route::ValidateJob,
        Some(Operation::PrintJob) => Route::PrintJob,
        _ => Route::NotSupported,
    }
}

/// Answers a request: routes it by its operation code and runs the handler. Only Print-Job
/// changes the printer; `data` is the document data, read only by Print-Job.
pub fn handle_ipp(printer: &mut Printer, request: &IppRequest, data: &[u8]) -> (r: IppResponse)
    requires
        old(printer).jobs@.len() <= u32::MAX,
    ensures
        spec_route(request.operation_code) != Route::PrintJob ==> *final(printer) == *old(printer),
        spec_route(request.operation_code) == Route::GetPrinterAttributes ==> r@
            == printer_attributes_response(*old(printer), *request),
        spec_route(request.operation_code) == Route::ValidateJob ==> r@ == response_of(
            StatusCode::SuccessfulOk,
            request.request_id,
            Seq::empty(),
        ),
        spec_route(request.operation_code) == Route::NotSupported ==> r@ == response_of(
            StatusCode::ServerErrorOperationNotSupported,
            request.request_id,
            Seq::empty(),
        ),
        spec_route(request.operation_code) == Route::PrintJob && old(
            printer,
        ).printer_uri_supported@.len() >= 1 && old(printer).next_job_id < u32::MAX ==> {
            &&& job_added(*old(printer), *final(printer), data@)
            &&& r@ == response_of(
                StatusCode::SuccessfulOk,
                request.request_id,
                group_if(
                    DelimiterTag::JobAttributes,
                    job_attributes_of(final(printer).jobs@.last(), spec_all_job_attributes()),
                ),
            )
        },
        spec_route(request.operation_code) == Route::PrintJob && !(old(
            printer,
        ).printer_uri_supported@.len() >= 1 && old(printer).next_job_id < u32::MAX) ==> {
            &&& *final(printer) == *old(printer)
            &&& r@ == response_of(
                StatusCode::ServerErrorInternalError,
                request.request_id,
                Seq::empty(),
            )
        },
{
    match route(request.operation_code) {
        Route::GetPrinterAttributes => handle_get_printer_attributes(printer, request),
        Route::ValidateJob => handle_validate_job(request),
        Route::PrintJob => handle_print_job(printer, request, data),
        Route::NotSupported => handle_unsupported(request),
    }
}

/// The request id of a message: bytes 4 to 7 of its header, most significant first.
pub open spec fn header_request_id(bytes: Seq<u8>) -> u32 {
    (bytes[4] as int * 0x100_0000 + bytes[5] as int * 0x1_0000 + bytes[6] as int * 0x100
        + bytes[7] as int) as u32
}

/// The answer to a message that could not be parsed: a bad-request response to the request id
/// of its header, when the message is long enough to have one; otherwise nothing, and the
/// transport reports the error.
pub fn handle_parse_error(bytes: &[u8]) -> (r: Option<IppResponse>)
    ensures
        bytes@.len() < 8 ==> r is None,
        bytes@.len() >= 8 ==> (r matches Some(resp) && resp@ == response_of(
            StatusCode::ClientErrorBadRequest,
            header_request_id(bytes@),
            Seq::empty(),
        )),
{
    if bytes.len() < 8 {
        return None;
    }
    let id: u32 = (bytes[4] as u32) * 0x100_0000 + (bytes[5] as u32) * 0x1_0000 + (bytes[6] as u32)
        * 0x100 + bytes[7] as u32;
    let builder = IppResponseBuilder::new(StatusCode::ClientErrorBadRequest, id);
    let r = builder.build();
    assert(r@.groups =~= Seq::<GroupView>::empty());
    Some(r)
}

/// Whether an HTTP request goes to the printer: a `POST` to `/ipp/print`. Any other method or
/// path is answered with 404 and never parsed.
pub fn is_ipp_endpoint(method: &str, path: &str) -> (r: bool)
    ensures
        r == (method@ == "POST"@ && path@ == "/ipp/print"@),
{
    same_text(method, "POST") && same_text(path, "/ipp/print")
}

/// Whether an HTTP header, already lower-cased, asks for a `100 Continue` answer.
pub fn expects_continue_lowercased(name: &str, value: &str) -> (r: bool)
    ensures
        r == (name@ == "expect"@ && value@ == "100-continue"@),
{
    same_text(name, "expect") && same_text(value, "100-continue")
}

/// Whether an HTTP header asks for a `100 Continue` answer; name and value are read without
/// regard to case.
pub fn expects_continue(name: &str, value: &str) -> (r: bool)
    ensures
        r == (lowercase_of(name@) == "expect"@ && lowercase_of(value@) == "100-continue"@),
{
    let name_lower = to_lowercase(name);
    let value_lower = to_lowercase(value);
    expects_continue_lowercased(name_lower.as_str(), value_lower.as_str())
}

/// Two jobs created one after the other on a well-formed printer: the second gets a larger id
/// than the first, and after both the ids of all jobs are still different from each other.
pub proof fn lemma_successive_jobs(p: Printer, q: Printer, s: Printer, d1: Seq<u8>, d2: Seq<u8>)
    requires
        p.wf(),
        job_added(p, q, d1),
        job_added(q, s, d2),
    ensures
        s.wf(),
        q.jobs@.last().id < s.jobs@.last().id,
        s.jobs@[s.jobs@.len() - 2] == q.jobs@.last(),
        forall|i: int, j: int|
            0 <= i < s.jobs@.len() && 0 <= j < s.jobs@.len() && i != j ==> s.jobs@[i].id
                != s.jobs@[j].id,
{
    assert(s.jobs@[q.jobs@.len() - 1] == q.jobs@[q.jobs@.len() - 1]);
    crate::printer::lemma_job_ids_unique(s);
}

} // verus!
