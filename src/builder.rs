use vstd::prelude::*;

use crate::attributes::{
    all_job_attributes, all_printer_attributes, spec_all_job_attributes,
    spec_all_printer_attributes, JobAttribute, PrinterAttribute,
};
use crate::catalog::{job_attribute, printer_attribute};
use crate::job::Job;
use crate::kinds::IppVersion;
use crate::message::{
    attribute_views, copy_attributes, group_views, AttributeGroup, DelimiterTag, GroupView,
    IppResponse, StatusCode,
};
use crate::printer::Printer;
use crate::value::{Attribute, AttributeView};

verus! {

/// Gathers the attributes of a response, group by group, and puts the response together.
pub struct IppResponseBuilder {
    version: IppVersion,
    status: StatusCode,
    request_id: u32,
    operation_attributes: Vec<Attribute>,
    unsupported_attributes: Vec<Attribute>,
    printer_attributes: Vec<Attribute>,
    job_attributes: Vec<Attribute>,
}

/// What a builder has gathered so far.
pub struct BuilderView {
    pub version: IppVersion,
    pub status: StatusCode,
    pub request_id: u32,
    pub operation: Seq<AttributeView>,
    pub unsupported: Seq<AttributeView>,
    pub printer: Seq<AttributeView>,
    pub job: Seq<AttributeView>,
}

impl BuilderView {
    /// The builder after `a` was added at the end of the group tagged `tag`.
    pub open spec fn added(self, tag: DelimiterTag, a: AttributeView) -> BuilderView {
        match tag {
            DelimiterTag::OperationAttributes => BuilderView {
                operation: self.operation.push(a),
                ..self
            },
            DelimiterTag::UnsupportedAttributes => BuilderView {
                unsupported: self.unsupported.push(a),
                ..self
            },
            DelimiterTag::PrinterAttributes => BuilderView { printer: self.printer.push(a), ..self },
            DelimiterTag::JobAttributes => BuilderView { job: self.job.push(a), ..self },
            DelimiterTag::EndOfAttributes => self,
        }
    }

    /// The groups of the response, in the order the protocol fixes: operation, unsupported,
    /// printer, job; a group with no attribute is left out.
    pub open spec fn groups(self) -> Seq<GroupView> {
        group_if(DelimiterTag::OperationAttributes, self.operation) + group_if(
            DelimiterTag::UnsupportedAttributes,
            self.unsupported,
        ) + group_if(DelimiterTag::PrinterAttributes, self.printer) + group_if(
            DelimiterTag::JobAttributes,
            self.job,
        )
    }
}

/// A group with these attributes, or nothing if there are none.
pub open spec fn group_if(tag: DelimiterTag, attributes: Seq<AttributeView>) -> Seq<GroupView> {
    if attributes.len() == 0 {
        Seq::empty()
    } else {
        seq![GroupView { tag, attributes }]
    }
}

/// The printer attributes `attrs` of the printer `p`, in order.
pub open spec fn printer_attributes_of(p: Printer, attrs: Seq<PrinterAttribute>) -> Seq<
    AttributeView,
> {
    attrs.map_values(|a: PrinterAttribute| printer_attribute(p, a))
}

/// The job attributes `attrs` of the job `j`, in order.
pub open spec fn job_attributes_of(j: Job, attrs: Seq<JobAttribute>) -> Seq<AttributeView> {
    attrs.map_values(|a: JobAttribute| job_attribute(j, a))
}

impl View for IppResponseBuilder {
    type V = BuilderView;

    closed spec fn view(&self) -> BuilderView {
        BuilderView {
            version: self.version,
            status: self.status,
            request_id: self.request_id,
            operation: attribute_views(self.operation_attributes@),
            unsupported: attribute_views(self.unsupported_attributes@),
            printer: attribute_views(self.printer_attributes@),
            job: attribute_views(self.job_attributes@),
        }
    }
}

proof fn lemma_push_view(attributes: Seq<Attribute>, a: Attribute)
    ensures
        attribute_views(attributes.push(a)) == attribute_views(attributes).push(a@),
{
    assert(attribute_views(attributes.push(a)) =~= attribute_views(attributes).push(a@));
}

impl IppResponseBuilder {
    /// A builder for a version 1.1 response with this status and request id, and no attributes.
    pub fn new(status: StatusCode, request_id: u32) -> (r: IppResponseBuilder)
        ensures
            r@ == (BuilderView {
                version: IppVersion::V1_1,
                status,
                request_id,
                operation: Seq::empty(),
                unsupported: Seq::empty(),
                printer: Seq::empty(),
                job: Seq::empty(),
            }),
    {
        let r = IppResponseBuilder {
            version: IppVersion::V1_1,
            status,
            request_id,
            operation_attributes: Vec::new(),
            unsupported_attributes: Vec::new(),
            printer_attributes: Vec::new(),
            job_attributes: Vec::new(),
        };
        assert(r@.operation =~= Seq::empty());
        assert(r@.unsupported =~= Seq::empty());
        assert(r@.printer =~= Seq::empty());
        assert(r@.job =~= Seq::empty());
        r
    }

    pub fn add_operation_attribute(&mut self, attribute: Attribute)
        ensures
            final(self)@ == old(self)@.added(DelimiterTag::OperationAttributes, attribute@),
    {
        proof {
            lemma_push_view(self.operation_attributes@, attribute);
        }
        self.operation_attributes.push(attribute);
    }

    pub fn add_unsupported_attribute(&mut self, attribute: Attribute)
        ensures
            final(self)@ == old(self)@.added(DelimiterTag::UnsupportedAttributes, attribute@),
    {
        proof {
            lemma_push_view(self.unsupported_attributes@, attribute);
        }
        self.unsupported_attributes.push(attribute);
    }

    /// Adds the attribute `attr` of `printer` to the printer group.
    pub fn add_printer_attribute(&mut self, printer: &Printer, attr: PrinterAttribute)
        requires
            printer.jobs@.len() <= u32::MAX,
        ensures
            final(self)@ == old(self)@.added(
                DelimiterTag::PrinterAttributes,
                printer_attribute(*printer, attr),
            ),
    {
        let attribute = printer.resolve(attr);
        proof {
            lemma_push_view(self.printer_attributes@, attribute);
        }
        self.printer_attributes.push(attribute);
    }

    /// Adds the attribute `attr` of `job` to the job group.
    pub fn add_job_attribute(&mut self, job: &Job, attr: JobAttribute)
        ensures
            final(self)@ == old(self)@.added(DelimiterTag::JobAttributes, job_attribute(*job, attr)),
    {
        let attribute = job.resolve(attr);
        proof {
            lemma_push_view(self.job_attributes@, attribute);
        }
        self.job_attributes.push(attribute);
    }

    /// Adds every printer attribute of `printer` to the printer group, in the catalog's order.
    pub fn add_required_printer_attributes(&mut self, printer: &Printer)
        requires
            printer.jobs@.len() <= u32::MAX,
        ensures
            final(self)@ == (BuilderView {
                printer: old(self)@.printer + printer_attributes_of(
                    *printer,
                    spec_all_printer_attributes(),
                ),
                ..old(self)@
            }),
    {
        let all = all_printer_attributes();
        self.add_printer_attributes(printer, &all);
    }

    /// Adds the printer attributes `attrs` of `printer` to the printer group, in order.
    pub fn add_printer_attributes(&mut self, printer: &Printer, attrs: &Vec<PrinterAttribute>)
        requires
            printer.jobs@.len() <= u32::MAX,
        ensures
            final(self)@ == (BuilderView {
                printer: old(self)@.printer + printer_attributes_of(*printer, attrs@),
                ..old(self)@
            }),
    {
        let ghost start = self@;
        let mut i: usize = 0;
        while i < attrs.len()
            invariant
                i <= attrs@.len(),
                printer.jobs@.len() <= u32::MAX,
                self@ == (BuilderView {
                    printer: start.printer + printer_attributes_of(
                        *printer,
                        attrs@.subrange(0, i as int),
                    ),
                    ..start
                }),
            decreases attrs@.len() - i,
        {
            self.add_printer_attribute(printer, attrs[i]);
            proof {
                assert(printer_attributes_of(*printer, attrs@.subrange(0, i + 1))
                    =~= printer_attributes_of(*printer, attrs@.subrange(0, i as int)).push(
                    printer_attribute(*printer, attrs@[i as int]),
                ));
                assert(self@.printer =~= start.printer + printer_attributes_of(
                    *printer,
                    attrs@.subrange(0, i + 1),
                ));
            }
            i = i + 1;
        }
        assert(attrs@.subrange(0, i as int) =~= attrs@);
    }

    /// Adds every job attribute of `job` to the job group, in the catalog's order.
    pub fn add_required_job_attributes(&mut self, job: &Job)
        ensures
            final(self)@ == (BuilderView {
                job: old(self)@.job + job_attributes_of(*job, spec_all_job_attributes()),
                ..old(self)@
            }),
    {
        let attrs = all_job_attributes();
        let ghost start = self@;
        let mut i: usize = 0;
        while i < attrs.len()
            invariant
                i <= attrs@.len(),
                attrs@ == spec_all_job_attributes(),
                self@ == (BuilderView {
                    job: start.job + job_attributes_of(*job, attrs@.subrange(0, i as int)),
                    ..start
                }),
            decreases attrs@.len() - i,
        {
            self.add_job_attribute(job, attrs[i]);
            proof {
                assert(job_attributes_of(*job, attrs@.subrange(0, i + 1)) =~= job_attributes_of(
                    *job,
                    attrs@.subrange(0, i as int),
                ).push(job_attribute(*job, attrs@[i as int])));
                assert(self@.job =~= start.job + job_attributes_of(
                    *job,
                    attrs@.subrange(0, i + 1),
                ));
            }
            i = i + 1;
        }
        assert(attrs@.subrange(0, i as int) =~= attrs@);
    }

    /// The response: the builder's version, status and request id, and its groups in the
    /// protocol's order, whatever the order in which attributes were added.
    pub fn build(&self) -> (r: IppResponse)
        ensures
            r@.version == self@.version,
            r@.status == self@.status,
            r@.request_id == self@.request_id,
            r@.groups == self@.groups(),
            forall|i: int, j: int|
                0 <= i < j < r@.groups.len() ==> (#[trigger] r@.groups[i]).tag.rank()
                    < (#[trigger] r@.groups[j]).tag.rank(),
    {
        let mut groups: Vec<AttributeGroup> = Vec::new();
        let ghost b = self@;
        push_group(&mut groups, DelimiterTag::OperationAttributes, &self.operation_attributes);
        push_group(&mut groups, DelimiterTag::UnsupportedAttributes, &self.unsupported_attributes);
        push_group(&mut groups, DelimiterTag::PrinterAttributes, &self.printer_attributes);
        push_group(&mut groups, DelimiterTag::JobAttributes, &self.job_attributes);
        let r = IppResponse {
            version: self.version,
            status: self.status,
            request_id: self.request_id,
            groups,
        };
        proof {
            assert(group_views(groups@) =~= b.groups());
            lemma_groups_in_order(b);
        }
        r
    }
}

/// Appends a group with a copy of `attributes` under `tag`, unless there are none.
fn push_group(groups: &mut Vec<AttributeGroup>, tag: DelimiterTag, attributes: &Vec<Attribute>)
    ensures
        group_views(final(groups)@) == group_views(old(groups)@) + group_if(
            tag,
            attribute_views(attributes@),
        ),
{
    if attributes.len() > 0 {
        let group = AttributeGroup { tag, attributes: copy_attributes(attributes) };
        let ghost before = groups@;
        groups.push(group);
        assert(group_views(groups@) =~= group_views(before) + group_if(
            tag,
            attribute_views(attributes@),
        ));
    } else {
        assert(group_views(groups@) =~= group_views(groups@) + group_if(
            tag,
            attribute_views(attributes@),
        ));
    }
}

/// In every response a builder makes, the groups stand in the protocol's order: operation
/// attributes, unsupported attributes, printer attributes, job attributes.
pub proof fn lemma_groups_in_order(b: BuilderView)
    ensures
        forall|i: int, j: int|
            0 <= i < j < b.groups().len() ==> (#[trigger] b.groups()[i]).tag.rank()
                < (#[trigger] b.groups()[j]).tag.rank(),
{
    let g0 = group_if(DelimiterTag::OperationAttributes, b.operation);
    let g1 = group_if(DelimiterTag::UnsupportedAttributes, b.unsupported);
    let g2 = group_if(DelimiterTag::PrinterAttributes, b.printer);
    let g3 = group_if(DelimiterTag::JobAttributes, b.job);
    let all = b.groups();
    assert(all == g0 + g1 + g2 + g3);
    assert forall|i: int| 0 <= i < all.len() implies (#[trigger] all[i]).tag.rank() == (if i
        < g0.len() {
        0int
    } else if i < g0.len() + g1.len() {
        1
    } else if i < g0.len() + g1.len() + g2.len() {
        2
    } else {
        3
    }) by {}
}

/// Adding attributes to two different groups gives the same response in either order: only the
/// order within a group is kept.
pub proof fn lemma_adders_commute(
    b: BuilderView,
    t1: DelimiterTag,
    a1: AttributeView,
    t2: DelimiterTag,
    a2: AttributeView,
)
    requires
        t1 != t2,
    ensures
        b.added(t1, a1).added(t2, a2) == b.added(t2, a2).added(t1, a1),
        b.added(t1, a1).added(t2, a2).groups() == b.added(t2, a2).added(t1, a1).groups(),
{
}

} // verus!
