use vstd::prelude::*;

use crate::kinds::IppVersion;
use crate::value::{Attribute, AttributeView};

verus! {

/// The tag that opens a group of attributes in a message.
#[derive(Clone, Copy, Debug, PartialEq, Eq, Structural)]
pub enum DelimiterTag {
    OperationAttributes,
    JobAttributes,
    EndOfAttributes,
    PrinterAttributes,
    UnsupportedAttributes,
}

impl DelimiterTag {
    pub open spec fn spec_code(self) -> u8 {
        match self {
            DelimiterTag::OperationAttributes => 0x01,
            DelimiterTag::JobAttributes => 0x02,
            DelimiterTag::EndOfAttributes => 0x03,
            DelimiterTag::PrinterAttributes => 0x04,
            DelimiterTag::UnsupportedAttributes => 0x05,
        }
    }

    /// The tag's byte on the wire.
    pub fn code(&self) -> (r: u8)
        ensures
            r == self.spec_code(),
    {
        match self {
            DelimiterTag::OperationAttributes => 0x01,
            DelimiterTag::JobAttributes => 0x02,
            DelimiterTag::EndOfAttributes => 0x03,
            DelimiterTag::PrinterAttributes => 0x04,
            DelimiterTag::UnsupportedAttributes => 0x05,
        }
    }

    /// Where a group with this tag stands in a response: operation attributes first, then
    /// unsupported attributes, printer attributes and job attributes.
    pub open spec fn rank(self) -> int {
        match self {
            DelimiterTag::OperationAttributes => 0,
            DelimiterTag::UnsupportedAttributes => 1,
            DelimiterTag::PrinterAttributes => 2,
            DelimiterTag::JobAttributes => 3,
            DelimiterTag::EndOfAttributes => 4,
        }
    }
}

/// The status that a response reports.
#[derive(Clone, Copy, Debug, PartialEq, Eq, Structural)]
pub enum StatusCode {
    SuccessfulOk,
    ClientErrorBadRequest,
    ServerErrorInternalError,
    ServerErrorOperationNotSupported,
}

impl StatusCode {
    pub open spec fn spec_code(self) -> u16 {
        match self {
            StatusCode::SuccessfulOk => 0x0000,
            StatusCode::ClientErrorBadRequest => 0x0400,
            StatusCode::ServerErrorInternalError => 0x0500,
            StatusCode::ServerErrorOperationNotSupported => 0x0501,
        }
    }

    /// The status's registered code.
    pub fn code(&self) -> (r: u16)
        ensures
            r == self.spec_code(),
    {
        match self {
            StatusCode::SuccessfulOk => 0x0000,
            StatusCode::ClientErrorBadRequest => 0x0400,
            StatusCode::ServerErrorInternalError => 0x0500,
            StatusCode::ServerErrorOperationNotSupported => 0x0501,
        }
    }
}

/// The views of a list of attributes, in order.
pub open spec fn attribute_views(attributes: Seq<Attribute>) -> Seq<AttributeView> {
    attributes.map_values(|a: Attribute| a@)
}

/// A group of attributes under one delimiter tag, in order.
#[derive(Debug, PartialEq, Eq)]
pub struct AttributeGroup {
    pub tag: DelimiterTag,
    pub attributes: Vec<Attribute>,
}

pub struct GroupView {
    pub tag: DelimiterTag,
    pub attributes: Seq<AttributeView>,
}

impl View for AttributeGroup {
    type V = GroupView;

    open spec fn view(&self) -> GroupView {
        GroupView { tag: self.tag, attributes: attribute_views(self.attributes@) }
    }
}

/// The views of a list of groups, in order.
pub open spec fn group_views(groups: Seq<AttributeGroup>) -> Seq<GroupView> {
    groups.map_values(|g: AttributeGroup| g@)
}

/// A request as the wire codec parsed it, without its document data.
#[derive(Debug)]
pub struct IppRequest {
    /// Major and minor version number.
    pub version: (u8, u8),
    pub operation_code: u16,
    pub request_id: u32,
    pub groups: Vec<AttributeGroup>,
}

/// A response, for the wire codec to write.
#[derive(Debug, PartialEq, Eq)]
pub struct IppResponse {
    pub version: IppVersion,
    pub status: StatusCode,
    pub request_id: u32,
    pub groups: Vec<AttributeGroup>,
}

pub struct ResponseView {
    pub version: IppVersion,
    pub status: StatusCode,
    pub request_id: u32,
    pub groups: Seq<GroupView>,
}

impl View for IppResponse {
    type V = ResponseView;

    open spec fn view(&self) -> ResponseView {
        ResponseView {
            version: self.version,
            status: self.status,
            request_id: self.request_id,
            groups: group_views(self.groups@),
        }
    }
}

/// A copy of a list of attributes.
pub fn copy_attributes(attributes: &Vec<Attribute>) -> (r: Vec<Attribute>)
    ensures
        attribute_views(r@) == attribute_views(attributes@),
{
    let mut out: Vec<Attribute> = Vec::new();
    let mut i: usize = 0;
    while i < attributes.len()
        invariant
            i <= attributes@.len(),
            out@.len() == i,
            attribute_views(out@) == attribute_views(attributes@.subrange(0, i as int)),
        decreases attributes@.len() - i,
    {
        let a = attributes[i].clone();
        let ghost before = out@;
        out.push(a);
        proof {
            let ghost next = attributes@.subrange(0, i + 1);
            assert(out@ == before.push(a));
            assert(attribute_views(out@)[i as int] == a@);
            assert forall|k: int| 0 <= k < i + 1 implies #[trigger] attribute_views(out@)[k]
                == attribute_views(next)[k] by {
                if k < i {
                    assert(out@[k] == before[k]);
                    assert(attribute_views(before)[k] == attribute_views(
                        attributes@.subrange(0, i as int),
                    )[k]);
                }
            }
            assert(attribute_views(out@) =~= attribute_views(next));
        }
        i = i + 1;
    }
    assert(attributes@.subrange(0, i as int) =~= attributes@);
    out
}

} // verus!
