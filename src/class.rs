//! Decisions of the HID device class: which control requests are answered and
//! how, and the SET_REPORT buffer. The transfers themselves are made by the USB
//! stack around the library.
use vstd::prelude::*;

verus! {

/// Length of the buffer that keeps one SET_REPORT payload.
pub const CONTROL_BUF_LEN: usize = 128;
/// Descriptor type of the HID class descriptor.
pub const HID_DESC_DESCTYPE_HID: u8 = 0x21;
/// Descriptor type of the HID report descriptor.
pub const HID_DESC_DESCTYPE_HID_REPORT: u8 = 0x22;
/// Standard request GET_DESCRIPTOR.
pub const REQ_GET_DESCRIPTOR: u8 = 0x06;
pub const HID_REQ_GET_REPORT: u8 = 0x01;
pub const HID_REQ_GET_IDLE: u8 = 0x02;
pub const HID_REQ_SET_REPORT: u8 = 0x09;
pub const HID_REQ_SET_IDLE: u8 = 0x0a;

/// The type of a report named by a SET_REPORT request.
#[derive(Clone, Copy, Debug, PartialEq, Eq, Structural)]
pub enum ReportType {
    Input,
    Output,
    Feature,
    Reserved,
}

impl ReportType {
    pub open spec fn spec_from(rt: u8) -> ReportType {
        if rt == 1 {
            ReportType::Input
        } else if rt == 2 {
            ReportType::Output
        } else if rt == 3 {
            ReportType::Feature
        } else {
            ReportType::Reserved
        }
    }

    /// The report type with code `rt`: 1 input, 2 output, 3 feature.
    pub fn from_code(rt: u8) -> (r: ReportType)
        ensures
            r == Self::spec_from(rt),
    {
        if rt == 1 {
            ReportType::Input
        } else if rt == 2 {
            ReportType::Output
        } else if rt == 3 {
            ReportType::Feature
        } else {
            ReportType::Reserved
        }
    }
}

/// What a SET_REPORT request said of its payload.
#[derive(Clone, Copy, Debug, PartialEq, Eq, Structural)]
pub struct ReportInfo {
    pub report_type: ReportType,
    pub report_id: u8,
    pub len: usize,
}

/// A kept SET_REPORT payload.
#[derive(Debug)]
pub struct Report {
    pub info: ReportInfo,
    pub buf: Vec<u8>,
}

/// The type field of a control request.
#[derive(Clone, Copy, Debug, PartialEq, Eq, Structural)]
pub enum RequestKind {
    Standard,
    Class,
    Vendor,
    Reserved,
}

/// The recipient field of a control request.
#[derive(Clone, Copy, Debug, PartialEq, Eq, Structural)]
pub enum Recipient {
    Device,
    Interface,
    Endpoint,
    Other,
    Reserved,
}

/// The setup packet of a control request.
#[derive(Clone, Copy, Debug, PartialEq, Eq, Structural)]
pub struct ControlRequest {
    pub request_type: RequestKind,
    pub recipient: Recipient,
    pub request: u8,
    pub value: u16,
    pub index: u16,
    pub length: u16,
}

/// The answer to a device-to-host control request.
#[derive(Debug)]
pub enum InAction {
    /// Not for this interface, or not handled here.
    Ignore,
    /// Send the report descriptor.
    SendReportDescriptor,
    /// Send these bytes.
    Send(Vec<u8>),
    /// Stall the request.
    Reject,
}

/// The answer to a host-to-device control request.
#[derive(Clone, Copy, Debug, PartialEq, Eq, Structural)]
pub enum OutAction {
    Ignore,
    Accept,
    Reject,
}

/// Failures of the class operations.
#[derive(Clone, Copy, Debug, PartialEq, Eq, Structural)]
pub enum ClassError {
    /// Nothing to read yet.
    WouldBlock,
    /// The caller's buffer is too small.
    BufferOverflow,
}

/// The body of the HID class descriptor: class version 1.10, no country code,
/// one report descriptor of `report_len` bytes.
pub open spec fn spec_hid_descriptor_body(report_len: usize) -> Seq<u8> {
    seq![0x10u8, 0x01u8, 0x00u8, 1u8, 0x22u8, (report_len % 256) as u8, ((report_len / 256) % 256) as u8]
}

pub fn hid_descriptor_body(report_len: usize) -> (r: Vec<u8>)
    ensures
        r@ == spec_hid_descriptor_body(report_len),
{
    let mut v: Vec<u8> = Vec::new();
    v.push(0x10);
    v.push(0x01);
    v.push(0x00);
    v.push(1);
    v.push(HID_DESC_DESCTYPE_HID_REPORT);
    v.push((report_len % 256) as u8);
    v.push(((report_len / 256) % 256) as u8);
    assert(v@ =~= spec_hid_descriptor_body(report_len));
    v
}

/// The HID class descriptor: its length 9, its type, then its body.
pub open spec fn spec_hid_descriptor(report_len: usize) -> Seq<u8> {
    seq![9u8, HID_DESC_DESCTYPE_HID] + spec_hid_descriptor_body(report_len)
}

/// Answers a device-to-host control request for interface `if_num`: GET_DESCRIPTOR
/// of the report or the class descriptor, and a stall for GET_REPORT and GET_IDLE,
/// which are not supported.
pub fn control_in(req: &ControlRequest, if_num: u8, report_len: usize) -> (r: InAction)
    ensures
        req.index != if_num as u16 ==> r is Ignore,
        req.index == if_num as u16 && req.request_type == RequestKind::Standard && req.request
            == REQ_GET_DESCRIPTOR ==> (if req.value / 256 == HID_DESC_DESCTYPE_HID_REPORT as u16 {
            r is SendReportDescriptor
        } else if req.value / 256 == HID_DESC_DESCTYPE_HID as u16 {
            r matches InAction::Send(b) && b@ == spec_hid_descriptor(report_len)
        } else {
            r is Ignore
        }),
        req.index == if_num as u16 && req.request_type == RequestKind::Class && (req.request
            == HID_REQ_GET_REPORT || req.request == HID_REQ_GET_IDLE) ==> r is Reject,
        req.index == if_num as u16 && !(req.request_type == RequestKind::Standard && req.request
            == REQ_GET_DESCRIPTOR) && !(req.request_type == RequestKind::Class && (req.request
            == HID_REQ_GET_REPORT || req.request == HID_REQ_GET_IDLE)) ==> r is Ignore,
{
    if req.index != if_num as u16 {
        return InAction::Ignore;
    }
    if req.request_type == RequestKind::Standard && req.request == REQ_GET_DESCRIPTOR {
        let t = req.value / 256;
        if t == HID_DESC_DESCTYPE_HID_REPORT as u16 {
            InAction::SendReportDescriptor
        } else if t == HID_DESC_DESCTYPE_HID as u16 {
            let mut b: Vec<u8> = Vec::new();
            b.push(9);
            b.push(HID_DESC_DESCTYPE_HID);
            let mut body = hid_descriptor_body(report_len);
            b.append(&mut body);
            assert(b@ =~= spec_hid_descriptor(report_len));
            InAction::Send(b)
        } else {
            InAction::Ignore
        }
    } else if req.request_type == RequestKind::Class && (req.request == HID_REQ_GET_REPORT
        || req.request == HID_REQ_GET_IDLE) {
        InAction::Reject
    } else {
        InAction::Ignore
    }
}

/// Answers a host-to-device control request for interface `if_num`, whose data
/// stage is `data`. SET_IDLE is accepted. SET_REPORT keeps its payload, replacing
/// any kept one, or is rejected and clears it where the payload exceeds
/// `CONTROL_BUF_LEN`. Other requests to the interface are rejected.
pub fn control_out(stored: &mut Option<Report>, req: &ControlRequest, if_num: u8, data: &[u8]) -> (r: OutAction)
    requires
        req.request == HID_REQ_SET_REPORT && req.length as usize <= CONTROL_BUF_LEN ==> req.length
            <= data@.len(),
    ensures
        !(req.recipient == Recipient::Interface && req.index == if_num as u16) ==> r is Ignore
            && *final(stored) == *old(stored),
        req.recipient == Recipient::Interface && req.index == if_num as u16 ==> {
            if req.request == HID_REQ_SET_IDLE {
                r is Accept && *final(stored) == *old(stored)
            } else if req.request == HID_REQ_SET_REPORT {
                if req.length as usize > CONTROL_BUF_LEN {
                    r is Reject && *final(stored) is None
                } else {
                    r is Accept && (*final(stored) matches Some(rep) && rep.info == (ReportInfo {
                        report_type: ReportType::spec_from((req.value / 256) as u8),
                        report_id: (req.value % 256) as u8,
                        len: req.length as usize,
                    }) && rep.buf@ == data@.subrange(0, req.length as int))
                }
            } else {
                r is Reject && *final(stored) == *old(stored)
            }
        },
{
    if !(req.recipient == Recipient::Interface && req.index == if_num as u16) {
        return OutAction::Ignore;
    }
    if req.request == HID_REQ_SET_IDLE {
        OutAction::Accept
    } else if req.request == HID_REQ_SET_REPORT {
        let len = req.length as usize;
        if len > CONTROL_BUF_LEN {
            *stored = None;
            OutAction::Reject
        } else {
            let mut buf: Vec<u8> = Vec::new();
            let mut i: usize = 0;
            while i < len
                invariant
                    i <= len,
                    len <= data@.len(),
                    buf@ == data@.subrange(0, i as int),
                decreases len - i,
            {
                buf.push(data[i]);
                assert(buf@ =~= data@.subrange(0, i + 1));
                i = i + 1;
            }
            let info = ReportInfo {
                report_type: ReportType::from_code((req.value / 256) as u8),
                report_id: (req.value % 256) as u8,
                len,
            };
            *stored = Some(Report { info, buf });
            OutAction::Accept
        }
    } else {
        OutAction::Reject
    }
}

/// Takes the kept SET_REPORT payload for a caller whose buffer holds
/// `capacity` bytes: `WouldBlock` where none is kept, `BufferOverflow` (keeping
/// it) where it does not fit, else its description and bytes, and it is no
/// longer kept.
pub fn pull_raw_report(stored: &mut Option<Report>, capacity: usize) -> (r: Result<(ReportInfo, Vec<u8>), ClassError>)
    ensures
        match *old(stored) {
            None => r == Err::<(ReportInfo, Vec<u8>), ClassError>(ClassError::WouldBlock) && *final(stored) is None,
            Some(rep) => if capacity < rep.info.len {
                r == Err::<(ReportInfo, Vec<u8>), ClassError>(ClassError::BufferOverflow) && *final(stored) == *old(stored)
            } else {
                r matches Ok((info, b)) && info == rep.info && b@ == rep.buf@ && *final(stored) is None
            },
        },
{
    match stored.take() {
        None => Err(ClassError::WouldBlock),
        Some(rep) => {
            if capacity < rep.info.len {
                *stored = Some(rep);
                Err(ClassError::BufferOverflow)
            } else {
                Ok((rep.info, rep.buf))
            }
        },
    }
}

} // verus!
