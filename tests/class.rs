use usbd_hid::{
    control_in, control_out, gen_hid_descriptor, group_by, hid_descriptor_body, map_group_by,
    pull_raw_report, split, ClassError, ControlRequest, FieldDecl, FieldType, InAction,
    MainItemKind, OutAction, Recipient, ReportType, RequestKind,
};

fn scalar(name: &str, ty: &str) -> FieldDecl {
    FieldDecl { name: name.as_bytes().to_vec(), ty: FieldType::Path(ty.as_bytes().to_vec()) }
}

fn request(request_type: RequestKind, request: u8, value: u16, index: u16, length: u16) -> ControlRequest {
    ControlRequest { request_type, recipient: Recipient::Interface, request, value, index, length }
}

#[test]
fn split_groups_by_direction_and_report() {
    let decls = vec![scalar("a", "u8"), scalar("b", "u8"), scalar("c", "u8"), scalar("d", "u8")];
    let (_, fields) = gen_hid_descriptor(
        b"(report_id = 2,) = { c=input; a=output }, (report_id = 1,) = { b=input }, d=input",
        &decls,
    )
    .unwrap();
    let input = split(&decls, &fields, MainItemKind::Input).unwrap();
    assert_eq!(input, vec![(Some(1), vec![1]), (Some(2), vec![2]), (None, vec![3])]);
    let output = map_group_by(&decls, &fields, MainItemKind::Output);
    assert_eq!(output, vec![(Some(2), vec![0])]);
    assert_eq!(split(&decls, &fields, MainItemKind::Feature), None);
}

#[test]
fn group_by_keeps_first_appearance_order() {
    let g = group_by(vec![(Some(3), 'x'), (None, 'y'), (Some(3), 'z'), (Some(1), 'w')]);
    assert_eq!(g, vec![(Some(3), vec!['x', 'z']), (None, vec!['y']), (Some(1), vec!['w'])]);
}

#[test]
fn class_descriptor_bytes() {
    assert_eq!(hid_descriptor_body(0x0134), vec![0x10, 0x01, 0x00, 1, 0x22, 0x34, 0x01]);
    match control_in(&request(RequestKind::Standard, 6, 0x2100, 0, 0), 0, 63) {
        InAction::Send(b) => assert_eq!(b, vec![9, 0x21, 0x10, 0x01, 0x00, 1, 0x22, 63, 0]),
        other => panic!("unexpected {:?}", other),
    }
    assert!(matches!(control_in(&request(RequestKind::Standard, 6, 0x2200, 0, 0), 0, 63), InAction::SendReportDescriptor));
    assert!(matches!(control_in(&request(RequestKind::Standard, 6, 0x2200, 1, 0), 0, 63), InAction::Ignore));
    assert!(matches!(control_in(&request(RequestKind::Class, 1, 0, 0, 0), 0, 63), InAction::Reject));
    assert!(matches!(control_in(&request(RequestKind::Class, 2, 0, 0, 0), 0, 63), InAction::Reject));
}

#[test]
fn set_report_is_kept_until_pulled() {
    let mut stored = None;
    let data = [1u8, 2, 3, 4];
    let r = control_out(&mut stored, &request(RequestKind::Class, 0x09, 0x0205, 0, 3), 0, &data);
    assert_eq!(r, OutAction::Accept);
    assert_eq!(pull_raw_report(&mut stored, 2).unwrap_err(), ClassError::BufferOverflow);
    let (info, bytes) = pull_raw_report(&mut stored, 8).unwrap();
    assert_eq!(info.report_type, ReportType::Output);
    assert_eq!(info.report_id, 5);
    assert_eq!(info.len, 3);
    assert_eq!(bytes, vec![1, 2, 3]);
    assert_eq!(pull_raw_report(&mut stored, 8).unwrap_err(), ClassError::WouldBlock);
    let r = control_out(&mut stored, &request(RequestKind::Class, 0x09, 0x0205, 0, 200), 0, &data);
    assert_eq!(r, OutAction::Reject);
    assert!(stored.is_none());
    assert_eq!(control_out(&mut stored, &request(RequestKind::Class, 0x0a, 0, 0, 0), 0, &[]), OutAction::Accept);
    assert_eq!(control_out(&mut stored, &request(RequestKind::Class, 0x03, 0, 0, 0), 0, &[]), OutAction::Reject);
    assert_eq!(control_out(&mut stored, &request(RequestKind::Class, 0x0a, 0, 4, 0), 0, &[]), OutAction::Ignore);
}
