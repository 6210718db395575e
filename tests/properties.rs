use usbd_hid::{MediaKeyboardReport, MouseReport, SerializedDescriptor, SystemControlReport};
use usbd_hid::{
    analyze_field, emit_item, gen_hid_descriptor, gen_serializer, tokenize, try_resolve_constant,
    uses_report_ids, CompileError, FieldDecl, FieldError, FieldType, GroupSpec, ItemQuirks,
    ItemSpec, ItemType, KeyboardReport, KeyboardUsage, MainItem, MainItemKind, MainItemSetting,
    MediaKey, ParseError, ReportUnaryField, SerializeError, Spec, StepShape, SystemControlKey,
    Token,
};

fn scalar(name: &str, ty: &str) -> FieldDecl {
    FieldDecl { name: name.as_bytes().to_vec(), ty: FieldType::Path(ty.as_bytes().to_vec()) }
}

fn array(name: &str, ty: &str, n: usize) -> FieldDecl {
    FieldDecl {
        name: name.as_bytes().to_vec(),
        ty: FieldType::Array(Box::new(FieldType::Path(ty.as_bytes().to_vec())), n),
    }
}

fn plain(kind: MainItemKind, want_bits: Option<u16>) -> ItemSpec {
    ItemSpec { kind, quirks: ItemQuirks { allow_short_form: false }, settings: None, want_bits }
}

fn encode(typ: ItemType, tag: u8, v: i64, signed: bool) -> Vec<u8> {
    let mut out = Vec::new();
    emit_item(&mut out, typ, tag, v, signed, false);
    out
}

fn compile(text: &str, fields: Vec<FieldDecl>) -> Result<(Vec<u8>, Vec<ReportUnaryField>), CompileError> {
    gen_hid_descriptor(text.as_bytes(), &fields)
}

fn range(ty: &str) -> (i64, i64) {
    let f = analyze_field(&scalar("f", ty), &plain(MainItemKind::Input, None)).unwrap();
    (f.descriptor_item.logical_minimum, f.descriptor_item.logical_maximum)
}

#[test]
fn unsigned_fields_range_from_zero() {
    assert_eq!(range("u8"), (0, 255));
    assert_eq!(range("u16"), (0, 65535));
    assert_eq!(range("u32"), (0, 4294967295));
}

#[test]
fn signed_fields_have_symmetric_range() {
    assert_eq!(range("i8"), (-127, 127));
    assert_eq!(range("i16"), (-32767, 32767));
    assert_eq!(range("i32"), (-2147483647, 2147483647));
}

#[test]
fn packed_bits_pad_only_the_remainder() {
    let exact = analyze_field(&scalar("f", "u8"), &plain(MainItemKind::Input, Some(8))).unwrap();
    assert_eq!(exact.descriptor_item.padding_bits, None);
    assert_eq!(exact.descriptor_item.report_size, 1);
    assert_eq!(exact.descriptor_item.report_count, 8);
    let short = analyze_field(&scalar("f", "u16"), &plain(MainItemKind::Input, Some(9))).unwrap();
    assert_eq!(short.descriptor_item.padding_bits, Some(7));
    let arr = analyze_field(&array("f", "u8", 3), &plain(MainItemKind::Input, Some(20))).unwrap();
    assert_eq!(arr.descriptor_item.padding_bits, Some(4));
    assert_eq!(arr.bit_width, 8);
}

#[test]
fn packed_bits_scenario_pads_with_a_constant_item() {
    let (bytes, _) = compile("#[packed_bits 3] f=input", vec![scalar("f", "u8")]).unwrap();
    assert_eq!(bytes, vec![0x15, 0, 0x25, 1, 0x75, 1, 0x95, 3, 0x81, 2, 0x95, 5, 0x81, 3]);
}

#[test]
fn unchanged_globals_are_not_repeated() {
    let (bytes, _) = compile("a=input, b=input", vec![scalar("a", "u8"), scalar("b", "u8")]).unwrap();
    assert_eq!(bytes, vec![0x15, 0, 0x26, 0xFF, 0, 0x75, 8, 0x95, 1, 0x81, 2, 0x81, 2]);
    let (bytes, _) = compile("a=input, b=input", vec![scalar("a", "u8"), array("b", "u8", 4)]).unwrap();
    assert_eq!(bytes, vec![0x15, 0, 0x26, 0xFF, 0, 0x75, 8, 0x95, 1, 0x81, 2, 0x95, 4, 0x81, 2]);
}

#[test]
fn short_encoding_of_small_values() {
    assert_eq!(encode(ItemType::Global, 1, 0, true), vec![0x15, 0]);
    assert_eq!(encode(ItemType::Global, 1, 255, false), vec![0x15, 255]);
    assert_eq!(encode(ItemType::Global, 1, 255, true), vec![0x16, 255, 0]);
    assert_eq!(encode(ItemType::Global, 2, 65535, true), vec![0x27, 255, 255, 0, 0]);
    assert_eq!(encode(ItemType::Global, 2, 65535, false), vec![0x26, 255, 255]);
    assert_eq!(encode(ItemType::Global, 0, 0x12345678, false), vec![0x07, 0x78, 0x56, 0x34, 0x12]);
    assert_eq!(encode(ItemType::Global, 1, -127, true), vec![0x17, 0x81, 0xFF, 0xFF, 0xFF]);
}

#[test]
fn zero_length_input_needs_the_quirk() {
    let (bytes, _) = compile(
        "#[quirks allow_short] #[item_settings data,array,absolute] f=input",
        vec![scalar("f", "u8")],
    )
    .unwrap();
    assert_eq!(bytes, vec![0x15, 0, 0x26, 0xFF, 0, 0x75, 8, 0x95, 1, 0x80]);
    let (bytes, _) = compile("#[item_settings data,array,absolute] f=input", vec![scalar("f", "u8")]).unwrap();
    assert_eq!(bytes, vec![0x15, 0, 0x26, 0xFF, 0, 0x75, 8, 0x95, 1, 0x81, 0]);
}

#[test]
fn report_ids_are_recorded_with_fields() {
    let (bytes, fields) = compile(
        "(report_id = 1,) = { a=input }, (report_id = 2,) = { b=output }",
        vec![scalar("a", "u8"), scalar("b", "u8")],
    )
    .unwrap();
    assert_eq!(bytes[0..2], [0x85, 1]);
    assert_eq!(fields.len(), 2);
    assert_eq!(fields[0].report_id, Some(1));
    assert_eq!(fields[1].report_id, Some(2));
    assert_eq!(fields[1].descriptor_item.kind, MainItemKind::Output);
}

#[test]
fn parse_errors() {
    let f = || vec![scalar("a", "u8")];
    assert!(matches!(compile("   ", f()), Err(CompileError::Parse(ParseError::EmptySpec))));
    assert!(matches!(compile("(colour = 1,) = { a=input }", f()), Err(CompileError::Parse(ParseError::UnknownGroupKey))));
    assert!(matches!(compile("(usage = NOPE,) = { a=input }", f()), Err(CompileError::Parse(ParseError::UnknownConstant))));
    assert!(matches!(compile("(usage = 1,) = { a=input", f()), Err(CompileError::Parse(ParseError::Malformed))));
    assert!(matches!(compile("a=input $", f()), Err(CompileError::Parse(ParseError::Malformed))));
    assert!(matches!(compile("() = { a=input }", f()), Err(CompileError::Parse(ParseError::Malformed))));
}

#[test]
fn field_errors() {
    let check = |ty: FieldDecl, text: &str, want: FieldError| match compile(text, vec![ty]) {
        Err(CompileError::Field(name, e)) => {
            assert_eq!(name, b"a".to_vec());
            assert_eq!(e, want);
        },
        other => panic!("unexpected {:?}", other),
    };
    check(scalar("a", "f32"), "a=input", FieldError::UnsupportedType);
    check(FieldDecl { name: b"a".to_vec(), ty: FieldType::Other }, "a=input", FieldError::UnsupportedType);
    check(array("a", "u8", 0), "a=input", FieldError::InvalidArrayLength);
    check(scalar("a", "u64"), "a=input", FieldError::WidthTooLarge);
    check(scalar("a", "u8"), "#[packed_bits 9] a=input", FieldError::InsufficientBits);
    check(scalar("b", "u8"), "a=input", FieldError::UnknownField);
}

#[test]
fn serializer_plan() {
    let (_, fields) = compile(
        "#[packed_bits 3] a=input, b=input, c=output, d=input, e=input",
        vec![scalar("a", "u8"), scalar("b", "i16"), scalar("c", "u8"), array("d", "u8", 4), array("e", "u8", 40)],
    )
    .unwrap();
    let steps = gen_serializer(&fields, MainItemKind::Input).unwrap();
    assert_eq!(steps.len(), 3);
    assert_eq!(steps[0].field, b"a".to_vec());
    assert_eq!(steps[0].shape, StepShape::Whole);
    assert_eq!(steps[1].shape, StepShape::Scalar(16, true));
    assert_eq!(steps[2].field, b"d".to_vec());
    let (_, fields) = compile("a=input", vec![array("a", "u16", 2)]).unwrap();
    assert!(matches!(gen_serializer(&fields, MainItemKind::Input), Err(SerializeError::UnsupportedArrayWidth(_))));
    let odd = ReportUnaryField {
        bit_width: 8,
        descriptor_item: MainItem {
            kind: MainItemKind::Input,
            logical_minimum: 0,
            logical_maximum: 15,
            report_count: 1,
            report_size: 4,
            padding_bits: None,
        },
        ident: b"x".to_vec(),
        report_id: None,
    };
    assert!(matches!(gen_serializer(&vec![odd], MainItemKind::Input), Err(SerializeError::UnsupportedReportSize(_))));
}

#[test]
fn report_id_detection() {
    let g = GroupSpec::parse(b"(usage = 1,) = { (report_id = 3,) = { a=input }; }").unwrap();
    assert!(uses_report_ids(&Spec::Collection(g)));
    let g = GroupSpec::parse(b"(usage = 1,) = { a=input }").unwrap();
    assert!(!uses_report_ids(&Spec::Collection(g)));
}

#[test]
fn constants_resolve_by_key() {
    assert_eq!(try_resolve_constant(b"collection", b"APPLICATION"), Some(1));
    assert_eq!(try_resolve_constant(b"usage_page", b"KEYBOARD"), Some(7));
    assert_eq!(try_resolve_constant(b"usage", b"KEYBOARD"), Some(6));
    assert_eq!(try_resolve_constant(b"usage", b"AC_PAN"), Some(0x238));
    assert_eq!(try_resolve_constant(b"usage_max", b"BUTTON_8"), Some(8));
    assert_eq!(try_resolve_constant(b"usage_min", b"BUTTON_8"), None);
}

#[test]
fn literals_and_tokens() {
    let t = tokenize(b"(a = 0xff_00, b = 12) # ;").unwrap();
    assert_eq!(t.len(), 11);
    assert!(matches!(t[3], Token::Num(Some(0xff00))));
    assert!(matches!(t[7], Token::Num(Some(12))));
    let t = tokenize(b"99999999999 0x1g").unwrap();
    assert!(matches!(t[0], Token::Num(None)));
    assert!(matches!(t[1], Token::Num(None)));
}

#[test]
fn set_item_updates_in_place() {
    let mut g = GroupSpec::new();
    g.set_item(b"a".to_vec(), MainItemKind::Input, None, None, ItemQuirks { allow_short_form: true });
    g.set_item(b"b".to_vec(), MainItemKind::Input, None, None, ItemQuirks { allow_short_form: false });
    g.set_item(b"a".to_vec(), MainItemKind::Output, Some(MainItemSetting(3)), Some(4), ItemQuirks { allow_short_form: false });
    assert_eq!(g.fields.len(), 2);
    match g.get(b"a") {
        Some(Spec::MainItem(i)) => {
            assert_eq!(i.kind, MainItemKind::Output);
            assert_eq!(i.want_bits, Some(4));
            assert!(i.quirks.allow_short_form);
        },
        _ => panic!("missing item"),
    }
    g.add_nested_group(GroupSpec::new());
    assert_eq!(g.fields[2].0, b"___".to_vec());
}

#[test]
fn usage_codes() {
    assert_eq!(MediaKey::from_code(0xB0), MediaKey::Play);
    assert_eq!(MediaKey::from_code(0x01), MediaKey::Reserved);
    assert_eq!(MediaKey::PlayPause.code(), 0xCD);
    assert_eq!(SystemControlKey::from_code(0x82), SystemControlKey::Sleep);
    assert_eq!(SystemControlKey::from_code(0x00), SystemControlKey::Reserved);
    assert_eq!(KeyboardUsage::from_code(0x04), KeyboardUsage::KeyboardAa);
    assert_eq!(KeyboardUsage::from_code(0xE7), KeyboardUsage::KeyboardRightGUI);
    assert_eq!(KeyboardUsage::from_code(0xF0), KeyboardUsage::Reserved);
}

#[test]
fn keyboard_report_default_is_zero() {
    let r = KeyboardReport::default();
    assert_eq!(r.modifier, 0);
    assert_eq!(r.leds, 0);
    assert_eq!(r.keycodes, [0u8; 6]);
}

/// Walks a descriptor item by item, as a host's reader does, and returns the
/// nesting depth at the end, or `None` where it breaks off.
fn walk(b: &[u8]) -> Option<u32> {
    let mut depth: u32 = 0;
    let mut i = 0;
    while i < b.len() {
        let h = b[i];
        let n = match h % 4 {
            3 => 4,
            c => c as usize,
        };
        if i + 1 + n > b.len() {
            return None;
        }
        if h / 16 == 10 && (h / 4) % 4 == 0 {
            depth += 1;
        } else if h / 16 == 12 && (h / 4) % 4 == 0 {
            depth = depth.checked_sub(1)?;
        }
        i += 1 + n;
    }
    Some(depth)
}

#[test]
fn descriptors_walk_as_balanced_items() {
    assert_eq!(walk(&MouseReport::desc()), Some(0));
    assert_eq!(walk(&KeyboardReport::desc()), Some(0));
    assert_eq!(walk(&MediaKeyboardReport::desc()), Some(0));
    assert_eq!(walk(&SystemControlReport::desc()), Some(0));
    assert!(!MouseReport::desc().is_empty());
}

#[test]
fn media_keyboard_descriptor() {
    let expected: &[u8] = &[
        0x05, 0x0C, 0x09, 0x01, 0xA1, 0x01, 0x05, 0x0C, 0x19, 0x00, 0x2A, 0x14, 0x05, 0x15, 0x00,
        0x27, 0xFF, 0xFF, 0x00, 0x00, 0x75, 0x10, 0x95, 0x01, 0x81, 0x00, 0xC0,
    ];
    assert_eq!(MediaKeyboardReport::desc().as_slice(), expected);
}
