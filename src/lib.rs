//! HID report descriptor compilation.
//!
//! A report layout is written in a small grouping grammar and bound to the
//! fields of a record. The library parses that text, maps each field's integer
//! type to a HID main item, and emits the report descriptor bytes with the
//! shortest item encodings and without repeating unchanged global items. It also
//! plans how the device-to-host fields are serialised, splits the fields into
//! per-direction and per-report records, and takes the control-request
//! decisions of the HID device class.
//!
//! Modules, leaf first: `items` (item tags), `encode` (short-item encoding),
//! `constants` (symbolic values), `lexer` and `parser` (the grammar), `group`
//! (the specification tree), `field` (field analysis), `compiler` (descriptor
//! emission), `packer` (serialisation plans), `split` (per-report records),
//! `decode` (how a reader reads the bytes back), `reports` and `keys`
//! (ready-made reports), `class` (device-class decisions).
mod class;
mod compiler;
mod constants;
mod decode;
mod encode;
mod field;
mod group;
mod items;
mod keys;
mod lexer;
mod packer;
mod parser;
mod reports;
mod split;

pub use class::{
    control_in, control_out, hid_descriptor_body, pull_raw_report, spec_hid_descriptor,
    spec_hid_descriptor_body, ClassError, ControlRequest, InAction, OutAction, Recipient, Report,
    ReportInfo, ReportType, RequestKind, CONTROL_BUF_LEN, HID_DESC_DESCTYPE_HID,
    HID_DESC_DESCTYPE_HID_REPORT, HID_REQ_GET_IDLE, HID_REQ_GET_REPORT, HID_REQ_SET_IDLE,
    HID_REQ_SET_REPORT, REQ_GET_DESCRIPTOR,
};
pub use compiler::{
    cache_after, compile_child, compile_children, compile_descriptor, compile_group, field_bytes,
    field_decl, find_decl, gen_hid_descriptor, global_if_changed, globals_bytes, group_header,
    initial_state, lemma_analyze_ok, lemma_children_err, lemma_find_decl, lemma_globals_dedup,
    main_item_ok, opt_item, padding_item, settings_value, state_of, usages_bytes, CompileError,
    CompileState, DescCompilation, FieldView, GlobalCache,
};
pub use constants::{resolve_constant, try_resolve_constant};
pub use decode::{
    announced_len, appended, balanced, data_child_only, data_children_only, data_items_only,
    data_kind, extends_by_items, header_pre, is_collection_header, is_end_collection_header,
    item_data, items_ok, le_value, lemma_child_balanced, lemma_child_items,
    lemma_children_balanced, lemma_children_items, lemma_descriptor_balanced,
    lemma_descriptor_items, lemma_field_round_trip, lemma_group_balanced, lemma_group_items,
    lemma_item_ok, lemma_item_round_trip, lemma_items_concat, nesting, signed_readable,
    signed_value,
};
pub use encode::{
    data_bytes, emit, emit_item, item_bytes, item_header, item_value_ok, lemma_short_encoding,
    short_item, size_code, word_bytes, word_of, zero_length_form,
};
pub use field::{
    analyze, analyze_field, decls_view, item_for_shape, lemma_packed_padding, lemma_signed_range,
    lemma_unsigned_range, parse_type, scalar_type, signed_bound, supported_width, type_shape,
    type_view, DeclView, FieldDecl, FieldError, FieldType, MainItem, ReportUnaryField, TypeView,
};
pub use group::{
    children_view, empty_group, find_child, group_key, group_view, lemma_children_view,
    lemma_find_child, parse_group_key, spec_view, underscores, updated_child, with_attr, with_item,
    with_nested, GroupKey, GroupSpec, GroupView, ItemQuirks, ItemSpec, ParseError, Spec, SpecView,
};
pub use items::{
    bytes_eq, with_bit, GlobalItemKind, ItemType, LocalItemKind, MainItemKind, MainItemSetting,
};
pub use keys::{KeyboardUsage, MediaKey, SystemControlKey};
pub use lexer::{lex, literal_value, tokenize, toks, Tok, Token};
pub use packer::{
    children_use_report_ids, field_step, fields_view, gen_serializer, lemma_any_prefix,
    serializer_steps, spec_uses_report_ids, steps_view, uses_report_ids, SerializeError,
    SerializeStep, StepShape,
};
pub use parser::{
    apply_attr_token, apply_kvs, attr_body, attr_kind, kv_value, no_attrs, parse_attrs,
    parse_clause, parse_clauses, parse_group_clause, parse_item, parse_kvs, parse_spec,
    parse_tokens, setting_effect, settings_of, AttrKind, ItemAttrs,
};
pub use reports::{
    descriptor_of, AsInputReport, KeyboardReport, MediaKeyboardReport, MouseReport,
    SerializedDescriptor, SystemControlReport, KEYBOARD_SPEC, MEDIA_KEYBOARD_SPEC, MOUSE_SPEC,
    SYSTEM_CONTROL_SPEC,
};
pub use split::{
    add_to_groups, direction_fields, find_field, find_key, group_by, grouped, groups_view,
    lemma_find_key, map_group_by, split,
};
