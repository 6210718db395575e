//! Ready-made reports: mouse, keyboard, media keys and system control, each
//! with the specification of its descriptor.
use vstd::prelude::*;
use vstd::string::StringSliceAdditionalSpecFns;
use vstd::slice::slice_to_vec;
use crate::parser::parse_spec;
use crate::field::{decls_view, DeclView, FieldDecl, FieldType, TypeView};
use crate::compiler::{compile_group, gen_hid_descriptor, initial_state};

verus! {

/// The descriptor that the specification text `text` compiles to against the
/// fields `decls`; empty where it does not compile.
pub open spec fn descriptor_of(text: Seq<u8>, decls: Seq<DeclView>) -> Seq<u8> {
    match parse_spec(text) {
        Ok(g) => match compile_group(g, decls, None, initial_state()) {
            Ok(st) => st.out,
            Err(_) => seq![],
        },
        Err(_) => seq![],
    }
}

/// Report types that come with a HID report descriptor.
pub trait SerializedDescriptor {
    /// The specification text of the descriptor.
    spec fn spec_text() -> Seq<u8>;

    /// The record's fields in declaration order.
    spec fn spec_fields() -> Seq<DeclView>;

    /// The report descriptor.
    fn desc() -> (r: Vec<u8>)
        ensures
            r@ == descriptor_of(Self::spec_text(), Self::spec_fields()),
    ;
}

/// Report types that serialise into input reports: their descriptors use no
/// report ID, so the input fields are sent as they are, in order.
pub trait AsInputReport: SerializedDescriptor {

}

fn named(s: &str) -> (r: Vec<u8>)
    ensures
        r@ == s.spec_bytes(),
{
    slice_to_vec(s.as_bytes())
}

fn scalar(name: &str, ty: &str) -> (r: FieldDecl)
    ensures
        r@ == (DeclView { name: name.spec_bytes(), ty: TypeView::Path(ty.spec_bytes()) }),
{
    FieldDecl { name: named(name), ty: FieldType::Path(named(ty)) }
}

/// Compiles a report's specification text, or gives no bytes where it fails.
fn compiled(text: &str, fields: &Vec<FieldDecl>) -> (r: Vec<u8>)
    ensures
        r@ == descriptor_of(text.spec_bytes(), decls_view(fields@)),
{
    match gen_hid_descriptor(text.as_bytes(), fields) {
        Ok((b, _)) => b,
        Err(_) => Vec::new(),
    }
}

pub const MOUSE_SPEC: &'static str = "(collection = APPLICATION, usage_page = GENERIC_DESKTOP, usage = MOUSE) = {
    (collection = PHYSICAL, usage = POINTER) = {
        (usage_page = BUTTON, usage_min = BUTTON_1, usage_max = BUTTON_8) = {
            #[packed_bits 8] #[item_settings data,variable,absolute] buttons=input;
        };
        (usage_page = GENERIC_DESKTOP,) = {
            (usage = X,) = {
                #[item_settings data,variable,relative] x=input;
            };
            (usage = Y,) = {
                #[item_settings data,variable,relative] y=input;
            };
            (usage = WHEEL,) = {
                #[item_settings data,variable,relative] wheel=input;
            };
        };
        (usage_page = CONSUMER,) = {
            (usage = AC_PAN,) = {
                #[item_settings data,variable,relative] pan=input;
            };
        };
    };
}";

/// Mouse movements and button presses.
#[derive(Clone, Copy, Debug, PartialEq, Eq, Structural)]
pub struct MouseReport {
    pub buttons: u8,
    pub x: i8,
    pub y: i8,
    /// Scroll down (negative) or up (positive) this many units.
    pub wheel: i8,
    /// Scroll left (negative) or right (positive) this many units.
    pub pan: i8,
}

impl MouseReport {
    pub open spec fn field_views() -> Seq<DeclView> {
        seq![
            DeclView { name: "buttons".spec_bytes(), ty: TypeView::Path("u8".spec_bytes()) },
            DeclView { name: "x".spec_bytes(), ty: TypeView::Path("i8".spec_bytes()) },
            DeclView { name: "y".spec_bytes(), ty: TypeView::Path("i8".spec_bytes()) },
            DeclView { name: "wheel".spec_bytes(), ty: TypeView::Path("i8".spec_bytes()) },
            DeclView { name: "pan".spec_bytes(), ty: TypeView::Path("i8".spec_bytes()) },
        ]
    }

    /// The record's fields.
    pub fn fields() -> (r: Vec<FieldDecl>)
        ensures
            decls_view(r@) == Self::field_views(),
    {
        let mut v: Vec<FieldDecl> = Vec::new();
        v.push(scalar("buttons", "u8"));
        v.push(scalar("x", "i8"));
        v.push(scalar("y", "i8"));
        v.push(scalar("wheel", "i8"));
        v.push(scalar("pan", "i8"));
        assert(decls_view(v@) =~= Self::field_views());
        v
    }
}

impl SerializedDescriptor for MouseReport {
    open spec fn spec_text() -> Seq<u8> {
        MOUSE_SPEC.spec_bytes()
    }

    open spec fn spec_fields() -> Seq<DeclView> {
        Self::field_views()
    }

    fn desc() -> (r: Vec<u8>) {
        compiled(MOUSE_SPEC, &Self::fields())
    }
}

impl AsInputReport for MouseReport {

}

pub const KEYBOARD_SPEC: &'static str = "(collection = APPLICATION, usage_page = GENERIC_DESKTOP, usage = KEYBOARD) = {
    (usage_page = KEYBOARD, usage_min = 0xE0, usage_max = 0xE7) = {
        #[packed_bits 8] #[item_settings data,variable,absolute] modifier=input;
    };
    (usage_min = 0x00, usage_max = 0xFF) = {
        #[item_settings constant,variable,absolute] reserved=input;
    };
    (usage_page = LEDS, usage_min = 0x01, usage_max = 0x05) = {
        #[packed_bits 5] #[item_settings data,variable,absolute] leds=output;
    };
    (usage_page = KEYBOARD, usage_min = 0x00, usage_max = 0xDD) = {
        #[item_settings data,array,absolute] keycodes=input;
    };
}";

/// Keyboard key presses sent to the host, and the state of the keyboard LEDs
/// received from it.
#[derive(Clone, Copy, Debug, PartialEq, Eq)]
pub struct KeyboardReport {
    pub modifier: u8,
    pub reserved: u8,
    pub leds: u8,
    pub keycodes: [u8; 6],
}

impl KeyboardReport {
    /// A report with no key pressed and all LEDs off.
    pub fn default() -> (r: Self)
        ensures
            r.modifier == 0,
            r.reserved == 0,
            r.leds == 0,
            r.keycodes@ == seq![0u8, 0u8, 0u8, 0u8, 0u8, 0u8],
    {
        let r = KeyboardReport { modifier: 0, reserved: 0, leds: 0, keycodes: [0u8; 6] };
        assert(r.keycodes@ =~= seq![0u8, 0u8, 0u8, 0u8, 0u8, 0u8]);
        r
    }

    pub open spec fn field_views() -> Seq<DeclView> {
        seq![
            DeclView { name: "modifier".spec_bytes(), ty: TypeView::Path("u8".spec_bytes()) },
            DeclView { name: "reserved".spec_bytes(), ty: TypeView::Path("u8".spec_bytes()) },
            DeclView { name: "leds".spec_bytes(), ty: TypeView::Path("u8".spec_bytes()) },
            DeclView {
                name: "keycodes".spec_bytes(),
                ty: TypeView::Array(Box::new(TypeView::Path("u8".spec_bytes())), 6),
            },
        ]
    }

    /// The record's fields.
    pub fn fields() -> (r: Vec<FieldDecl>)
        ensures
            decls_view(r@) == Self::field_views(),
    {
        let mut v: Vec<FieldDecl> = Vec::new();
        v.push(scalar("modifier", "u8"));
        v.push(scalar("reserved", "u8"));
        v.push(scalar("leds", "u8"));
        let elem = FieldType::Path(named("u8"));
        assert(elem@ == TypeView::Path("u8".spec_bytes()));
        let keys = FieldDecl { name: named("keycodes"), ty: FieldType::Array(Box::new(elem), 6) };
        assert(keys.ty@ == TypeView::Array(Box::new(elem@), 6));
        v.push(keys);
        assert(decls_view(v@) =~= Self::field_views());
        v
    }
}

impl SerializedDescriptor for KeyboardReport {
    open spec fn spec_text() -> Seq<u8> {
        KEYBOARD_SPEC.spec_bytes()
    }

    open spec fn spec_fields() -> Seq<DeclView> {
        Self::field_views()
    }

    fn desc() -> (r: Vec<u8>) {
        compiled(KEYBOARD_SPEC, &Self::fields())
    }
}

impl AsInputReport for KeyboardReport {

}

pub const MEDIA_KEYBOARD_SPEC: &'static str = "(collection = APPLICATION, usage_page = CONSUMER, usage = CONSUMER_CONTROL) = {
    (usage_page = CONSUMER, usage_min = 0x00, usage_max = 0x514) = {
        #[item_settings data,array,absolute,not_null] usage_id=input;
    };
}";

/// Consumer control commands, such as media player keys.
#[derive(Clone, Copy, Debug, PartialEq, Eq, Structural)]
pub struct MediaKeyboardReport {
    pub usage_id: u16,
}

impl MediaKeyboardReport {
    pub open spec fn field_views() -> Seq<DeclView> {
        seq![DeclView { name: "usage_id".spec_bytes(), ty: TypeView::Path("u16".spec_bytes()) }]
    }

    /// The record's fields.
    pub fn fields() -> (r: Vec<FieldDecl>)
        ensures
            decls_view(r@) == Self::field_views(),
    {
        let mut v: Vec<FieldDecl> = Vec::new();
        v.push(scalar("usage_id", "u16"));
        assert(decls_view(v@) =~= Self::field_views());
        v
    }
}

impl SerializedDescriptor for MediaKeyboardReport {
    open spec fn spec_text() -> Seq<u8> {
        MEDIA_KEYBOARD_SPEC.spec_bytes()
    }

    open spec fn spec_fields() -> Seq<DeclView> {
        Self::field_views()
    }

    fn desc() -> (r: Vec<u8>) {
        compiled(MEDIA_KEYBOARD_SPEC, &Self::fields())
    }
}

impl AsInputReport for MediaKeyboardReport {

}

pub const SYSTEM_CONTROL_SPEC: &'static str = "(collection = APPLICATION, usage_page = GENERIC_DESKTOP, usage = SYSTEM_CONTROL) = {
    (usage_min = 0x81, usage_max = 0xB7, logical_min = 1) = {
        #[item_settings data,array,absolute,not_null] usage_id=input;
    };
}";

/// System control commands: sleep, power down, hibernate and the like. The
/// usage minimum starts at 0x81 and the logical minimum at 1, as some hosts need.
#[derive(Clone, Copy, Debug, PartialEq, Eq, Structural)]
pub struct SystemControlReport {
    pub usage_id: u8,
}

impl SystemControlReport {
    pub open spec fn field_views() -> Seq<DeclView> {
        seq![DeclView { name: "usage_id".spec_bytes(), ty: TypeView::Path("u8".spec_bytes()) }]
    }

    /// The record's fields.
    pub fn fields() -> (r: Vec<FieldDecl>)
        ensures
            decls_view(r@) == Self::field_views(),
    {
        let mut v: Vec<FieldDecl> = Vec::new();
        v.push(scalar("usage_id", "u8"));
        assert(decls_view(v@) =~= Self::field_views());
        v
    }
}

impl SerializedDescriptor for SystemControlReport {
    open spec fn spec_text() -> Seq<u8> {
        SYSTEM_CONTROL_SPEC.spec_bytes()
    }

    open spec fn spec_fields() -> Seq<DeclView> {
        Self::field_views()
    }

    fn desc() -> (r: Vec<u8>) {
        compiled(SYSTEM_CONTROL_SPEC, &Self::fields())
    }
}

impl AsInputReport for SystemControlReport {

}

} // verus!
