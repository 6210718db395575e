//! Symbolic values of group parameters: collection kinds, usage pages and
//! usages of the HID Usage Tables.
use vstd::prelude::*;
use vstd::string::StringSliceAdditionalSpecFns;
use crate::items::bytes_eq;

verus! {

/// The value of a symbolic `collection`.
pub open spec fn spec_resolve_collection(name: Seq<u8>) -> Option<u32> {
    if name == "PHYSICAL".spec_bytes() {
        Some(0x0)
    } else if name == "APPLICATION".spec_bytes() {
        Some(0x1)
    } else if name == "LOGICAL".spec_bytes() {
        Some(0x2)
    } else if name == "REPORT".spec_bytes() {
        Some(0x3)
    } else if name == "NAMED_ARRAY".spec_bytes() {
        Some(0x4)
    } else if name == "USAGE_SWITCH".spec_bytes() {
        Some(0x5)
    } else if name == "USAGE_MODIFIER".spec_bytes() {
        Some(0x6)
    } else {
        None
    }
}

fn resolve_collection(name: &[u8]) -> (r: Option<u32>)
    ensures
        r == spec_resolve_collection(name@),
{
    if bytes_eq(name, "PHYSICAL".as_bytes()) {
        Some(0x0)
    } else if bytes_eq(name, "APPLICATION".as_bytes()) {
        Some(0x1)
    } else if bytes_eq(name, "LOGICAL".as_bytes()) {
        Some(0x2)
    } else if bytes_eq(name, "REPORT".as_bytes()) {
        Some(0x3)
    } else if bytes_eq(name, "NAMED_ARRAY".as_bytes()) {
        Some(0x4)
    } else if bytes_eq(name, "USAGE_SWITCH".as_bytes()) {
        Some(0x5)
    } else if bytes_eq(name, "USAGE_MODIFIER".as_bytes()) {
        Some(0x6)
    } else {
        None
    }
}

/// The value of a symbolic `usage_page`.
pub open spec fn spec_resolve_usage_page(name: Seq<u8>) -> Option<u32> {
    if name == "UNDEFINED".spec_bytes() {
        Some(0x0)
    } else if name == "GENERIC_DESKTOP".spec_bytes() {
        Some(0x1)
    } else if name == "SIMULATION_CONTROLS".spec_bytes() {
        Some(0x2)
    } else if name == "VR_CONTROLS".spec_bytes() {
        Some(0x3)
    } else if name == "SPORT_CONTROLS".spec_bytes() {
        Some(0x4)
    } else if name == "GAME_CONTROLS".spec_bytes() {
        Some(0x5)
    } else if name == "GENERIC_DEVICE_CONTROLS".spec_bytes() {
        Some(0x6)
    } else if name == "KEYBOARD".spec_bytes() {
        Some(0x7)
    } else if name == "LEDS".spec_bytes() {
        Some(0x8)
    } else if name == "BUTTON".spec_bytes() {
        Some(0x9)
    } else if name == "ORDINAL".spec_bytes() {
        Some(0xa)
    } else if name == "TELEPHONY".spec_bytes() {
        Some(0xb)
    } else if name == "CONSUMER".spec_bytes() {
        Some(0xc)
    } else if name == "DIGITIZER".spec_bytes() {
        Some(0xd)
    } else if name == "ALPHANUMERIC_DISPLAY".spec_bytes() {
        Some(0x14)
    } else if name == "BARCODE_SCANNER".spec_bytes() {
        Some(0x8c)
    } else if name == "VENDOR_DEFINED_START".spec_bytes() {
        Some(0xff00)
    } else if name == "VENDOR_DEFINED_END".spec_bytes() {
        Some(0xffff)
    } else {
        None
    }
}

fn resolve_usage_page(name: &[u8]) -> (r: Option<u32>)
    ensures
        r == spec_resolve_usage_page(name@),
{
    if bytes_eq(name, "UNDEFINED".as_bytes()) {
        Some(0x0)
    } else if bytes_eq(name, "GENERIC_DESKTOP".as_bytes()) {
        Some(0x1)
    } else if bytes_eq(name, "SIMULATION_CONTROLS".as_bytes()) {
        Some(0x2)
    } else if bytes_eq(name, "VR_CONTROLS".as_bytes()) {
        Some(0x3)
    } else if bytes_eq(name, "SPORT_CONTROLS".as_bytes()) {
        Some(0x4)
    } else if bytes_eq(name, "GAME_CONTROLS".as_bytes()) {
        Some(0x5)
    } else if bytes_eq(name, "GENERIC_DEVICE_CONTROLS".as_bytes()) {
        Some(0x6)
    } else if bytes_eq(name, "KEYBOARD".as_bytes()) {
        Some(0x7)
    } else if bytes_eq(name, "LEDS".as_bytes()) {
        Some(0x8)
    } else if bytes_eq(name, "BUTTON".as_bytes()) {
        Some(0x9)
    } else if bytes_eq(name, "ORDINAL".as_bytes()) {
        Some(0xa)
    } else if bytes_eq(name, "TELEPHONY".as_bytes()) {
        Some(0xb)
    } else if bytes_eq(name, "CONSUMER".as_bytes()) {
        Some(0xc)
    } else if bytes_eq(name, "DIGITIZER".as_bytes()) {
        Some(0xd)
    } else if bytes_eq(name, "ALPHANUMERIC_DISPLAY".as_bytes()) {
        Some(0x14)
    } else if bytes_eq(name, "BARCODE_SCANNER".as_bytes()) {
        Some(0x8c)
    } else if bytes_eq(name, "VENDOR_DEFINED_START".as_bytes()) {
        Some(0xff00)
    } else if bytes_eq(name, "VENDOR_DEFINED_END".as_bytes()) {
        Some(0xffff)
    } else {
        None
    }
}

/// The value of a symbolic `usage`.
pub open spec fn spec_resolve_usage(name: Seq<u8>) -> Option<u32> {
    if name == "POINTER".spec_bytes() {
        Some(0x1)
    } else if name == "MOUSE".spec_bytes() {
        Some(0x2)
    } else if name == "JOYSTICK".spec_bytes() {
        Some(0x4)
    } else if name == "GAMEPAD".spec_bytes() {
        Some(0x5)
    } else if name == "KEYBOARD".spec_bytes() {
        Some(0x6)
    } else if name == "KEYPAD".spec_bytes() {
        Some(0x7)
    } else if name == "MULTI_AXIS_CONTROLLER".spec_bytes() {
        Some(0x8)
    } else if name == "X".spec_bytes() {
        Some(0x30)
    } else if name == "Y".spec_bytes() {
        Some(0x31)
    } else if name == "Z".spec_bytes() {
        Some(0x32)
    } else if name == "WHEEL".spec_bytes() {
        Some(0x38)
    } else if name == "SYSTEM_CONTROL".spec_bytes() {
        Some(0x80)
    } else if name == "NUM_LOCK".spec_bytes() {
        Some(0x1)
    } else if name == "CAPS_LOCK".spec_bytes() {
        Some(0x2)
    } else if name == "SCROLL_LOCK".spec_bytes() {
        Some(0x3)
    } else if name == "POWER".spec_bytes() {
        Some(0x6)
    } else if name == "SHIFT".spec_bytes() {
        Some(0x7)
    } else if name == "MUTE".spec_bytes() {
        Some(0x9)
    } else if name == "RING".spec_bytes() {
        Some(0x18)
    } else if name == "BUTTON_NONE".spec_bytes() {
        Some(0x0)
    } else if name == "BUTTON_1".spec_bytes() {
        Some(0x1)
    } else if name == "BUTTON_2".spec_bytes() {
        Some(0x2)
    } else if name == "BUTTON_3".spec_bytes() {
        Some(0x3)
    } else if name == "BUTTON_4".spec_bytes() {
        Some(0x4)
    } else if name == "BUTTON_5".spec_bytes() {
        Some(0x5)
    } else if name == "BUTTON_6".spec_bytes() {
        Some(0x6)
    } else if name == "BUTTON_7".spec_bytes() {
        Some(0x7)
    } else if name == "BUTTON_8".spec_bytes() {
        Some(0x8)
    } else if name == "CLEAR_DISPLAY".spec_bytes() {
        Some(0x25)
    } else if name == "DISPLAY_ENABLE".spec_bytes() {
        Some(0x26)
    } else if name == "CHARACTER_REPORT".spec_bytes() {
        Some(0x2b)
    } else if name == "CHARACTER_DATA".spec_bytes() {
        Some(0x2c)
    } else if name == "CONSUMER_CONTROL".spec_bytes() {
        Some(0x1)
    } else if name == "NUMERIC_KEYPAD".spec_bytes() {
        Some(0x2)
    } else if name == "PROGRAMMABLE_BUTTONS".spec_bytes() {
        Some(0x3)
    } else if name == "MICROPHONE".spec_bytes() {
        Some(0x4)
    } else if name == "HEADPHONE".spec_bytes() {
        Some(0x5)
    } else if name == "GRAPHIC_EQUALIZER".spec_bytes() {
        Some(0x6)
    } else if name == "AC_PAN".spec_bytes() {
        Some(0x238)
    } else {
        None
    }
}

fn resolve_usage(name: &[u8]) -> (r: Option<u32>)
    ensures
        r == spec_resolve_usage(name@),
{
    if bytes_eq(name, "POINTER".as_bytes()) {
        Some(0x1)
    } else if bytes_eq(name, "MOUSE".as_bytes()) {
        Some(0x2)
    } else if bytes_eq(name, "JOYSTICK".as_bytes()) {
        Some(0x4)
    } else if bytes_eq(name, "GAMEPAD".as_bytes()) {
        Some(0x5)
    } else if bytes_eq(name, "KEYBOARD".as_bytes()) {
        Some(0x6)
    } else if bytes_eq(name, "KEYPAD".as_bytes()) {
        Some(0x7)
    } else if bytes_eq(name, "MULTI_AXIS_CONTROLLER".as_bytes()) {
        Some(0x8)
    } else if bytes_eq(name, "X".as_bytes()) {
        Some(0x30)
    } else if bytes_eq(name, "Y".as_bytes()) {
        Some(0x31)
    } else if bytes_eq(name, "Z".as_bytes()) {
        Some(0x32)
    } else if bytes_eq(name, "WHEEL".as_bytes()) {
        Some(0x38)
    } else if bytes_eq(name, "SYSTEM_CONTROL".as_bytes()) {
        Some(0x80)
    } else if bytes_eq(name, "NUM_LOCK".as_bytes()) {
        Some(0x1)
    } else if bytes_eq(name, "CAPS_LOCK".as_bytes()) {
        Some(0x2)
    } else if bytes_eq(name, "SCROLL_LOCK".as_bytes()) {
        Some(0x3)
    } else if bytes_eq(name, "POWER".as_bytes()) {
        Some(0x6)
    } else if bytes_eq(name, "SHIFT".as_bytes()) {
        Some(0x7)
    } else if bytes_eq(name, "MUTE".as_bytes()) {
        Some(0x9)
    } else if bytes_eq(name, "RING".as_bytes()) {
        Some(0x18)
    } else if bytes_eq(name, "BUTTON_NONE".as_bytes()) {
        Some(0x0)
    } else if bytes_eq(name, "BUTTON_1".as_bytes()) {
        Some(0x1)
    } else if bytes_eq(name, "BUTTON_2".as_bytes()) {
        Some(0x2)
    } else if bytes_eq(name, "BUTTON_3".as_bytes()) {
        Some(0x3)
    } else if bytes_eq(name, "BUTTON_4".as_bytes()) {
        Some(0x4)
    } else if bytes_eq(name, "BUTTON_5".as_bytes()) {
        Some(0x5)
    } else if bytes_eq(name, "BUTTON_6".as_bytes()) {
        Some(0x6)
    } else if bytes_eq(name, "BUTTON_7".as_bytes()) {
        Some(0x7)
    } else if bytes_eq(name, "BUTTON_8".as_bytes()) {
        Some(0x8)
    } else if bytes_eq(name, "CLEAR_DISPLAY".as_bytes()) {
        Some(0x25)
    } else if bytes_eq(name, "DISPLAY_ENABLE".as_bytes()) {
        Some(0x26)
    } else if bytes_eq(name, "CHARACTER_REPORT".as_bytes()) {
        Some(0x2b)
    } else if bytes_eq(name, "CHARACTER_DATA".as_bytes()) {
        Some(0x2c)
    } else if bytes_eq(name, "CONSUMER_CONTROL".as_bytes()) {
        Some(0x1)
    } else if bytes_eq(name, "NUMERIC_KEYPAD".as_bytes()) {
        Some(0x2)
    } else if bytes_eq(name, "PROGRAMMABLE_BUTTONS".as_bytes()) {
        Some(0x3)
    } else if bytes_eq(name, "MICROPHONE".as_bytes()) {
        Some(0x4)
    } else if bytes_eq(name, "HEADPHONE".as_bytes()) {
        Some(0x5)
    } else if bytes_eq(name, "GRAPHIC_EQUALIZER".as_bytes()) {
        Some(0x6)
    } else if bytes_eq(name, "AC_PAN".as_bytes()) {
        Some(0x238)
    } else {
        None
    }
}

/// The value of a symbolic `usage_min`.
pub open spec fn spec_resolve_usage_min(name: Seq<u8>) -> Option<u32> {
    if name == "X".spec_bytes() {
        Some(0x30)
    } else if name == "Y".spec_bytes() {
        Some(0x31)
    } else if name == "Z".spec_bytes() {
        Some(0x32)
    } else if name == "BUTTON_1".spec_bytes() {
        Some(0x1)
    } else {
        None
    }
}

fn resolve_usage_min(name: &[u8]) -> (r: Option<u32>)
    ensures
        r == spec_resolve_usage_min(name@),
{
    if bytes_eq(name, "X".as_bytes()) {
        Some(0x30)
    } else if bytes_eq(name, "Y".as_bytes()) {
        Some(0x31)
    } else if bytes_eq(name, "Z".as_bytes()) {
        Some(0x32)
    } else if bytes_eq(name, "BUTTON_1".as_bytes()) {
        Some(0x1)
    } else {
        None
    }
}

/// The value of a symbolic `usage_max`.
pub open spec fn spec_resolve_usage_max(name: Seq<u8>) -> Option<u32> {
    if name == "X".spec_bytes() {
        Some(0x30)
    } else if name == "Y".spec_bytes() {
        Some(0x31)
    } else if name == "Z".spec_bytes() {
        Some(0x32)
    } else if name == "BUTTON_3".spec_bytes() {
        Some(0x3)
    } else if name == "BUTTON_4".spec_bytes() {
        Some(0x4)
    } else if name == "BUTTON_8".spec_bytes() {
        Some(0x8)
    } else {
        None
    }
}

fn resolve_usage_max(name: &[u8]) -> (r: Option<u32>)
    ensures
        r == spec_resolve_usage_max(name@),
{
    if bytes_eq(name, "X".as_bytes()) {
        Some(0x30)
    } else if bytes_eq(name, "Y".as_bytes()) {
        Some(0x31)
    } else if bytes_eq(name, "Z".as_bytes()) {
        Some(0x32)
    } else if bytes_eq(name, "BUTTON_3".as_bytes()) {
        Some(0x3)
    } else if bytes_eq(name, "BUTTON_4".as_bytes()) {
        Some(0x4)
    } else if bytes_eq(name, "BUTTON_8".as_bytes()) {
        Some(0x8)
    } else {
        None
    }
}

/// The value bound to the symbol `name` under the group parameter `key`;
/// `None` where the symbol means nothing for that key.
pub open spec fn resolve_constant(key: Seq<u8>, name: Seq<u8>) -> Option<u32> {
    if key == "collection".spec_bytes() {
        spec_resolve_collection(name)
    } else if key == "usage_page".spec_bytes() {
        spec_resolve_usage_page(name)
    } else if key == "usage".spec_bytes() {
        spec_resolve_usage(name)
    } else if key == "usage_min".spec_bytes() {
        spec_resolve_usage_min(name)
    } else if key == "usage_max".spec_bytes() {
        spec_resolve_usage_max(name)
    } else {
        None
    }
}

/// Resolves a symbolic value of the group parameter `key_name`.
pub fn try_resolve_constant(key_name: &[u8], path: &[u8]) -> (r: Option<u32>)
    ensures
        r == resolve_constant(key_name@, path@),
{
    if bytes_eq(key_name, "collection".as_bytes()) {
        resolve_collection(path)
    } else if bytes_eq(key_name, "usage_page".as_bytes()) {
        resolve_usage_page(path)
    } else if bytes_eq(key_name, "usage".as_bytes()) {
        resolve_usage(path)
    } else if bytes_eq(key_name, "usage_min".as_bytes()) {
        resolve_usage_min(path)
    } else if bytes_eq(key_name, "usage_max".as_bytes()) {
        resolve_usage_max(path)
    } else {
        None
    }
}

} // verus!
