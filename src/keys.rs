//! Usage codes of keyboard, consumer and system control reports.
use vstd::prelude::*;

verus! {

/// KeyboardUsage describes the key codes to be used in implementing a USB keyboard.
///
/// The usage type of all key codes is Selectors, except for the modifier keys
/// Keyboard Left Control to Keyboard Right GUI which are Dynamic Flags.
///
/// Reference: <https://usb.org/sites/default/files/hut1_3_0.pdf> (Section 10, page 88)
#[derive(Clone, Copy, Debug, PartialEq, Eq, Structural)]
pub enum KeyboardUsage {
    /// Keyboard ErrorRollOver (Footnote 1)
    KeyboardErrorRollOver,
    /// Keyboard POSTFail (Footnote 1)
    KeyboardPOSTFail,
    /// Keyboard ErrorUndefined (Footnote 1)
    KeyboardErrorUndefined,
    /// Keyboard a and A (Footnote 2)
    KeyboardAa,
    /// Keyboard b and B
    KeyboardBb,
    /// Keyboard c and C (Footnote 2)
    KeyboardCc,
    /// Keyboard d and D
    KeyboardDd,
    /// Keyboard e and E
    KeyboardEe,
    /// Keyboard f and F
    KeyboardFf,
    /// Keyboard g and G
    KeyboardGg,
    /// Keyboard h and H
    KeyboardHh,
    /// Keyboard i and I
    KeyboardIi,
    /// Keyboard j and J
    KeyboardJj,
    /// Keyboard k and K
    KeyboardKk,
    /// Keyboard l and L
    KeyboardLl,
    /// Keyboard m and M (Footnote 2)
    KeyboardMm,
    /// Keyboard n and N
    KeyboardNn,
    /// Keyboard o and O (Footnote 2)
    KeyboardOo,
    /// Keyboard p and P (Footnote 2)
    KeyboardPp,
    /// Keyboard q and Q (Footnote 2)
    KeyboardQq,
    /// Keyboard r and R
    KeyboardRr,
    /// Keyboard s and S
    KeyboardSs,
    /// Keyboard t and T
    KeyboardTt,
    /// Keyboard u and U
    KeyboardUu,
    /// Keyboard v and V
    KeyboardVv,
    /// Keyboard w and W (Footnote 2)
    KeyboardWw,
    /// Keyboard x and X (Footnote 2)
    KeyboardXx,
    /// Keyboard y and Y (Footnote 2)
    KeyboardYy,
    /// Keyboard z and Z (Footnote 2)
    KeyboardZz,
    /// Keyboard 1 and ! (Footnote 2)
    Keyboard1Exclamation,
    /// Keyboard 2 and @ (Footnote 2)
    Keyboard2At,
    /// Keyboard 3 and # (Footnote 2)
    Keyboard3Hash,
    /// Keyboard 4 and $ (Footnote 2)
    Keyboard4Dollar,
    /// Keyboard 5 and % (Footnote 2)
    Keyboard5Percent,
    /// Keyboard 6 and ^ (Footnote 2)
    Keyboard6Caret,
    /// Keyboard 7 and & (Footnote 2)
    Keyboard7Ampersand,
    /// Keyboard 8 and * (Footnote 2)
    Keyboard8Asterisk,
    /// Keyboard 9 and ( (Footnote 2)
    Keyboard9OpenParens,
    /// Keyboard 0 and ) (Footnote 2)
    Keyboard0CloseParens,
    /// Keyboard Return (ENTER) (Footnote 3)
    ///
    ///  (Footnote 3): Keyboard Enter and Keypad Enter generate different Usage codes.
    KeyboardEnter,
    /// Keyboard ESCAPE
    KeyboardEscape,
    /// Keyboard DELETE (Backspace) (Footnote 4)
    KeyboardBackspace,
    /// Keyboard Tab
    KeyboardTab,
    /// Keyboard Spacebar
    KeyboardSpacebar,
    /// Keyboard - and _ (Footnote 2)
    KeyboardDashUnderscore,
    /// Keyboard = and + (Footnote 2)
    KeyboardEqualPlus,
    /// Keyboard [ and { (Footnote 2)
    KeyboardOpenBracketBrace,
    /// Keyboard ] and } (Footnote 2)
    KeyboardCloseBracketBrace,
    /// Keyboard \ and |
    KeyboardBackslashBar,
    /// Keyboard Non-US # and (Footnote 5)
    KeyboardNonUSHash,
    /// Keyboard ; and : (Footnote 2)
    KeyboardSemiColon,
    /// Keyboard ' and " (Footnote 2)
    KeyboardSingleDoubleQuote,
    /// Keyboard ` and ~ (Footnote 2)
    KeyboardBacktickTilde,
    /// Keyboard , and < (Footnote 2)
    KeyboardCommaLess,
    /// Keyboard . and > (Footnote 2)
    KeyboardPeriodGreater,
    /// Keyboard / and ? (Footnote 2)
    KeyboardSlashQuestion,
    /// Keyboard Caps Lock (Footnote 6)
    KeyboardCapsLock,
    /// Keyboard F1
    KeyboardF1,
    /// Keyboard F2
    KeyboardF2,
    /// Keyboard F3
    KeyboardF3,
    /// Keyboard F4
    KeyboardF4,
    /// Keyboard F5
    KeyboardF5,
    /// Keyboard F6
    KeyboardF6,
    /// Keyboard F7
    KeyboardF7,
    /// Keyboard F8
    KeyboardF8,
    /// Keyboard F9
    KeyboardF9,
    /// Keyboard F10
    KeyboardF10,
    /// Keyboard F11
    KeyboardF11,
    /// Keyboard F12
    KeyboardF12,
    /// Keyboard PrintScreen (Footnote 7)
    KeyboardPrintScreen,
    /// Keyboard ScrollLock (Footnote 6)
    KeyboardScrollLock,
    /// Keyboard Pause (Footnote 7)
    KeyboardPause,
    /// Keyboard Insert (Footnote 7)
    KeyboardInsert,
    /// Keyboard Home (Footnote 7)
    KeyboardHome,
    /// Keyboard PageUp (Footnote 7)
    KeyboardPageUp,
    /// Keyboard Delete Forward (Footnote 7) (Footnote 8)
    KeyboardDelete,
    /// Keyboard End (Footnote 7)
    KeyboardEnd,
    /// Keyboard PageDown (Footnote 7)
    KeyboardPageDown,
    /// Keyboard RightArrow (Footnote 7)
    KeyboardRightArrow,
    /// Keyboard LeftArrow (Footnote 7)
    KeyboardLeftArrow,
    /// Keyboard DownArrow (Footnote 7)
    KeyboardDownArrow,
    /// Keyboard UpArrow (Footnote 7)
    KeyboardUpArrow,
    /// Keypad Num Lock and Clear (Footnote 6)
    KeypadNumLock,
    /// Keypad / (Footnote 7)
    KeypadDivide,
    /// Keypad *
    KeypadMultiply,
    /// Keypad -
    KeypadMinus,
    /// Keypad +
    KeypadPlus,
    /// Keypad ENTER (Footnote 3)
    KeypadEnter,
    /// Keypad 1 and End
    Keypad1End,
    /// Keypad 2 and DownArrow
    Keypad2DownArrow,
    /// Keypad 3 and PageDown
    Keypad3PageDown,
    /// Keypad 4 and LeftArrow
    Keypad4LeftArrow,
    /// Keypad 5
    Keypad5,
    /// Keypad 6 and RightArrow
    Keypad6RightArrow,
    /// Keypad 7 and Home
    Keypad7Home,
    /// Keypad 8 and UpArrow
    Keypad8UpArrow,
    /// Keypad 9 and PageUp
    Keypad9PageUp,
    /// Keypad 0 and Insert
    Keypad0Insert,
    /// Keypad . and Delete
    KeypadPeriodDelete,
    /// Keyboard Non-US \ and | (Footnote 9) (Footnote 10)
    KeyboardNonUSSlash,
    /// Keyboard Application (Footnote 11)
    KeyboardApplication,
    /// Keyboard Power (Footnote 1)
    KeyboardPower,
    /// Keypad =
    KeypadEqual,
    /// Keyboard F13
    KeyboardF13,
    /// Keyboard F14
    KeyboardF14,
    /// Keyboard F15
    KeyboardF15,
    /// Keyboard F16
    KeyboardF16,
    /// Keyboard F17
    KeyboardF17,
    /// Keyboard F18
    KeyboardF18,
    /// Keyboard F19
    KeyboardF19,
    /// Keyboard F20
    KeyboardF20,
    /// Keyboard F21
    KeyboardF21,
    /// Keyboard F22
    KeyboardF22,
    /// Keyboard F23
    KeyboardF23,
    /// Keyboard F24
    KeyboardF24,
    /// Keyboard Execute
    KeyboardExecute,
    /// Keyboard Help
    KeyboardHelp,
    /// Keyboard Menu
    KeyboardMenu,
    /// Keyboard Select
    KeyboardSelect,
    /// Keyboard Stop
    KeyboardStop,
    /// Keyboard Again
    KeyboardAgain,
    /// Keyboard Undo
    KeyboardUndo,
    /// Keyboard Cut
    KeyboardCut,
    /// Keyboard Copy
    KeyboardCopy,
    /// Keyboard Paste
    KeyboardPaste,
    /// Keyboard Find
    KeyboardFind,
    /// Keyboard Mute
    KeyboardMute,
    /// Keyboard Volume Up
    KeyboardVolumeUp,
    /// Keyboard Volume Down
    KeyboardVolumeDown,
    /// Keyboad Locking Caps Lock (Footnote 12)
    KeyboardLockingCapsLock,
    /// Keyboad Locking Num Lock (Footnote 12)
    KeyboardLockingNumLock,
    /// Keyboad Locking Scroll Lock (Footnote 12)
    KeyboardLockingScrollLock,
    /// Keypad Comma (Footnote 13)
    KeypadComma,
    /// Keypad Equal Sign (Footnote 14)
    KeypadEqualSign,
    /// Keyboard International1 (Footnote 15) (Footnote 16)
    KeyboardInternational1,
    /// Keyboard International2 (Footnote 17)
    KeyboardInternational2,
    /// Keyboard International3 (Footnote 18)
    KeyboardInternational3,
    /// Keyboard International4 (Footnote 19)
    KeyboardInternational4,
    /// Keyboard International5 (Footnote 20)
    KeyboardInternational5,
    /// Keyboard International6 (Footnote 21)
    KeyboardInternational6,
    /// Keyboard International7 (Footnote 22)
    KeyboardInternational7,
    /// Keyboard International8 (Footnote 23)
    KeyboardInternational8,
    /// Keyboard International9 (Footnote 23)
    KeyboardInternational9,
    /// Keyboard LANG1 (Footnote 24)
    KeyboardLANG1,
    /// Keyboard LANG2 (Footnote 25)
    KeyboardLANG2,
    /// Keyboard LANG3 (Footnote 26)
    KeyboardLANG3,
    /// Keyboard LANG4 (Footnote 27)
    KeyboardLANG4,
    /// Keyboard LANG5 (Footnote 28)
    KeyboardLANG5,
    /// Keyboard LANG6 (Footnote 29)
    KeyboardLANG6,
    /// Keyboard LANG7 (Footnote 29)
    KeyboardLANG7,
    /// Keyboard LANG8 (Footnote 29)
    KeyboardLANG8,
    /// Keyboard LANG9 (Footnote 29)
    KeyboardLANG9,
    /// Keyboard Alternate Erase (Footnote 30)
    KeyboardAlternateErase,
    /// Keyboard SysReq/Attention (Footnote 7)
    KeyboardSysReqAttention,
    /// Keyboard Cancel
    KeyboardCancel,
    /// Keyboard Clear
    KeyboardClear,
    /// Keyboard Prior
    KeyboardPrior,
    /// Keyboard Return
    KeyboardReturn,
    /// Keyboard Separator
    KeyboardSeparator,
    /// Keyboard Out
    KeyboardOut,
    /// Keyboard Oper
    KeyboardOper,
    /// Keyboard Clear/Again
    KeyboardClearAgain,
    /// Keyboard CrSel/Props
    KeyboardCrSelProps,
    /// Keyboard ExSel
    KeyboardExSel,
    /// Keypad 00
    Keypad00,
    /// Keypad 000
    Keypad000,
    /// Thousands Separator (Footnote 31)
    ThousandsSeparator,
    /// Decimal Separator (Footnote 31)
    DecimalSeparator,
    /// Currency Unit (Footnote 32)
    CurrencyUnit,
    /// Currency Sub-unit (Footnote 32)
    CurrencySubunit,
    /// Keypad (
    KeypadOpenParens,
    /// Keypad )
    KeypadCloseParens,
    /// Keypad {
    KeypadOpenBrace,
    /// Keypad }
    KeypadCloseBrace,
    /// Keypad Tab
    KeypadTab,
    /// Keypad Backspace
    KeypadBackspace,
    /// Keypad A
    KeypadA,
    /// Keypad B
    KeypadB,
    /// Keypad C
    KeypadC,
    /// Keypad D
    KeypadD,
    /// Keypad E
    KeypadE,
    /// Keypad F
    KeypadF,
    /// Keypad XOR
    KeypadBitwiseXor,
    /// Keypad ^
    KeypadLogicalXor,
    /// Keypad %
    KeypadModulo,
    /// Keypad <
    KeypadLeftShift,
    /// Keypad >
    KeypadRightShift,
    /// Keypad &
    KeypadBitwiseAnd,
    /// Keypad &&
    KeypadLogicalAnd,
    /// Keypad |
    KeypadBitwiseOr,
    /// Keypad ||
    KeypadLogicalOr,
    /// Keypad :
    KeypadColon,
    /// Keypad #
    KeypadHash,
    /// Keypad Space
    KeypadSpace,
    /// Keypad @
    KeypadAt,
    /// Keypad !
    KeypadExclamation,
    /// Keypad Memory Store
    KeypadMemoryStore,
    /// Keypad Memory Recall
    KeypadMemoryRecall,
    /// Keypad Memory Clear
    KeypadMemoryClear,
    /// Keypad Memory Add
    KeypadMemoryAdd,
    /// Keypad Memory Subtract
    KeypadMemorySubtract,
    /// Keypad Memory Multiply
    KeypadMemoryMultiply,
    /// Keypad Memory Divice
    KeypadMemoryDivide,
    /// Keypad +/-
    KeypadPositiveNegative,
    /// Keypad Clear
    KeypadClear,
    /// Keypad Clear Entry
    KeypadClearEntry,
    /// Keypad Binary
    KeypadBinary,
    /// Keypad Octal
    KeypadOctal,
    /// Keypad Decimal
    KeypadDecimal,
    /// Keypad Hexadecimal
    KeypadHexadecimal,
    /// Keyboard LeftControl
    KeyboardLeftControl,
    /// Keyboard LeftShift
    KeyboardLeftShift,
    /// Keyboard LeftAlt
    KeyboardLeftAlt,
    /// Keyboard LeftGUI (Footnote 11) (Footnote 33)
    KeyboardLeftGUI,
    /// Keyboard RightControl
    KeyboardRightControl,
    /// Keyboard RightShift
    KeyboardRightShift,
    /// Keyboard RightAlt
    KeyboardRightAlt,
    /// Keyboard RightGUI (Footnote 11) (Footnote 34)
    KeyboardRightGUI,
    /// Reserved keyboard values (used for all reserved / invalid values)
    Reserved,
}

impl KeyboardUsage {
    pub open spec fn spec_code(self) -> u8 {
        match self {
            KeyboardUsage::KeyboardErrorRollOver => 0x1,
            KeyboardUsage::KeyboardPOSTFail => 0x2,
            KeyboardUsage::KeyboardErrorUndefined => 0x3,
            KeyboardUsage::KeyboardAa => 0x4,
            KeyboardUsage::KeyboardBb => 0x5,
            KeyboardUsage::KeyboardCc => 0x6,
            KeyboardUsage::KeyboardDd => 0x7,
            KeyboardUsage::KeyboardEe => 0x8,
            KeyboardUsage::KeyboardFf => 0x9,
            KeyboardUsage::KeyboardGg => 0xa,
            KeyboardUsage::KeyboardHh => 0xb,
            KeyboardUsage::KeyboardIi => 0xc,
            KeyboardUsage::KeyboardJj => 0xd,
            KeyboardUsage::KeyboardKk => 0xe,
            KeyboardUsage::KeyboardLl => 0xf,
            KeyboardUsage::KeyboardMm => 0x10,
            KeyboardUsage::KeyboardNn => 0x11,
            KeyboardUsage::KeyboardOo => 0x12,
            KeyboardUsage::KeyboardPp => 0x13,
            KeyboardUsage::KeyboardQq => 0x14,
            KeyboardUsage::KeyboardRr => 0x15,
            KeyboardUsage::KeyboardSs => 0x16,
            KeyboardUsage::KeyboardTt => 0x17,
            KeyboardUsage::KeyboardUu => 0x18,
            KeyboardUsage::KeyboardVv => 0x19,
            KeyboardUsage::KeyboardWw => 0x1a,
            KeyboardUsage::KeyboardXx => 0x1b,
            KeyboardUsage::KeyboardYy => 0x1c,
            KeyboardUsage::KeyboardZz => 0x1d,
            KeyboardUsage::Keyboard1Exclamation => 0x1e,
            KeyboardUsage::Keyboard2At => 0x1f,
            KeyboardUsage::Keyboard3Hash => 0x20,
            KeyboardUsage::Keyboard4Dollar => 0x21,
            KeyboardUsage::Keyboard5Percent => 0x22,
            KeyboardUsage::Keyboard6Caret => 0x23,
            KeyboardUsage::Keyboard7Ampersand => 0x24,
            KeyboardUsage::Keyboard8Asterisk => 0x25,
            KeyboardUsage::Keyboard9OpenParens => 0x26,
            KeyboardUsage::Keyboard0CloseParens => 0x27,
            KeyboardUsage::KeyboardEnter => 0x28,
            KeyboardUsage::KeyboardEscape => 0x29,
            KeyboardUsage::KeyboardBackspace => 0x2a,
            KeyboardUsage::KeyboardTab => 0x2b,
            KeyboardUsage::KeyboardSpacebar => 0x2c,
            KeyboardUsage::KeyboardDashUnderscore => 0x2d,
            KeyboardUsage::KeyboardEqualPlus => 0x2e,
            KeyboardUsage::KeyboardOpenBracketBrace => 0x2f,
            KeyboardUsage::KeyboardCloseBracketBrace => 0x30,
            KeyboardUsage::KeyboardBackslashBar => 0x31,
            KeyboardUsage::KeyboardNonUSHash => 0x32,
            KeyboardUsage::KeyboardSemiColon => 0x33,
            KeyboardUsage::KeyboardSingleDoubleQuote => 0x34,
            KeyboardUsage::KeyboardBacktickTilde => 0x35,
            KeyboardUsage::KeyboardCommaLess => 0x36,
            KeyboardUsage::KeyboardPeriodGreater => 0x37,
            KeyboardUsage::KeyboardSlashQuestion => 0x38,
            KeyboardUsage::KeyboardCapsLock => 0x39,
            KeyboardUsage::KeyboardF1 => 0x3a,
            KeyboardUsage::KeyboardF2 => 0x3b,
            KeyboardUsage::KeyboardF3 => 0x3c,
            KeyboardUsage::KeyboardF4 => 0x3d,
            KeyboardUsage::KeyboardF5 => 0x3e,
            KeyboardUsage::KeyboardF6 => 0x3f,
            KeyboardUsage::KeyboardF7 => 0x40,
            KeyboardUsage::KeyboardF8 => 0x41,
            KeyboardUsage::KeyboardF9 => 0x42,
            KeyboardUsage::KeyboardF10 => 0x43,
            KeyboardUsage::KeyboardF11 => 0x44,
            KeyboardUsage::KeyboardF12 => 0x45,
            KeyboardUsage::KeyboardPrintScreen => 0x46,
            KeyboardUsage::KeyboardScrollLock => 0x47,
            KeyboardUsage::KeyboardPause => 0x48,
            KeyboardUsage::KeyboardInsert => 0x49,
            KeyboardUsage::KeyboardHome => 0x4a,
            KeyboardUsage::KeyboardPageUp => 0x4b,
            KeyboardUsage::KeyboardDelete => 0x4c,
            KeyboardUsage::KeyboardEnd => 0x4d,
            KeyboardUsage::KeyboardPageDown => 0x4e,
            KeyboardUsage::KeyboardRightArrow => 0x4f,
            KeyboardUsage::KeyboardLeftArrow => 0x50,
            KeyboardUsage::KeyboardDownArrow => 0x51,
            KeyboardUsage::KeyboardUpArrow => 0x52,
            KeyboardUsage::KeypadNumLock => 0x53,
            KeyboardUsage::KeypadDivide => 0x54,
            KeyboardUsage::KeypadMultiply => 0x55,
            KeyboardUsage::KeypadMinus => 0x56,
            KeyboardUsage::KeypadPlus => 0x57,
            KeyboardUsage::KeypadEnter => 0x58,
            KeyboardUsage::Keypad1End => 0x59,
            KeyboardUsage::Keypad2DownArrow => 0x5a,
            KeyboardUsage::Keypad3PageDown => 0x5b,
            KeyboardUsage::Keypad4LeftArrow => 0x5c,
            KeyboardUsage::Keypad5 => 0x5d,
            KeyboardUsage::Keypad6RightArrow => 0x5e,
            KeyboardUsage::Keypad7Home => 0x5f,
            KeyboardUsage::Keypad8UpArrow => 0x60,
            KeyboardUsage::Keypad9PageUp => 0x61,
            KeyboardUsage::Keypad0Insert => 0x62,
            KeyboardUsage::KeypadPeriodDelete => 0x63,
            KeyboardUsage::KeyboardNonUSSlash => 0x64,
            KeyboardUsage::KeyboardApplication => 0x65,
            KeyboardUsage::KeyboardPower => 0x66,
            KeyboardUsage::KeypadEqual => 0x67,
            KeyboardUsage::KeyboardF13 => 0x68,
            KeyboardUsage::KeyboardF14 => 0x69,
            KeyboardUsage::KeyboardF15 => 0x6a,
            KeyboardUsage::KeyboardF16 => 0x6b,
            KeyboardUsage::KeyboardF17 => 0x6c,
            KeyboardUsage::KeyboardF18 => 0x6d,
            KeyboardUsage::KeyboardF19 => 0x6e,
            KeyboardUsage::KeyboardF20 => 0x6f,
            KeyboardUsage::KeyboardF21 => 0x70,
            KeyboardUsage::KeyboardF22 => 0x71,
            KeyboardUsage::KeyboardF23 => 0x72,
            KeyboardUsage::KeyboardF24 => 0x73,
            KeyboardUsage::KeyboardExecute => 0x74,
            KeyboardUsage::KeyboardHelp => 0x75,
            KeyboardUsage::KeyboardMenu => 0x76,
            KeyboardUsage::KeyboardSelect => 0x77,
            KeyboardUsage::KeyboardStop => 0x78,
            KeyboardUsage::KeyboardAgain => 0x79,
            KeyboardUsage::KeyboardUndo => 0x7a,
            KeyboardUsage::KeyboardCut => 0x7b,
            KeyboardUsage::KeyboardCopy => 0x7c,
            KeyboardUsage::KeyboardPaste => 0x7d,
            KeyboardUsage::KeyboardFind => 0x7e,
            KeyboardUsage::KeyboardMute => 0x7f,
            KeyboardUsage::KeyboardVolumeUp => 0x80,
            KeyboardUsage::KeyboardVolumeDown => 0x81,
            KeyboardUsage::KeyboardLockingCapsLock => 0x82,
            KeyboardUsage::KeyboardLockingNumLock => 0x83,
            KeyboardUsage::KeyboardLockingScrollLock => 0x84,
            KeyboardUsage::KeypadComma => 0x85,
            KeyboardUsage::KeypadEqualSign => 0x86,
            KeyboardUsage::KeyboardInternational1 => 0x87,
            KeyboardUsage::KeyboardInternational2 => 0x88,
            KeyboardUsage::KeyboardInternational3 => 0x89,
            KeyboardUsage::KeyboardInternational4 => 0x8a,
            KeyboardUsage::KeyboardInternational5 => 0x8b,
            KeyboardUsage::KeyboardInternational6 => 0x8c,
            KeyboardUsage::KeyboardInternational7 => 0x8d,
            KeyboardUsage::KeyboardInternational8 => 0x8e,
            KeyboardUsage::KeyboardInternational9 => 0x8f,
            KeyboardUsage::KeyboardLANG1 => 0x90,
            KeyboardUsage::KeyboardLANG2 => 0x91,
            KeyboardUsage::KeyboardLANG3 => 0x92,
            KeyboardUsage::KeyboardLANG4 => 0x93,
            KeyboardUsage::KeyboardLANG5 => 0x94,
            KeyboardUsage::KeyboardLANG6 => 0x95,
            KeyboardUsage::KeyboardLANG7 => 0x96,
            KeyboardUsage::KeyboardLANG8 => 0x97,
            KeyboardUsage::KeyboardLANG9 => 0x98,
            KeyboardUsage::KeyboardAlternateErase => 0x99,
            KeyboardUsage::KeyboardSysReqAttention => 0x9a,
            KeyboardUsage::KeyboardCancel => 0x9b,
            KeyboardUsage::KeyboardClear => 0x9c,
            KeyboardUsage::KeyboardPrior => 0x9d,
            KeyboardUsage::KeyboardReturn => 0x9e,
            KeyboardUsage::KeyboardSeparator => 0x9f,
            KeyboardUsage::KeyboardOut => 0xa0,
            KeyboardUsage::KeyboardOper => 0xa1,
            KeyboardUsage::KeyboardClearAgain => 0xa2,
            KeyboardUsage::KeyboardCrSelProps => 0xa3,
            KeyboardUsage::KeyboardExSel => 0xa4,
            KeyboardUsage::Keypad00 => 0xb0,
            KeyboardUsage::Keypad000 => 0xb1,
            KeyboardUsage::ThousandsSeparator => 0xb2,
            KeyboardUsage::DecimalSeparator => 0xb3,
            KeyboardUsage::CurrencyUnit => 0xb4,
            KeyboardUsage::CurrencySubunit => 0xb5,
            KeyboardUsage::KeypadOpenParens => 0xb6,
            KeyboardUsage::KeypadCloseParens => 0xb7,
            KeyboardUsage::KeypadOpenBrace => 0xb8,
            KeyboardUsage::KeypadCloseBrace => 0xb9,
            KeyboardUsage::KeypadTab => 0xba,
            KeyboardUsage::KeypadBackspace => 0xbb,
            KeyboardUsage::KeypadA => 0xbc,
            KeyboardUsage::KeypadB => 0xbd,
            KeyboardUsage::KeypadC => 0xbe,
            KeyboardUsage::KeypadD => 0xbf,
            KeyboardUsage::KeypadE => 0xc0,
            KeyboardUsage::KeypadF => 0xc1,
            KeyboardUsage::KeypadBitwiseXor => 0xc2,
            KeyboardUsage::KeypadLogicalXor => 0xc3,
            KeyboardUsage::KeypadModulo => 0xc4,
            KeyboardUsage::KeypadLeftShift => 0xc5,
            KeyboardUsage::KeypadRightShift => 0xc6,
            KeyboardUsage::KeypadBitwiseAnd => 0xc7,
            KeyboardUsage::KeypadLogicalAnd => 0xc8,
            KeyboardUsage::KeypadBitwiseOr => 0xc9,
            KeyboardUsage::KeypadLogicalOr => 0xca,
            KeyboardUsage::KeypadColon => 0xcb,
            KeyboardUsage::KeypadHash => 0xcc,
            KeyboardUsage::KeypadSpace => 0xcd,
            KeyboardUsage::KeypadAt => 0xce,
            KeyboardUsage::KeypadExclamation => 0xcf,
            KeyboardUsage::KeypadMemoryStore => 0xd0,
            KeyboardUsage::KeypadMemoryRecall => 0xd1,
            KeyboardUsage::KeypadMemoryClear => 0xd2,
            KeyboardUsage::KeypadMemoryAdd => 0xd3,
            KeyboardUsage::KeypadMemorySubtract => 0xd4,
            KeyboardUsage::KeypadMemoryMultiply => 0xd5,
            KeyboardUsage::KeypadMemoryDivide => 0xd6,
            KeyboardUsage::KeypadPositiveNegative => 0xd7,
            KeyboardUsage::KeypadClear => 0xd8,
            KeyboardUsage::KeypadClearEntry => 0xd9,
            KeyboardUsage::KeypadBinary => 0xda,
            KeyboardUsage::KeypadOctal => 0xdb,
            KeyboardUsage::KeypadDecimal => 0xdc,
            KeyboardUsage::KeypadHexadecimal => 0xdd,
            KeyboardUsage::KeyboardLeftControl => 0xe0,
            KeyboardUsage::KeyboardLeftShift => 0xe1,
            KeyboardUsage::KeyboardLeftAlt => 0xe2,
            KeyboardUsage::KeyboardLeftGUI => 0xe3,
            KeyboardUsage::KeyboardRightControl => 0xe4,
            KeyboardUsage::KeyboardRightShift => 0xe5,
            KeyboardUsage::KeyboardRightAlt => 0xe6,
            KeyboardUsage::KeyboardRightGUI => 0xe7,
            KeyboardUsage::Reserved => 0xe8,
        }
    }

    /// The usage code.
    #[verifier::when_used_as_spec(spec_code)]
    pub fn code(self) -> (r: u8)
        ensures
            r == self.spec_code(),
    {
        match self {
            KeyboardUsage::KeyboardErrorRollOver => 0x1,
            KeyboardUsage::KeyboardPOSTFail => 0x2,
            KeyboardUsage::KeyboardErrorUndefined => 0x3,
            KeyboardUsage::KeyboardAa => 0x4,
            KeyboardUsage::KeyboardBb => 0x5,
            KeyboardUsage::KeyboardCc => 0x6,
            KeyboardUsage::KeyboardDd => 0x7,
            KeyboardUsage::KeyboardEe => 0x8,
            KeyboardUsage::KeyboardFf => 0x9,
            KeyboardUsage::KeyboardGg => 0xa,
            KeyboardUsage::KeyboardHh => 0xb,
            KeyboardUsage::KeyboardIi => 0xc,
            KeyboardUsage::KeyboardJj => 0xd,
            KeyboardUsage::KeyboardKk => 0xe,
            KeyboardUsage::KeyboardLl => 0xf,
            KeyboardUsage::KeyboardMm => 0x10,
            KeyboardUsage::KeyboardNn => 0x11,
            KeyboardUsage::KeyboardOo => 0x12,
            KeyboardUsage::KeyboardPp => 0x13,
            KeyboardUsage::KeyboardQq => 0x14,
            KeyboardUsage::KeyboardRr => 0x15,
            KeyboardUsage::KeyboardSs => 0x16,
            KeyboardUsage::KeyboardTt => 0x17,
            KeyboardUsage::KeyboardUu => 0x18,
            KeyboardUsage::KeyboardVv => 0x19,
            KeyboardUsage::KeyboardWw => 0x1a,
            KeyboardUsage::KeyboardXx => 0x1b,
            KeyboardUsage::KeyboardYy => 0x1c,
            KeyboardUsage::KeyboardZz => 0x1d,
            KeyboardUsage::Keyboard1Exclamation => 0x1e,
            KeyboardUsage::Keyboard2At => 0x1f,
            KeyboardUsage::Keyboard3Hash => 0x20,
            KeyboardUsage::Keyboard4Dollar => 0x21,
            KeyboardUsage::Keyboard5Percent => 0x22,
            KeyboardUsage::Keyboard6Caret => 0x23,
            KeyboardUsage::Keyboard7Ampersand => 0x24,
            KeyboardUsage::Keyboard8Asterisk => 0x25,
            KeyboardUsage::Keyboard9OpenParens => 0x26,
            KeyboardUsage::Keyboard0CloseParens => 0x27,
            KeyboardUsage::KeyboardEnter => 0x28,
            KeyboardUsage::KeyboardEscape => 0x29,
            KeyboardUsage::KeyboardBackspace => 0x2a,
            KeyboardUsage::KeyboardTab => 0x2b,
            KeyboardUsage::KeyboardSpacebar => 0x2c,
            KeyboardUsage::KeyboardDashUnderscore => 0x2d,
            KeyboardUsage::KeyboardEqualPlus => 0x2e,
            KeyboardUsage::KeyboardOpenBracketBrace => 0x2f,
            KeyboardUsage::KeyboardCloseBracketBrace => 0x30,
            KeyboardUsage::KeyboardBackslashBar => 0x31,
            KeyboardUsage::KeyboardNonUSHash => 0x32,
            KeyboardUsage::KeyboardSemiColon => 0x33,
            KeyboardUsage::KeyboardSingleDoubleQuote => 0x34,
            KeyboardUsage::KeyboardBacktickTilde => 0x35,
            KeyboardUsage::KeyboardCommaLess => 0x36,
            KeyboardUsage::KeyboardPeriodGreater => 0x37,
            KeyboardUsage::KeyboardSlashQuestion => 0x38,
            KeyboardUsage::KeyboardCapsLock => 0x39,
            KeyboardUsage::KeyboardF1 => 0x3a,
            KeyboardUsage::KeyboardF2 => 0x3b,
            KeyboardUsage::KeyboardF3 => 0x3c,
            KeyboardUsage::KeyboardF4 => 0x3d,
            KeyboardUsage::KeyboardF5 => 0x3e,
            KeyboardUsage::KeyboardF6 => 0x3f,
            KeyboardUsage::KeyboardF7 => 0x40,
            KeyboardUsage::KeyboardF8 => 0x41,
            KeyboardUsage::KeyboardF9 => 0x42,
            KeyboardUsage::KeyboardF10 => 0x43,
            KeyboardUsage::KeyboardF11 => 0x44,
            KeyboardUsage::KeyboardF12 => 0x45,
            KeyboardUsage::KeyboardPrintScreen => 0x46,
            KeyboardUsage::KeyboardScrollLock => 0x47,
            KeyboardUsage::KeyboardPause => 0x48,
            KeyboardUsage::KeyboardInsert => 0x49,
            KeyboardUsage::KeyboardHome => 0x4a,
            KeyboardUsage::KeyboardPageUp => 0x4b,
            KeyboardUsage::KeyboardDelete => 0x4c,
            KeyboardUsage::KeyboardEnd => 0x4d,
            KeyboardUsage::KeyboardPageDown => 0x4e,
            KeyboardUsage::KeyboardRightArrow => 0x4f,
            KeyboardUsage::KeyboardLeftArrow => 0x50,
            KeyboardUsage::KeyboardDownArrow => 0x51,
            KeyboardUsage::KeyboardUpArrow => 0x52,
            KeyboardUsage::KeypadNumLock => 0x53,
            KeyboardUsage::KeypadDivide => 0x54,
            KeyboardUsage::KeypadMultiply => 0x55,
            KeyboardUsage::KeypadMinus => 0x56,
            KeyboardUsage::KeypadPlus => 0x57,
            KeyboardUsage::KeypadEnter => 0x58,
            KeyboardUsage::Keypad1End => 0x59,
            KeyboardUsage::Keypad2DownArrow => 0x5a,
            KeyboardUsage::Keypad3PageDown => 0x5b,
            KeyboardUsage::Keypad4LeftArrow => 0x5c,
            KeyboardUsage::Keypad5 => 0x5d,
            KeyboardUsage::Keypad6RightArrow => 0x5e,
            KeyboardUsage::Keypad7Home => 0x5f,
            KeyboardUsage::Keypad8UpArrow => 0x60,
            KeyboardUsage::Keypad9PageUp => 0x61,
            KeyboardUsage::Keypad0Insert => 0x62,
            KeyboardUsage::KeypadPeriodDelete => 0x63,
            KeyboardUsage::KeyboardNonUSSlash => 0x64,
            KeyboardUsage::KeyboardApplication => 0x65,
            KeyboardUsage::KeyboardPower => 0x66,
            KeyboardUsage::KeypadEqual => 0x67,
            KeyboardUsage::KeyboardF13 => 0x68,
            KeyboardUsage::KeyboardF14 => 0x69,
            KeyboardUsage::KeyboardF15 => 0x6a,
            KeyboardUsage::KeyboardF16 => 0x6b,
            KeyboardUsage::KeyboardF17 => 0x6c,
            KeyboardUsage::KeyboardF18 => 0x6d,
            KeyboardUsage::KeyboardF19 => 0x6e,
            KeyboardUsage::KeyboardF20 => 0x6f,
            KeyboardUsage::KeyboardF21 => 0x70,
            KeyboardUsage::KeyboardF22 => 0x71,
            KeyboardUsage::KeyboardF23 => 0x72,
            KeyboardUsage::KeyboardF24 => 0x73,
            KeyboardUsage::KeyboardExecute => 0x74,
            KeyboardUsage::KeyboardHelp => 0x75,
            KeyboardUsage::KeyboardMenu => 0x76,
            KeyboardUsage::KeyboardSelect => 0x77,
            KeyboardUsage::KeyboardStop => 0x78,
            KeyboardUsage::KeyboardAgain => 0x79,
            KeyboardUsage::KeyboardUndo => 0x7a,
            KeyboardUsage::KeyboardCut => 0x7b,
            KeyboardUsage::KeyboardCopy => 0x7c,
            KeyboardUsage::KeyboardPaste => 0x7d,
            KeyboardUsage::KeyboardFind => 0x7e,
            KeyboardUsage::KeyboardMute => 0x7f,
            KeyboardUsage::KeyboardVolumeUp => 0x80,
            KeyboardUsage::KeyboardVolumeDown => 0x81,
            KeyboardUsage::KeyboardLockingCapsLock => 0x82,
            KeyboardUsage::KeyboardLockingNumLock => 0x83,
            KeyboardUsage::KeyboardLockingScrollLock => 0x84,
            KeyboardUsage::KeypadComma => 0x85,
            KeyboardUsage::KeypadEqualSign => 0x86,
            KeyboardUsage::KeyboardInternational1 => 0x87,
            KeyboardUsage::KeyboardInternational2 => 0x88,
            KeyboardUsage::KeyboardInternational3 => 0x89,
            KeyboardUsage::KeyboardInternational4 => 0x8a,
            KeyboardUsage::KeyboardInternational5 => 0x8b,
            KeyboardUsage::KeyboardInternational6 => 0x8c,
            KeyboardUsage::KeyboardInternational7 => 0x8d,
            KeyboardUsage::KeyboardInternational8 => 0x8e,
            KeyboardUsage::KeyboardInternational9 => 0x8f,
            KeyboardUsage::KeyboardLANG1 => 0x90,
            KeyboardUsage::KeyboardLANG2 => 0x91,
            KeyboardUsage::KeyboardLANG3 => 0x92,
            KeyboardUsage::KeyboardLANG4 => 0x93,
            KeyboardUsage::KeyboardLANG5 => 0x94,
            KeyboardUsage::KeyboardLANG6 => 0x95,
            KeyboardUsage::KeyboardLANG7 => 0x96,
            KeyboardUsage::KeyboardLANG8 => 0x97,
            KeyboardUsage::KeyboardLANG9 => 0x98,
            KeyboardUsage::KeyboardAlternateErase => 0x99,
            KeyboardUsage::KeyboardSysReqAttention => 0x9a,
            KeyboardUsage::KeyboardCancel => 0x9b,
            KeyboardUsage::KeyboardClear => 0x9c,
            KeyboardUsage::KeyboardPrior => 0x9d,
            KeyboardUsage::KeyboardReturn => 0x9e,
            KeyboardUsage::KeyboardSeparator => 0x9f,
            KeyboardUsage::KeyboardOut => 0xa0,
            KeyboardUsage::KeyboardOper => 0xa1,
            KeyboardUsage::KeyboardClearAgain => 0xa2,
            KeyboardUsage::KeyboardCrSelProps => 0xa3,
            KeyboardUsage::KeyboardExSel => 0xa4,
            KeyboardUsage::Keypad00 => 0xb0,
            KeyboardUsage::Keypad000 => 0xb1,
            KeyboardUsage::ThousandsSeparator => 0xb2,
            KeyboardUsage::DecimalSeparator => 0xb3,
            KeyboardUsage::CurrencyUnit => 0xb4,
            KeyboardUsage::CurrencySubunit => 0xb5,
            KeyboardUsage::KeypadOpenParens => 0xb6,
            KeyboardUsage::KeypadCloseParens => 0xb7,
            KeyboardUsage::KeypadOpenBrace => 0xb8,
            KeyboardUsage::KeypadCloseBrace => 0xb9,
            KeyboardUsage::KeypadTab => 0xba,
            KeyboardUsage::KeypadBackspace => 0xbb,
            KeyboardUsage::KeypadA => 0xbc,
            KeyboardUsage::KeypadB => 0xbd,
            KeyboardUsage::KeypadC => 0xbe,
            KeyboardUsage::KeypadD => 0xbf,
            KeyboardUsage::KeypadE => 0xc0,
            KeyboardUsage::KeypadF => 0xc1,
            KeyboardUsage::KeypadBitwiseXor => 0xc2,
            KeyboardUsage::KeypadLogicalXor => 0xc3,
            KeyboardUsage::KeypadModulo => 0xc4,
            KeyboardUsage::KeypadLeftShift => 0xc5,
            KeyboardUsage::KeypadRightShift => 0xc6,
            KeyboardUsage::KeypadBitwiseAnd => 0xc7,
            KeyboardUsage::KeypadLogicalAnd => 0xc8,
            KeyboardUsage::KeypadBitwiseOr => 0xc9,
            KeyboardUsage::KeypadLogicalOr => 0xca,
            KeyboardUsage::KeypadColon => 0xcb,
            KeyboardUsage::KeypadHash => 0xcc,
            KeyboardUsage::KeypadSpace => 0xcd,
            KeyboardUsage::KeypadAt => 0xce,
            KeyboardUsage::KeypadExclamation => 0xcf,
            KeyboardUsage::KeypadMemoryStore => 0xd0,
            KeyboardUsage::KeypadMemoryRecall => 0xd1,
            KeyboardUsage::KeypadMemoryClear => 0xd2,
            KeyboardUsage::KeypadMemoryAdd => 0xd3,
            KeyboardUsage::KeypadMemorySubtract => 0xd4,
            KeyboardUsage::KeypadMemoryMultiply => 0xd5,
            KeyboardUsage::KeypadMemoryDivide => 0xd6,
            KeyboardUsage::KeypadPositiveNegative => 0xd7,
            KeyboardUsage::KeypadClear => 0xd8,
            KeyboardUsage::KeypadClearEntry => 0xd9,
            KeyboardUsage::KeypadBinary => 0xda,
            KeyboardUsage::KeypadOctal => 0xdb,
            KeyboardUsage::KeypadDecimal => 0xdc,
            KeyboardUsage::KeypadHexadecimal => 0xdd,
            KeyboardUsage::KeyboardLeftControl => 0xe0,
            KeyboardUsage::KeyboardLeftShift => 0xe1,
            KeyboardUsage::KeyboardLeftAlt => 0xe2,
            KeyboardUsage::KeyboardLeftGUI => 0xe3,
            KeyboardUsage::KeyboardRightControl => 0xe4,
            KeyboardUsage::KeyboardRightShift => 0xe5,
            KeyboardUsage::KeyboardRightAlt => 0xe6,
            KeyboardUsage::KeyboardRightGUI => 0xe7,
            KeyboardUsage::Reserved => 0xe8,
        }
    }

    /// The variant with usage code `k`; `Reserved` for a code that no other
    /// variant has.
    pub fn from_code(k: u8) -> (r: Self)
        ensures
            r.spec_code() == k || (r == KeyboardUsage::Reserved && forall|v: KeyboardUsage| #[trigger] v.spec_code() == k ==> v == KeyboardUsage::Reserved),
    {
        match k {
            0x1 => KeyboardUsage::KeyboardErrorRollOver,
            0x2 => KeyboardUsage::KeyboardPOSTFail,
            0x3 => KeyboardUsage::KeyboardErrorUndefined,
            0x4 => KeyboardUsage::KeyboardAa,
            0x5 => KeyboardUsage::KeyboardBb,
            0x6 => KeyboardUsage::KeyboardCc,
            0x7 => KeyboardUsage::KeyboardDd,
            0x8 => KeyboardUsage::KeyboardEe,
            0x9 => KeyboardUsage::KeyboardFf,
            0xa => KeyboardUsage::KeyboardGg,
            0xb => KeyboardUsage::KeyboardHh,
            0xc => KeyboardUsage::KeyboardIi,
            0xd => KeyboardUsage::KeyboardJj,
            0xe => KeyboardUsage::KeyboardKk,
            0xf => KeyboardUsage::KeyboardLl,
            0x10 => KeyboardUsage::KeyboardMm,
            0x11 => KeyboardUsage::KeyboardNn,
            0x12 => KeyboardUsage::KeyboardOo,
            0x13 => KeyboardUsage::KeyboardPp,
            0x14 => KeyboardUsage::KeyboardQq,
            0x15 => KeyboardUsage::KeyboardRr,
            0x16 => KeyboardUsage::KeyboardSs,
            0x17 => KeyboardUsage::KeyboardTt,
            0x18 => KeyboardUsage::KeyboardUu,
            0x19 => KeyboardUsage::KeyboardVv,
            0x1a => KeyboardUsage::KeyboardWw,
            0x1b => KeyboardUsage::KeyboardXx,
            0x1c => KeyboardUsage::KeyboardYy,
            0x1d => KeyboardUsage::KeyboardZz,
            0x1e => KeyboardUsage::Keyboard1Exclamation,
            0x1f => KeyboardUsage::Keyboard2At,
            0x20 => KeyboardUsage::Keyboard3Hash,
            0x21 => KeyboardUsage::Keyboard4Dollar,
            0x22 => KeyboardUsage::Keyboard5Percent,
            0x23 => KeyboardUsage::Keyboard6Caret,
            0x24 => KeyboardUsage::Keyboard7Ampersand,
            0x25 => KeyboardUsage::Keyboard8Asterisk,
            0x26 => KeyboardUsage::Keyboard9OpenParens,
            0x27 => KeyboardUsage::Keyboard0CloseParens,
            0x28 => KeyboardUsage::KeyboardEnter,
            0x29 => KeyboardUsage::KeyboardEscape,
            0x2a => KeyboardUsage::KeyboardBackspace,
            0x2b => KeyboardUsage::KeyboardTab,
            0x2c => KeyboardUsage::KeyboardSpacebar,
            0x2d => KeyboardUsage::KeyboardDashUnderscore,
            0x2e => KeyboardUsage::KeyboardEqualPlus,
            0x2f => KeyboardUsage::KeyboardOpenBracketBrace,
            0x30 => KeyboardUsage::KeyboardCloseBracketBrace,
            0x31 => KeyboardUsage::KeyboardBackslashBar,
            0x32 => KeyboardUsage::KeyboardNonUSHash,
            0x33 => KeyboardUsage::KeyboardSemiColon,
            0x34 => KeyboardUsage::KeyboardSingleDoubleQuote,
            0x35 => KeyboardUsage::KeyboardBacktickTilde,
            0x36 => KeyboardUsage::KeyboardCommaLess,
            0x37 => KeyboardUsage::KeyboardPeriodGreater,
            0x38 => KeyboardUsage::KeyboardSlashQuestion,
            0x39 => KeyboardUsage::KeyboardCapsLock,
            0x3a => KeyboardUsage::KeyboardF1,
            0x3b => KeyboardUsage::KeyboardF2,
            0x3c => KeyboardUsage::KeyboardF3,
            0x3d => KeyboardUsage::KeyboardF4,
            0x3e => KeyboardUsage::KeyboardF5,
            0x3f => KeyboardUsage::KeyboardF6,
            0x40 => KeyboardUsage::KeyboardF7,
            0x41 => KeyboardUsage::KeyboardF8,
            0x42 => KeyboardUsage::KeyboardF9,
            0x43 => KeyboardUsage::KeyboardF10,
            0x44 => KeyboardUsage::KeyboardF11,
            0x45 => KeyboardUsage::KeyboardF12,
            0x46 => KeyboardUsage::KeyboardPrintScreen,
            0x47 => KeyboardUsage::KeyboardScrollLock,
            0x48 => KeyboardUsage::KeyboardPause,
            0x49 => KeyboardUsage::KeyboardInsert,
            0x4a => KeyboardUsage::KeyboardHome,
            0x4b => KeyboardUsage::KeyboardPageUp,
            0x4c => KeyboardUsage::KeyboardDelete,
            0x4d => KeyboardUsage::KeyboardEnd,
            0x4e => KeyboardUsage::KeyboardPageDown,
            0x4f => KeyboardUsage::KeyboardRightArrow,
            0x50 => KeyboardUsage::KeyboardLeftArrow,
            0x51 => KeyboardUsage::KeyboardDownArrow,
            0x52 => KeyboardUsage::KeyboardUpArrow,
            0x53 => KeyboardUsage::KeypadNumLock,
            0x54 => KeyboardUsage::KeypadDivide,
            0x55 => KeyboardUsage::KeypadMultiply,
            0x56 => KeyboardUsage::KeypadMinus,
            0x57 => KeyboardUsage::KeypadPlus,
            0x58 => KeyboardUsage::KeypadEnter,
            0x59 => KeyboardUsage::Keypad1End,
            0x5a => KeyboardUsage::Keypad2DownArrow,
            0x5b => KeyboardUsage::Keypad3PageDown,
            0x5c => KeyboardUsage::Keypad4LeftArrow,
            0x5d => KeyboardUsage::Keypad5,
            0x5e => KeyboardUsage::Keypad6RightArrow,
            0x5f => KeyboardUsage::Keypad7Home,
            0x60 => KeyboardUsage::Keypad8UpArrow,
            0x61 => KeyboardUsage::Keypad9PageUp,
            0x62 => KeyboardUsage::Keypad0Insert,
            0x63 => KeyboardUsage::KeypadPeriodDelete,
            0x64 => KeyboardUsage::KeyboardNonUSSlash,
            0x65 => KeyboardUsage::KeyboardApplication,
            0x66 => KeyboardUsage::KeyboardPower,
            0x67 => KeyboardUsage::KeypadEqual,
            0x68 => KeyboardUsage::KeyboardF13,
            0x69 => KeyboardUsage::KeyboardF14,
            0x6a => KeyboardUsage::KeyboardF15,
            0x6b => KeyboardUsage::KeyboardF16,
            0x6c => KeyboardUsage::KeyboardF17,
            0x6d => KeyboardUsage::KeyboardF18,
            0x6e => KeyboardUsage::KeyboardF19,
            0x6f => KeyboardUsage::KeyboardF20,
            0x70 => KeyboardUsage::KeyboardF21,
            0x71 => KeyboardUsage::KeyboardF22,
            0x72 => KeyboardUsage::KeyboardF23,
            0x73 => KeyboardUsage::KeyboardF24,
            0x74 => KeyboardUsage::KeyboardExecute,
            0x75 => KeyboardUsage::KeyboardHelp,
            0x76 => KeyboardUsage::KeyboardMenu,
            0x77 => KeyboardUsage::KeyboardSelect,
            0x78 => KeyboardUsage::KeyboardStop,
            0x79 => KeyboardUsage::KeyboardAgain,
            0x7a => KeyboardUsage::KeyboardUndo,
            0x7b => KeyboardUsage::KeyboardCut,
            0x7c => KeyboardUsage::KeyboardCopy,
            0x7d => KeyboardUsage::KeyboardPaste,
            0x7e => KeyboardUsage::KeyboardFind,
            0x7f => KeyboardUsage::KeyboardMute,
            0x80 => KeyboardUsage::KeyboardVolumeUp,
            0x81 => KeyboardUsage::KeyboardVolumeDown,
            0x82 => KeyboardUsage::KeyboardLockingCapsLock,
            0x83 => KeyboardUsage::KeyboardLockingNumLock,
            0x84 => KeyboardUsage::KeyboardLockingScrollLock,
            0x85 => KeyboardUsage::KeypadComma,
            0x86 => KeyboardUsage::KeypadEqualSign,
            0x87 => KeyboardUsage::KeyboardInternational1,
            0x88 => KeyboardUsage::KeyboardInternational2,
            0x89 => KeyboardUsage::KeyboardInternational3,
            0x8a => KeyboardUsage::KeyboardInternational4,
            0x8b => KeyboardUsage::KeyboardInternational5,
            0x8c => KeyboardUsage::KeyboardInternational6,
            0x8d => KeyboardUsage::KeyboardInternational7,
            0x8e => KeyboardUsage::KeyboardInternational8,
            0x8f => KeyboardUsage::KeyboardInternational9,
            0x90 => KeyboardUsage::KeyboardLANG1,
            0x91 => KeyboardUsage::KeyboardLANG2,
            0x92 => KeyboardUsage::KeyboardLANG3,
            0x93 => KeyboardUsage::KeyboardLANG4,
            0x94 => KeyboardUsage::KeyboardLANG5,
            0x95 => KeyboardUsage::KeyboardLANG6,
            0x96 => KeyboardUsage::KeyboardLANG7,
            0x97 => KeyboardUsage::KeyboardLANG8,
            0x98 => KeyboardUsage::KeyboardLANG9,
            0x99 => KeyboardUsage::KeyboardAlternateErase,
            0x9a => KeyboardUsage::KeyboardSysReqAttention,
            0x9b => KeyboardUsage::KeyboardCancel,
            0x9c => KeyboardUsage::KeyboardClear,
            0x9d => KeyboardUsage::KeyboardPrior,
            0x9e => KeyboardUsage::KeyboardReturn,
            0x9f => KeyboardUsage::KeyboardSeparator,
            0xa0 => KeyboardUsage::KeyboardOut,
            0xa1 => KeyboardUsage::KeyboardOper,
            0xa2 => KeyboardUsage::KeyboardClearAgain,
            0xa3 => KeyboardUsage::KeyboardCrSelProps,
            0xa4 => KeyboardUsage::KeyboardExSel,
            0xb0 => KeyboardUsage::Keypad00,
            0xb1 => KeyboardUsage::Keypad000,
            0xb2 => KeyboardUsage::ThousandsSeparator,
            0xb3 => KeyboardUsage::DecimalSeparator,
            0xb4 => KeyboardUsage::CurrencyUnit,
            0xb5 => KeyboardUsage::CurrencySubunit,
            0xb6 => KeyboardUsage::KeypadOpenParens,
            0xb7 => KeyboardUsage::KeypadCloseParens,
            0xb8 => KeyboardUsage::KeypadOpenBrace,
            0xb9 => KeyboardUsage::KeypadCloseBrace,
            0xba => KeyboardUsage::KeypadTab,
            0xbb => KeyboardUsage::KeypadBackspace,
            0xbc => KeyboardUsage::KeypadA,
            0xbd => KeyboardUsage::KeypadB,
            0xbe => KeyboardUsage::KeypadC,
            0xbf => KeyboardUsage::KeypadD,
            0xc0 => KeyboardUsage::KeypadE,
            0xc1 => KeyboardUsage::KeypadF,
            0xc2 => KeyboardUsage::KeypadBitwiseXor,
            0xc3 => KeyboardUsage::KeypadLogicalXor,
            0xc4 => KeyboardUsage::KeypadModulo,
            0xc5 => KeyboardUsage::KeypadLeftShift,
            0xc6 => KeyboardUsage::KeypadRightShift,
            0xc7 => KeyboardUsage::KeypadBitwiseAnd,
            0xc8 => KeyboardUsage::KeypadLogicalAnd,
            0xc9 => KeyboardUsage::KeypadBitwiseOr,
            0xca => KeyboardUsage::KeypadLogicalOr,
            0xcb => KeyboardUsage::KeypadColon,
            0xcc => KeyboardUsage::KeypadHash,
            0xcd => KeyboardUsage::KeypadSpace,
            0xce => KeyboardUsage::KeypadAt,
            0xcf => KeyboardUsage::KeypadExclamation,
            0xd0 => KeyboardUsage::KeypadMemoryStore,
            0xd1 => KeyboardUsage::KeypadMemoryRecall,
            0xd2 => KeyboardUsage::KeypadMemoryClear,
            0xd3 => KeyboardUsage::KeypadMemoryAdd,
            0xd4 => KeyboardUsage::KeypadMemorySubtract,
            0xd5 => KeyboardUsage::KeypadMemoryMultiply,
            0xd6 => KeyboardUsage::KeypadMemoryDivide,
            0xd7 => KeyboardUsage::KeypadPositiveNegative,
            0xd8 => KeyboardUsage::KeypadClear,
            0xd9 => KeyboardUsage::KeypadClearEntry,
            0xda => KeyboardUsage::KeypadBinary,
            0xdb => KeyboardUsage::KeypadOctal,
            0xdc => KeyboardUsage::KeypadDecimal,
            0xdd => KeyboardUsage::KeypadHexadecimal,
            0xe0 => KeyboardUsage::KeyboardLeftControl,
            0xe1 => KeyboardUsage::KeyboardLeftShift,
            0xe2 => KeyboardUsage::KeyboardLeftAlt,
            0xe3 => KeyboardUsage::KeyboardLeftGUI,
            0xe4 => KeyboardUsage::KeyboardRightControl,
            0xe5 => KeyboardUsage::KeyboardRightShift,
            0xe6 => KeyboardUsage::KeyboardRightAlt,
            0xe7 => KeyboardUsage::KeyboardRightGUI,
            _ => KeyboardUsage::Reserved,
        }
    }
}

/// Media player usage ids that can be used in MediaKeyboardReport
#[derive(Clone, Copy, Debug, PartialEq, Eq, Structural)]
pub enum MediaKey {
    Zero,
    Play,
    Pause,
    Record,
    NextTrack,
    PrevTrack,
    Stop,
    RandomPlay,
    Repeat,
    PlayPause,
    Mute,
    VolumeIncrement,
    VolumeDecrement,
    Reserved,
}

impl MediaKey {
    pub open spec fn spec_code(self) -> u16 {
        match self {
            MediaKey::Zero => 0x0,
            MediaKey::Play => 0xb0,
            MediaKey::Pause => 0xb1,
            MediaKey::Record => 0xb2,
            MediaKey::NextTrack => 0xb5,
            MediaKey::PrevTrack => 0xb6,
            MediaKey::Stop => 0xb7,
            MediaKey::RandomPlay => 0xb9,
            MediaKey::Repeat => 0xbc,
            MediaKey::PlayPause => 0xcd,
            MediaKey::Mute => 0xe2,
            MediaKey::VolumeIncrement => 0xe9,
            MediaKey::VolumeDecrement => 0xea,
            MediaKey::Reserved => 0xeb,
        }
    }

    /// The usage code.
    #[verifier::when_used_as_spec(spec_code)]
    pub fn code(self) -> (r: u16)
        ensures
            r == self.spec_code(),
    {
        match self {
            MediaKey::Zero => 0x0,
            MediaKey::Play => 0xb0,
            MediaKey::Pause => 0xb1,
            MediaKey::Record => 0xb2,
            MediaKey::NextTrack => 0xb5,
            MediaKey::PrevTrack => 0xb6,
            MediaKey::Stop => 0xb7,
            MediaKey::RandomPlay => 0xb9,
            MediaKey::Repeat => 0xbc,
            MediaKey::PlayPause => 0xcd,
            MediaKey::Mute => 0xe2,
            MediaKey::VolumeIncrement => 0xe9,
            MediaKey::VolumeDecrement => 0xea,
            MediaKey::Reserved => 0xeb,
        }
    }

    /// The variant with usage code `k`; `Reserved` for a code that no other
    /// variant has.
    pub fn from_code(k: u8) -> (r: Self)
        ensures
            r.spec_code() == k || (r == MediaKey::Reserved && forall|v: MediaKey| #[trigger] v.spec_code() == k ==> v == MediaKey::Reserved),
    {
        match k {
            0x0 => MediaKey::Zero,
            0xb0 => MediaKey::Play,
            0xb1 => MediaKey::Pause,
            0xb2 => MediaKey::Record,
            0xb5 => MediaKey::NextTrack,
            0xb6 => MediaKey::PrevTrack,
            0xb7 => MediaKey::Stop,
            0xb9 => MediaKey::RandomPlay,
            0xbc => MediaKey::Repeat,
            0xcd => MediaKey::PlayPause,
            0xe2 => MediaKey::Mute,
            0xe9 => MediaKey::VolumeIncrement,
            0xea => MediaKey::VolumeDecrement,
            _ => MediaKey::Reserved,
        }
    }
}

/// System control usage ids to use with SystemControlReport
#[derive(Clone, Copy, Debug, PartialEq, Eq, Structural)]
pub enum SystemControlKey {
    PowerDown,
    Sleep,
    WakeUp,
    ContextMenu,
    MainMenu,
    AppMenu,
    MenuHelp,
    MenuExit,
    MenuSelect,
    MenuRight,
    MenuLeft,
    MenuUp,
    MenuDown,
    ColdRestart,
    WarmRestart,
    DpadUp,
    DpadDown,
    DpadRight,
    DpadLeft,
    SystemFunctionShift,
    SystemFunctionShiftLock,
    SystemDismissNotification,
    SystemDoNotDisturb,
    Dock,
    Undock,
    Setup,
    Break,
    DebuggerBreak,
    ApplicationBreak,
    ApplicationDebuggerBreak,
    SpeakerMute,
    Hibernate,
    DisplayInvert,
    DisplayInternal,
    DisplayExternal,
    DisplayBoth,
    DisplayDual,
    DisplayToggleInternalExternal,
    DisplaySwapPrimarySecondary,
    DisplayLcdAutoscale,
    Reserved,
}

impl SystemControlKey {
    pub open spec fn spec_code(self) -> u8 {
        match self {
            SystemControlKey::PowerDown => 0x81,
            SystemControlKey::Sleep => 0x82,
            SystemControlKey::WakeUp => 0x83,
            SystemControlKey::ContextMenu => 0x84,
            SystemControlKey::MainMenu => 0x85,
            SystemControlKey::AppMenu => 0x86,
            SystemControlKey::MenuHelp => 0x87,
            SystemControlKey::MenuExit => 0x88,
            SystemControlKey::MenuSelect => 0x89,
            SystemControlKey::MenuRight => 0x8a,
            SystemControlKey::MenuLeft => 0x8b,
            SystemControlKey::MenuUp => 0x8c,
            SystemControlKey::MenuDown => 0x8d,
            SystemControlKey::ColdRestart => 0x8e,
            SystemControlKey::WarmRestart => 0x8f,
            SystemControlKey::DpadUp => 0x90,
            SystemControlKey::DpadDown => 0x91,
            SystemControlKey::DpadRight => 0x92,
            SystemControlKey::DpadLeft => 0x93,
            SystemControlKey::SystemFunctionShift => 0x97,
            SystemControlKey::SystemFunctionShiftLock => 0x98,
            SystemControlKey::SystemDismissNotification => 0x9a,
            SystemControlKey::SystemDoNotDisturb => 0x9b,
            SystemControlKey::Dock => 0xa0,
            SystemControlKey::Undock => 0xa1,
            SystemControlKey::Setup => 0xa2,
            SystemControlKey::Break => 0xa3,
            SystemControlKey::DebuggerBreak => 0xa4,
            SystemControlKey::ApplicationBreak => 0xa5,
            SystemControlKey::ApplicationDebuggerBreak => 0xa6,
            SystemControlKey::SpeakerMute => 0xa7,
            SystemControlKey::Hibernate => 0xa8,
            SystemControlKey::DisplayInvert => 0xb0,
            SystemControlKey::DisplayInternal => 0xb1,
            SystemControlKey::DisplayExternal => 0xb2,
            SystemControlKey::DisplayBoth => 0xb3,
            SystemControlKey::DisplayDual => 0xb4,
            SystemControlKey::DisplayToggleInternalExternal => 0xb5,
            SystemControlKey::DisplaySwapPrimarySecondary => 0xb6,
            SystemControlKey::DisplayLcdAutoscale => 0xb7,
            SystemControlKey::Reserved => 0xb8,
        }
    }

    /// The usage code.
    #[verifier::when_used_as_spec(spec_code)]
    pub fn code(self) -> (r: u8)
        ensures
            r == self.spec_code(),
    {
        match self {
            SystemControlKey::PowerDown => 0x81,
            SystemControlKey::Sleep => 0x82,
            SystemControlKey::WakeUp => 0x83,
            SystemControlKey::ContextMenu => 0x84,
            SystemControlKey::MainMenu => 0x85,
            SystemControlKey::AppMenu => 0x86,
            SystemControlKey::MenuHelp => 0x87,
            SystemControlKey::MenuExit => 0x88,
            SystemControlKey::MenuSelect => 0x89,
            SystemControlKey::MenuRight => 0x8a,
            SystemControlKey::MenuLeft => 0x8b,
            SystemControlKey::MenuUp => 0x8c,
            SystemControlKey::MenuDown => 0x8d,
            SystemControlKey::ColdRestart => 0x8e,
            SystemControlKey::WarmRestart => 0x8f,
            SystemControlKey::DpadUp => 0x90,
            SystemControlKey::DpadDown => 0x91,
            SystemControlKey::DpadRight => 0x92,
            SystemControlKey::DpadLeft => 0x93,
            SystemControlKey::SystemFunctionShift => 0x97,
            SystemControlKey::SystemFunctionShiftLock => 0x98,
            SystemControlKey::SystemDismissNotification => 0x9a,
            SystemControlKey::SystemDoNotDisturb => 0x9b,
            SystemControlKey::Dock => 0xa0,
            SystemControlKey::Undock => 0xa1,
            SystemControlKey::Setup => 0xa2,
            SystemControlKey::Break => 0xa3,
            SystemControlKey::DebuggerBreak => 0xa4,
            SystemControlKey::ApplicationBreak => 0xa5,
            SystemControlKey::ApplicationDebuggerBreak => 0xa6,
            SystemControlKey::SpeakerMute => 0xa7,
            SystemControlKey::Hibernate => 0xa8,
            SystemControlKey::DisplayInvert => 0xb0,
            SystemControlKey::DisplayInternal => 0xb1,
            SystemControlKey::DisplayExternal => 0xb2,
            SystemControlKey::DisplayBoth => 0xb3,
            SystemControlKey::DisplayDual => 0xb4,
            SystemControlKey::DisplayToggleInternalExternal => 0xb5,
            SystemControlKey::DisplaySwapPrimarySecondary => 0xb6,
            SystemControlKey::DisplayLcdAutoscale => 0xb7,
            SystemControlKey::Reserved => 0xb8,
        }
    }

    /// The variant with usage code `k`; `Reserved` for a code that no other
    /// variant has.
    pub fn from_code(k: u8) -> (r: Self)
        ensures
            r.spec_code() == k || (r == SystemControlKey::Reserved && forall|v: SystemControlKey| #[trigger] v.spec_code() == k ==> v == SystemControlKey::Reserved),
    {
        match k {
            0x81 => SystemControlKey::PowerDown,
            0x82 => SystemControlKey::Sleep,
            0x83 => SystemControlKey::WakeUp,
            0x84 => SystemControlKey::ContextMenu,
            0x85 => SystemControlKey::MainMenu,
            0x86 => SystemControlKey::AppMenu,
            0x87 => SystemControlKey::MenuHelp,
            0x88 => SystemControlKey::MenuExit,
            0x89 => SystemControlKey::MenuSelect,
            0x8a => SystemControlKey::MenuRight,
            0x8b => SystemControlKey::MenuLeft,
            0x8c => SystemControlKey::MenuUp,
            0x8d => SystemControlKey::MenuDown,
            0x8e => SystemControlKey::ColdRestart,
            0x8f => SystemControlKey::WarmRestart,
            0x90 => SystemControlKey::DpadUp,
            0x91 => SystemControlKey::DpadDown,
            0x92 => SystemControlKey::DpadRight,
            0x93 => SystemControlKey::DpadLeft,
            0x97 => SystemControlKey::SystemFunctionShift,
            0x98 => SystemControlKey::SystemFunctionShiftLock,
            0x9a => SystemControlKey::SystemDismissNotification,
            0x9b => SystemControlKey::SystemDoNotDisturb,
            0xa0 => SystemControlKey::Dock,
            0xa1 => SystemControlKey::Undock,
            0xa2 => SystemControlKey::Setup,
            0xa3 => SystemControlKey::Break,
            0xa4 => SystemControlKey::DebuggerBreak,
            0xa5 => SystemControlKey::ApplicationBreak,
            0xa6 => SystemControlKey::ApplicationDebuggerBreak,
            0xa7 => SystemControlKey::SpeakerMute,
            0xa8 => SystemControlKey::Hibernate,
            0xb0 => SystemControlKey::DisplayInvert,
            0xb1 => SystemControlKey::DisplayInternal,
            0xb2 => SystemControlKey::DisplayExternal,
            0xb3 => SystemControlKey::DisplayBoth,
            0xb4 => SystemControlKey::DisplayDual,
            0xb5 => SystemControlKey::DisplayToggleInternalExternal,
            0xb6 => SystemControlKey::DisplaySwapPrimarySecondary,
            0xb7 => SystemControlKey::DisplayLcdAutoscale,
            _ => SystemControlKey::Reserved,
        }
    }
}

} // verus!
