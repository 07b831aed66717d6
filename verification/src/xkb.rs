//! The binding's own computations on plain values.
//!
//! The keyboard-mapping engine is a native library. Every call into it has
//! two sides that are plain computation: what is handed to the engine (names
//! as zero-terminated buffers, levels and directions as numbers) and what is
//! made of its raw answer (text from a filled buffer, `None` from a sentinel,
//! the next index of a list). Those sides are here. The handles, and the
//! calls themselves, belong to the code around this crate.
use vstd::prelude::*;
use vstd::utf8::encode_utf8;

pub mod compose;
pub mod cstr;
pub mod ffi;
pub mod keys;
pub mod text;
pub mod x11;

use self::cstr::{c_string, has_nul, is_terminated, until_nul};
use self::ffi::{xkb_key_direction, xkb_log_level};

/// A number that stands for a physical key of a keyboard.
pub use xkeysym::KeyCode as Keycode;
/// A number that stands for a symbol that a key can produce.
pub use xkeysym::Keysym;

verus! {

/// Index of a keyboard layout. The first layout has index 0.
pub type LayoutIndex = u32;

/// A mask of layout indices.
pub type LayoutMask = u32;

/// Index of a shift level. The first level has index 0.
pub type LevelIndex = u32;

/// Index of a modifier. The first modifier has index 0.
pub type ModIndex = u32;

/// A mask of modifier indices.
pub type ModMask = u32;

/// Index of a keyboard LED. Not every index below the number of LEDs need
/// belong to a LED.
pub type LedIndex = u32;

/// A mask of LED indices.
pub type LedMask = u32;

pub const KEYCODE_INVALID: u32 = 0xffff_ffff;

pub const LAYOUT_INVALID: u32 = 0xffff_ffff;

pub const LEVEL_INVALID: u32 = 0xffff_ffff;

pub const MOD_INVALID: u32 = 0xffff_ffff;

pub const LED_INVALID: u32 = 0xffff_ffff;

pub const KEYCODE_MAX: u32 = 0xffff_fffe;

pub type KeysymFlags = u32;

pub const KEYSYM_NO_FLAGS: u32 = 0;

pub const KEYSYM_CASE_INSENSITIVE: u32 = 1 << 0;

/// Flags for context creation.
pub type ContextFlags = u32;

/// Do not apply any context flags.
pub const CONTEXT_NO_FLAGS: u32 = 0;

/// Create this context with an empty include path.
pub const CONTEXT_NO_DEFAULT_INCLUDES: u32 = 1 << 0;

/// Don't take RMLVO names from the environment.
pub const CONTEXT_NO_ENVIRONMENT_NAMES: u32 = 1 << 1;

/// The levels at which a context logs.
#[derive(Clone, Copy, Debug, PartialEq, Eq, Structural)]
pub enum LogLevel {
    Critical,
    Error,
    Warning,
    Info,
    Debug,
}

impl LogLevel {
    /// This level in the engine's vocabulary.
    pub open spec fn spec_to_ffi(self) -> xkb_log_level {
        match self {
            LogLevel::Critical => xkb_log_level::CRITICAL,
            LogLevel::Error => xkb_log_level::ERROR,
            LogLevel::Warning => xkb_log_level::WARNING,
            LogLevel::Info => xkb_log_level::INFO,
            LogLevel::Debug => xkb_log_level::DEBUG,
        }
    }

    /// This level in the engine's vocabulary.
    pub fn to_ffi(self) -> (level: xkb_log_level)
        ensures
            level == self.spec_to_ffi(),
    {
        match self {
            LogLevel::Critical => xkb_log_level::CRITICAL,
            LogLevel::Error => xkb_log_level::ERROR,
            LogLevel::Warning => xkb_log_level::WARNING,
            LogLevel::Info => xkb_log_level::INFO,
            LogLevel::Debug => xkb_log_level::DEBUG,
        }
    }

    /// The level that the engine calls `level`.
    pub fn from_ffi(level: xkb_log_level) -> (own: LogLevel)
        ensures
            own.spec_to_ffi() == level,
    {
        match level {
            xkb_log_level::CRITICAL => LogLevel::Critical,
            xkb_log_level::ERROR => LogLevel::Error,
            xkb_log_level::WARNING => LogLevel::Warning,
            xkb_log_level::INFO => LogLevel::Info,
            xkb_log_level::DEBUG => LogLevel::Debug,
        }
    }

    /// The level that the engine reported as the number `value`, if it is
    /// one of the five.
    pub fn from_value(value: i32) -> (own: Option<LogLevel>)
        ensures
            own is Some <==> value == 10 || value == 20 || value == 30 || value == 40 || value
                == 50,
            own matches Some(l) ==> l.spec_to_ffi().spec_value() == value,
    {
        match xkb_log_level::from_value(value) {
            Some(level) => Some(LogLevel::from_ffi(level)),
            None => None,
        }
    }
}

/// Two levels with the same number are the same level: the level that is
/// set by its number is the one that is found again from that number.
pub proof fn lemma_log_level_numbers_differ(a: LogLevel, b: LogLevel)
    requires
        a.spec_to_ffi().spec_value() == b.spec_to_ffi().spec_value(),
    ensures
        a == b,
{
}

/// Flags for keymap compilation.
pub type KeymapCompileFlags = u32;

/// Do not apply any flags.
pub const KEYMAP_COMPILE_NO_FLAGS: u32 = 0;

/// The possible keymap formats.
pub type KeymapFormat = u32;

/// The current/classic XKB text format, as generated by xkbcomp -xkb.
pub const KEYMAP_FORMAT_TEXT_V1: u32 = 1;

/// Get the keymap as a string in the format from which it was created.
pub const KEYMAP_FORMAT_USE_ORIGINAL: u32 = 0xffff_ffff;

/// Specifies the direction of the key (press / release).
#[derive(Clone, Copy, Debug, PartialEq, Eq, Structural)]
pub enum KeyDirection {
    /// the key was released
    Up,
    /// the key was pressed
    Down,
}

impl KeyDirection {
    /// This direction in the engine's vocabulary.
    pub open spec fn spec_to_ffi(self) -> xkb_key_direction {
        match self {
            KeyDirection::Up => xkb_key_direction::UP,
            KeyDirection::Down => xkb_key_direction::DOWN,
        }
    }

    /// This direction in the engine's vocabulary.
    pub fn to_ffi(self) -> (direction: xkb_key_direction)
        ensures
            direction == self.spec_to_ffi(),
    {
        match self {
            KeyDirection::Up => xkb_key_direction::UP,
            KeyDirection::Down => xkb_key_direction::DOWN,
        }
    }
}

/// Modifier and layout types for state objects. The values can be combined
/// with `|`.
pub type StateComponent = u32;

/// Depressed modifiers, i.e. a key is physically holding them.
pub const STATE_MODS_DEPRESSED: u32 = 1 << 0;

/// Latched modifiers, i.e. will be unset after the next non-modifier key
/// press.
pub const STATE_MODS_LATCHED: u32 = 1 << 1;

/// Locked modifiers, i.e. will be unset after the key provoking the lock has
/// been pressed again.
pub const STATE_MODS_LOCKED: u32 = 1 << 2;

/// Effective modifiers, i.e. currently active and affect key processing.
pub const STATE_MODS_EFFECTIVE: u32 = 1 << 3;

/// Depressed layout, i.e. a key is physically holding it.
pub const STATE_LAYOUT_DEPRESSED: u32 = 1 << 4;

/// Latched layout, i.e. will be unset after the next non-modifier key press.
pub const STATE_LAYOUT_LATCHED: u32 = 1 << 5;

/// Locked layout, i.e. will be unset after the key provoking the lock has
/// been pressed again.
pub const STATE_LAYOUT_LOCKED: u32 = 1 << 6;

/// Effective layout, i.e. currently active and affects key processing.
pub const STATE_LAYOUT_EFFECTIVE: u32 = 1 << 7;

/// LEDs (derived from the other state components).
pub const STATE_LEDS: u32 = 1 << 8;

/// How a set of modifiers is matched against a state.
pub type StateMatch = u32;

/// Matches if any of the modifiers are active.
pub const STATE_MATCH_ANY: u32 = 1 << 0;

/// Matches if all of the modifiers are active.
pub const STATE_MATCH_ALL: u32 = 1 << 1;

/// Makes matching non-exclusive, i.e. a modifier that was not asked about
/// may be active.
pub const STATE_MATCH_NON_EXCLUSIVE: u32 = 1 << 16;

pub const MOD_NAME_SHIFT: &'static str = "Shift";

pub const MOD_NAME_CAPS: &'static str = "Lock";

pub const MOD_NAME_CTRL: &'static str = "Control";

pub const MOD_NAME_ALT: &'static str = "Mod1";

pub const MOD_NAME_NUM: &'static str = "Mod2";

pub const MOD_NAME_MOD3: &'static str = "mod3";

pub const MOD_NAME_LOGO: &'static str = "Mod4";

pub const MOD_NAME_ISO_LEVEL3_SHIFT: &'static str = "Mod5";

pub const LED_NAME_CAPS: &'static str = "Caps Lock";

pub const LED_NAME_NUM: &'static str = "Num Lock";

pub const LED_NAME_SCROLL: &'static str = "Scroll Lock";

/// The size of the buffer that the engine fills with the name of a key
/// symbol.
pub const KEYSYM_NAME_SIZE: usize = 64;

/// The size of the buffer that the engine fills with the UTF-8 encoding of a
/// key symbol.
pub const KEYSYM_UTF8_SIZE: usize = 8;

/// The size of the buffer that the engine fills with the UTF-8 text that a
/// key produces in a state.
pub const KEY_UTF8_SIZE: usize = 64;

/// Test whether a value is a valid extended keycode: any value but the "no
/// key" sentinel.
#[must_use]
pub fn keycode_is_legal_ext(key: u32) -> (legal: bool)
    ensures
        legal == (key <= KEYCODE_MAX),
        legal == (key != KEYCODE_INVALID),
{
    key <= KEYCODE_MAX
}

/// Test whether a value is a keycode that the X11 protocol can carry: one of
/// 8 to 255.
#[must_use]
pub fn keycode_is_legal_x11(key: u32) -> (legal: bool)
    ensures
        legal == (8 <= key <= 255),
{
    8 <= key && key <= 255
}

/// Whether the engine answered "yes" to a question to which it answers 1 for
/// yes, 0 for no, and a negative number where it does not know the name or
/// the index that it was asked about. Only 1 counts.
pub fn answered_yes(answer: i32) -> (yes: bool)
    ensures
        yes == (answer == 1),
{
    answer == 1
}

/// Whether the engine answered anything but 0, to a question to which it
/// answers 0 for no and has no answer for "unknown".
pub fn answered_nonzero(answer: i32) -> (set: bool)
    ensures
        set == (answer != 0),
{
    answer != 0
}

/// The length of the keymap text in a memory mapping of `size` bytes: the
/// last byte of the mapping is the terminator and not part of the text. An
/// empty mapping holds no text.
pub fn mapped_text_len(size: usize) -> (len: Option<usize>)
    ensures
        len is Some <==> size > 0,
        len matches Some(n) ==> n == size - 1,
{
    if size > 0 {
        Some(size - 1)
    } else {
        None
    }
}

/// Names to compile a keymap with, also known as RMLVO, each as the
/// zero-terminated buffer that the engine reads it from. Without options the
/// engine picks its default; with empty options it uses none.
#[derive(Debug, PartialEq, Eq)]
pub struct RuleNames {
    pub rules: Vec<u8>,
    pub model: Vec<u8>,
    pub layout: Vec<u8>,
    pub variant: Vec<u8>,
    pub options: Option<Vec<u8>>,
}

impl RuleNames {
    /// Whether the engine reads each name whole: every buffer, that of the
    /// options too where there are any, ends in the only zero byte it holds.
    pub open spec fn wf(&self) -> bool {
        &&& is_terminated(self.rules@)
        &&& is_terminated(self.model@)
        &&& is_terminated(self.layout@)
        &&& is_terminated(self.variant@)
        &&& self.options matches Some(o) ==> is_terminated(o@)
    }

    /// The names for the engine. None of them may hold a zero byte, the
    /// options no more than the others: where one does there are no names
    /// to hand over.
    pub fn new(
        rules: &str,
        model: &str,
        layout: &str,
        variant: &str,
        options: Option<String>,
    ) -> (names: Option<RuleNames>)
        ensures
            names is Some <==> {
                &&& !has_nul(encode_utf8(rules@))
                &&& !has_nul(encode_utf8(model@))
                &&& !has_nul(encode_utf8(layout@))
                &&& !has_nul(encode_utf8(variant@))
                &&& options matches Some(o) ==> !has_nul(encode_utf8(o@))
            },
            names matches Some(n) ==> {
                &&& n.wf()
                &&& n.rules@ == encode_utf8(rules@).push(0)
                &&& n.model@ == encode_utf8(model@).push(0)
                &&& n.layout@ == encode_utf8(layout@).push(0)
                &&& n.variant@ == encode_utf8(variant@).push(0)
                &&& until_nul(n.rules@) == encode_utf8(rules@)
                &&& until_nul(n.model@) == encode_utf8(model@)
                &&& until_nul(n.layout@) == encode_utf8(layout@)
                &&& until_nul(n.variant@) == encode_utf8(variant@)
                &&& match options {
                    None => n.options is None,
                    Some(o) => n.options matches Some(b) && b@ == encode_utf8(o@).push(0)
                        && until_nul(b@) == encode_utf8(o@),
                }
            },
    {
        let rules_buf = match c_string(rules.as_bytes()) {
            Some(b) => b,
            None => {
                return None;
            },
        };
        let model_buf = match c_string(model.as_bytes()) {
            Some(b) => b,
            None => {
                return None;
            },
        };
        let layout_buf = match c_string(layout.as_bytes()) {
            Some(b) => b,
            None => {
                return None;
            },
        };
        let variant_buf = match c_string(variant.as_bytes()) {
            Some(b) => b,
            None => {
                return None;
            },
        };
        let options_buf = match options {
            None => None,
            Some(o) => match c_string(o.as_str().as_bytes()) {
                Some(b) => Some(b),
                None => {
                    return None;
                },
            },
        };
        Some(
            RuleNames {
                rules: rules_buf,
                model: model_buf,
                layout: layout_buf,
                variant: variant_buf,
                options: options_buf,
            },
        )
    }
}

/// The indices of a list of `len` entries, in ascending order.
pub open spec fn indices(len: u32) -> Seq<u32> {
    Seq::new(len as nat, |i: int| i as u32)
}

/// One step of a cursor: with nothing left it hands out nothing and stays as
/// it is; else it hands out the first of what is left, and the rest is left.
pub open spec fn hands_out(before: Seq<u32>, index: Option<u32>, after: Seq<u32>) -> bool {
    if before.len() == 0 {
        index is None && after == before
    } else {
        index == Some(before[0]) && after == before.drop_first()
    }
}

/// A cursor over the indices of a list of the engine. It is made with the
/// length of the list and then hands out the indices `0`, `1`, and so on up
/// to the last below that length, each once.
#[derive(Clone, Copy, Debug, PartialEq, Eq)]
pub struct IndexCursor {
    ind: u32,
    len: u32,
}

impl IndexCursor {
    #[verifier::type_invariant]
    spec fn in_range(self) -> bool {
        self.ind <= self.len
    }

    /// The indices that the cursor has yet to hand out, in the order in
    /// which it will.
    pub closed spec fn remaining(self) -> Seq<u32> {
        Seq::new((self.len - self.ind) as nat, |i: int| (self.ind + i) as u32)
    }

    /// A cursor at the start of a list of `len` entries.
    pub fn new(len: u32) -> (cursor: IndexCursor)
        ensures
            cursor.remaining() == indices(len),
    {
        IndexCursor { ind: 0, len }
    }

    /// The next index, or `None` when every index has been handed out; from
    /// then on it is `None` at each call.
    pub fn next_index(&mut self) -> (index: Option<u32>)
        ensures
            hands_out(old(self).remaining(), index, final(self).remaining()),
    {
        proof {
            use_type_invariant(&*self);
        }
        if self.ind == self.len {
            None
        } else {
            let index: u32 = self.ind;
            self.ind = self.ind + 1;
            assert(self.remaining() == old(self).remaining().drop_first());
            Some(index)
        }
    }
}

/// Cursor over the include paths of a context, made with their number at
/// that time.
#[derive(Clone, Copy, Debug, PartialEq, Eq)]
pub struct ContextIncludePaths {
    cursor: IndexCursor,
}

impl ContextIncludePaths {
    /// The indices of the include paths yet to come.
    pub closed spec fn remaining(self) -> Seq<u32> {
        self.cursor.remaining()
    }

    /// A cursor at the first of `len` include paths.
    pub fn new(len: u32) -> (paths: ContextIncludePaths)
        ensures
            paths.remaining() == indices(len),
    {
        ContextIncludePaths { cursor: IndexCursor::new(len) }
    }

    /// The index of the next include path, or `None` after the last.
    pub fn next_index(&mut self) -> (index: Option<u32>)
        ensures
            hands_out(old(self).remaining(), index, final(self).remaining()),
    {
        self.cursor.next_index()
    }
}

/// Cursor over the modifiers of a keymap, made with their number.
#[derive(Clone, Copy, Debug, PartialEq, Eq)]
pub struct KeymapMods {
    cursor: IndexCursor,
}

impl KeymapMods {
    /// The indices of the modifiers yet to come.
    pub closed spec fn remaining(self) -> Seq<ModIndex> {
        self.cursor.remaining()
    }

    /// A cursor at the first of `len` modifiers.
    pub fn new(len: ModIndex) -> (mods: KeymapMods)
        ensures
            mods.remaining() == indices(len),
    {
        KeymapMods { cursor: IndexCursor::new(len) }
    }

    /// The index of the next modifier, or `None` after the last.
    pub fn next_index(&mut self) -> (index: Option<ModIndex>)
        ensures
            hands_out(old(self).remaining(), index, final(self).remaining()),
    {
        self.cursor.next_index()
    }
}

/// Cursor over the layouts of a keymap, made with their number.
#[derive(Clone, Copy, Debug, PartialEq, Eq)]
pub struct KeymapLayouts {
    cursor: IndexCursor,
}

impl KeymapLayouts {
    /// The indices of the layouts yet to come.
    pub closed spec fn remaining(self) -> Seq<LayoutIndex> {
        self.cursor.remaining()
    }

    /// A cursor at the first of `len` layouts.
    pub fn new(len: LayoutIndex) -> (layouts: KeymapLayouts)
        ensures
            layouts.remaining() == indices(len),
    {
        KeymapLayouts { cursor: IndexCursor::new(len) }
    }

    /// The index of the next layout, or `None` after the last.
    pub fn next_index(&mut self) -> (index: Option<LayoutIndex>)
        ensures
            hands_out(old(self).remaining(), index, final(self).remaining()),
    {
        self.cursor.next_index()
    }
}

/// Cursor over the LED indices of a keymap, made with the number that the
/// engine gives for its LEDs. Not every index that it hands out need belong
/// to a LED.
#[derive(Clone, Copy, Debug, PartialEq, Eq)]
pub struct KeymapLeds {
    cursor: IndexCursor,
}

impl KeymapLeds {
    /// The LED indices yet to come.
    pub closed spec fn remaining(self) -> Seq<LedIndex> {
        self.cursor.remaining()
    }

    /// A cursor at the first of `len` LED indices.
    pub fn new(len: LedIndex) -> (leds: KeymapLeds)
        ensures
            leds.remaining() == indices(len),
    {
        KeymapLeds { cursor: IndexCursor::new(len) }
    }

    /// The next LED index, or `None` after the last.
    pub fn next_index(&mut self) -> (index: Option<LedIndex>)
        ensures
            hands_out(old(self).remaining(), index, final(self).remaining()),
    {
        self.cursor.next_index()
    }
}

} // verus!
