//! The in-memory form of a settings file.

use vstd::prelude::*;
use crate::layout::CFG_MAGIC;

verus! {

/// Key flag: the event is a key release.
pub const KEY_BREAK: u16 = 1;

/// Key flag: the scan code carries the E0 prefix.
pub const KEY_E0: u16 = 2;

/// Key flag: the scan code carries the E1 prefix.
pub const KEY_E1: u16 = 4;

/// Stored value of `RemapCfgKeyState::NoDetect`.
pub const KEY_STATE_NO_DETECT: i32 = 0;

/// Stored value of `RemapCfgKeyState::Enforce`.
pub const KEY_STATE_ENFORCE: i32 = 1;

/// Stored value of `RemapCfgKeyState::EnforceNot`.
pub const KEY_STATE_ENFORCE_NOT: i32 = 2;

/// Stored value of `RemapCfgOverride::AutoDetect`.
pub const REMAP_AUTO_DETECT: i32 = 0;

/// Stored value of `RemapCfgOverride::Enable`.
pub const REMAP_ENABLE: i32 = 1;

/// Stored value of `RemapCfgOverride::Disable`.
pub const REMAP_DISABLE: i32 = 2;

/// A key event: a make code and a set of flags (`KEY_BREAK`, `KEY_E0`,
/// `KEY_E1`). Both zero means "no key".
#[derive(Clone, Copy, Debug, PartialEq, Eq)]
pub struct RemapCfgKey {
    pub make_code: u16,
    pub flags: u16,
}

impl RemapCfgKey {
    /// Whether this is the "no key" value.
    pub open spec fn is_unset(self) -> bool {
        self.make_code == 0 && self.flags == 0
    }

    /// The "no key" value.
    pub fn new() -> (key: Self)
        ensures
            key == (RemapCfgKey { make_code: 0, flags: 0 }),
            key.is_unset(),
    {
        RemapCfgKey { make_code: 0, flags: 0 }
    }

    /// The key with the given make code and flags.
    pub fn with_values(make_code: u16, flags: u16) -> (key: Self)
        ensures
            key == (RemapCfgKey { make_code, flags }),
    {
        RemapCfgKey { make_code, flags }
    }

    /// Whether this is the "no key" value.
    pub fn is_empty(&self) -> (r: bool)
        ensures
            r == self.is_unset(),
    {
        self.make_code == 0 && self.flags == 0
    }
}

/// What a rule asks of one modifier key.
///
/// The file stores it as a signed 32-bit number. A number other than 0, 1
/// and 2 is kept as `Unknown` with the number found, so that reading a file
/// never fails on it and writing it back changes nothing.
#[derive(Clone, Copy, Debug, PartialEq, Eq)]
pub enum RemapCfgKeyState {
    /// The modifier does not matter.
    NoDetect,
    /// The modifier must be held.
    Enforce,
    /// The modifier must not be held.
    EnforceNot,
    /// A stored number outside 0, 1 and 2.
    Unknown(i32),
}

impl RemapCfgKeyState {
    /// The number the file stores for this state.
    pub open spec fn raw(self) -> i32 {
        match self {
            RemapCfgKeyState::NoDetect => 0,
            RemapCfgKeyState::Enforce => 1,
            RemapCfgKeyState::EnforceNot => 2,
            RemapCfgKeyState::Unknown(value) => value,
        }
    }

    /// The state a stored number stands for.
    pub open spec fn of_raw(value: i32) -> Self {
        if value == 0 {
            RemapCfgKeyState::NoDetect
        } else if value == 1 {
            RemapCfgKeyState::Enforce
        } else if value == 2 {
            RemapCfgKeyState::EnforceNot
        } else {
            RemapCfgKeyState::Unknown(value)
        }
    }

    /// `Unknown` holds no number that has a variant of its own.
    pub open spec fn wf(self) -> bool {
        self matches RemapCfgKeyState::Unknown(value) ==> !(0 <= value <= 2)
    }

    /// The number the file stores for this state.
    pub fn to_raw(self) -> (value: i32)
        ensures
            value == self.raw(),
    {
        match self {
            RemapCfgKeyState::NoDetect => KEY_STATE_NO_DETECT,
            RemapCfgKeyState::Enforce => KEY_STATE_ENFORCE,
            RemapCfgKeyState::EnforceNot => KEY_STATE_ENFORCE_NOT,
            RemapCfgKeyState::Unknown(value) => value,
        }
    }

    /// The state a stored number stands for; every number has one.
    pub fn from_raw(value: i32) -> (state: Self)
        ensures
            state == Self::of_raw(value),
            state.wf(),
            state.raw() == value,
            !(0 <= value <= 2) <==> state == RemapCfgKeyState::Unknown(value),
    {
        if value == KEY_STATE_NO_DETECT {
            RemapCfgKeyState::NoDetect
        } else if value == KEY_STATE_ENFORCE {
            RemapCfgKeyState::Enforce
        } else if value == KEY_STATE_ENFORCE_NOT {
            RemapCfgKeyState::EnforceNot
        } else {
            RemapCfgKeyState::Unknown(value)
        }
    }
}

/// A header switch that overrides what the driver would detect itself.
///
/// Stored like `RemapCfgKeyState`, and `Unknown` is kept in the same way.
#[derive(Clone, Copy, Debug, PartialEq, Eq)]
pub enum RemapCfgOverride {
    /// Leave the decision to the driver.
    AutoDetect,
    /// Force the feature on.
    Enable,
    /// Force the feature off.
    Disable,
    /// A stored number outside 0, 1 and 2.
    Unknown(i32),
}

impl RemapCfgOverride {
    /// The number the file stores for this override.
    pub open spec fn raw(self) -> i32 {
        match self {
            RemapCfgOverride::AutoDetect => 0,
            RemapCfgOverride::Enable => 1,
            RemapCfgOverride::Disable => 2,
            RemapCfgOverride::Unknown(value) => value,
        }
    }

    /// The override a stored number stands for.
    pub open spec fn of_raw(value: i32) -> Self {
        if value == 0 {
            RemapCfgOverride::AutoDetect
        } else if value == 1 {
            RemapCfgOverride::Enable
        } else if value == 2 {
            RemapCfgOverride::Disable
        } else {
            RemapCfgOverride::Unknown(value)
        }
    }

    /// `Unknown` holds no number that has a variant of its own.
    pub open spec fn wf(self) -> bool {
        self matches RemapCfgOverride::Unknown(value) ==> !(0 <= value <= 2)
    }

    /// The number the file stores for this override.
    pub fn to_raw(self) -> (value: i32)
        ensures
            value == self.raw(),
    {
        match self {
            RemapCfgOverride::AutoDetect => REMAP_AUTO_DETECT,
            RemapCfgOverride::Enable => REMAP_ENABLE,
            RemapCfgOverride::Disable => REMAP_DISABLE,
            RemapCfgOverride::Unknown(value) => value,
        }
    }

    /// The override a stored number stands for; every number has one.
    pub fn from_raw(value: i32) -> (over: Self)
        ensures
            over == Self::of_raw(value),
            over.wf(),
            over.raw() == value,
            !(0 <= value <= 2) <==> over == RemapCfgOverride::Unknown(value),
    {
        if value == REMAP_AUTO_DETECT {
            RemapCfgOverride::AutoDetect
        } else if value == REMAP_ENABLE {
            RemapCfgOverride::Enable
        } else if value == REMAP_DISABLE {
            RemapCfgOverride::Disable
        } else {
            RemapCfgOverride::Unknown(value)
        }
    }
}

/// One remap rule: which key, under which modifier states, becomes which
/// key, and which extra key events go with it.
#[derive(Clone, Copy, Debug, PartialEq, Eq)]
pub struct RemapCfg {
    pub left_ctrl: RemapCfgKeyState,
    pub left_alt: RemapCfgKeyState,
    pub search: RemapCfgKeyState,
    pub assistant: RemapCfgKeyState,
    pub left_shift: RemapCfgKeyState,
    pub right_ctrl: RemapCfgKeyState,
    pub right_alt: RemapCfgKeyState,
    pub right_shift: RemapCfgKeyState,
    pub original_key: RemapCfgKey,
    pub remap_vivaldi_to_fn_keys: bool,
    pub remapped_key: RemapCfgKey,
    pub additional_keys: [RemapCfgKey; 8],
}

impl RemapCfg {
    /// The rule that asks nothing and maps nothing.
    pub open spec fn blank() -> Self {
        let none = RemapCfgKey { make_code: 0, flags: 0 };
        RemapCfg {
            left_ctrl: RemapCfgKeyState::NoDetect,
            left_alt: RemapCfgKeyState::NoDetect,
            search: RemapCfgKeyState::NoDetect,
            assistant: RemapCfgKeyState::NoDetect,
            left_shift: RemapCfgKeyState::NoDetect,
            right_ctrl: RemapCfgKeyState::NoDetect,
            right_alt: RemapCfgKeyState::NoDetect,
            right_shift: RemapCfgKeyState::NoDetect,
            original_key: none,
            remap_vivaldi_to_fn_keys: false,
            remapped_key: none,
            additional_keys: [none, none, none, none, none, none, none, none],
        }
    }

    /// Every modifier state of the rule is well formed.
    pub open spec fn wf(self) -> bool {
        &&& self.left_ctrl.wf()
        &&& self.left_alt.wf()
        &&& self.search.wf()
        &&& self.assistant.wf()
        &&& self.left_shift.wf()
        &&& self.right_ctrl.wf()
        &&& self.right_alt.wf()
        &&& self.right_shift.wf()
    }

    /// The rule that asks nothing and maps nothing: every modifier
    /// `NoDetect`, every key unset, the vivaldi flag off.
    pub fn new() -> (rule: Self)
        ensures
            rule == Self::blank(),
            rule.wf(),
    {
        let none = RemapCfgKey::new();
        let rule = RemapCfg {
            left_ctrl: RemapCfgKeyState::NoDetect,
            left_alt: RemapCfgKeyState::NoDetect,
            search: RemapCfgKeyState::NoDetect,
            assistant: RemapCfgKeyState::NoDetect,
            left_shift: RemapCfgKeyState::NoDetect,
            right_ctrl: RemapCfgKeyState::NoDetect,
            right_alt: RemapCfgKeyState::NoDetect,
            right_shift: RemapCfgKeyState::NoDetect,
            original_key: none,
            remap_vivaldi_to_fn_keys: false,
            remapped_key: none,
            additional_keys: [none; 8],
        };
        assert(rule.additional_keys =~= Self::blank().additional_keys);
        rule
    }
}

/// The header of a settings file.
#[derive(Clone, Copy, Debug, PartialEq, Eq)]
pub struct RemapCfgsHeader {
    /// `CFG_MAGIC` in every file the driver accepts.
    pub magic: u32,
    /// Number of records the file declares.
    pub remappings: u32,
    pub flip_search_and_assistant_on_pixelbook: bool,
    pub has_assistant_key: RemapCfgOverride,
    pub is_non_chrome_ec: RemapCfgOverride,
}

impl RemapCfgsHeader {
    /// Both overrides are well formed.
    pub open spec fn wf(self) -> bool {
        self.has_assistant_key.wf() && self.is_non_chrome_ec.wf()
    }
}

/// A settings file: the header and the records that follow it.
#[derive(Clone, Debug, PartialEq, Eq)]
pub struct ConfigFile {
    pub header: RemapCfgsHeader,
    pub rules: Vec<RemapCfg>,
}

/// A settings file as a mathematical value.
pub struct ConfigFileView {
    pub header: RemapCfgsHeader,
    pub rules: Seq<RemapCfg>,
}

impl View for ConfigFile {
    type V = ConfigFileView;

    open spec fn view(&self) -> ConfigFileView {
        ConfigFileView { header: self.header, rules: self.rules@ }
    }
}

impl ConfigFileView {
    /// The header declares as many records as there are.
    pub open spec fn is_complete(self) -> bool {
        self.header.remappings == self.rules.len()
    }

    /// Header and rules hold only well-formed enumeration values.
    pub open spec fn wf(self) -> bool {
        &&& self.header.wf()
        &&& forall|i: int| 0 <= i < self.rules.len() ==> (#[trigger] self.rules[i]).wf()
    }

    /// A file the driver accepts and this library reads back unchanged:
    /// well formed, complete, and with the right magic number.
    pub open spec fn valid(self) -> bool {
        &&& self.wf()
        &&& self.is_complete()
        &&& self.header.magic == CFG_MAGIC
    }
}

impl ConfigFile {
    /// Whether the header declares as many records as there are.
    pub fn is_complete(&self) -> (r: bool)
        ensures
            r == self@.is_complete(),
    {
        self.header.remappings as usize == self.rules.len()
    }
}

} // verus!
