//! The default remap table: forty rules for a keyboard with a Vivaldi top
//! row.
//!
//! Rules 0 to 18 turn the top-row keys into function keys while left ctrl
//! is up. Rules 19 to 39 are shortcuts: ctrl+alt+backspace for
//! ctrl+alt+delete, ctrl+backspace for delete, ctrl with the top-row keys
//! for window management and screenshots, ctrl with the arrows for
//! home, end and paging, and the lock key.

use vstd::prelude::*;
use crate::codec::{encode, encode_file, validate_layout};
use crate::layout::{LayoutError, CFG_MAGIC};
use crate::model::{
    ConfigFile, ConfigFileView, RemapCfg, RemapCfgKey, RemapCfgKeyState, RemapCfgOverride,
    RemapCfgsHeader, KEY_BREAK, KEY_E0,
};

verus! {

pub const K_LCTRL: u16 = 0x1D;

pub const K_LSHFT: u16 = 0x2A;

pub const K_LWIN: u16 = 0x5B;

pub const K_BACKSP: u16 = 0x0E;

pub const K_DELETE: u16 = 0x53;

pub const K_LOCK: u16 = 0x5D;

pub const K_UP: u16 = 0x48;

pub const K_DOWN: u16 = 0x50;

pub const K_LEFT: u16 = 0x4B;

pub const K_RIGHT: u16 = 0x4D;

pub const K_PGUP: u16 = 0x49;

pub const K_HOME: u16 = 0x47;

pub const K_END: u16 = 0x4F;

pub const K_PGDN: u16 = 0x51;

pub const K_F11: u16 = 0x57;

pub const K_P: u16 = 0x19;

pub const K_TAB: u16 = 0x0F;

pub const K_S: u16 = 0x1F;

pub const K_L: u16 = 0x26;

pub const VIVALDI_BACK: u16 = 0x6A;

pub const VIVALDI_FWD: u16 = 0x69;

pub const VIVALDI_REFRESH: u16 = 0x67;

pub const VIVALDI_FULLSCREEN: u16 = 0x11;

pub const VIVALDI_OVERVIEW: u16 = 0x12;

pub const VIVALDI_SNAPSHOT: u16 = 0x13;

pub const VIVALDI_BRIGHTNESS_DN: u16 = 0x14;

pub const VIVALDI_BRIGHTNESS_UP: u16 = 0x15;

pub const VIVALDI_PRIVACY_TOGGLE: u16 = 0x16;

pub const VIVALDI_KBD_BKLIGHT_DOWN: u16 = 0x17;

pub const VIVALDI_KBD_BKLIGHT_UP: u16 = 0x18;

pub const VIVALDI_KBD_BKLIGHT_TOGGLE: u16 = 0x1E;

pub const VIVALDI_PLAY_PAUSE: u16 = 0x1A;

pub const VIVALDI_MUTE: u16 = 0x20;

pub const VIVALDI_VOL_DN: u16 = 0x2E;

pub const VIVALDI_VOL_UP: u16 = 0x30;

pub const VIVALDI_NEXT_TRACK: u16 = 0x19;

pub const VIVALDI_PREV_TRACK: u16 = 0x10;

pub const VIVALDI_MIC_MUTE: u16 = 0x1B;

/// Number of rules in the default table.
pub const DEFAULT_RULES: usize = 40;

/// The make codes of the nineteen top-row keys, in the order of their
/// rules.
pub open spec fn vivaldi_keys() -> Seq<u16> {
    seq![
        VIVALDI_BACK,
        VIVALDI_FWD,
        VIVALDI_REFRESH,
        VIVALDI_FULLSCREEN,
        VIVALDI_OVERVIEW,
        VIVALDI_SNAPSHOT,
        VIVALDI_BRIGHTNESS_DN,
        VIVALDI_BRIGHTNESS_UP,
        VIVALDI_PRIVACY_TOGGLE,
        VIVALDI_KBD_BKLIGHT_DOWN,
        VIVALDI_KBD_BKLIGHT_UP,
        VIVALDI_KBD_BKLIGHT_TOGGLE,
        VIVALDI_PLAY_PAUSE,
        VIVALDI_MUTE,
        VIVALDI_VOL_DN,
        VIVALDI_VOL_UP,
        VIVALDI_NEXT_TRACK,
        VIVALDI_PREV_TRACK,
        VIVALDI_MIC_MUTE,
    ]
}

/// The key with the given make code and flags.
pub open spec fn key(make_code: u16, flags: u16) -> RemapCfgKey {
    RemapCfgKey { make_code, flags }
}

/// "No key".
pub open spec fn no_key() -> RemapCfgKey {
    RemapCfgKey { make_code: 0, flags: 0 }
}

/// The rule that turns the top-row key `make_code` into its function key
/// while left ctrl is up.
pub open spec fn vivaldi_rule(make_code: u16) -> RemapCfg {
    RemapCfg {
        left_ctrl: RemapCfgKeyState::EnforceNot,
        original_key: key(make_code, KEY_E0),
        remap_vivaldi_to_fn_keys: true,
        ..RemapCfg::blank()
    }
}

/// The rule that sends `remapped` for `original` under the given states of
/// left ctrl, left alt, search and left shift, with up to three additional
/// keys in the first slots.
pub open spec fn shortcut(
    left_ctrl: RemapCfgKeyState,
    left_alt: RemapCfgKeyState,
    search: RemapCfgKeyState,
    left_shift: RemapCfgKeyState,
    original: RemapCfgKey,
    remapped: RemapCfgKey,
    extra: (RemapCfgKey, RemapCfgKey, RemapCfgKey),
) -> RemapCfg {
    RemapCfg {
        left_ctrl,
        left_alt,
        search,
        left_shift,
        original_key: original,
        remapped_key: remapped,
        additional_keys: [
            extra.0,
            extra.1,
            extra.2,
            no_key(),
            no_key(),
            no_key(),
            no_key(),
            no_key(),
        ],
        ..RemapCfg::blank()
    }
}

/// Rules 19 to 39 of the default table.
pub open spec fn default_shortcuts() -> Seq<RemapCfg> {
    let any = RemapCfgKeyState::NoDetect;
    let held = RemapCfgKeyState::Enforce;
    let up = RemapCfgKeyState::EnforceNot;
    let none = no_key();
    let ctrl_up = key(K_LCTRL, KEY_BREAK);
    let shift_up = key(K_LSHFT, KEY_BREAK);
    let shift_down = key(K_LSHFT, 0);
    let win_down = key(K_LWIN, KEY_E0);
    let fullscreen = key(VIVALDI_FULLSCREEN, KEY_E0);
    let overview = key(VIVALDI_OVERVIEW, KEY_E0);
    let snapshot = key(VIVALDI_SNAPSHOT, KEY_E0);
    seq![
        shortcut(held, held, any, any, key(K_BACKSP, 0), key(K_DELETE, KEY_E0), (none, none, none)),
        shortcut(held, up, any, any, key(K_BACKSP, 0), key(K_DELETE, KEY_E0), (ctrl_up, none, none)),
        shortcut(held, any, any, up, fullscreen, key(K_F11, 0), (ctrl_up, none, none)),
        shortcut(held, any, up, held, fullscreen, key(K_P, 0), (ctrl_up, shift_up, win_down)),
        shortcut(held, any, held, held, fullscreen, key(K_P, 0), (ctrl_up, shift_up, none)),
        shortcut(held, any, up, up, overview, key(K_TAB, 0), (ctrl_up, win_down, none)),
        shortcut(held, any, held, up, overview, key(K_TAB, 0), (ctrl_up, none, none)),
        shortcut(held, any, up, held, overview, key(K_S, 0), (ctrl_up, win_down, none)),
        shortcut(held, any, held, held, overview, key(K_S, 0), (ctrl_up, none, none)),
        shortcut(held, any, up, up, snapshot, key(K_S, 0), (ctrl_up, win_down, shift_down)),
        shortcut(held, any, held, up, snapshot, key(K_S, 0), (ctrl_up, shift_down, none)),
        shortcut(held, any, up, held, snapshot, key(K_S, 0), (ctrl_up, win_down, none)),
        shortcut(held, any, held, held, snapshot, key(K_S, 0), (ctrl_up, none, none)),
        shortcut(
            held,
            held,
            any,
            any,
            key(VIVALDI_BRIGHTNESS_DN, KEY_E0),
            key(VIVALDI_KBD_BKLIGHT_DOWN, KEY_E0),
            (none, none, none),
        ),
        shortcut(
            held,
            held,
            any,
            any,
            key(VIVALDI_BRIGHTNESS_UP, KEY_E0),
            key(VIVALDI_KBD_BKLIGHT_UP, KEY_E0),
            (none, none, none),
        ),
        shortcut(held, any, any, any, key(K_LEFT, KEY_E0), key(K_HOME, KEY_E0), (ctrl_up, none, none)),
        shortcut(held, any, any, any, key(K_RIGHT, KEY_E0), key(K_END, KEY_E0), (ctrl_up, none, none)),
        shortcut(held, any, any, any, key(K_UP, KEY_E0), key(K_PGUP, KEY_E0), (ctrl_up, none, none)),
        shortcut(held, any, any, any, key(K_DOWN, KEY_E0), key(K_PGDN, KEY_E0), (ctrl_up, none, none)),
        shortcut(any, any, up, any, key(K_LOCK, 0), key(K_L, 0), (win_down, none, none)),
        shortcut(any, any, held, any, key(K_LOCK, 0), key(K_L, 0), (none, none, none)),
    ]
}

/// The forty rules of the default table.
pub open spec fn default_table() -> Seq<RemapCfg> {
    Seq::new(19, |i: int| vivaldi_rule(vivaldi_keys()[i])) + default_shortcuts()
}

/// The default settings file: the default table under a header that
/// declares its forty rules, flips search and assistant, and leaves both
/// overrides to the driver.
pub open spec fn default_file() -> ConfigFileView {
    ConfigFileView {
        header: RemapCfgsHeader {
            magic: CFG_MAGIC,
            remappings: 40,
            flip_search_and_assistant_on_pixelbook: true,
            has_assistant_key: RemapCfgOverride::AutoDetect,
            is_non_chrome_ec: RemapCfgOverride::AutoDetect,
        },
        rules: default_table(),
    }
}

/// Builds the rule that turns the top-row key `make_code` into its
/// function key while left ctrl is up.
pub fn make_vivaldi_rule(make_code: u16) -> (rule: RemapCfg)
    ensures
        rule == vivaldi_rule(make_code),
        rule.wf(),
{
    let mut rule = RemapCfg::new();
    rule.left_ctrl = RemapCfgKeyState::EnforceNot;
    rule.original_key = RemapCfgKey::with_values(make_code, KEY_E0);
    rule.remap_vivaldi_to_fn_keys = true;
    rule
}

/// Builds the rule that sends `remapped` for `original` under the given
/// states of left ctrl, left alt, search and left shift, with up to three
/// additional keys in the first slots.
pub fn make_shortcut(
    left_ctrl: RemapCfgKeyState,
    left_alt: RemapCfgKeyState,
    search: RemapCfgKeyState,
    left_shift: RemapCfgKeyState,
    original: RemapCfgKey,
    remapped: RemapCfgKey,
    extra: (RemapCfgKey, RemapCfgKey, RemapCfgKey),
) -> (rule: RemapCfg)
    ensures
        rule == shortcut(left_ctrl, left_alt, search, left_shift, original, remapped, extra),
{
    let mut rule = RemapCfg::new();
    rule.left_ctrl = left_ctrl;
    rule.left_alt = left_alt;
    rule.search = search;
    rule.left_shift = left_shift;
    rule.original_key = original;
    rule.remapped_key = remapped;
    rule.additional_keys[0] = extra.0;
    rule.additional_keys[1] = extra.1;
    rule.additional_keys[2] = extra.2;
    assert(rule.additional_keys =~= shortcut(
        left_ctrl,
        left_alt,
        search,
        left_shift,
        original,
        remapped,
        extra,
    ).additional_keys);
    rule
}

/// Appends rules 19 to 39 of the default table to `rules`.
fn push_default_shortcuts(rules: &mut Vec<RemapCfg>)
    ensures
        final(rules)@ == old(rules)@ + default_shortcuts(),
{
    let any = RemapCfgKeyState::NoDetect;
    let held = RemapCfgKeyState::Enforce;
    let up = RemapCfgKeyState::EnforceNot;
    let none = RemapCfgKey::new();
    let ctrl_up = RemapCfgKey::with_values(K_LCTRL, KEY_BREAK);
    let shift_up = RemapCfgKey::with_values(K_LSHFT, KEY_BREAK);
    let shift_down = RemapCfgKey::with_values(K_LSHFT, 0);
    let win_down = RemapCfgKey::with_values(K_LWIN, KEY_E0);
    let fullscreen = RemapCfgKey::with_values(VIVALDI_FULLSCREEN, KEY_E0);
    let overview = RemapCfgKey::with_values(VIVALDI_OVERVIEW, KEY_E0);
    let snapshot = RemapCfgKey::with_values(VIVALDI_SNAPSHOT, KEY_E0);
    let backspace = RemapCfgKey::with_values(K_BACKSP, 0);
    let delete = RemapCfgKey::with_values(K_DELETE, KEY_E0);
    let f11 = RemapCfgKey::with_values(K_F11, 0);
    let p = RemapCfgKey::with_values(K_P, 0);
    let tab = RemapCfgKey::with_values(K_TAB, 0);
    let s = RemapCfgKey::with_values(K_S, 0);
    let l = RemapCfgKey::with_values(K_L, 0);
    let lock = RemapCfgKey::with_values(K_LOCK, 0);
    let brightness_down = RemapCfgKey::with_values(VIVALDI_BRIGHTNESS_DN, KEY_E0);
    let brightness_up = RemapCfgKey::with_values(VIVALDI_BRIGHTNESS_UP, KEY_E0);
    let backlight_down = RemapCfgKey::with_values(VIVALDI_KBD_BKLIGHT_DOWN, KEY_E0);
    let backlight_up = RemapCfgKey::with_values(VIVALDI_KBD_BKLIGHT_UP, KEY_E0);
    let left = RemapCfgKey::with_values(K_LEFT, KEY_E0);
    let right = RemapCfgKey::with_values(K_RIGHT, KEY_E0);
    let arrow_up = RemapCfgKey::with_values(K_UP, KEY_E0);
    let arrow_down = RemapCfgKey::with_values(K_DOWN, KEY_E0);
    let home = RemapCfgKey::with_values(K_HOME, KEY_E0);
    let end = RemapCfgKey::with_values(K_END, KEY_E0);
    let page_up = RemapCfgKey::with_values(K_PGUP, KEY_E0);
    let page_down = RemapCfgKey::with_values(K_PGDN, KEY_E0);
    rules.push(make_shortcut(held, held, any, any, backspace, delete, (none, none, none)));
    rules.push(make_shortcut(held, up, any, any, backspace, delete, (ctrl_up, none, none)));
    rules.push(make_shortcut(held, any, any, up, fullscreen, f11, (ctrl_up, none, none)));
    rules.push(make_shortcut(held, any, up, held, fullscreen, p, (ctrl_up, shift_up, win_down)));
    rules.push(make_shortcut(held, any, held, held, fullscreen, p, (ctrl_up, shift_up, none)));
    rules.push(make_shortcut(held, any, up, up, overview, tab, (ctrl_up, win_down, none)));
    rules.push(make_shortcut(held, any, held, up, overview, tab, (ctrl_up, none, none)));
    rules.push(make_shortcut(held, any, up, held, overview, s, (ctrl_up, win_down, none)));
    rules.push(make_shortcut(held, any, held, held, overview, s, (ctrl_up, none, none)));
    rules.push(make_shortcut(held, any, up, up, snapshot, s, (ctrl_up, win_down, shift_down)));
    rules.push(make_shortcut(held, any, held, up, snapshot, s, (ctrl_up, shift_down, none)));
    rules.push(make_shortcut(held, any, up, held, snapshot, s, (ctrl_up, win_down, none)));
    rules.push(make_shortcut(held, any, held, held, snapshot, s, (ctrl_up, none, none)));
    rules.push(
        make_shortcut(held, held, any, any, brightness_down, backlight_down, (none, none, none)),
    );
    rules.push(
        make_shortcut(held, held, any, any, brightness_up, backlight_up, (none, none, none)),
    );
    rules.push(make_shortcut(held, any, any, any, left, home, (ctrl_up, none, none)));
    rules.push(make_shortcut(held, any, any, any, right, end, (ctrl_up, none, none)));
    rules.push(make_shortcut(held, any, any, any, arrow_up, page_up, (ctrl_up, none, none)));
    rules.push(make_shortcut(held, any, any, any, arrow_down, page_down, (ctrl_up, none, none)));
    rules.push(make_shortcut(any, any, up, any, lock, l, (win_down, none, none)));
    rules.push(make_shortcut(any, any, held, any, lock, l, (none, none, none)));
    assert(rules@ =~= old(rules)@ + default_shortcuts());
}

/// Builds the forty rules of the default table.
pub fn default_rules() -> (rules: Vec<RemapCfg>)
    ensures
        rules@ == default_table(),
        rules@.len() == 40,
{
    let keys: [u16; 19] = [
        VIVALDI_BACK,
        VIVALDI_FWD,
        VIVALDI_REFRESH,
        VIVALDI_FULLSCREEN,
        VIVALDI_OVERVIEW,
        VIVALDI_SNAPSHOT,
        VIVALDI_BRIGHTNESS_DN,
        VIVALDI_BRIGHTNESS_UP,
        VIVALDI_PRIVACY_TOGGLE,
        VIVALDI_KBD_BKLIGHT_DOWN,
        VIVALDI_KBD_BKLIGHT_UP,
        VIVALDI_KBD_BKLIGHT_TOGGLE,
        VIVALDI_PLAY_PAUSE,
        VIVALDI_MUTE,
        VIVALDI_VOL_DN,
        VIVALDI_VOL_UP,
        VIVALDI_NEXT_TRACK,
        VIVALDI_PREV_TRACK,
        VIVALDI_MIC_MUTE,
    ];
    assert(keys@ =~= vivaldi_keys());
    let mut rules: Vec<RemapCfg> = Vec::new();
    let mut i: usize = 0;
    while i < 19
        invariant
            i <= 19,
            keys@ == vivaldi_keys(),
            rules@.len() == i,
            forall|k: int| 0 <= k < i ==> #[trigger] rules@[k] == vivaldi_rule(vivaldi_keys()[k]),
        decreases 19 - i,
    {
        rules.push(make_vivaldi_rule(keys[i]));
        i += 1;
    }
    assert(rules@ =~= Seq::new(19, |i: int| vivaldi_rule(vivaldi_keys()[i])));
    push_default_shortcuts(&mut rules);
    rules
}

/// Every rule of the default table is well formed.
pub proof fn lemma_default_table_wf()
    ensures
        default_table().len() == 40,
        default_file().valid(),
{
    let table = default_table();
    assert(default_shortcuts().len() == 21);
    assert forall|i: int| 0 <= i < table.len() implies (#[trigger] table[i]).wf() by {
        if i >= 19 {
            assert(table[i] == default_shortcuts()[i - 19]);
        }
    }
}

/// Builds the default settings file.
pub fn default_config() -> (config: ConfigFile)
    ensures
        config@ == default_file(),
        config@.valid(),
{
    proof {
        lemma_default_table_wf();
    }
    ConfigFile {
        header: RemapCfgsHeader {
            magic: CFG_MAGIC,
            remappings: DEFAULT_RULES as u32,
            flip_search_and_assistant_on_pixelbook: true,
            has_assistant_key: RemapCfgOverride::AutoDetect,
            is_non_chrome_ec: RemapCfgOverride::AutoDetect,
        },
        rules: default_rules(),
    }
}

/// Builds the bytes of the default settings file, 2937 of them, after
/// checking the layout. The check cannot fail, so the result is never an
/// error.
pub fn demo_config() -> (r: Result<Vec<u8>, LayoutError>)
    ensures
        r is Ok,
        r->Ok_0@ == encode_file(default_file()),
        r->Ok_0@.len() == 2937,
{
    match validate_layout() {
        Ok(()) => Ok(encode(&default_config())),
        Err(e) => Err(e),
    }
}

} // verus!
