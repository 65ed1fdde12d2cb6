//! The editable form of a settings file: the same data with names for the
//! enumerations and with key codes annotated in hexadecimal.
//!
//! These types carry no encoding of their own. A program that stores them
//! as text serialises a copy of them; the functions here decide what they
//! hold.

use vstd::prelude::*;
use vstd::string::StringExecFns;
use crate::codec::{decode, decode_file, encode, encode_file, DecodeError};
use crate::layout::CFG_MAGIC;
use crate::model::{
    ConfigFile, ConfigFileView, RemapCfg, RemapCfgKey, RemapCfgKeyState, RemapCfgOverride,
    RemapCfgsHeader,
};
use crate::text::{
    flag_names, format_key_state, format_magic, format_make_code, format_override, hex_text,
    key_state_name, key_state_number, law_names_read_back, override_name, override_number,
    parse_key_state, parse_override,
};

verus! {

/// A key in the editable form.
///
/// Only `make_code` and `flags` are read when a settings file is built
/// from the editable form; the other two fields annotate them.
#[derive(Clone, Debug, PartialEq, Eq)]
pub struct RemapCfgKeyJson {
    pub make_code: u16,
    /// `make_code` in hexadecimal, as in `0x1D`.
    pub make_code_hex: String,
    pub flags: u16,
    /// The names of the flags that are set: `KEY_BREAK`, `KEY_E0`, `KEY_E1`.
    pub flags_decoded: Vec<String>,
}

/// A key in the editable form as a mathematical value.
pub struct RemapCfgKeyJsonView {
    pub make_code: u16,
    pub make_code_hex: Seq<char>,
    pub flags: u16,
    pub flags_decoded: Seq<Seq<char>>,
}

impl View for RemapCfgKeyJson {
    type V = RemapCfgKeyJsonView;

    open spec fn view(&self) -> RemapCfgKeyJsonView {
        RemapCfgKeyJsonView {
            make_code: self.make_code,
            make_code_hex: self.make_code_hex@,
            flags: self.flags,
            flags_decoded: self.flags_decoded.deep_view(),
        }
    }
}

/// The editable form of a key.
pub open spec fn key_json(key: RemapCfgKey) -> RemapCfgKeyJsonView {
    RemapCfgKeyJsonView {
        make_code: key.make_code,
        make_code_hex: hex_text(key.make_code as nat, 2),
        flags: key.flags,
        flags_decoded: flag_names(key.flags, "KEY_BREAK"@, "KEY_E0"@, "KEY_E1"@),
    }
}

impl RemapCfgKeyJsonView {
    /// The key that the editable form stands for.
    pub open spec fn key(self) -> RemapCfgKey {
        RemapCfgKey { make_code: self.make_code, flags: self.flags }
    }
}

impl RemapCfgKeyJson {
    /// The editable form of the key with the given make code and flags.
    pub fn new(make_code: u16, flags: u16) -> (key: Self)
        ensures
            key@ == key_json(RemapCfgKey { make_code, flags }),
    {
        let mut flags_decoded: Vec<String> = Vec::new();
        if flags & 0x0001 != 0 {
            flags_decoded.push(String::from_str("KEY_BREAK"));
        }
        if flags & 0x0002 != 0 {
            flags_decoded.push(String::from_str("KEY_E0"));
        }
        if flags & 0x0004 != 0 {
            flags_decoded.push(String::from_str("KEY_E1"));
        }
        assert(flags_decoded.deep_view() =~= flag_names(
            flags,
            "KEY_BREAK"@,
            "KEY_E0"@,
            "KEY_E1"@,
        ));
        RemapCfgKeyJson {
            make_code,
            make_code_hex: format_make_code(make_code),
            flags,
            flags_decoded,
        }
    }

    /// Whether this stands for "no key": make code and flags both zero.
    pub fn is_empty(&self) -> (r: bool)
        ensures
            r == self@.key().is_unset(),
    {
        self.make_code == 0 && self.flags == 0
    }

    /// The key that this stands for.
    pub fn to_key(&self) -> (key: RemapCfgKey)
        ensures
            key == self@.key(),
    {
        RemapCfgKey::with_values(self.make_code, self.flags)
    }
}

/// The keys of `keys` that are set, in their order.
pub open spec fn set_keys(keys: Seq<RemapCfgKey>) -> Seq<RemapCfgKey> {
    keys.filter(|key: RemapCfgKey| !key.is_unset())
}

/// The editable forms of `keys`, one for one.
pub open spec fn keys_json(keys: Seq<RemapCfgKey>) -> Seq<RemapCfgKeyJsonView> {
    keys.map_values(|key: RemapCfgKey| key_json(key))
}

/// The views of the keys in `keys`, one for one.
pub open spec fn key_views(keys: Seq<RemapCfgKeyJson>) -> Seq<RemapCfgKeyJsonView> {
    keys.map_values(|key: RemapCfgKeyJson| key@)
}

/// A rule in the editable form.
///
/// `remapped_key` is absent, and `additional_keys` holds no entry, for a
/// key that is not set.
#[derive(Clone, Debug, PartialEq, Eq)]
pub struct ConfigEntryJson {
    /// Position of the rule in the file, from zero. It is not read when a
    /// settings file is built: there the order of the entries counts.
    pub index: u32,
    pub left_ctrl: String,
    pub left_alt: String,
    pub search: String,
    pub assistant: String,
    pub left_shift: String,
    pub right_ctrl: String,
    pub right_alt: String,
    pub right_shift: String,
    pub original_key: RemapCfgKeyJson,
    pub remap_vivaldi_to_fn: bool,
    pub remapped_key: Option<RemapCfgKeyJson>,
    pub additional_keys: Vec<RemapCfgKeyJson>,
}

/// A rule in the editable form as a mathematical value.
pub struct ConfigEntryJsonView {
    pub index: u32,
    pub left_ctrl: Seq<char>,
    pub left_alt: Seq<char>,
    pub search: Seq<char>,
    pub assistant: Seq<char>,
    pub left_shift: Seq<char>,
    pub right_ctrl: Seq<char>,
    pub right_alt: Seq<char>,
    pub right_shift: Seq<char>,
    pub original_key: RemapCfgKeyJsonView,
    pub remap_vivaldi_to_fn: bool,
    pub remapped_key: Option<RemapCfgKeyJsonView>,
    pub additional_keys: Seq<RemapCfgKeyJsonView>,
}

impl View for ConfigEntryJson {
    type V = ConfigEntryJsonView;

    open spec fn view(&self) -> ConfigEntryJsonView {
        ConfigEntryJsonView {
            index: self.index,
            left_ctrl: self.left_ctrl@,
            left_alt: self.left_alt@,
            search: self.search@,
            assistant: self.assistant@,
            left_shift: self.left_shift@,
            right_ctrl: self.right_ctrl@,
            right_alt: self.right_alt@,
            right_shift: self.right_shift@,
            original_key: self.original_key@,
            remap_vivaldi_to_fn: self.remap_vivaldi_to_fn,
            remapped_key: match self.remapped_key {
                Some(key) => Some(key@),
                None => None,
            },
            additional_keys: key_views(self.additional_keys@),
        }
    }
}

/// The editable form of the rule at position `index`: each modifier by
/// name, the remapped key only where it is set, and of the additional keys
/// those that are set.
pub open spec fn entry_json(index: u32, rule: RemapCfg) -> ConfigEntryJsonView {
    ConfigEntryJsonView {
        index,
        left_ctrl: key_state_name(rule.left_ctrl.raw()),
        left_alt: key_state_name(rule.left_alt.raw()),
        search: key_state_name(rule.search.raw()),
        assistant: key_state_name(rule.assistant.raw()),
        left_shift: key_state_name(rule.left_shift.raw()),
        right_ctrl: key_state_name(rule.right_ctrl.raw()),
        right_alt: key_state_name(rule.right_alt.raw()),
        right_shift: key_state_name(rule.right_shift.raw()),
        original_key: key_json(rule.original_key),
        remap_vivaldi_to_fn: rule.remap_vivaldi_to_fn_keys,
        remapped_key: if rule.remapped_key.is_unset() {
            None
        } else {
            Some(key_json(rule.remapped_key))
        },
        additional_keys: keys_json(set_keys(rule.additional_keys@)),
    }
}

/// The key in slot `slot` of a rule built from the editable form: the
/// entry at that position, or "no key" where the list is shorter.
pub open spec fn slot_key(keys: Seq<RemapCfgKeyJsonView>, slot: int) -> RemapCfgKey {
    if 0 <= slot < keys.len() {
        keys[slot].key()
    } else {
        RemapCfgKey { make_code: 0, flags: 0 }
    }
}

/// The rule that an entry of the editable form stands for. Modifier names
/// are read as `parse_key_state` reads them; an absent remapped key is "no
/// key"; the first eight additional keys fill the eight slots in their
/// order and any further ones are dropped.
pub open spec fn rule_of_entry(entry: ConfigEntryJsonView) -> RemapCfg {
    RemapCfg {
        left_ctrl: RemapCfgKeyState::of_raw(key_state_number(entry.left_ctrl)),
        left_alt: RemapCfgKeyState::of_raw(key_state_number(entry.left_alt)),
        search: RemapCfgKeyState::of_raw(key_state_number(entry.search)),
        assistant: RemapCfgKeyState::of_raw(key_state_number(entry.assistant)),
        left_shift: RemapCfgKeyState::of_raw(key_state_number(entry.left_shift)),
        right_ctrl: RemapCfgKeyState::of_raw(key_state_number(entry.right_ctrl)),
        right_alt: RemapCfgKeyState::of_raw(key_state_number(entry.right_alt)),
        right_shift: RemapCfgKeyState::of_raw(key_state_number(entry.right_shift)),
        original_key: entry.original_key.key(),
        remap_vivaldi_to_fn_keys: entry.remap_vivaldi_to_fn,
        remapped_key: match entry.remapped_key {
            Some(key) => key.key(),
            None => RemapCfgKey { make_code: 0, flags: 0 },
        },
        additional_keys: [
            slot_key(entry.additional_keys, 0),
            slot_key(entry.additional_keys, 1),
            slot_key(entry.additional_keys, 2),
            slot_key(entry.additional_keys, 3),
            slot_key(entry.additional_keys, 4),
            slot_key(entry.additional_keys, 5),
            slot_key(entry.additional_keys, 6),
            slot_key(entry.additional_keys, 7),
        ],
    }
}

/// Taking one more key into account appends it where it is set.
pub proof fn lemma_set_keys_push(keys: Seq<RemapCfgKey>, key: RemapCfgKey)
    ensures
        set_keys(keys.push(key)) == (if key.is_unset() {
            set_keys(keys)
        } else {
            set_keys(keys).push(key)
        }),
{
    reveal(Seq::filter);
    assert(keys.push(key).drop_last() =~= keys);
}

impl ConfigEntryJson {
    /// The editable form of `rule` at position `index`.
    pub fn from_rule(index: u32, rule: &RemapCfg) -> (entry: Self)
        ensures
            entry@ == entry_json(index, *rule),
    {
        let mut additional_keys: Vec<RemapCfgKeyJson> = Vec::new();
        let mut j: usize = 0;
        proof {
            reveal(Seq::filter);
        }
        assert(rule.additional_keys@.take(0) =~= Seq::<RemapCfgKey>::empty());
        assert(key_views(additional_keys@) =~= keys_json(set_keys(rule.additional_keys@.take(0))));
        while j < 8
            invariant
                j <= 8,
                key_views(additional_keys@) == keys_json(
                    set_keys(rule.additional_keys@.take(j as int)),
                ),
            decreases 8 - j,
        {
            let key = rule.additional_keys[j];
            proof {
                let seen = rule.additional_keys@.take(j as int);
                lemma_set_keys_push(seen, key);
                assert(seen.push(key) =~= rule.additional_keys@.take(j + 1));
            }
            if key.make_code != 0 || key.flags != 0 {
                let ghost before = additional_keys@;
                additional_keys.push(RemapCfgKeyJson::new(key.make_code, key.flags));
                proof {
                    let seen = rule.additional_keys@.take(j as int);
                    assert(key_views(additional_keys@) =~= key_views(before).push(key_json(key)));
                    assert(keys_json(set_keys(seen).push(key)) =~= keys_json(set_keys(seen)).push(
                        key_json(key),
                    ));
                }
            }
            j += 1;
        }
        assert(rule.additional_keys@.take(8) =~= rule.additional_keys@);
        let remapped = RemapCfgKeyJson::new(rule.remapped_key.make_code, rule.remapped_key.flags);
        ConfigEntryJson {
            index,
            left_ctrl: String::from_str(format_key_state(rule.left_ctrl.to_raw())),
            left_alt: String::from_str(format_key_state(rule.left_alt.to_raw())),
            search: String::from_str(format_key_state(rule.search.to_raw())),
            assistant: String::from_str(format_key_state(rule.assistant.to_raw())),
            left_shift: String::from_str(format_key_state(rule.left_shift.to_raw())),
            right_ctrl: String::from_str(format_key_state(rule.right_ctrl.to_raw())),
            right_alt: String::from_str(format_key_state(rule.right_alt.to_raw())),
            right_shift: String::from_str(format_key_state(rule.right_shift.to_raw())),
            original_key: RemapCfgKeyJson::new(
                rule.original_key.make_code,
                rule.original_key.flags,
            ),
            remap_vivaldi_to_fn: rule.remap_vivaldi_to_fn_keys,
            remapped_key: if remapped.is_empty() {
                None
            } else {
                Some(remapped)
            },
            additional_keys,
        }
    }

    /// The rule that this entry stands for.
    pub fn to_rule(&self) -> (rule: RemapCfg)
        ensures
            rule == rule_of_entry(self@),
            rule.wf(),
    {
        let mut additional_keys = [RemapCfgKey::new(); 8];
        let mut j: usize = 0;
        while j < 8 && j < self.additional_keys.len()
            invariant
                j <= 8,
                forall|k: int|
                    0 <= k < j ==> #[trigger] additional_keys[k] == slot_key(
                        key_views(self.additional_keys@),
                        k,
                    ),
                forall|k: int|
                    j <= k < 8 ==> #[trigger] additional_keys[k] == (RemapCfgKey {
                        make_code: 0,
                        flags: 0,
                    }),
            decreases 8 - j,
        {
            additional_keys[j] = self.additional_keys[j].to_key();
            j += 1;
        }
        let rule = RemapCfg {
            left_ctrl: RemapCfgKeyState::from_raw(parse_key_state(self.left_ctrl.as_str())),
            left_alt: RemapCfgKeyState::from_raw(parse_key_state(self.left_alt.as_str())),
            search: RemapCfgKeyState::from_raw(parse_key_state(self.search.as_str())),
            assistant: RemapCfgKeyState::from_raw(parse_key_state(self.assistant.as_str())),
            left_shift: RemapCfgKeyState::from_raw(parse_key_state(self.left_shift.as_str())),
            right_ctrl: RemapCfgKeyState::from_raw(parse_key_state(self.right_ctrl.as_str())),
            right_alt: RemapCfgKeyState::from_raw(parse_key_state(self.right_alt.as_str())),
            right_shift: RemapCfgKeyState::from_raw(parse_key_state(self.right_shift.as_str())),
            original_key: self.original_key.to_key(),
            remap_vivaldi_to_fn_keys: self.remap_vivaldi_to_fn,
            remapped_key: match &self.remapped_key {
                Some(key) => key.to_key(),
                None => RemapCfgKey::new(),
            },
            additional_keys,
        };
        assert(rule.additional_keys =~= rule_of_entry(self@).additional_keys);
        rule
    }
}

/// Largest number of rules that a settings file is built from.
pub const MAX_CONFIGS: usize = 255;

/// A settings file in the editable form.
///
/// When a settings file is built from it, only the flip flag, the two
/// overrides and the entries of `configs` are read: the magic number is
/// always the right one and the record count is the number of entries.
#[derive(Clone, Debug, PartialEq, Eq)]
pub struct ConfigFileJson {
    /// The four magic bytes as text.
    pub magic: String,
    /// The magic number in hexadecimal.
    pub magic_hex: String,
    /// Whether the magic number is the right one.
    pub valid: bool,
    /// Number of records that the header declares.
    pub remappings: u32,
    pub flip_search_and_assistant_on_pixelbook: bool,
    pub has_assistant_key: String,
    pub is_non_chrome_ec: String,
    /// Size in bytes of the buffer that was read.
    pub file_size_bytes: usize,
    /// Size in bytes of a file with as many records as the header declares.
    pub expected_size_bytes: u64,
    pub configs: Vec<ConfigEntryJson>,
}

/// A settings file in the editable form as a mathematical value.
pub struct ConfigFileJsonView {
    pub magic: Seq<char>,
    pub magic_hex: Seq<char>,
    pub valid: bool,
    pub remappings: u32,
    pub flip_search_and_assistant_on_pixelbook: bool,
    pub has_assistant_key: Seq<char>,
    pub is_non_chrome_ec: Seq<char>,
    pub file_size_bytes: usize,
    pub expected_size_bytes: u64,
    pub configs: Seq<ConfigEntryJsonView>,
}

impl View for ConfigFileJson {
    type V = ConfigFileJsonView;

    open spec fn view(&self) -> ConfigFileJsonView {
        ConfigFileJsonView {
            magic: self.magic@,
            magic_hex: self.magic_hex@,
            valid: self.valid,
            remappings: self.remappings,
            flip_search_and_assistant_on_pixelbook: self.flip_search_and_assistant_on_pixelbook,
            has_assistant_key: self.has_assistant_key@,
            is_non_chrome_ec: self.is_non_chrome_ec@,
            file_size_bytes: self.file_size_bytes,
            expected_size_bytes: self.expected_size_bytes,
            configs: self.configs@.map_values(|entry: ConfigEntryJson| entry@),
        }
    }
}

/// The editable form of a settings file that was decoded from a buffer of
/// `file_size` bytes: the header fields, the two sizes, and one entry for
/// each record that was read, numbered from zero.
pub open spec fn file_json(config: ConfigFileView, file_size: usize) -> ConfigFileJsonView {
    ConfigFileJsonView {
        magic: "BKrC"@,
        magic_hex: hex_text(CFG_MAGIC as nat, 8),
        valid: true,
        remappings: config.header.remappings,
        flip_search_and_assistant_on_pixelbook: config.header.flip_search_and_assistant_on_pixelbook,
        has_assistant_key: override_name(config.header.has_assistant_key.raw()),
        is_non_chrome_ec: override_name(config.header.is_non_chrome_ec.raw()),
        file_size_bytes: file_size,
        expected_size_bytes: (17 + 73 * config.header.remappings) as u64,
        configs: Seq::new(config.rules.len(), |i: int| entry_json(i as u32, config.rules[i])),
    }
}

/// The settings file that the editable form stands for: the right magic
/// number, as many records as there are entries, the flip flag as given,
/// the overrides as `parse_override` reads them, and the rule of each entry.
pub open spec fn config_of_json(json: ConfigFileJsonView) -> ConfigFileView {
    ConfigFileView {
        header: RemapCfgsHeader {
            magic: CFG_MAGIC,
            remappings: json.configs.len() as u32,
            flip_search_and_assistant_on_pixelbook: json.flip_search_and_assistant_on_pixelbook,
            has_assistant_key: RemapCfgOverride::of_raw(override_number(json.has_assistant_key)),
            is_non_chrome_ec: RemapCfgOverride::of_raw(override_number(json.is_non_chrome_ec)),
        },
        rules: json.configs.map_values(|entry: ConfigEntryJsonView| rule_of_entry(entry)),
    }
}

/// Why no settings file was built from the editable form.
#[derive(Clone, Copy, Debug, PartialEq, Eq)]
pub enum GenerateError {
    /// There are `count` entries, more than 255.
    TooManyConfigs { count: usize },
}

/// Decodes a settings file and gives its editable form.
///
/// Fails as `decode` does, on a buffer shorter than a header and on a wrong
/// magic number. A buffer shorter than its header declares is not refused:
/// the entries are those of the records that `decode` returns, and the two
/// sizes in the result show that some are missing.
pub fn read_config(data: &[u8]) -> (r: Result<ConfigFileJson, DecodeError>)
    ensures
        match decode_file(data@) {
            Ok(config) => r is Ok && r->Ok_0@ == file_json(config, data.len()),
            Err(e) => r is Err && r->Err_0 == e,
        },
{
    let config = match decode(data) {
        Ok(config) => config,
        Err(e) => {
            return Err(e);
        },
    };
    let ghost model = decode_file(data@)->Ok_0;
    assert(config@ == model);
    let count = config.rules.len();
    assert(count <= config.header.remappings);
    let mut configs: Vec<ConfigEntryJson> = Vec::new();
    let mut i: usize = 0;
    while i < count
        invariant
            i <= count,
            count == config.rules@.len(),
            count <= u32::MAX,
            configs@.len() == i,
            forall|k: int|
                0 <= k < i ==> (#[trigger] configs@[k])@ == entry_json(k as u32, config.rules@[k]),
        decreases count - i,
    {
        configs.push(ConfigEntryJson::from_rule(i as u32, &config.rules[i]));
        i += 1;
    }
    let json = ConfigFileJson {
        magic: String::from_str("BKrC"),
        magic_hex: format_magic(CFG_MAGIC),
        valid: true,
        remappings: config.header.remappings,
        flip_search_and_assistant_on_pixelbook: config.header.flip_search_and_assistant_on_pixelbook,
        has_assistant_key: String::from_str(format_override(config.header.has_assistant_key.to_raw())),
        is_non_chrome_ec: String::from_str(format_override(config.header.is_non_chrome_ec.to_raw())),
        file_size_bytes: data.len(),
        expected_size_bytes: 17 + 73 * (config.header.remappings as u64),
        configs,
    };
    assert(json@.configs =~= file_json(model, data.len()).configs);
    Ok(json)
}

/// Builds the settings file that the editable form stands for.
///
/// Fails with `TooManyConfigs` when there are more than 255 entries, and on
/// nothing else. The result is valid: `encode` accepts it and `decode`
/// reads it back from the bytes.
pub fn config_from_json(config_json: &ConfigFileJson) -> (r: Result<ConfigFile, GenerateError>)
    ensures
        match r {
            Ok(config) => config_json@.configs.len() <= 255 && config@ == config_of_json(
                config_json@,
            ) && config@.valid(),
            Err(e) => config_json@.configs.len() > 255 && e == (GenerateError::TooManyConfigs {
                count: config_json@.configs.len() as usize,
            }),
        },
{
    let count = config_json.configs.len();
    if count > MAX_CONFIGS {
        return Err(GenerateError::TooManyConfigs { count });
    }
    let header = RemapCfgsHeader {
        magic: CFG_MAGIC,
        remappings: count as u32,
        flip_search_and_assistant_on_pixelbook: config_json.flip_search_and_assistant_on_pixelbook,
        has_assistant_key: RemapCfgOverride::from_raw(
            parse_override(config_json.has_assistant_key.as_str()),
        ),
        is_non_chrome_ec: RemapCfgOverride::from_raw(
            parse_override(config_json.is_non_chrome_ec.as_str()),
        ),
    };
    let mut rules: Vec<RemapCfg> = Vec::new();
    let mut i: usize = 0;
    while i < count
        invariant
            i <= count,
            count == config_json.configs@.len(),
            rules@.len() == i,
            forall|k: int|
                0 <= k < i ==> #[trigger] rules@[k] == rule_of_entry(config_json.configs@[k]@),
            forall|k: int| 0 <= k < i ==> (#[trigger] rules@[k]).wf(),
        decreases count - i,
    {
        rules.push(config_json.configs[i].to_rule());
        i += 1;
    }
    let config = ConfigFile { header, rules };
    assert(config@.rules =~= config_of_json(config_json@).rules);
    Ok(config)
}

/// Builds the bytes of the settings file that the editable form stands
/// for.
///
/// Fails with `TooManyConfigs` when there are more than 255 entries, and on
/// nothing else.
pub fn generate_config_from_json(config_json: &ConfigFileJson) -> (r: Result<
    Vec<u8>,
    GenerateError,
>)
    ensures
        match r {
            Ok(bytes) => config_json@.configs.len() <= 255 && bytes@ == encode_file(
                config_of_json(config_json@),
            ) && bytes@.len() == 17 + 73 * config_json@.configs.len(),
            Err(e) => config_json@.configs.len() > 255 && e == (GenerateError::TooManyConfigs {
                count: config_json@.configs.len() as usize,
            }),
        },
{
    match config_from_json(config_json) {
        Ok(config) => Ok(encode(&config)),
        Err(e) => Err(e),
    }
}

/// Whether the keys that are set come first: none is set behind one that
/// is not.
pub open spec fn keys_packed(keys: Seq<RemapCfgKey>) -> bool {
    forall|i: int, j: int|
        0 <= i < j < keys.len() && (#[trigger] keys[i]).is_unset() ==> (#[trigger] keys[j]).is_unset()
}

/// Whether the editable form keeps all of a rule: every modifier state has
/// a name of its own, and the additional keys that are set come first.
pub open spec fn rule_is_kept(rule: RemapCfg) -> bool {
    &&& !(rule.left_ctrl is Unknown)
    &&& !(rule.left_alt is Unknown)
    &&& !(rule.search is Unknown)
    &&& !(rule.assistant is Unknown)
    &&& !(rule.left_shift is Unknown)
    &&& !(rule.right_ctrl is Unknown)
    &&& !(rule.right_alt is Unknown)
    &&& !(rule.right_shift is Unknown)
    &&& keys_packed(rule.additional_keys@)
}

/// Whether the editable form keeps all of a settings file: the file is
/// valid, both overrides have a name of their own, and every rule is kept.
pub open spec fn file_is_kept(config: ConfigFileView) -> bool {
    &&& config.valid()
    &&& !(config.header.has_assistant_key is Unknown)
    &&& !(config.header.is_non_chrome_ec is Unknown)
    &&& forall|i: int| 0 <= i < config.rules.len() ==> rule_is_kept(#[trigger] config.rules[i])
}

/// The set keys of packed keys are the keys at the front, and all behind
/// them are unset.
proof fn lemma_set_keys_of_packed(keys: Seq<RemapCfgKey>)
    requires
        keys_packed(keys),
    ensures
        set_keys(keys).len() <= keys.len(),
        forall|j: int| 0 <= j < set_keys(keys).len() ==> set_keys(keys)[j] == keys[j],
        forall|j: int| set_keys(keys).len() <= j < keys.len() ==> keys[j].is_unset(),
    decreases keys.len(),
{
    reveal(Seq::filter);
    if keys.len() > 0 {
        let front = keys.drop_last();
        let last = keys.last();
        assert forall|i: int, j: int|
            0 <= i < j < front.len() && (#[trigger] front[i]).is_unset() implies (
        #[trigger] front[j]).is_unset() by {
            assert(front[i] == keys[i] && front[j] == keys[j]);
        }
        lemma_set_keys_of_packed(front);
        lemma_set_keys_push(front, last);
        assert(front.push(last) =~= keys);
        if !last.is_unset() {
            let kept = set_keys(front).len() as int;
            if kept < front.len() {
                assert(front[kept].is_unset());
                assert(keys[kept].is_unset() && keys[keys.len() - 1] == last);
            }
        }
    }
}

/// A rule that the editable form keeps is read back from its entry.
pub proof fn law_entry_round_trip(index: u32, rule: RemapCfg)
    requires
        rule_is_kept(rule),
    ensures
        rule_of_entry(entry_json(index, rule)) == rule,
{
    let entry = entry_json(index, rule);
    let back = rule_of_entry(entry);
    law_names_read_back(rule.left_ctrl.raw());
    law_names_read_back(rule.left_alt.raw());
    law_names_read_back(rule.search.raw());
    law_names_read_back(rule.assistant.raw());
    law_names_read_back(rule.left_shift.raw());
    law_names_read_back(rule.right_ctrl.raw());
    law_names_read_back(rule.right_alt.raw());
    law_names_read_back(rule.right_shift.raw());
    let keys = rule.additional_keys@;
    lemma_set_keys_of_packed(keys);
    assert forall|slot: int| 0 <= slot < 8 implies back.additional_keys[slot] == keys[slot] by {
        assert(back.additional_keys[slot] == slot_key(entry.additional_keys, slot));
        if slot < set_keys(keys).len() {
            assert(entry.additional_keys[slot] == key_json(set_keys(keys)[slot]));
        }
    }
    assert(back.additional_keys =~= rule.additional_keys);
}

/// A settings file that the editable form keeps is read back from its
/// editable form, whatever the size of the buffer it came from.
pub proof fn law_json_round_trip(config: ConfigFileView, file_size: usize)
    requires
        file_is_kept(config),
    ensures
        config_of_json(file_json(config, file_size)) == config,
{
    let json = file_json(config, file_size);
    let back = config_of_json(json);
    law_names_read_back(config.header.has_assistant_key.raw());
    law_names_read_back(config.header.is_non_chrome_ec.raw());
    assert(back.header == config.header);
    assert forall|i: int| 0 <= i < config.rules.len() implies back.rules[i] == config.rules[i] by {
        law_entry_round_trip(i as u32, config.rules[i]);
    }
    assert(back.rules =~= config.rules);
}

} // verus!
