//! Encoding a settings file to bytes and decoding it again.
//!
//! Truncation policy: a buffer that is shorter than its header declares is
//! not refused. `decode` returns the complete records that fit behind the
//! header, at most as many as declared, and keeps the declared count in the
//! header, so that `ConfigFile::is_complete` tells whether any are missing.
//! Bytes behind the last declared record are ignored.

use vstd::prelude::*;
use vstd::slice::slice_subrange;
use crate::layout::{
    check_layout, magic_bytes, records_fitting, LayoutError, CFG_MAGIC, HEADER_SIZE,
    OFFSET_FLIP_FLAG, OFFSET_HAS_ASSISTANT, OFFSET_NON_CHROME_EC, OFFSET_REMAPPINGS,
    RECORD_ADDITIONAL_KEYS, RECORD_ORIGINAL_KEY, RECORD_REMAPPED_KEY, RECORD_SIZE,
    RECORD_VIVALDI_FLAG,
};
use crate::le::{
    i32_at, i32_le, push_i32, push_u16, push_u32, read_i32, read_u16, read_u32, u16_at, u16_le,
    u32_at, u32_le,
};
use crate::model::{
    ConfigFile, ConfigFileView, RemapCfg, RemapCfgKey, RemapCfgKeyState, RemapCfgOverride,
    RemapCfgsHeader,
};

verus! {

/// Why a buffer was refused.
#[derive(Clone, Copy, Debug, PartialEq, Eq)]
pub enum DecodeError {
    /// The buffer has `len` bytes, fewer than the 17 of a header.
    TooShort { len: usize },
    /// The first four bytes are not the magic number; read little-endian
    /// they give `found`.
    BadMagic { found: u32 },
}

/// The byte that stores a flag.
pub open spec fn flag_byte(flag: bool) -> u8 {
    if flag {
        1
    } else {
        0
    }
}

/// The four bytes of a key: make code, then flags.
pub open spec fn encode_key(key: RemapCfgKey) -> Seq<u8> {
    u16_le(key.make_code) + u16_le(key.flags)
}

/// The 32 bytes of the eight modifier states, in file order.
pub open spec fn encode_modifiers(rule: RemapCfg) -> Seq<u8> {
    i32_le(rule.left_ctrl.raw()) + i32_le(rule.left_alt.raw()) + i32_le(rule.search.raw())
        + i32_le(rule.assistant.raw()) + i32_le(rule.left_shift.raw()) + i32_le(
        rule.right_ctrl.raw(),
    ) + i32_le(rule.right_alt.raw()) + i32_le(rule.right_shift.raw())
}

/// The 32 bytes of the eight additional keys.
pub open spec fn encode_additional(keys: [RemapCfgKey; 8]) -> Seq<u8> {
    encode_key(keys[0]) + encode_key(keys[1]) + encode_key(keys[2]) + encode_key(keys[3])
        + encode_key(keys[4]) + encode_key(keys[5]) + encode_key(keys[6]) + encode_key(keys[7])
}

/// The 73 bytes of a record.
///
/// Opaque, so that a proof about a whole file does not unfold every record
/// in it; `reveal(encode_record)` shows the fields.
#[verifier::opaque]
pub open spec fn encode_record(rule: RemapCfg) -> Seq<u8> {
    encode_modifiers(rule) + encode_key(rule.original_key) + seq![
        flag_byte(rule.remap_vivaldi_to_fn_keys),
    ] + encode_key(rule.remapped_key) + encode_additional(rule.additional_keys)
}

/// The 17 bytes of a header.
pub open spec fn encode_header(header: RemapCfgsHeader) -> Seq<u8> {
    u32_le(header.magic) + u32_le(header.remappings) + seq![
        flag_byte(header.flip_search_and_assistant_on_pixelbook),
    ] + i32_le(header.has_assistant_key.raw()) + i32_le(header.is_non_chrome_ec.raw())
}

/// The records one after the other.
pub open spec fn encode_records(rules: Seq<RemapCfg>) -> Seq<u8>
    decreases rules.len(),
{
    if rules.len() == 0 {
        Seq::empty()
    } else {
        encode_records(rules.drop_last()) + encode_record(rules.last())
    }
}

/// The bytes of a whole file: the header, then the records.
pub open spec fn encode_file(config: ConfigFileView) -> Seq<u8> {
    encode_header(config.header) + encode_records(config.rules)
}

/// The key stored in the four bytes at `at`.
pub open spec fn key_at(bytes: Seq<u8>, at: int) -> RemapCfgKey {
    RemapCfgKey { make_code: u16_at(bytes, at), flags: u16_at(bytes, at + 2) }
}

/// The modifier state stored in the four bytes at `at`.
pub open spec fn state_at(bytes: Seq<u8>, at: int) -> RemapCfgKeyState {
    RemapCfgKeyState::of_raw(i32_at(bytes, at))
}

/// The override stored in the four bytes at `at`.
pub open spec fn override_at(bytes: Seq<u8>, at: int) -> RemapCfgOverride {
    RemapCfgOverride::of_raw(i32_at(bytes, at))
}

/// The rule that a 73-byte record stores.
pub open spec fn decode_record(record: Seq<u8>) -> RemapCfg
    recommends
        record.len() == 73,
{
    RemapCfg {
        left_ctrl: state_at(record, 0x00),
        left_alt: state_at(record, 0x04),
        search: state_at(record, 0x08),
        assistant: state_at(record, 0x0C),
        left_shift: state_at(record, 0x10),
        right_ctrl: state_at(record, 0x14),
        right_alt: state_at(record, 0x18),
        right_shift: state_at(record, 0x1C),
        original_key: key_at(record, 0x20),
        remap_vivaldi_to_fn_keys: record[0x24] != 0,
        remapped_key: key_at(record, 0x25),
        additional_keys: [
            key_at(record, 0x29),
            key_at(record, 0x2D),
            key_at(record, 0x31),
            key_at(record, 0x35),
            key_at(record, 0x39),
            key_at(record, 0x3D),
            key_at(record, 0x41),
            key_at(record, 0x45),
        ],
    }
}

/// The header that the first 17 bytes of a buffer store.
pub open spec fn decode_header(bytes: Seq<u8>) -> RemapCfgsHeader
    recommends
        bytes.len() >= 17,
{
    RemapCfgsHeader {
        magic: u32_at(bytes, 0x00),
        remappings: u32_at(bytes, 0x04),
        flip_search_and_assistant_on_pixelbook: bytes[0x08] != 0,
        has_assistant_key: override_at(bytes, 0x09),
        is_non_chrome_ec: override_at(bytes, 0x0D),
    }
}

/// Whether a buffer of at least four bytes starts with the magic number.
pub open spec fn has_magic(bytes: Seq<u8>) -> bool {
    bytes.subrange(0, 4) == magic_bytes()
}

/// Number of records that `decode` returns for a buffer with a good header:
/// those declared, or those that fit where fewer fit.
pub open spec fn records_read(bytes: Seq<u8>) -> nat
    recommends
        bytes.len() >= 17,
{
    let declared = u32_at(bytes, 0x04) as nat;
    let fitting = records_fitting(bytes.len());
    if declared <= fitting {
        declared
    } else {
        fitting
    }
}

/// The bytes of the record with index `i`.
pub open spec fn record_bytes(bytes: Seq<u8>, i: int) -> Seq<u8> {
    bytes.subrange(17 + 73 * i, 17 + 73 * i + 73)
}

/// What `decode` returns for a buffer.
pub open spec fn decode_file(bytes: Seq<u8>) -> Result<ConfigFileView, DecodeError> {
    if bytes.len() < 17 {
        Err(DecodeError::TooShort { len: bytes.len() as usize })
    } else if !has_magic(bytes) {
        Err(DecodeError::BadMagic { found: u32_at(bytes, 0) })
    } else {
        Ok(
            ConfigFileView {
                header: decode_header(bytes),
                rules: Seq::new(records_read(bytes), |i: int| decode_record(record_bytes(bytes, i))),
            },
        )
    }
}

/// A record takes 73 bytes, whatever rule it stores: 32 for the modifier
/// states, 4 for each of the two keys, 1 for the flag and 32 for the
/// additional keys.
pub proof fn lemma_record_size(rule: RemapCfg)
    ensures
        encode_key(rule.original_key).len() == 4,
        encode_key(rule.remapped_key).len() == 4,
        encode_modifiers(rule).len() == 32,
        encode_additional(rule.additional_keys).len() == 32,
        encode_record(rule).len() == 73,
{
    reveal(encode_record);
}

/// A header takes 17 bytes, whatever it holds.
pub proof fn lemma_header_size(header: RemapCfgsHeader)
    ensures
        encode_header(header).len() == 17,
{
}

/// `n` records take `73 * n` bytes.
pub proof fn lemma_encode_records_len(rules: Seq<RemapCfg>)
    ensures
        encode_records(rules).len() == 73 * rules.len(),
    decreases rules.len(),
{
    if rules.len() > 0 {
        lemma_encode_records_len(rules.drop_last());
        lemma_record_size(rules.last());
    }
}

/// Encoding one more record appends its 73 bytes.
pub proof fn lemma_encode_records_push(rules: Seq<RemapCfg>, rule: RemapCfg)
    ensures
        encode_records(rules.push(rule)) == encode_records(rules) + encode_record(rule),
{
    assert(rules.push(rule).drop_last() =~= rules);
}

/// Appends the byte of a flag to `out`.
fn push_flag(out: &mut Vec<u8>, flag: bool)
    ensures
        final(out)@ == old(out)@ + seq![flag_byte(flag)],
{
    out.push(if flag { 1 } else { 0 });
    assert(out@ =~= old(out)@ + seq![flag_byte(flag)]);
}

/// Appends the four bytes of a key to `out`.
fn push_key(out: &mut Vec<u8>, key: RemapCfgKey)
    ensures
        final(out)@ == old(out)@ + encode_key(key),
{
    push_u16(out, key.make_code);
    push_u16(out, key.flags);
    assert(out@ =~= old(out)@ + encode_key(key));
}

/// Appends the 32 bytes of the modifier states of `rule` to `out`.
fn push_modifiers(out: &mut Vec<u8>, rule: &RemapCfg)
    ensures
        final(out)@ == old(out)@ + encode_modifiers(*rule),
{
    push_i32(out, rule.left_ctrl.to_raw());
    push_i32(out, rule.left_alt.to_raw());
    push_i32(out, rule.search.to_raw());
    push_i32(out, rule.assistant.to_raw());
    push_i32(out, rule.left_shift.to_raw());
    push_i32(out, rule.right_ctrl.to_raw());
    push_i32(out, rule.right_alt.to_raw());
    push_i32(out, rule.right_shift.to_raw());
    assert(out@ =~= old(out)@ + encode_modifiers(*rule));
}

/// Appends the 32 bytes of the eight additional keys to `out`.
fn push_additional(out: &mut Vec<u8>, keys: &[RemapCfgKey; 8])
    ensures
        final(out)@ == old(out)@ + encode_additional(*keys),
{
    push_key(out, keys[0]);
    push_key(out, keys[1]);
    push_key(out, keys[2]);
    push_key(out, keys[3]);
    push_key(out, keys[4]);
    push_key(out, keys[5]);
    push_key(out, keys[6]);
    push_key(out, keys[7]);
    assert(out@ =~= old(out)@ + encode_additional(*keys));
}

/// Appends the 73 bytes of `rule` to `out`.
pub fn encode_record_into(out: &mut Vec<u8>, rule: &RemapCfg)
    ensures
        final(out)@ == old(out)@ + encode_record(*rule),
        final(out)@.len() == old(out)@.len() + 73,
{
    push_modifiers(out, rule);
    push_key(out, rule.original_key);
    push_flag(out, rule.remap_vivaldi_to_fn_keys);
    push_key(out, rule.remapped_key);
    push_additional(out, &rule.additional_keys);
    proof {
        reveal(encode_record);
        lemma_record_size(*rule);
        assert(out@ =~= old(out)@ + encode_record(*rule));
    }
}

/// Appends the 17 bytes of `header` to `out`.
pub fn encode_header_into(out: &mut Vec<u8>, header: &RemapCfgsHeader)
    ensures
        final(out)@ == old(out)@ + encode_header(*header),
        final(out)@.len() == old(out)@.len() + 17,
{
    push_u32(out, header.magic);
    push_u32(out, header.remappings);
    push_flag(out, header.flip_search_and_assistant_on_pixelbook);
    push_i32(out, header.has_assistant_key.to_raw());
    push_i32(out, header.is_non_chrome_ec.to_raw());
    assert(out@ =~= old(out)@ + encode_header(*header));
}

/// Serialises a settings file: the header, then every record, packed and
/// little-endian. The header must declare exactly the records given.
pub fn encode(config: &ConfigFile) -> (bytes: Vec<u8>)
    requires
        config@.is_complete(),
    ensures
        bytes@ == encode_file(config@),
        bytes@.len() == 17 + 73 * config.rules@.len(),
{
    let mut bytes: Vec<u8> = Vec::new();
    encode_header_into(&mut bytes, &config.header);
    assert(bytes@ =~= encode_header(config.header));
    let mut i: usize = 0;
    while i < config.rules.len()
        invariant
            i <= config.rules@.len(),
            bytes@ == encode_header(config.header) + encode_records(config.rules@.take(i as int)),
        decreases config.rules@.len() - i,
    {
        encode_record_into(&mut bytes, &config.rules[i]);
        proof {
            let done = config.rules@.take(i as int);
            lemma_encode_records_push(done, config.rules@[i as int]);
            assert(done.push(config.rules@[i as int]) =~= config.rules@.take(i + 1));
            assert(bytes@ =~= encode_header(config.header) + encode_records(
                config.rules@.take(i + 1),
            ));
        }
        i += 1;
    }
    proof {
        assert(config.rules@.take(i as int) =~= config.rules@);
        lemma_encode_records_len(config.rules@);
        lemma_header_size(config.header);
    }
    bytes
}

/// Reads the key at offset `at` of `bytes`.
fn read_key(bytes: &[u8], at: usize) -> (key: RemapCfgKey)
    requires
        at + 4 <= bytes.len(),
    ensures
        key == key_at(bytes@, at as int),
{
    let make_code = read_u16(bytes, at);
    RemapCfgKey::with_values(make_code, read_u16(bytes, at + 2))
}

/// Reads the modifier state at offset `at` of `bytes`.
fn read_state(bytes: &[u8], at: usize) -> (state: RemapCfgKeyState)
    requires
        at + 4 <= bytes.len(),
    ensures
        state == state_at(bytes@, at as int),
        state.wf(),
{
    RemapCfgKeyState::from_raw(read_i32(bytes, at))
}

/// Reads the override at offset `at` of `bytes`.
fn read_override(bytes: &[u8], at: usize) -> (over: RemapCfgOverride)
    requires
        at + 4 <= bytes.len(),
    ensures
        over == override_at(bytes@, at as int),
        over.wf(),
{
    RemapCfgOverride::from_raw(read_i32(bytes, at))
}

/// Reads the rule that a 73-byte record stores. No value of any field is
/// refused: a modifier state outside 0, 1 and 2 comes back as `Unknown`.
pub fn read_record(record: &[u8]) -> (rule: RemapCfg)
    requires
        record.len() == 73,
    ensures
        rule == decode_record(record@),
        rule.wf(),
{
    let additional_keys = [
        read_key(record, RECORD_ADDITIONAL_KEYS),
        read_key(record, RECORD_ADDITIONAL_KEYS + 4),
        read_key(record, RECORD_ADDITIONAL_KEYS + 8),
        read_key(record, RECORD_ADDITIONAL_KEYS + 12),
        read_key(record, RECORD_ADDITIONAL_KEYS + 16),
        read_key(record, RECORD_ADDITIONAL_KEYS + 20),
        read_key(record, RECORD_ADDITIONAL_KEYS + 24),
        read_key(record, RECORD_ADDITIONAL_KEYS + 28),
    ];
    let rule = RemapCfg {
        left_ctrl: read_state(record, 0x00),
        left_alt: read_state(record, 0x04),
        search: read_state(record, 0x08),
        assistant: read_state(record, 0x0C),
        left_shift: read_state(record, 0x10),
        right_ctrl: read_state(record, 0x14),
        right_alt: read_state(record, 0x18),
        right_shift: read_state(record, 0x1C),
        original_key: read_key(record, RECORD_ORIGINAL_KEY),
        remap_vivaldi_to_fn_keys: record[RECORD_VIVALDI_FLAG] != 0,
        remapped_key: read_key(record, RECORD_REMAPPED_KEY),
        additional_keys,
    };
    assert(rule.additional_keys =~= decode_record(record@).additional_keys);
    rule
}

/// Reads the header that the first 17 bytes of `bytes` store, whatever
/// its magic number.
pub fn read_header(bytes: &[u8]) -> (header: RemapCfgsHeader)
    requires
        bytes.len() >= 17,
    ensures
        header == decode_header(bytes@),
        header.wf(),
{
    RemapCfgsHeader {
        magic: read_u32(bytes, 0),
        remappings: read_u32(bytes, OFFSET_REMAPPINGS),
        flip_search_and_assistant_on_pixelbook: bytes[OFFSET_FLIP_FLAG] != 0,
        has_assistant_key: read_override(bytes, OFFSET_HAS_ASSISTANT),
        is_non_chrome_ec: read_override(bytes, OFFSET_NON_CHROME_EC),
    }
}

/// Whether `bytes` starts with the four bytes of the magic number, compared
/// byte for byte.
pub fn starts_with_magic(bytes: &[u8]) -> (r: bool)
    requires
        bytes.len() >= 4,
    ensures
        r == has_magic(bytes@),
{
    let r = bytes[0] == 0x42 && bytes[1] == 0x4B && bytes[2] == 0x72 && bytes[3] == 0x43;
    proof {
        let head = bytes@.subrange(0, 4);
        if r {
            assert(head =~= magic_bytes());
        } else {
            assert(head[0] == bytes@[0] && head[1] == bytes@[1] && head[2] == bytes@[2] && head[3]
                == bytes@[3]);
        }
    }
    r
}

/// Reads a settings file from `bytes`.
///
/// Fails with `TooShort` when the buffer cannot hold a header and with
/// `BadMagic` when its first four bytes are not the magic number. Every
/// other buffer decodes: the result holds the header and the complete
/// records that lie in the buffer, at most as many as the header declares.
/// Nothing behind the end of the buffer is read.
pub fn decode(bytes: &[u8]) -> (r: Result<ConfigFile, DecodeError>)
    ensures
        match r {
            Ok(config) => decode_file(bytes@) == Ok::<ConfigFileView, DecodeError>(config@)
                && config@.wf(),
            Err(e) => decode_file(bytes@) == Err::<ConfigFileView, DecodeError>(e),
        },
{
    if bytes.len() < HEADER_SIZE {
        return Err(DecodeError::TooShort { len: bytes.len() });
    }
    if !starts_with_magic(bytes) {
        return Err(DecodeError::BadMagic { found: read_u32(bytes, 0) });
    }
    let header = read_header(bytes);
    let len = bytes.len();
    let fitting = (len - HEADER_SIZE) / RECORD_SIZE;
    let declared = header.remappings as usize;
    let count = if declared <= fitting {
        declared
    } else {
        fitting
    };
    assert(count == records_read(bytes@));
    let mut rules: Vec<RemapCfg> = Vec::new();
    let mut i: usize = 0;
    while i < count
        invariant
            i <= count,
            bytes@.len() == len,
            len >= 17,
            count <= (len - 17) / 73,
            rules@.len() == i,
            forall|k: int|
                0 <= k < i ==> #[trigger] rules@[k] == decode_record(record_bytes(bytes@, k)),
            forall|k: int| 0 <= k < i ==> (#[trigger] rules@[k]).wf(),
        decreases count - i,
    {
        let offset = HEADER_SIZE + RECORD_SIZE * i;
        let record = slice_subrange(bytes, offset, offset + RECORD_SIZE);
        let rule = read_record(record);
        rules.push(rule);
        i += 1;
    }
    let config = ConfigFile { header, rules };
    proof {
        let expected = Seq::new(
            records_read(bytes@),
            |k: int| decode_record(record_bytes(bytes@, k)),
        );
        assert(config.rules@ =~= expected);
    }
    Ok(config)
}

/// Checks that this build writes 17-byte headers and 73-byte records, by
/// encoding one of each and measuring. It is meant to run once before the
/// codec is used, and it always succeeds: the sizes are proved for every
/// header and every record.
pub fn validate_layout() -> (r: Result<(), LayoutError>)
    ensures
        r is Ok,
{
    let header = RemapCfgsHeader {
        magic: CFG_MAGIC,
        remappings: 0,
        flip_search_and_assistant_on_pixelbook: false,
        has_assistant_key: RemapCfgOverride::AutoDetect,
        is_non_chrome_ec: RemapCfgOverride::AutoDetect,
    };
    let mut header_bytes: Vec<u8> = Vec::new();
    encode_header_into(&mut header_bytes, &header);
    let mut record_bytes: Vec<u8> = Vec::new();
    encode_record_into(&mut record_bytes, &RemapCfg::new());
    check_layout(header_bytes.len(), record_bytes.len())
}

} // verus!
