//! The laws of the codec: what was encoded is decoded again, a damaged magic
//! number is refused, and a short buffer yields only whole records.

use vstd::prelude::*;
use crate::codec::{
    decode_file, decode_header, decode_record, encode_additional, encode_file, encode_header,
    encode_key, encode_modifiers, encode_record, encode_records, flag_byte, has_magic, key_at,
    lemma_encode_records_len, lemma_header_size, lemma_record_size, override_at, record_bytes, records_read,
    state_at, DecodeError,
};
use crate::layout::{magic_bytes, records_fitting, CFG_MAGIC};
use crate::le::{
    i32_at, i32_le, lemma_i32_bytes_round_trip, lemma_i32_value_round_trip,
    lemma_u16_bytes_round_trip, lemma_u16_value_round_trip, lemma_u32_bytes_round_trip,
    lemma_u32_value_round_trip, u32_at, u32_le,
};
use crate::model::{
    ConfigFileView, RemapCfg, RemapCfgKey, RemapCfgKeyState, RemapCfgOverride, RemapCfgsHeader,
};

verus! {

/// A well-formed state is the one its stored number stands for.
pub proof fn lemma_state_of_raw(state: RemapCfgKeyState)
    requires
        state.wf(),
    ensures
        RemapCfgKeyState::of_raw(state.raw()) == state,
{
}

/// A well-formed override is the one its stored number stands for.
pub proof fn lemma_override_of_raw(over: RemapCfgOverride)
    requires
        over.wf(),
    ensures
        RemapCfgOverride::of_raw(over.raw()) == over,
{
}

/// A key read at the start of its own encoding is the key.
pub proof fn lemma_key_round_trip(key: RemapCfgKey)
    ensures
        encode_key(key).len() == 4,
        key_at(encode_key(key), 0) == key,
{
    lemma_u16_value_round_trip(key.make_code);
    lemma_u16_value_round_trip(key.flags);
}

/// Each modifier state is read back from its place in the block of eight.
proof fn lemma_modifiers_round_trip(rule: RemapCfg)
    ensures
        ({
            let block = encode_modifiers(rule);
            &&& block.len() == 32
            &&& i32_at(block, 0x00) == rule.left_ctrl.raw()
            &&& i32_at(block, 0x04) == rule.left_alt.raw()
            &&& i32_at(block, 0x08) == rule.search.raw()
            &&& i32_at(block, 0x0C) == rule.assistant.raw()
            &&& i32_at(block, 0x10) == rule.left_shift.raw()
            &&& i32_at(block, 0x14) == rule.right_ctrl.raw()
            &&& i32_at(block, 0x18) == rule.right_alt.raw()
            &&& i32_at(block, 0x1C) == rule.right_shift.raw()
        }),
{
    let block = encode_modifiers(rule);
    lemma_i32_window(block, 0x00, rule.left_ctrl.raw());
    lemma_i32_window(block, 0x04, rule.left_alt.raw());
    lemma_i32_window(block, 0x08, rule.search.raw());
    lemma_i32_window(block, 0x0C, rule.assistant.raw());
    lemma_i32_window(block, 0x10, rule.left_shift.raw());
    lemma_i32_window(block, 0x14, rule.right_ctrl.raw());
    lemma_i32_window(block, 0x18, rule.right_alt.raw());
    lemma_i32_window(block, 0x1C, rule.right_shift.raw());
}

/// Where the four bytes at `at` are those of `value`, `value` is read there.
proof fn lemma_i32_window(bytes: Seq<u8>, at: int, value: i32)
    requires
        0 <= at,
        at + 4 <= bytes.len(),
        bytes.subrange(at, at + 4) =~= i32_le(value),
    ensures
        i32_at(bytes, at) == value,
{
    let window = bytes.subrange(at, at + 4);
    assert(window[0] == bytes[at] && window[1] == bytes[at + 1] && window[2] == bytes[at + 2]
        && window[3] == bytes[at + 3]);
    lemma_i32_value_round_trip(value);
}

/// Where the four bytes at `at` are those of `value`, `value` is read there.
proof fn lemma_u32_window(bytes: Seq<u8>, at: int, value: u32)
    requires
        0 <= at,
        at + 4 <= bytes.len(),
        bytes.subrange(at, at + 4) =~= u32_le(value),
    ensures
        u32_at(bytes, at) == value,
{
    let window = bytes.subrange(at, at + 4);
    assert(window[0] == bytes[at] && window[1] == bytes[at + 1] && window[2] == bytes[at + 2]
        && window[3] == bytes[at + 3]);
    lemma_u32_value_round_trip(value);
}

/// Where the four bytes at `at` are those of `key`, `key` is read there.
proof fn lemma_key_window(bytes: Seq<u8>, at: int, key: RemapCfgKey)
    requires
        0 <= at,
        at + 4 <= bytes.len(),
        bytes.subrange(at, at + 4) =~= encode_key(key),
    ensures
        key_at(bytes, at) == key,
{
    let window = bytes.subrange(at, at + 4);
    assert(window[0] == bytes[at] && window[1] == bytes[at + 1] && window[2] == bytes[at + 2]
        && window[3] == bytes[at + 3]);
    lemma_key_round_trip(key);
}

/// Each additional key is read back from its place in the block of eight.
proof fn lemma_additional_round_trip(keys: [RemapCfgKey; 8])
    ensures
        ({
            let block = encode_additional(keys);
            &&& block.len() == 32
            &&& forall|k: int| 0 <= k < 8 ==> key_at(block, 4 * k) == #[trigger] keys[k]
        }),
{
    let block = encode_additional(keys);
    lemma_key_window(block, 0, keys[0]);
    lemma_key_window(block, 4, keys[1]);
    lemma_key_window(block, 8, keys[2]);
    lemma_key_window(block, 12, keys[3]);
    lemma_key_window(block, 16, keys[4]);
    lemma_key_window(block, 20, keys[5]);
    lemma_key_window(block, 24, keys[6]);
    lemma_key_window(block, 28, keys[7]);
}

/// The five parts of a concatenation lie in it one after the other.
proof fn lemma_five_parts(a: Seq<u8>, b: Seq<u8>, c: Seq<u8>, d: Seq<u8>, e: Seq<u8>)
    ensures
        ({
            let all = a + b + c + d + e;
            let at_b = a.len() as int;
            let at_c = at_b + b.len();
            let at_d = at_c + c.len();
            let at_e = at_d + d.len();
            &&& all.len() == at_e + e.len()
            &&& all.subrange(0, at_b) =~= a
            &&& all.subrange(at_b, at_c) =~= b
            &&& all.subrange(at_c, at_d) =~= c
            &&& all.subrange(at_d, at_e) =~= d
            &&& all.subrange(at_e, at_e + e.len()) =~= e
        }),
{
}

/// A number read inside a window of `bytes` is the number read at the same
/// place of the window taken alone.
proof fn lemma_i32_in_window(bytes: Seq<u8>, from: int, to: int, at: int)
    requires
        0 <= from <= to <= bytes.len(),
        0 <= at,
        at + 4 <= to - from,
    ensures
        i32_at(bytes, from + at) == i32_at(bytes.subrange(from, to), at),
{
    let window = bytes.subrange(from, to);
    assert(window[at] == bytes[from + at] && window[at + 1] == bytes[from + at + 1] && window[at
        + 2] == bytes[from + at + 2] && window[at + 3] == bytes[from + at + 3]);
}

/// A key read inside a window of `bytes` is the key read at the same place
/// of the window taken alone.
proof fn lemma_key_in_window(bytes: Seq<u8>, from: int, to: int, at: int)
    requires
        0 <= from <= to <= bytes.len(),
        0 <= at,
        at + 4 <= to - from,
    ensures
        key_at(bytes, from + at) == key_at(bytes.subrange(from, to), at),
{
    let window = bytes.subrange(from, to);
    assert(window[at] == bytes[from + at] && window[at + 1] == bytes[from + at + 1] && window[at
        + 2] == bytes[from + at + 2] && window[at + 3] == bytes[from + at + 3]);
}

/// The modifier states of a well-formed rule are decoded from its bytes.
proof fn lemma_record_modifiers(rule: RemapCfg)
    requires
        rule.wf(),
    ensures
        ({
            let back = decode_record(encode_record(rule));
            &&& back.left_ctrl == rule.left_ctrl
            &&& back.left_alt == rule.left_alt
            &&& back.search == rule.search
            &&& back.assistant == rule.assistant
            &&& back.left_shift == rule.left_shift
            &&& back.right_ctrl == rule.right_ctrl
            &&& back.right_alt == rule.right_alt
            &&& back.right_shift == rule.right_shift
        }),
{
    reveal(encode_record);
    let bytes = encode_record(rule);
    let modifiers = encode_modifiers(rule);
    lemma_record_size(rule);
    lemma_five_parts(
        modifiers,
        encode_key(rule.original_key),
        seq![flag_byte(rule.remap_vivaldi_to_fn_keys)],
        encode_key(rule.remapped_key),
        encode_additional(rule.additional_keys),
    );
    assert(bytes.subrange(0, 32) == modifiers);
    lemma_modifiers_round_trip(rule);
    lemma_i32_in_window(bytes, 0, 32, 0x00);
    lemma_i32_in_window(bytes, 0, 32, 0x04);
    lemma_i32_in_window(bytes, 0, 32, 0x08);
    lemma_i32_in_window(bytes, 0, 32, 0x0C);
    lemma_i32_in_window(bytes, 0, 32, 0x10);
    lemma_i32_in_window(bytes, 0, 32, 0x14);
    lemma_i32_in_window(bytes, 0, 32, 0x18);
    lemma_i32_in_window(bytes, 0, 32, 0x1C);
    lemma_state_of_raw(rule.left_ctrl);
    lemma_state_of_raw(rule.left_alt);
    lemma_state_of_raw(rule.search);
    lemma_state_of_raw(rule.assistant);
    lemma_state_of_raw(rule.left_shift);
    lemma_state_of_raw(rule.right_ctrl);
    lemma_state_of_raw(rule.right_alt);
    lemma_state_of_raw(rule.right_shift);
}

/// The keys and the flag of a rule are decoded from its bytes.
proof fn lemma_record_keys(rule: RemapCfg)
    ensures
        ({
            let back = decode_record(encode_record(rule));
            &&& back.original_key == rule.original_key
            &&& back.remap_vivaldi_to_fn_keys == rule.remap_vivaldi_to_fn_keys
            &&& back.remapped_key == rule.remapped_key
            &&& back.additional_keys == rule.additional_keys
        }),
{
    reveal(encode_record);
    let bytes = encode_record(rule);
    let additional = encode_additional(rule.additional_keys);
    let flag = seq![flag_byte(rule.remap_vivaldi_to_fn_keys)];
    lemma_record_size(rule);
    lemma_key_round_trip(rule.original_key);
    lemma_key_round_trip(rule.remapped_key);
    lemma_five_parts(
        encode_modifiers(rule),
        encode_key(rule.original_key),
        flag,
        encode_key(rule.remapped_key),
        additional,
    );
    lemma_key_window(bytes, 0x20, rule.original_key);
    lemma_key_window(bytes, 0x25, rule.remapped_key);
    assert(bytes.subrange(0x24, 0x25)[0] == flag[0]);
    assert(bytes.subrange(0x29, 73) == additional);
    lemma_additional_round_trip(rule.additional_keys);
    let back = decode_record(bytes);
    assert forall|k: int| 0 <= k < 8 implies back.additional_keys[k] == rule.additional_keys[k] by {
        lemma_key_in_window(bytes, 0x29, 73, 4 * k);
    }
    assert(back.additional_keys =~= rule.additional_keys);
}

/// Decoding the bytes of a well-formed rule gives the rule.
pub proof fn lemma_record_round_trip(rule: RemapCfg)
    requires
        rule.wf(),
    ensures
        encode_record(rule).len() == 73,
        decode_record(encode_record(rule)) == rule,
{
    lemma_record_size(rule);
    lemma_record_modifiers(rule);
    lemma_record_keys(rule);
}

/// The magic number is written as the bytes `42 4B 72 43`, and no other
/// number is.
pub proof fn lemma_magic_bytes(magic: u32)
    ensures
        u32_le(magic) == magic_bytes() <==> magic == CFG_MAGIC,
        u32_at(magic_bytes(), 0) == CFG_MAGIC,
{
    lemma_u32_value_round_trip(magic);
    assert(u32_le(CFG_MAGIC) =~= magic_bytes());
}

/// Decoding the bytes of a well-formed header gives the header, whatever
/// follows them.
pub proof fn lemma_header_round_trip(header: RemapCfgsHeader, rest: Seq<u8>)
    requires
        header.wf(),
    ensures
        encode_header(header).len() == 17,
        decode_header(encode_header(header) + rest) == header,
        has_magic(encode_header(header) + rest) <==> header.magic == CFG_MAGIC,
{
    let bytes = encode_header(header) + rest;
    let flag = seq![flag_byte(header.flip_search_and_assistant_on_pixelbook)];
    lemma_header_size(header);
    lemma_five_parts(
        u32_le(header.magic),
        u32_le(header.remappings),
        flag,
        i32_le(header.has_assistant_key.raw()),
        i32_le(header.is_non_chrome_ec.raw()),
    );
    let head = encode_header(header);
    assert(bytes.subrange(0, 17) =~= head);
    assert(bytes.subrange(0, 4) =~= head.subrange(0, 4));
    assert(bytes.subrange(4, 8) =~= head.subrange(4, 8));
    assert(bytes[8] == head.subrange(8, 9)[0]);
    assert(bytes.subrange(9, 13) =~= head.subrange(9, 13));
    assert(bytes.subrange(13, 17) =~= head.subrange(13, 17));
    lemma_u32_window(bytes, 0, header.magic);
    lemma_u32_window(bytes, 4, header.remappings);
    lemma_i32_window(bytes, 9, header.has_assistant_key.raw());
    lemma_i32_window(bytes, 13, header.is_non_chrome_ec.raw());
    lemma_override_of_raw(header.has_assistant_key);
    lemma_override_of_raw(header.is_non_chrome_ec);
    lemma_magic_bytes(header.magic);
}

/// The record with index `i` lies at offset `73 * i` of the encoded records.
pub proof fn lemma_record_place(rules: Seq<RemapCfg>, i: int)
    requires
        0 <= i < rules.len(),
    ensures
        encode_records(rules).len() == 73 * rules.len(),
        encode_records(rules).subrange(73 * i, 73 * i + 73) == encode_record(rules[i]),
    decreases rules.len(),
{
    let front = encode_records(rules.drop_last());
    let last = encode_record(rules.last());
    lemma_encode_records_len(rules);
    lemma_encode_records_len(rules.drop_last());
    lemma_record_size(rules.last());
    if i == rules.len() - 1 {
        assert((front + last).subrange(73 * i, 73 * i + 73) =~= last);
    } else {
        lemma_record_place(rules.drop_last(), i);
        assert((front + last).subrange(73 * i, 73 * i + 73) =~= front.subrange(
            73 * i,
            73 * i + 73,
        ));
    }
}

/// A valid settings file is decoded unchanged from its own bytes, and
/// those bytes are 17 for the header and 73 for each record.
pub proof fn law_round_trip(config: ConfigFileView)
    requires
        config.valid(),
    ensures
        encode_file(config).len() == 17 + 73 * config.rules.len(),
        decode_file(encode_file(config)) == Ok::<ConfigFileView, DecodeError>(config),
{
    let bytes = encode_file(config);
    let records = encode_records(config.rules);
    let count = config.rules.len();
    lemma_header_round_trip(config.header, records);
    lemma_encode_records_len(config.rules);
    assert(bytes.len() == 17 + 73 * count);
    assert(records_fitting(bytes.len()) == count);
    assert(records_read(bytes) == count);
    let decoded = decode_file(bytes)->Ok_0;
    assert forall|i: int| 0 <= i < count implies decode_record(record_bytes(bytes, i))
        == config.rules[i] by {
        lemma_record_place(config.rules, i);
        assert(record_bytes(bytes, i) =~= records.subrange(73 * i, 73 * i + 73));
        lemma_record_round_trip(config.rules[i]);
    }
    assert(decoded.rules =~= config.rules);
}

/// A buffer that holds a header and starts with the magic number is
/// decoded, whatever its other bytes are: no value of any field is refused.
pub proof fn law_decode_total(bytes: Seq<u8>)
    requires
        bytes.len() >= 17,
        has_magic(bytes),
    ensures
        decode_file(bytes) is Ok,
        decode_file(bytes)->Ok_0.header == decode_header(bytes),
        decode_file(bytes)->Ok_0.rules.len() == records_read(bytes),
{
}

/// A stored modifier number other than 0, 1 and 2 is decoded as `Unknown`
/// with that number, and 0, 1 and 2 as the three named states.
pub proof fn law_unknown_state_kept(record: Seq<u8>, at: int)
    ensures
        ({
            let raw = i32_at(record, at);
            let state = state_at(record, at);
            &&& state.raw() == raw
            &&& state.wf()
            &&& (state == RemapCfgKeyState::Unknown(raw) <==> !(0 <= raw <= 2))
            &&& (state == RemapCfgKeyState::NoDetect <==> raw == 0)
            &&& (state == RemapCfgKeyState::Enforce <==> raw == 1)
            &&& (state == RemapCfgKeyState::EnforceNot <==> raw == 2)
        }),
{
}

/// Changing any one of the four magic bytes of a buffer that `decode`
/// accepts makes it refuse the buffer with `BadMagic`.
pub proof fn law_magic_rejection(bytes: Seq<u8>, i: int, byte: u8)
    requires
        bytes.len() >= 17,
        has_magic(bytes),
        0 <= i < 4,
        byte != bytes[i],
    ensures
        ({
            let damaged = bytes.update(i, byte);
            &&& decode_file(damaged) == Err::<ConfigFileView, DecodeError>(
                DecodeError::BadMagic { found: u32_at(damaged, 0) },
            )
            &&& u32_at(damaged, 0) != CFG_MAGIC
        }),
{
    let damaged = bytes.update(i, byte);
    assert(bytes.subrange(0, 4)[i] == bytes[i]);
    assert(damaged.subrange(0, 4)[i] == byte);
    assert(!has_magic(damaged));
    let found = u32_at(damaged, 0);
    if found == CFG_MAGIC {
        lemma_u32_bytes_round_trip(damaged, 0);
        lemma_magic_bytes(found);
    }
}

/// Whatever `decode` returns lies in the buffer: it returns as many records
/// as the header declares or as fit, whichever is fewer, and the bytes of
/// each end at or before the end of the buffer.
pub proof fn law_records_in_bounds(bytes: Seq<u8>, i: int)
    requires
        decode_file(bytes) is Ok,
        0 <= i < decode_file(bytes)->Ok_0.rules.len(),
    ensures
        bytes.len() >= 17,
        decode_file(bytes)->Ok_0.rules.len() <= u32_at(bytes, 4),
        17 + 73 * decode_file(bytes)->Ok_0.rules.len() <= bytes.len(),
        17 + 73 * i + 73 <= bytes.len(),
        record_bytes(bytes, i).len() == 73,
        decode_file(bytes)->Ok_0.rules[i] == decode_record(record_bytes(bytes, i)),
{
}

/// A buffer one byte short of `k` records is either refused for its magic
/// number or decoded to the first `k - 1` records, fewer only where the
/// header declares fewer.
pub proof fn law_truncation(bytes: Seq<u8>, k: nat)
    requires
        k >= 1,
        bytes.len() == 17 + 73 * k - 1,
    ensures
        match decode_file(bytes) {
            Ok(config) => {
                let declared = u32_at(bytes, 4) as nat;
                &&& has_magic(bytes)
                &&& config.header == decode_header(bytes)
                &&& config.rules.len() == (if declared <= k - 1 {
                    declared
                } else {
                    (k - 1) as nat
                })
                &&& forall|i: int|
                    0 <= i < config.rules.len() ==> #[trigger] config.rules[i] == decode_record(
                        bytes.subrange(17 + 73 * i, 17 + 73 * i + 73),
                    ) && 17 + 73 * i + 73 <= bytes.len()
            },
            Err(e) => !has_magic(bytes) && e == (DecodeError::BadMagic {
                found: u32_at(bytes, 0),
            }),
        },
{
    assert(records_fitting(bytes.len()) == k - 1);
}

/// Whether every flag byte of a buffer with a header is 0 or 1: the flip
/// flag, and the vivaldi flag of each of the first `records` records.
pub open spec fn flags_are_canonical(bytes: Seq<u8>, records: nat) -> bool {
    &&& bytes[8] <= 1
    &&& forall|i: int| 0 <= i < records ==> #[trigger] record_bytes(bytes, i)[0x24] <= 1
}

/// The key read at `at` is written as the four bytes found there.
proof fn lemma_key_reencode(bytes: Seq<u8>, at: int)
    requires
        0 <= at,
        at + 4 <= bytes.len(),
    ensures
        encode_key(key_at(bytes, at)) =~= bytes.subrange(at, at + 4),
{
    lemma_u16_bytes_round_trip(bytes, at);
    lemma_u16_bytes_round_trip(bytes, at + 2);
}

/// The state and the override read at `at` are written as the four bytes
/// found there.
proof fn lemma_number_reencode(bytes: Seq<u8>, at: int)
    requires
        0 <= at,
        at + 4 <= bytes.len(),
    ensures
        i32_le(state_at(bytes, at).raw()) =~= bytes.subrange(at, at + 4),
        i32_le(override_at(bytes, at).raw()) =~= bytes.subrange(at, at + 4),
{
    lemma_i32_bytes_round_trip(bytes, at);
}

/// The modifier states read from a record are written as its first 32
/// bytes.
proof fn lemma_modifiers_reencode(record: Seq<u8>)
    requires
        record.len() == 73,
    ensures
        encode_modifiers(decode_record(record)) =~= record.subrange(0, 32),
{
    lemma_number_reencode(record, 0x00);
    lemma_number_reencode(record, 0x04);
    lemma_number_reencode(record, 0x08);
    lemma_number_reencode(record, 0x0C);
    lemma_number_reencode(record, 0x10);
    lemma_number_reencode(record, 0x14);
    lemma_number_reencode(record, 0x18);
    lemma_number_reencode(record, 0x1C);
}

/// The additional keys read from a record are written as its last 32
/// bytes.
proof fn lemma_additional_reencode(record: Seq<u8>)
    requires
        record.len() == 73,
    ensures
        encode_additional(decode_record(record).additional_keys) =~= record.subrange(0x29, 73),
{
    lemma_key_reencode(record, 0x29);
    lemma_key_reencode(record, 0x2D);
    lemma_key_reencode(record, 0x31);
    lemma_key_reencode(record, 0x35);
    lemma_key_reencode(record, 0x39);
    lemma_key_reencode(record, 0x3D);
    lemma_key_reencode(record, 0x41);
    lemma_key_reencode(record, 0x45);
}

/// Encoding what was decoded from a record gives the record again, where
/// its flag byte is 0 or 1.
pub proof fn lemma_record_reencode(record: Seq<u8>)
    requires
        record.len() == 73,
        record[0x24] <= 1,
    ensures
        encode_record(decode_record(record)) == record,
{
    reveal(encode_record);
    let rule = decode_record(record);
    lemma_modifiers_reencode(record);
    lemma_additional_reencode(record);
    lemma_key_reencode(record, 0x20);
    lemma_key_reencode(record, 0x25);
    let flag = seq![flag_byte(rule.remap_vivaldi_to_fn_keys)];
    assert(flag =~= record.subrange(0x24, 0x25));
    assert(record.subrange(0, 32) + record.subrange(0x20, 0x24) + record.subrange(0x24, 0x25)
        + record.subrange(0x25, 0x29) + record.subrange(0x29, 73) =~= record);
}

/// Encoding what was decoded from a header gives its 17 bytes again, where
/// the flag byte is 0 or 1.
pub proof fn lemma_header_reencode(bytes: Seq<u8>)
    requires
        bytes.len() >= 17,
        bytes[8] <= 1,
    ensures
        encode_header(decode_header(bytes)) == bytes.subrange(0, 17),
{
    let header = decode_header(bytes);
    lemma_u32_bytes_round_trip(bytes, 0);
    lemma_u32_bytes_round_trip(bytes, 4);
    lemma_number_reencode(bytes, 9);
    lemma_number_reencode(bytes, 13);
    let flag = seq![flag_byte(header.flip_search_and_assistant_on_pixelbook)];
    assert(flag =~= bytes.subrange(8, 9));
    assert(bytes.subrange(0, 4) + bytes.subrange(4, 8) + bytes.subrange(8, 9) + bytes.subrange(
        9,
        13,
    ) + bytes.subrange(13, 17) =~= bytes.subrange(0, 17));
}

/// A byte of the encoded records is a byte of the record it lies in.
proof fn lemma_record_byte(rules: Seq<RemapCfg>, j: int)
    requires
        0 <= j < 73 * rules.len(),
    ensures
        0 <= j / 73 < rules.len(),
        encode_record(rules[j / 73]).len() == 73,
        encode_records(rules)[j] == encode_record(rules[j / 73])[j % 73],
{
    let i = j / 73;
    lemma_record_place(rules, i);
    let window = encode_records(rules).subrange(73 * i, 73 * i + 73);
    assert(window[j % 73] == encode_records(rules)[73 * i + j % 73]);
}

/// Rules whose encodings are the record windows of a buffer are encoded,
/// one after the other, as the bytes behind its header.
proof fn lemma_records_fill_windows(bytes: Seq<u8>, rules: Seq<RemapCfg>)
    requires
        17 + 73 * rules.len() <= bytes.len(),
        forall|i: int|
            0 <= i < rules.len() ==> #[trigger] encode_record(rules[i]) == record_bytes(bytes, i),
    ensures
        encode_records(rules) == bytes.subrange(17, 17 + 73 * (rules.len() as int)),
{
    let encoded = encode_records(rules);
    let behind = bytes.subrange(17, 17 + 73 * (rules.len() as int));
    lemma_encode_records_len(rules);
    assert forall|j: int| 0 <= j < encoded.len() implies encoded[j] == behind[j] by {
        lemma_record_byte(rules, j);
        let i = j / 73;
        let image = encode_record(rules[i]);
        assert(image == record_bytes(bytes, i));
        assert(record_bytes(bytes, i)[j % 73] == bytes[17 + 73 * i + j % 73]);
    }
    assert(encoded =~= behind);
}

/// Encoding the first `count` records decoded from a buffer gives the
/// `73 * count` bytes behind its header again.
proof fn lemma_records_reencode(bytes: Seq<u8>, count: nat)
    requires
        17 + 73 * count <= bytes.len(),
        flags_are_canonical(bytes, count),
    ensures
        encode_records(Seq::new(count, |i: int| decode_record(record_bytes(bytes, i))))
            == bytes.subrange(17, 17 + 73 * (count as int)),
{
    let rules = Seq::new(count, |i: int| decode_record(record_bytes(bytes, i)));
    assert forall|i: int| 0 <= i < rules.len() implies #[trigger] encode_record(rules[i])
        == record_bytes(bytes, i) by {
        let window = record_bytes(bytes, i);
        assert(window.len() == 73 && window[0x24] <= 1);
        lemma_record_reencode(window);
    }
    lemma_records_fill_windows(bytes, rules);
}

/// A buffer that holds every record it declares, and whose flag bytes are 0
/// or 1, is encoded unchanged from what was decoded from it: the codec
/// loses nothing, not even a number it has no name for. Bytes behind the
/// last declared record are not part of the file.
pub proof fn law_reencode(bytes: Seq<u8>)
    requires
        bytes.len() >= 17,
        has_magic(bytes),
        17 + 73 * u32_at(bytes, 4) <= bytes.len(),
        flags_are_canonical(bytes, u32_at(bytes, 4) as nat),
    ensures
        decode_file(bytes) is Ok,
        decode_file(bytes)->Ok_0.is_complete(),
        encode_file(decode_file(bytes)->Ok_0) == bytes.subrange(0, 17 + 73 * u32_at(bytes, 4)),
{
    let declared = u32_at(bytes, 4) as nat;
    assert(records_fitting(bytes.len()) >= declared);
    assert(records_read(bytes) == declared);
    lemma_header_reencode(bytes);
    lemma_records_reencode(bytes, declared);
    let end = 17 + 73 * (declared as int);
    assert(bytes.subrange(0, 17) + bytes.subrange(17, end) =~= bytes.subrange(0, end));
}

} // verus!
