//! The journal's native protocol, as the reader of a record sees it.
//!
//! [`decode_frame`] says how the first field is read from a buffer. The laws of this
//! file show that what [`crate::logging`] writes is read back as it was meant.

use crate::logging::{
    caller_frames, explicit_length_frame, field_frame, record, reserved_field, simple_frame,
    valid_field, Priority, EQUALS, NEWLINE,
};
use crate::text::{lemma_ascii_byte_is_its_char, lemma_position_after, position};
use vstd::bytes::{
    lemma_auto_spec_u64_to_from_le_bytes, spec_u64_from_le_bytes, spec_u64_to_le_bytes,
};
use vstd::prelude::*;
use vstd::utf8::{
    encode_utf8, encode_utf8_decode_utf8, is_ascii_chars, is_ascii_chars_encode_utf8,
};

verus! {

/// A field as it is read from a buffer.
pub ghost struct Field {
    /// The name of the field.
    pub name: Seq<u8>,
    /// The payload of the field.
    pub payload: Seq<u8>,
    /// What follows the field in the buffer.
    pub rest: Seq<u8>,
}

/// The first field of `buf`, or `None` if `buf` does not start with a whole frame.
///
/// The first line of the buffer is read. If it holds a `=`, it is a simple frame: the
/// name stands before the first `=`, the payload after it. If it holds none, the line is
/// the name; the next 8 bytes state the length of the payload as a little-endian
/// integer, the payload follows, and then a newline.
pub open spec fn decode_frame(buf: Seq<u8>) -> Option<Field> {
    let line = position(buf, NEWLINE);
    let equals = position(buf, EQUALS);
    if line >= buf.len() {
        None
    } else if equals < line {
        Some(
            Field {
                name: buf.take(equals),
                payload: buf.subrange(equals + 1, line),
                rest: buf.skip(line + 1),
            },
        )
    } else if buf.len() < line + 9 {
        None
    } else {
        let len = spec_u64_from_le_bytes(buf.subrange(line + 1, line + 9)) as int;
        if buf.len() < line + 9 + len + 1 || buf[line + 9 + len] != NEWLINE {
            None
        } else {
            Some(
                Field {
                    name: buf.take(line),
                    payload: buf.subrange(line + 9, line + 9 + len),
                    rest: buf.skip(line + 9 + len + 1),
                },
            )
        }
    }
}

/// The length that a frame whose name has `name_len` bytes states for its payload: the
/// 8 bytes after the name and its newline, read as a little-endian integer.
pub open spec fn declared_length(frame: Seq<u8>, name_len: int) -> int {
    spec_u64_from_le_bytes(frame.subrange(name_len + 1, name_len + 9)) as int
}

/// The payload of a frame whose name has `name_len` bytes, read by the length that the
/// frame states.
pub open spec fn declared_payload(frame: Seq<u8>, name_len: int) -> Seq<u8> {
    frame.subrange(name_len + 9, name_len + 9 + declared_length(frame, name_len))
}

/// An explicit-length frame is read back as it was written: the length that it states
/// is the length of the payload in bytes, and the bytes that are read by that length
/// are the payload, whatever newlines it holds.
pub proof fn lemma_explicit_length_round_trip(name: Seq<u8>, payload: Seq<u8>, rest: Seq<u8>)
    requires
        !name.contains(NEWLINE),
        !name.contains(EQUALS),
        payload.len() <= u64::MAX,
    ensures
        declared_length(explicit_length_frame(name, payload), name.len() as int)
            == payload.len(),
        declared_payload(explicit_length_frame(name, payload), name.len() as int) == payload,
        explicit_length_frame(name, payload).len() == name.len() + payload.len() + 10,
        decode_frame(explicit_length_frame(name, payload) + rest) == Some(
            Field { name, payload, rest },
        ),
{
    lemma_auto_spec_u64_to_from_le_bytes();
    let size = spec_u64_to_le_bytes(payload.len() as u64);
    let frame = explicit_length_frame(name, payload);
    let n = name.len() as int;
    let p = payload.len() as int;
    assert(frame.subrange(n + 1, n + 9) =~= size);
    let buf = frame + rest;
    let tail = seq![NEWLINE] + size + payload + seq![NEWLINE] + rest;
    assert(buf =~= name + tail);
    lemma_position_after(name, tail, NEWLINE);
    lemma_position_after(name, tail, EQUALS);
    assert(buf.subrange(n + 1, n + 9) =~= size);
    assert(buf.take(n) =~= name);
    assert(buf.subrange(n + 9, n + 9 + p) =~= payload);
    assert(buf.skip(n + 9 + p + 1) =~= rest);
}

/// A simple frame is read back as it was written.
pub proof fn lemma_simple_round_trip(name: Seq<u8>, payload: Seq<u8>, rest: Seq<u8>)
    requires
        !name.contains(NEWLINE),
        !name.contains(EQUALS),
        !payload.contains(NEWLINE),
    ensures
        decode_frame(simple_frame(name, payload) + rest) == Some(Field { name, payload, rest }),
{
    let frame = simple_frame(name, payload);
    let n = name.len() as int;
    let p = payload.len() as int;
    let buf = frame + rest;
    let tail = seq![EQUALS] + payload + seq![NEWLINE] + rest;
    assert(buf =~= name + tail);
    lemma_position_after(name, tail, NEWLINE);
    lemma_position_after(name, tail, EQUALS);
    let line = seq![EQUALS] + payload;
    let after = seq![NEWLINE] + rest;
    assert(tail =~= line + after);
    lemma_position_after(line, after, NEWLINE);
    assert(buf.take(n) =~= name);
    assert(buf.subrange(n + 1, n + 1 + p) =~= payload);
    assert(buf.skip(n + 1 + p + 1) =~= rest);
}

/// The name of a field is written with one byte for each character, none of which is
/// a newline or a `=`.
pub proof fn lemma_valid_field_bytes(name: Seq<char>)
    requires
        valid_field(name),
    ensures
        encode_utf8(name).len() == name.len(),
        !encode_utf8(name).contains(NEWLINE),
        !encode_utf8(name).contains(EQUALS),
{
    assert(is_ascii_chars(name));
    is_ascii_chars_encode_utf8(name);
}

/// A field is read back as it was written: the reader of a buffer that starts with
/// the frame of a field gets the name and the payload of the field, byte for byte, and
/// is left with what follows the frame.
pub proof fn lemma_field_round_trip(name: Seq<char>, payload: Seq<char>, rest: Seq<u8>)
    requires
        valid_field(name),
        encode_utf8(payload).len() <= u64::MAX,
    ensures
        decode_frame(field_frame(name, payload) + rest) == Some(
            Field { name: encode_utf8(name), payload: encode_utf8(payload), rest },
        ),
        field_frame(name, payload).len() > 0,
{
    lemma_valid_field_bytes(name);
    lemma_ascii_byte_is_its_char(payload, NEWLINE);
    if payload.contains('\n') {
        lemma_explicit_length_round_trip(encode_utf8(name), encode_utf8(payload), rest);
    } else {
        lemma_simple_round_trip(encode_utf8(name), encode_utf8(payload), rest);
    }
}

/// The fields of `buf`, each with its name and its payload, or `None` if `buf` is not
/// made of whole frames.
pub open spec fn decode_fields(buf: Seq<u8>) -> Option<Seq<(Seq<u8>, Seq<u8>)>>
    decreases buf.len(),
{
    if buf.len() == 0 {
        Some(Seq::empty())
    } else {
        match decode_frame(buf) {
            None => None,
            Some(field) => if field.rest.len() < buf.len() {
                match decode_fields(field.rest) {
                    None => None,
                    Some(more) => Some(seq![(field.name, field.payload)] + more),
                }
            } else {
                None
            },
        }
    }
}

/// The fields of the caller that a record holds, with the bytes of their names and
/// payloads: those whose name is valid and not reserved, in their order.
pub open spec fn sent_fields(fields: Seq<(Seq<char>, Seq<char>)>) -> Seq<(Seq<u8>, Seq<u8>)>
    decreases fields.len(),
{
    if fields.len() == 0 {
        Seq::empty()
    } else if reserved_field(fields.last().0) || !valid_field(fields.last().0) {
        sent_fields(fields.drop_last())
    } else {
        sent_fields(fields.drop_last()).push(
            (encode_utf8(fields.last().0), encode_utf8(fields.last().1)),
        )
    }
}

/// Whether the payload of each of `fields` has a length that 64 bits can state.
pub open spec fn payloads_fit(fields: Seq<(Seq<char>, Seq<char>)>) -> bool {
    forall|i: int| 0 <= i < fields.len() ==> encode_utf8(#[trigger] fields[i].1).len() <= u64::MAX
}

/// A frame before whole frames is read as one more field before theirs.
proof fn lemma_decode_one_more(name: Seq<char>, payload: Seq<char>, tail: Seq<u8>)
    requires
        valid_field(name),
        encode_utf8(payload).len() <= u64::MAX,
        decode_fields(tail) is Some,
    ensures
        decode_fields(field_frame(name, payload) + tail) == Some(
            seq![(encode_utf8(name), encode_utf8(payload))] + decode_fields(tail).unwrap(),
        ),
{
    lemma_field_round_trip(name, payload, tail);
}

/// The frames of the caller's fields before whole frames are read as the fields that
/// were sent, before the fields of those frames.
proof fn lemma_decode_caller_frames(fields: Seq<(Seq<char>, Seq<char>)>, tail: Seq<u8>)
    requires
        payloads_fit(fields),
        decode_fields(tail) is Some,
    ensures
        decode_fields(caller_frames(fields) + tail) == Some(
            sent_fields(fields) + decode_fields(tail).unwrap(),
        ),
    decreases fields.len(),
{
    if fields.len() == 0 {
        assert(sent_fields(fields) + decode_fields(tail).unwrap() =~= decode_fields(
            tail,
        ).unwrap());
    } else {
        let init = fields.drop_last();
        let last = fields.last();
        assert(payloads_fit(init));
        if reserved_field(last.0) || !valid_field(last.0) {
            lemma_decode_caller_frames(init, tail);
        } else {
            let frame = field_frame(last.0, last.1);
            lemma_decode_one_more(last.0, last.1, tail);
            lemma_decode_caller_frames(init, frame + tail);
            assert(caller_frames(fields) + tail =~= caller_frames(init) + (frame + tail));
            let one = seq![(encode_utf8(last.0), encode_utf8(last.1))];
            assert(sent_fields(fields) + decode_fields(tail).unwrap() =~= sent_fields(init) + (
            one + decode_fields(tail).unwrap()));
        }
    }
}

/// The two names that a record sets itself are valid names of fields.
pub proof fn lemma_reserved_fields_are_valid()
    ensures
        valid_field("PRIORITY"@),
        valid_field("MESSAGE"@),
{
    reveal_strlit("PRIORITY");
    reveal_strlit("MESSAGE");
}

/// A record is read back as it was meant: its reader gets the priority, then the
/// message, then the fields of the caller whose names are valid and not reserved, in
/// their order, and nothing else. So `PRIORITY` and `MESSAGE` come once each, with
/// the values of the arguments, whatever the caller's fields hold.
pub proof fn lemma_record_round_trip(
    priority: Priority,
    message: Seq<char>,
    fields: Seq<(Seq<char>, Seq<char>)>,
)
    requires
        encode_utf8(message).len() <= u64::MAX,
        payloads_fit(fields),
    ensures
        decode_fields(record(priority, message, fields)) == Some(
            seq![
                (encode_utf8("PRIORITY"@), encode_utf8(priority.digit())),
                (encode_utf8("MESSAGE"@), encode_utf8(message)),
            ] + sent_fields(fields),
        ),
        forall|i: int|
            0 <= i < sent_fields(fields).len() ==> (#[trigger] sent_fields(fields)[i]).0
                != encode_utf8("PRIORITY"@) && sent_fields(fields)[i].0 != encode_utf8(
                "MESSAGE"@,
            ),
{
    lemma_reserved_fields_are_valid();
    lemma_decode_caller_frames(fields, Seq::empty());
    let callers = caller_frames(fields);
    let sent = sent_fields(fields);
    let message_frame = field_frame("MESSAGE"@, message);
    lemma_decode_one_more("MESSAGE"@, message, callers);
    lemma_digit_is_short(priority);
    lemma_decode_one_more("PRIORITY"@, priority.digit(), message_frame + callers);
    let priority_frame = field_frame("PRIORITY"@, priority.digit());
    assert(record(priority, message, fields) =~= priority_frame + (message_frame + callers));
    assert(seq![(encode_utf8("PRIORITY"@), encode_utf8(priority.digit()))] + (seq![
        (encode_utf8("MESSAGE"@), encode_utf8(message)),
    ] + sent) =~= seq![
        (encode_utf8("PRIORITY"@), encode_utf8(priority.digit())),
        (encode_utf8("MESSAGE"@), encode_utf8(message)),
    ] + sent);
    lemma_sent_fields_are_not_reserved(fields);
}

/// The digit of a priority is one byte.
proof fn lemma_digit_is_short(priority: Priority)
    ensures
        encode_utf8(priority.digit()).len() == 1,
{
    let digit = priority.digit();
    is_ascii_chars_encode_utf8(digit);
}

/// None of the caller's fields that are sent bears a reserved name.
proof fn lemma_sent_fields_are_not_reserved(fields: Seq<(Seq<char>, Seq<char>)>)
    ensures
        forall|i: int|
            0 <= i < sent_fields(fields).len() ==> (#[trigger] sent_fields(fields)[i]).0
                != encode_utf8("PRIORITY"@) && sent_fields(fields)[i].0 != encode_utf8(
                "MESSAGE"@,
            ),
    decreases fields.len(),
{
    if fields.len() > 0 {
        lemma_sent_fields_are_not_reserved(fields.drop_last());
        let last = fields.last();
        let init = sent_fields(fields.drop_last());
        let sent = sent_fields(fields);
        encode_utf8_decode_utf8(last.0);
        encode_utf8_decode_utf8("PRIORITY"@);
        encode_utf8_decode_utf8("MESSAGE"@);
        assert forall|i: int| 0 <= i < sent.len() implies (#[trigger] sent[i]).0 != encode_utf8(
            "PRIORITY"@,
        ) && sent[i].0 != encode_utf8("MESSAGE"@) by {
            if i < init.len() {
                assert(sent[i] == init[i]);
            }
        }
    }
}

} // verus!
