//! Helpers for logging to systemd-journald.
//!
//! A record is a priority, a message and a list of fields. It is sent to journald in
//! the journal's native protocol: one frame per field, see
//! <https://systemd.io/JOURNAL_NATIVE_PROTOCOL/>.

use crate::decimal::{parse_u64, parse_unsigned, ParseIntError};
use crate::errors::{ErrorKind, SdError};
use crate::text::{find_char, position, same_text};
use vstd::bytes::{
    lemma_auto_spec_u64_to_from_le_bytes, spec_u64_from_le_bytes, spec_u64_to_le_bytes,
    u64_to_le_bytes,
};
use vstd::prelude::*;
use vstd::std_specs::convert::FromSpecImpl;
use vstd::string::StringSliceAdditionalSpecFns;
use vstd::utf8::{encode_utf8, is_ascii_chars, is_ascii_chars_encode_utf8};

verus! {

/// Default path of the systemd-journald `AF_UNIX` datagram socket.
pub const SD_JOURNAL_SOCK_PATH: &'static str = "/run/systemd/journal/socket";

/// Log priority values.
///
/// See `man 3 syslog`.
#[derive(Clone, Copy, Debug)]
pub enum Priority {
    /// System is unusable.
    Emergency,
    /// Action must be taken immediately.
    Alert,
    /// Critical condition,
    Critical,
    /// Error condition.
    Error,
    /// Warning condition.
    Warning,
    /// Normal, but significant, condition.
    Notice,
    /// Informational message.
    Info,
    /// Debug message.
    Debug,
}

impl Priority {
    /// The numeric severity of a priority, 0 being the most severe.
    pub open spec fn level(self) -> u8 {
        match self {
            Priority::Emergency => 0,
            Priority::Alert => 1,
            Priority::Critical => 2,
            Priority::Error => 3,
            Priority::Warning => 4,
            Priority::Notice => 5,
            Priority::Info => 6,
            Priority::Debug => 7,
        }
    }

    /// The severity as the payload of the `PRIORITY` field: one decimal digit.
    pub open spec fn digit(self) -> Seq<char> {
        seq![(('0' as u8) + self.level()) as char]
    }

    /// Returns the severity as text: one decimal digit.
    pub fn as_digit(self) -> (s: &'static str)
        ensures
            s@ == self.digit(),
    {
        proof {
            reveal_strlit("0");
            reveal_strlit("1");
            reveal_strlit("2");
            reveal_strlit("3");
            reveal_strlit("4");
            reveal_strlit("5");
            reveal_strlit("6");
            reveal_strlit("7");
        }
        let s = match self {
            Priority::Emergency => "0",
            Priority::Alert => "1",
            Priority::Critical => "2",
            Priority::Error => "3",
            Priority::Warning => "4",
            Priority::Notice => "5",
            Priority::Info => "6",
            Priority::Debug => "7",
        };
        s
    }
}

impl From<Priority> for u8 {
    fn from(p: Priority) -> (level: u8) {
        match p {
            Priority::Emergency => 0,
            Priority::Alert => 1,
            Priority::Critical => 2,
            Priority::Error => 3,
            Priority::Warning => 4,
            Priority::Notice => 5,
            Priority::Info => 6,
            Priority::Debug => 7,
        }
    }
}

impl FromSpecImpl<Priority> for u8 {
    open spec fn obeys_from_spec() -> bool {
        true
    }

    open spec fn from_spec(p: Priority) -> u8 {
        p.level()
    }
}

/// Whether `c` may stand in the name of a journal field: an uppercase ASCII letter, an
/// ASCII digit or `_`.
pub open spec fn valid_char(c: char) -> bool {
    ('A' <= c && c <= 'Z') || ('0' <= c && c <= '9') || c == '_'
}

/// Whether `name` is the name of a journal field that a client may send.
///
/// It is not empty and has at most 64 characters, it starts with neither a digit nor
/// `_`, and each of its characters is an uppercase ASCII letter, an ASCII digit or `_`.
pub open spec fn valid_field(name: Seq<char>) -> bool {
    &&& 0 < name.len() <= 64
    &&& name[0] != '_'
    &&& !('0' <= name[0] && name[0] <= '9')
    &&& forall|i: int| 0 <= i < name.len() ==> valid_char(#[trigger] name[i])
}

/// The rules for names of fields, one by one: a name that holds a lowercase letter or
/// a character that is not ASCII, a name that starts with a digit or `_`, an empty
/// name and a name of more than 64 characters are not valid; a name of 1 to 64
/// uppercase ASCII letters, ASCII digits and `_` that starts with a letter is valid.
pub proof fn lemma_field_name_rules(name: Seq<char>)
    ensures
        (exists|i: int| 0 <= i < name.len() && 'a' <= #[trigger] name[i] && name[i] <= 'z')
            ==> !valid_field(name),
        (exists|i: int| 0 <= i < name.len() && #[trigger] name[i] > '\u{7f}') ==> !valid_field(
            name,
        ),
        name.len() > 0 && ('0' <= name[0] && name[0] <= '9') ==> !valid_field(name),
        name.len() > 0 && name[0] == '_' ==> !valid_field(name),
        name.len() == 0 || name.len() > 64 ==> !valid_field(name),
        (1 <= name.len() <= 64 && ('A' <= name[0] && name[0] <= 'Z') && forall|i: int|
            0 <= i < name.len() ==> (('A' <= #[trigger] name[i] && name[i] <= 'Z') || ('0'
                <= name[i] && name[i] <= '9') || name[i] == '_')) ==> valid_field(name),
{
}

/// Tells whether `c` may stand in the name of a journal field.
pub fn is_valid_char(c: char) -> (b: bool)
    ensures
        b == valid_char(c),
{
    ('A' <= c && c <= 'Z') || ('0' <= c && c <= '9') || c == '_'
}

/// A name in which each character may stand in a field's name has one byte for each
/// character.
proof fn lemma_valid_chars_are_bytes(name: Seq<char>)
    requires
        forall|i: int| 0 <= i < name.len() ==> valid_char(#[trigger] name[i]),
    ensures
        encode_utf8(name).len() == name.len(),
{
    assert(is_ascii_chars(name));
    is_ascii_chars_encode_utf8(name);
}

/// The variable name must be in uppercase and consist only of characters,
/// numbers and underscores, and may not begin with an underscore.
///
/// See <https://github.com/systemd/systemd/blob/ed056c560b47f84a0aa0289151f4ec91f786d24a/src/libsystemd/sd-journal/journal-file.c#L1557>
/// for the reference implementation of journal_field_valid.
pub fn is_valid_field(input: &str) -> (b: bool)
    ensures
        b == valid_field(input@),
{
    // journald doesn't allow empty fields or fields with more than 64 bytes
    if input.is_empty() {
        return false;
    }
    if 64 < input.as_bytes().len() {
        proof {
            if valid_field(input@) {
                lemma_valid_chars_are_bytes(input@);
            }
        }
        return false;
    }
    let mut first = true;
    for c in it: input.chars()
        invariant
            it.seq() == input@,
            first <==> it.index() == 0,
            0 < input@.len(),
            input.spec_bytes().len() <= 64,
            forall|i: int| 0 <= i < it.index() ==> valid_char(#[trigger] input@[i]),
            it.index() > 0 ==> input@[0] != '_' && !('0' <= input@[0] && input@[0] <= '9'),
    {
        // Fields starting with underscores are protected by journald, and journald
        // doesn't allow fields to start with digits
        if first && (c == '_' || ('0' <= c && c <= '9')) {
            return false;
        }
        if !is_valid_char(c) {
            return false;
        }
        first = false;
    }
    proof {
        lemma_valid_chars_are_bytes(input@);
    }
    true
}

/// The byte that ends a line.
pub const NEWLINE: u8 = 0x0a;

/// The byte that parts the name of a field from its payload in a simple frame.
pub const EQUALS: u8 = 0x3d;

/// The simple frame of a field: the name, `=`, the payload and a newline.
pub open spec fn simple_frame(name: Seq<u8>, payload: Seq<u8>) -> Seq<u8> {
    name + seq![EQUALS] + payload + seq![NEWLINE]
}

/// The frame of a field with its length written out: the name, a newline, the length
/// of the payload in bytes as a little-endian 64-bit integer, the payload and a
/// newline.
pub open spec fn explicit_length_frame(name: Seq<u8>, payload: Seq<u8>) -> Seq<u8> {
    name + seq![NEWLINE] + spec_u64_to_le_bytes(payload.len() as u64) + payload + seq![NEWLINE]
}

/// What a field adds to a record.
///
/// A field whose name is not valid adds nothing. A payload without a newline is framed
/// simply, one with a newline has its length written out.
pub open spec fn field_frame(name: Seq<char>, payload: Seq<char>) -> Seq<u8> {
    if !valid_field(name) {
        Seq::empty()
    } else if payload.contains('\n') {
        explicit_length_frame(encode_utf8(name), encode_utf8(payload))
    } else {
        simple_frame(encode_utf8(name), encode_utf8(payload))
    }
}

/// The two shapes of a frame. A payload without a newline is written as the name, `=`,
/// the payload and a newline. A payload with a newline, be it a single newline and
/// nothing else, is written as the name, a newline, 8 bytes, the payload and a newline,
/// and the 8 bytes are the length of the payload in bytes as a little-endian integer.
pub proof fn lemma_frame_shapes(name: Seq<char>, payload: Seq<char>)
    requires
        valid_field(name),
        encode_utf8(payload).len() <= u64::MAX,
    ensures
        !payload.contains('\n') ==> field_frame(name, payload) == encode_utf8(name) + seq![
            EQUALS,
        ] + encode_utf8(payload) + seq![NEWLINE],
        payload.contains('\n') ==> field_frame(name, payload) == encode_utf8(name) + seq![
            NEWLINE,
        ] + spec_u64_to_le_bytes(encode_utf8(payload).len() as u64) + encode_utf8(payload)
            + seq![NEWLINE],
        spec_u64_to_le_bytes(encode_utf8(payload).len() as u64).len() == 8,
        spec_u64_from_le_bytes(spec_u64_to_le_bytes(encode_utf8(payload).len() as u64))
            == encode_utf8(payload).len(),
{
    lemma_auto_spec_u64_to_from_le_bytes();
}

/// Encoding is a function of its arguments: two records that were encoded from the
/// same priority, message and fields are the same bytes.
pub proof fn lemma_encode_is_deterministic(
    priority: Priority,
    msg: &str,
    vars: &[(&str, &str)],
    first: Vec<u8>,
    second: Vec<u8>,
)
    requires
        call_ensures(encode, (priority, msg, vars), first),
        call_ensures(encode, (priority, msg, vars), second),
    ensures
        first@ == second@,
{
}

/// Appends `bytes` to `data`.
fn extend(data: &mut Vec<u8>, bytes: &[u8])
    ensures
        final(data)@ == old(data)@ + bytes@,
{
    data.extend_from_slice(bytes);
}

/// Tells whether `text` holds a newline.
fn has_newline(text: &str) -> (b: bool)
    ensures
        b == text@.contains('\n'),
{
    for c in it: text.chars()
        invariant
            it.seq() == text@,
            forall|i: int| 0 <= i < it.index() ==> text@[i] != '\n',
    {
        if c == '\n' {
            return true;
        }
    }
    false
}

/// Add `field` and `payload` to journal fields `data` with explicit length encoding.
///
/// Write
///
/// 1. the field name,
/// 2. an ASCII newline,
/// 3. the payload size as LE encoded 64 bit integer,
/// 4. the payload, and
/// 5. a final ASCII newline
///
/// to `data`.
///
/// See <https://systemd.io/JOURNAL_NATIVE_PROTOCOL/> for details.
pub fn add_field_and_payload_explicit_length(data: &mut Vec<u8>, field: &str, payload: &str)
    ensures
        final(data)@ == old(data)@ + explicit_length_frame(
            field.spec_bytes(),
            payload.spec_bytes(),
        ),
{
    let bytes = payload.as_bytes();
    let size = u64_to_le_bytes(bytes.len() as u64);
    extend(data, field.as_bytes());
    data.push(NEWLINE);
    extend(data, size.as_slice());
    extend(data, bytes);
    data.push(NEWLINE);
    assert(data@ =~= old(data)@ + explicit_length_frame(
        field.spec_bytes(),
        payload.spec_bytes(),
    ));
}

/// Add  a journal `field` and its `payload` to journal fields `data` with appropriate encoding.
///
/// If `payload` does not contain a newline character use the simple journal field encoding, and
/// write the field name and the payload separated by `=` and suffixed by a final new line.
///
/// Otherwise encode the payload length explicitly with [`add_field_and_payload_explicit_length`].
///
/// A field whose name is not valid is left out.
///
/// See <https://systemd.io/JOURNAL_NATIVE_PROTOCOL/> for details.
pub fn add_field_and_payload(data: &mut Vec<u8>, field: &str, payload: &str)
    ensures
        final(data)@ == old(data)@ + field_frame(field@, payload@),
{
    if is_valid_field(field) {
        if has_newline(payload) {
            add_field_and_payload_explicit_length(data, field, payload);
        } else {
            // If payload doesn't contain an newline directly write the field name and the payload
            extend(data, field.as_bytes());
            data.push(EQUALS);
            extend(data, payload.as_bytes());
            data.push(NEWLINE);
        }
    }
}

/// Whether `name` is one of the two names that a record sets itself.
pub open spec fn reserved_field(name: Seq<char>) -> bool {
    name == "PRIORITY"@ || name == "MESSAGE"@
}

/// What the caller's fields add to a record: the frame of each field in turn, but for
/// those that bear a reserved name.
pub open spec fn caller_frames(fields: Seq<(Seq<char>, Seq<char>)>) -> Seq<u8>
    decreases fields.len(),
{
    if fields.len() == 0 {
        Seq::empty()
    } else if reserved_field(fields.last().0) {
        caller_frames(fields.drop_last())
    } else {
        caller_frames(fields.drop_last()) + field_frame(fields.last().0, fields.last().1)
    }
}

/// The bytes of a record: the `PRIORITY` field, the `MESSAGE` field, then the caller's
/// fields in their order.
pub open spec fn record(
    priority: Priority,
    message: Seq<char>,
    fields: Seq<(Seq<char>, Seq<char>)>,
) -> Seq<u8> {
    field_frame("PRIORITY"@, priority.digit()) + field_frame("MESSAGE"@, message) + caller_frames(
        fields,
    )
}

/// The names and payloads of `vars` as texts.
pub open spec fn texts(vars: Seq<(&str, &str)>) -> Seq<(Seq<char>, Seq<char>)> {
    Seq::new(vars.len(), |i: int| (vars[i].0@, vars[i].1@))
}

/// Encodes a record for journald.
///
/// The `PRIORITY` and `MESSAGE` fields of `vars` are always left out in favour of the
/// `priority` and `msg` arguments. A field of `vars` whose name is not valid is left
/// out too: encoding never fails.
pub fn encode(priority: Priority, msg: &str, vars: &[(&str, &str)]) -> (data: Vec<u8>)
    ensures
        data@ == record(priority, msg@, texts(vars@)),
{
    let mut data = Vec::new();
    add_field_and_payload(&mut data, "PRIORITY", priority.as_digit());
    add_field_and_payload(&mut data, "MESSAGE", msg);
    let ghost head = data@;
    let mut i: usize = 0;
    while i < vars.len()
        invariant
            i <= vars@.len(),
            data@ == head + caller_frames(texts(vars@).take(i as int)),
        decreases vars@.len() - i,
    {
        let kv = &vars[i];
        proof {
            let before = texts(vars@).take(i as int);
            let after = texts(vars@).take(i + 1);
            assert(after.drop_last() =~= before);
        }
        if !same_text(kv.0, "PRIORITY") && !same_text(kv.0, "MESSAGE") {
            add_field_and_payload(&mut data, kv.0, kv.1);
        }
        i = i + 1;
    }
    assert(texts(vars@).take(i as int) =~= texts(vars@));
    data
}

/// A systemd journal stream.
#[derive(Clone, Copy, Debug, PartialEq, Eq, Structural)]
pub struct JournalStream {
    /// The device number of the journal stream.
    device: u64,
    /// The inode number of the journal stream.
    inode: u64,
}

/// The text of the error for a journal stream specification without a `:`.
pub open spec fn missing_separator_message(value: Seq<char>) -> Seq<char> {
    "Failed to parse journal stream: Missing separator ':' in value '"@ + value + "'"@
}

/// The text of the error for a journal stream specification in which `part`, which
/// is to be the number called `what`, is not a number.
pub open spec fn not_a_number_message(what: Seq<char>, part: Seq<char>, error: ParseIntError)
    -> Seq<char> {
    "Failed to parse journal stream: "@ + what + " part is not a number '"@ + part + "': "@
        + error.text()
}

/// What a journal stream specification says: the device and the inode number, or the
/// text of the error.
///
/// The device number stands before the first `:`, the inode number after it. The
/// device number is read first.
pub open spec fn parse_stream(value: Seq<char>) -> Result<(nat, nat), Seq<char>> {
    let colon = position(value, ':');
    if colon >= value.len() {
        Err(missing_separator_message(value))
    } else {
        let device = value.take(colon);
        let inode = value.skip(colon + 1);
        match parse_unsigned(device, u64::MAX as nat) {
            Err(error) => Err(not_a_number_message("Device"@, device, error)),
            Ok(d) => match parse_unsigned(inode, u64::MAX as nat) {
                Err(error) => Err(not_a_number_message("Inode"@, inode, error)),
                Ok(i) => Ok((d, i)),
            },
        }
    }
}

/// Builds the error for a part of a journal stream specification that is not a number.
fn not_a_number(what: &str, part: &str, error: ParseIntError) -> (e: SdError)
    ensures
        e.kind() == ErrorKind::Generic,
        e.message() == not_a_number_message(what@, part@, error),
{
    let mut msg = String::from_str("Failed to parse journal stream: ");
    msg.append(what);
    msg.append(" part is not a number '");
    msg.append(part);
    msg.append("': ");
    msg.append(error.describe());
    SdError::generic(msg)
}

impl JournalStream {
    /// The device number of the journal stream.
    pub closed spec fn device(&self) -> u64 {
        self.device
    }

    /// The inode number of the journal stream.
    pub closed spec fn inode(&self) -> u64 {
        self.inode
    }

    /// Parse the device and inode number from a systemd journal stream specification.
    ///
    /// This value is typically extracted from `$JOURNAL_STREAM`, and consists of the device and inode
    /// numbers of the systemd journal stream, separated by `:`.
    pub fn parse(value: &str) -> (r: Result<Self, SdError>)
        ensures
            r matches Ok(stream) ==> parse_stream(value@) == Ok::<(nat, nat), Seq<char>>(
                (stream.device() as nat, stream.inode() as nat),
            ),
            r matches Err(e) ==> e.kind() == ErrorKind::Generic && parse_stream(value@) == Err::<
                (nat, nat),
                Seq<char>,
            >(e.message()),
    {
        let (found, len) = find_char(value, ':');
        let colon = match found {
            Some(i) => i,
            None => {
                let mut msg = String::from_str(
                    "Failed to parse journal stream: Missing separator ':' in value '",
                );
                msg.append(value);
                msg.append("'");
                return Err(SdError::generic(msg));
            },
        };
        let device_s = value.substring_char(0, colon);
        let inode_s = value.substring_char(colon + 1, len);
        let device = match parse_u64(device_s, u64::MAX) {
            Ok(n) => n,
            Err(error) => { return Err(not_a_number("Device", device_s, error)); },
        };
        let inode = match parse_u64(inode_s, u64::MAX) {
            Ok(n) => n,
            Err(error) => { return Err(not_a_number("Inode", inode_s, error)); },
        };
        Ok(JournalStream { device, inode })
    }

    /// Parse the device and inode number of the systemd journal stream denoted by the default
    /// `$JOURNAL_STREAM` variable, whose value is `value` if it is set.
    ///
    /// See [`JournalStream::parse()`].
    pub fn from_env_default(value: Option<&str>) -> (r: Result<Self, SdError>)
        ensures
            value is None ==> (r matches Err(e) && e.kind() == ErrorKind::Generic && e.message()
                == "Failed to parse journal stream: Environment variable \"JOURNAL_STREAM\" unset"@),
            value matches Some(v) ==> (r matches Ok(stream) ==> parse_stream(v@) == Ok::<
                (nat, nat),
                Seq<char>,
            >((stream.device() as nat, stream.inode() as nat))),
            value matches Some(v) ==> (r matches Err(e) ==> e.kind() == ErrorKind::Generic
                && parse_stream(v@) == Err::<(nat, nat), Seq<char>>(e.message())),
    {
        match value {
            Some(v) => Self::parse(v),
            None => Err(
                SdError::generic(
                    String::from_str(
                        "Failed to parse journal stream: Environment variable \"JOURNAL_STREAM\" unset",
                    ),
                ),
            ),
        }
    }

    /// Get the journal stream that corresponds to a file with the device number
    /// `device` and the inode number `inode`.
    pub fn from_fd(device: u64, inode: u64) -> (stream: Self)
        ensures
            stream.device() == device,
            stream.inode() == inode,
    {
        JournalStream { device, inode }
    }
}

/// Whether this process is directly connected to the journal.
///
/// `stream` is the journal stream that `$JOURNAL_STREAM` names, `stderr` and `stdout`
/// are the streams of standard error and standard output, each if it could be had.
///
/// Returns `true` if either stream is that of `$JOURNAL_STREAM`; two streams that
/// could not be had count as the same.
///
/// Systemd sets `$JOURNAL_STREAM` to the device and inode numbers of the standard output
/// or standard error streams of the current process if either of these streams is connected
/// to the systemd journal.
pub fn connected_to_journal(
    stream: Option<JournalStream>,
    stderr: Option<JournalStream>,
    stdout: Option<JournalStream>,
) -> (b: bool)
    ensures
        b == (stream == stderr || stream == stdout),
{
    same_stream(stream, stderr) || same_stream(stream, stdout)
}

/// Tells whether `a` and `b` are the same stream, or both none.
fn same_stream(a: Option<JournalStream>, b: Option<JournalStream>) -> (same: bool)
    ensures
        same == (a == b),
{
    match (a, b) {
        (Some(x), Some(y)) => x.device == y.device && x.inode == y.inode,
        (None, None) => true,
        _ => false,
    }
}

} // verus!
