//! APIs for processing 128-bits IDs.

use crate::decimal::decimal;
use crate::errors::{ErrorKind, SdError};
use hmac::{Mac, NewMac};
use vstd::prelude::*;
use vstd::std_specs::convert::{FromSpec, FromSpecImpl, TryFromSpecImpl};

verus! {

/// What `uuid::Uuid::parse_str` makes of a text: the 16 bytes of the ID, or the words
/// of its error.
pub uninterp spec fn parsed_uuid(text: Seq<char>) -> Result<Seq<u8>, Seq<char>>;

/// What HMAC with SHA-256 makes of `data` under `key`, as the crates `hmac` and `sha2`
/// compute it; `None` if they took no such key.
pub uninterp spec fn hmac_sha256(key: Seq<u8>, data: Seq<u8>) -> Option<Seq<u8>>;

/// The hexadecimal digit, in lower case, that stands for `n`.
pub open spec fn hex_digit(n: nat) -> char
    recommends
        n < 16,
{
    if n < 10 {
        ((n + '0' as u32) as u32) as char
    } else {
        ((n - 10 + 'a' as u32) as u32) as char
    }
}

/// `bytes` in hexadecimal notation: two digits in lower case for each byte.
pub open spec fn hex(bytes: Seq<u8>) -> Seq<char>
    decreases bytes.len(),
{
    if bytes.len() == 0 {
        Seq::empty()
    } else {
        hex(bytes.drop_last()) + seq![
            hex_digit((bytes.last() / 16) as nat),
            hex_digit((bytes.last() % 16) as nat),
        ]
    }
}

/// The 16 bytes of an ID in hexadecimal notation, in groups of 4, 2, 2, 2 and 6 bytes
/// with dashes between them.
pub open spec fn dashed(bytes: Seq<u8>) -> Seq<char>
    recommends
        bytes.len() == 16,
{
    hex(bytes.subrange(0, 4)) + seq!['-'] + hex(bytes.subrange(4, 6)) + seq!['-'] + hex(
        bytes.subrange(6, 8),
    ) + seq!['-'] + hex(bytes.subrange(8, 10)) + seq!['-'] + hex(bytes.subrange(10, 16))
}

/// The words of the error for an ID of `found` bytes.
pub open spec fn invalid_length_message(found: nat) -> Seq<char> {
    "invalid bytes length: expected 16, found "@ + decimal(found)
}

/// The bytes or the words that `r` holds.
pub open spec fn bytes_or_words(r: Result<[u8; 16], String>) -> Result<Seq<u8>, Seq<char>> {
    match r {
        Ok(bytes) => Ok(bytes@),
        Err(words) => Err(words@),
    }
}

/// The bytes that `r` holds, if any.
pub open spec fn code_of(r: Option<Vec<u8>>) -> Option<Seq<u8>> {
    match r {
        Some(code) => Some(code@),
        None => None,
    }
}

/// `uuid::Uuid::parse_str`: parses an ID from text. The bytes of the ID come back on
/// success, the words of the error of `uuid` else.
#[verifier::external_body]
fn uuid_parse_str(input: &str) -> (r: Result<[u8; 16], String>)
    ensures
        bytes_or_words(r) == parsed_uuid(input@),
{
    match uuid::Uuid::parse_str(input) {
        Ok(id) => Ok(*id.as_bytes()),
        Err(e) => Err(e.to_string()),
    }
}

/// `uuid::Uuid::from_slice`: makes an ID of 16 bytes, which it copies. Any other
/// number of bytes is an error, whose words state that number.
#[verifier::external_body]
fn uuid_from_slice(bytes: &[u8]) -> (r: Result<[u8; 16], String>)
    ensures
        r is Ok <==> bytes@.len() == 16,
        r matches Ok(id) ==> id@ == bytes@,
        r matches Err(words) ==> words@ == invalid_length_message(bytes@.len()),
{
    match uuid::Uuid::from_slice(bytes) {
        Ok(id) => Ok(*id.as_bytes()),
        Err(e) => Err(e.to_string()),
    }
}

/// `uuid::adapter::SimpleRef` as text: the bytes of the ID in hexadecimal notation,
/// in lower case and without dashes.
#[verifier::external_body]
fn uuid_simple(bytes: &[u8; 16]) -> (s: String)
    ensures
        s@ == hex(bytes@),
{
    uuid::Uuid::from_bytes(*bytes).to_simple_ref().to_string()
}

/// `uuid::adapter::HyphenatedRef` as text: the bytes of the ID in hexadecimal
/// notation, in lower case, in five groups with dashes between them.
#[verifier::external_body]
fn uuid_hyphenated(bytes: &[u8; 16]) -> (s: String)
    ensures
        s@ == dashed(bytes@),
{
    uuid::Uuid::from_bytes(*bytes).to_hyphenated_ref().to_string()
}

/// HMAC with SHA-256 from the crates `hmac` and `sha2`: the code of `data` under
/// `key`. `Hmac::new_from_slice` takes a key of any length, and the code has the 32
/// bytes of a SHA-256 hash.
#[verifier::external_body]
fn hmac_sha256_of(key: &[u8], data: &[u8]) -> (r: Option<Vec<u8>>)
    ensures
        code_of(r) == hmac_sha256(key@, data@),
        r is Some,
        r.unwrap()@.len() == 32,
{
    let mut mac = hmac::Hmac::<sha2::Sha256>::new_from_slice(key).ok()?;
    mac.update(data);
    Some(mac.finalize().into_bytes().to_vec())
}

/// A 128-bits ID.
#[derive(Clone, Copy, Debug, Eq, Hash, PartialEq)]
pub struct Id128([u8; 16]);

impl View for Id128 {
    type V = Seq<u8>;

    closed spec fn view(&self) -> Seq<u8> {
        self.0@
    }
}

/// The bytes `hashed` with the marks of an ID of version 4 and of the variant DCE:
/// the upper four bits of byte 6 are 0100, the upper two bits of byte 8 are 10.
pub open spec fn stamped(hashed: Seq<u8>) -> Seq<u8>
    recommends
        hashed.len() >= 16,
{
    hashed.update(6, (hashed[6] & 0x0F) | 0x40).update(8, (hashed[8] & 0x3F) | 0x80)
}

/// The ID that is made of the keyed hash `hashed`, or the words of the error: a hash
/// of 32 bytes gives its first 16 bytes, stamped.
pub open spec fn id_of_hash(hashed: Seq<u8>) -> Result<Seq<u8>, Seq<char>> {
    if hashed.len() != 32 {
        Err("short hash"@)
    } else {
        Ok(stamped(hashed).take(16))
    }
}

/// The ID that is made of the keyed hash `mac`, if there is one, or the words of the
/// error.
pub open spec fn id_of_mac(mac: Option<Seq<u8>>) -> Result<Seq<u8>, Seq<char>> {
    match mac {
        None => Err("failed to prepare HMAC"@),
        Some(hashed) => id_of_hash(hashed),
    }
}

/// An ID hashed with the ID of an application, or the words of the error: the ID is the
/// key, the ID of the application is what is hashed.
pub open spec fn app_specific_id(id: Seq<u8>, app: Seq<u8>) -> Result<Seq<u8>, Seq<char>> {
    id_of_mac(hmac_sha256(id, app))
}

/// The prefix of the words for a text that is no ID.
pub open spec fn not_an_id_message(words: Seq<char>) -> Seq<char> {
    "failed to parse ID from string: "@ + words
}

/// The prefix of the words for bytes that are no ID.
pub open spec fn not_id_bytes_message(found: nat) -> Seq<char> {
    "failed to parse ID from bytes slice: "@ + invalid_length_message(found)
}

impl Id128 {
    /// An ID has 16 bytes.
    pub proof fn lemma_len(&self)
        ensures
            self@.len() == 16,
    {
    }

    /// Returns the ID as a byte array.
    pub fn as_bytes(&self) -> (bytes: &[u8; 16])
        ensures
            bytes@ == self@,
    {
        &self.0
    }

    /// Makes an ID of a slice of 16 bytes.
    pub fn try_from_slice(bytes: &[u8]) -> (r: Result<Self, SdError>)
        ensures
            r is Ok <==> bytes@.len() == 16,
            r matches Ok(id) ==> id@ == bytes@,
            r matches Err(e) ==> e.kind() == ErrorKind::Generic && e.message()
                == not_id_bytes_message(bytes@.len()),
    {
        match uuid_from_slice(bytes) {
            Ok(id) => Ok(Id128(id)),
            Err(words) => {
                let mut msg = String::from_str("failed to parse ID from bytes slice: ");
                msg.append(words.as_str());
                Err(SdError::generic(msg))
            },
        }
    }

    /// Makes an ID of what the parser made of a text: of the bytes that it found, or
    /// else the error that says what it has against the text.
    pub fn from_parsed(parsed: Result<[u8; 16], String>) -> (r: Result<Self, SdError>)
        ensures
            r is Ok <==> parsed is Ok,
            r matches Ok(id) ==> Ok::<Seq<u8>, Seq<char>>(id@) == bytes_or_words(parsed),
            r matches Err(e) ==> e.kind() == ErrorKind::Generic && (bytes_or_words(parsed)
                matches Err(words) && e.message() == not_an_id_message(words)),
    {
        match parsed {
            Ok(id) => Ok(Id128(id)),
            Err(words) => {
                let mut msg = String::from_str("failed to parse ID from string: ");
                msg.append(words.as_str());
                Err(SdError::generic(msg))
            },
        }
    }

    /// Parses an ID from text.
    pub fn parse_str(input: &str) -> (r: Result<Self, SdError>)
        ensures
            r is Ok <==> parsed_uuid(input@) is Ok,
            r matches Ok(id) ==> parsed_uuid(input@) == Ok::<Seq<u8>, Seq<char>>(id@),
            r matches Err(e) ==> e.kind() == ErrorKind::Generic && (parsed_uuid(input@)
                matches Err(words) && e.message() == not_an_id_message(words)),
    {
        Self::from_parsed(uuid_parse_str(input))
    }

    /// Makes an ID of the keyed hash `hashed`: of its first 16 bytes, with the marks of
    /// version 4 and of the variant DCE set. A hash of other than 32 bytes is an error.
    pub fn from_hash(hashed: &[u8]) -> (r: Result<Self, SdError>)
        ensures
            r matches Ok(id) ==> id_of_hash(hashed@) == Ok::<Seq<u8>, Seq<char>>(id@),
            r matches Err(e) ==> e.kind() == ErrorKind::Generic && id_of_hash(hashed@) == Err::<
                Seq<u8>,
                Seq<char>,
            >(e.message()),
    {
        if hashed.len() != 32 {
            return Err(SdError::generic(String::from_str("short hash")));
        }
        let mut bytes: [u8; 16] = [0; 16];
        let mut i: usize = 0;
        while i < 16
            invariant
                i <= 16,
                hashed@.len() == 32,
                forall|j: int| 0 <= j < i ==> bytes@[j] == hashed@[j],
            decreases 16 - i,
        {
            bytes[i] = hashed[i];
            i = i + 1;
        }
        // Set version to 4.
        bytes[6] = (bytes[6] & 0x0F) | 0x40;
        // Set variant to DCE.
        bytes[8] = (bytes[8] & 0x3F) | 0x80;
        assert(bytes@ =~= stamped(hashed@).take(16));
        Ok(Id128(bytes))
    }

    /// Makes an ID of the keyed hash `mac`, if there is one: see [`Id128::from_hash`].
    /// It is an error where no hash could be made.
    pub fn from_mac(mac: Option<Vec<u8>>) -> (r: Result<Self, SdError>)
        ensures
            r matches Ok(id) ==> id_of_mac(code_of(mac)) == Ok::<Seq<u8>, Seq<char>>(id@),
            r matches Err(e) ==> e.kind() == ErrorKind::Generic && id_of_mac(code_of(mac)) == Err::<
                Seq<u8>,
                Seq<char>,
            >(e.message()),
    {
        match mac {
            None => Err(SdError::generic(String::from_str("failed to prepare HMAC"))),
            Some(hashed) => Self::from_hash(hashed.as_slice()),
        }
    }

    /// Hash this ID with an application-specific ID.
    pub fn app_specific(&self, app: &Self) -> (r: Result<Self, SdError>)
        ensures
            r matches Ok(id) && app_specific_id(self@, app@) == Ok::<Seq<u8>, Seq<char>>(id@),
    {
        Self::from_mac(hmac_sha256_of(self.0.as_slice(), app.0.as_slice()))
    }

    /// Return this ID as a lowercase hexadecimal string, without dashes.
    pub fn lower_hex(&self) -> (s: String)
        ensures
            s@ == hex(self@),
    {
        uuid_simple(&self.0)
    }

    /// Return this ID as a lowercase hexadecimal string, with dashes.
    pub fn dashed_hex(&self) -> (s: String)
        ensures
            s@ == dashed(self@),
    {
        uuid_hyphenated(&self.0)
    }
}

impl Default for Id128 {
    fn default() -> (id: Self)
        ensures
            id@ == Seq::new(16, |i: int| 0u8),
    {
        let id = Id128([0; 16]);
        id
    }
}

impl From<[u8; 16]> for Id128 {
    fn from(bytes: [u8; 16]) -> (id: Self) {
        Id128(bytes)
    }
}

impl FromSpecImpl<[u8; 16]> for Id128 {
    open spec fn obeys_from_spec() -> bool {
        true
    }

    closed spec fn from_spec(bytes: [u8; 16]) -> Self {
        Id128(bytes)
    }
}

/// The ID that is made from 16 bytes has those bytes.
pub proof fn lemma_from_bytes(bytes: [u8; 16])
    ensures
        <Id128 as FromSpec<[u8; 16]>>::from_spec(bytes)@ == bytes@,
{
}

impl TryFrom<&[u8]> for Id128 {
    type Error = SdError;

    fn try_from(bytes: &[u8]) -> (r: Result<Self, Self::Error>)
        ensures
            r is Ok <==> bytes@.len() == 16,
            r matches Ok(id) ==> id@ == bytes@,
            r matches Err(e) ==> e.kind() == ErrorKind::Generic && e.message()
                == not_id_bytes_message(bytes@.len()),
    {
        Id128::try_from_slice(bytes)
    }
}

impl TryFromSpecImpl<&[u8]> for Id128 {
    /// An error is known by its text alone, so `try_from` states what it makes in its
    /// own contract, not as a value.
    open spec fn obeys_try_from_spec() -> bool {
        false
    }

    closed spec fn try_from_spec(bytes: &[u8]) -> Result<Self, Self::Error> {
        arbitrary()
    }
}

impl std::str::FromStr for Id128 {
    type Err = SdError;

    fn from_str(input: &str) -> (r: Result<Self, Self::Err>)
        ensures
            r is Ok <==> parsed_uuid(input@) is Ok,
            r matches Ok(id) ==> parsed_uuid(input@) == Ok::<Seq<u8>, Seq<char>>(id@),
            r matches Err(e) ==> e.kind() == ErrorKind::Generic && (parsed_uuid(input@)
                matches Err(words) && e.message() == not_an_id_message(words)),
    {
        Id128::parse_str(input)
    }
}

} // verus!
