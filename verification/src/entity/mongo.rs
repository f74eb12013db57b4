//! MongoDB entity support: the twelve-byte ObjectID with its hexadecimal text,
//! and the id and timestamps that every MongoDB entity carries.

use vstd::prelude::*;
use vstd::string::StringSliceAdditionalSpecFns;
use crate::clock::now_millis;
use crate::util::{hex_digit, hex_lower_spec};

verus! {

// ---------------------------------------------------------------- hexadecimal text

/// Whether the byte is an ASCII hexadecimal digit of either case.
pub open spec fn is_hex_byte(c: u8) -> bool {
    (48 <= c <= 57) || (65 <= c <= 70) || (97 <= c <= 102)
}

/// The value of a hexadecimal digit byte.
pub open spec fn hex_byte_value(c: u8) -> int {
    if c <= 57 {
        c - 48
    } else if c <= 70 {
        c - 55
    } else {
        c - 87
    }
}

/// Whether every byte is a hexadecimal digit.
pub open spec fn all_hex_bytes(b: Seq<u8>) -> bool {
    forall|i: int| 0 <= i < b.len() ==> #[trigger] is_hex_byte(b[i])
}

/// Bytes decoded from pairs of hexadecimal digits, high digit first.
pub open spec fn decode_hex_pairs(b: Seq<u8>) -> Seq<u8> {
    Seq::new(
        b.len() / 2,
        |i: int| (hex_byte_value(b[2 * i]) * 16 + hex_byte_value(b[2 * i + 1])) as u8,
    )
}

/// The text of an ObjectID: exactly 24 hexadecimal digits.
pub open spec fn is_object_id_text(b: Seq<u8>) -> bool {
    b.len() == 24 && all_hex_bytes(b)
}

/// Why a text is not an ObjectID.
#[derive(Debug, Clone, PartialEq, Eq)]
pub enum ObjectIdError {
    /// The byte at `index` (the first that is no hexadecimal digit) is `c`.
    InvalidHexStringCharacter { c: char, index: usize, hex: String },
    /// The text has an odd number of bytes, or is made of hexadecimal digits
    /// but is not 24 of them; `length` is its length in bytes.
    InvalidHexStringLength { length: usize, hex: String },
}

/// What the error for the text with bytes `b` and characters `s` is: an odd
/// length first, then the first byte that is no hexadecimal digit, then a
/// length other than 24.
pub open spec fn is_parse_error_for(e: ObjectIdError, b: Seq<u8>, s: Seq<char>) -> bool {
    match e {
        ObjectIdError::InvalidHexStringCharacter { c, index, hex } => {
            &&& b.len() % 2 == 0
            &&& index < b.len()
            &&& !is_hex_byte(b[index as int])
            &&& forall|j: int| 0 <= j < index ==> #[trigger] is_hex_byte(b[j])
            &&& c == (b[index as int] as char)
            &&& hex@ == s
        },
        ObjectIdError::InvalidHexStringLength { length, hex } => {
            &&& length == b.len()
            &&& (b.len() % 2 == 1 || (all_hex_bytes(b) && b.len() != 24))
            &&& hex@ == s
        },
    }
}

/// Calls `bson::oid::ObjectId::parse_str`, which decodes the text's bytes with
/// `hex::decode` and keeps the result when it is twelve bytes. Trusted: `Ok`
/// exactly for 24 hexadecimal digits, with the decoded bytes; otherwise the
/// error that the source builds (an odd length, then the first non-digit byte,
/// then a wrong length), with the text. The crate's error enum is
/// non-exhaustive; every variant but the character one carries the length and
/// the text, as the length variant of this version does.
#[verifier::external_body]
fn parse_object_id_bytes(s: &str) -> (r: Result<[u8; 12], ObjectIdError>)
    ensures
        match r {
            Ok(bytes) => is_object_id_text(s.spec_bytes()) && bytes@ == decode_hex_pairs(
                s.spec_bytes(),
            ),
            Err(e) => is_parse_error_for(e, s.spec_bytes(), s@),
        },
{
    match bson::oid::ObjectId::parse_str(s) {
        Ok(oid) => Ok(oid.bytes()),
        Err(bson::oid::Error::InvalidHexStringCharacter { c, index, hex, .. }) => {
            Err(ObjectIdError::InvalidHexStringCharacter { c, index, hex })
        },
        Err(_) => Err(ObjectIdError::InvalidHexStringLength { length: s.len(), hex: s.to_string() }),
    }
}

/// Calls `bson::oid::ObjectId::to_hex`, which is `hex::encode` of the twelve
/// bytes. Trusted: two lower-case hexadecimal digits per byte, high first.
#[verifier::external_body]
fn object_id_hex(bytes: [u8; 12]) -> (r: String)
    ensures
        r@ == hex_lower_spec(bytes@),
{
    bson::oid::ObjectId::from_bytes(bytes).to_hex()
}

/// Calls `bson::oid::ObjectId::new`, which builds the bytes from the clock, the
/// process and a counter. Nothing is stated of them.
#[verifier::external_body]
fn new_object_id_bytes() -> (r: [u8; 12]) {
    bson::oid::ObjectId::new().bytes()
}

// ---------------------------------------------------------------- ObjectId

/// A MongoDB ObjectID: twelve bytes.
#[derive(Debug, Clone, Copy, PartialEq, Eq, Hash)]
pub struct ObjectId {
    bytes: [u8; 12],
}

impl View for ObjectId {
    type V = Seq<u8>;

    closed spec fn view(&self) -> Seq<u8> {
        self.bytes@
    }
}

impl ObjectId {
    /// A new ObjectID from the clock, the process and a counter.
    pub fn new() -> (r: ObjectId)
        ensures
            r@.len() == 12,
    {
        ObjectId { bytes: new_object_id_bytes() }
    }

    /// The ObjectID of the given bytes.
    pub fn from_bytes(bytes: [u8; 12]) -> (r: ObjectId)
        ensures
            r@ == bytes@,
    {
        ObjectId { bytes }
    }

    /// The twelve bytes.
    pub fn bytes(&self) -> (r: [u8; 12])
        ensures
            r@ == self@,
    {
        self.bytes
    }

    /// Parses 24 hexadecimal digits of either case.
    pub fn parse(s: &str) -> (r: Result<ObjectId, ObjectIdError>)
        ensures
            r is Ok <==> is_object_id_text(s.spec_bytes()),
            match r {
                Ok(id) => id@ == decode_hex_pairs(s.spec_bytes()),
                Err(e) => is_parse_error_for(e, s.spec_bytes(), s@),
            },
    {
        match parse_object_id_bytes(s) {
            Ok(bytes) => Ok(ObjectId { bytes }),
            Err(e) => {
                proof {
                    lemma_parse_error_excludes_text(e, s.spec_bytes(), s@);
                }
                Err(e)
            },
        }
    }

    /// The 24 lower-case hexadecimal digits of the bytes.
    pub fn to_string(&self) -> (r: String)
        ensures
            r@ == hex_lower_spec(self@),
            r@.len() == 24,
    {
        let r = object_id_hex(self.bytes);
        proof {
            lemma_hex_lower_shape(self.bytes@);
        }
        r
    }
}

impl Default for ObjectId {
    fn default() -> (r: ObjectId)
        ensures
            r@.len() == 12,
    {
        ObjectId::new()
    }
}

proof fn lemma_parse_error_excludes_text(e: ObjectIdError, b: Seq<u8>, s: Seq<char>)
    requires
        is_parse_error_for(e, b, s),
    ensures
        !is_object_id_text(b),
{
    match e {
        ObjectIdError::InvalidHexStringCharacter { index, .. } => {
            if is_object_id_text(b) {
                assert(is_hex_byte(b[index as int]));
            }
        },
        ObjectIdError::InvalidHexStringLength { .. } => {},
    }
}

/// Length of the hexadecimal text, and the two digits of each byte.
proof fn lemma_hex_lower_shape(b: Seq<u8>)
    ensures
        hex_lower_spec(b).len() == 2 * b.len(),
        forall|i: int|
            0 <= i < b.len() ==> hex_lower_spec(b)[2 * i] == hex_digit(b[i] as int / 16)
                && hex_lower_spec(b)[2 * i + 1] == hex_digit(b[i] as int % 16),
    decreases b.len(),
{
    if b.len() > 0 {
        let p = b.drop_last();
        lemma_hex_lower_shape(p);
        assert forall|i: int| 0 <= i < b.len() implies hex_lower_spec(b)[2 * i] == hex_digit(
            b[i] as int / 16,
        ) && hex_lower_spec(b)[2 * i + 1] == hex_digit(b[i] as int % 16) by {
            if i < p.len() {
                assert(p[i] == b[i]);
            }
        }
    }
}

proof fn lemma_hex_digit_byte(n: int)
    requires
        0 <= n < 16,
    ensures
        '\0' <= hex_digit(n) <= '\u{7f}',
        is_hex_byte(hex_digit(n) as u8),
        hex_byte_value(hex_digit(n) as u8) == n,
{
}

/// The text of an ObjectID parses back to the same ObjectID: the 24
/// lower-case digits that `to_string` gives are an ObjectID text, and they
/// decode to the twelve bytes they were made of.
pub proof fn law_object_id_text_round_trip(id: ObjectId)
    requires
        id@.len() == 12,
    ensures
        is_object_id_text(vstd::utf8::encode_utf8(hex_lower_spec(id@))),
        decode_hex_pairs(vstd::utf8::encode_utf8(hex_lower_spec(id@))) == id@,
{
    let b = id@;
    let t = hex_lower_spec(b);
    lemma_hex_lower_shape(b);
    assert forall|k: int| 0 <= k < t.len() implies '\0' <= #[trigger] t[k] <= '\u{7f}'
        && is_hex_byte(t[k] as u8) by {
        let i = k / 2;
        if k % 2 == 0 {
            assert(k == 2 * i);
            lemma_hex_digit_byte(b[i] as int / 16);
        } else {
            assert(k == 2 * i + 1);
            lemma_hex_digit_byte(b[i] as int % 16);
        }
    }
    assert(vstd::utf8::is_ascii_chars(t));
    vstd::utf8::is_ascii_chars_encode_utf8(t);
    let e = vstd::utf8::encode_utf8(t);
    assert forall|k: int| 0 <= k < e.len() implies #[trigger] is_hex_byte(e[k]) by {
        assert(t[k] as u8 == e[k]);
    }
    assert forall|i: int| 0 <= i < 12 implies #[trigger] decode_hex_pairs(e)[i] == b[i] by {
        lemma_hex_digit_byte(b[i] as int / 16);
        lemma_hex_digit_byte(b[i] as int % 16);
        assert(t[2 * i] as u8 == e[2 * i]);
        assert(t[2 * i + 1] as u8 == e[2 * i + 1]);
        assert(hex_byte_value(e[2 * i]) == b[i] as int / 16);
        assert(hex_byte_value(e[2 * i + 1]) == b[i] as int % 16);
    }
    assert(decode_hex_pairs(e) =~= b);
}

// ---------------------------------------------------------------- base fields

/// The id and the timestamps (milliseconds since the Unix epoch) of a MongoDB
/// entity.
#[derive(Debug, Clone, PartialEq, Eq)]
pub struct BaseMongoFields {
    pub id: ObjectId,
    pub create_time: i64,
    pub update_time: i64,
}

impl BaseMongoFields {
    /// The fields of the entity `id`, created and updated at `now`.
    pub fn new_at(id: ObjectId, now: i64) -> (r: BaseMongoFields)
        ensures
            r.id == id,
            r.create_time == now,
            r.update_time == now,
    {
        BaseMongoFields { id, create_time: now, update_time: now }
    }

    /// A new id, created and updated now.
    pub fn new() -> (r: BaseMongoFields)
        ensures
            r.id@.len() == 12,
            r.create_time == r.update_time,
    {
        let now = now_millis();
        BaseMongoFields::new_at(ObjectId::new(), now)
    }

    /// Sets the update time to `now`; the id and the creation time stay.
    pub fn touch_at(&mut self, now: i64)
        ensures
            final(self).id == old(self).id,
            final(self).create_time == old(self).create_time,
            final(self).update_time == now,
    {
        self.update_time = now;
    }

    /// Sets the update time to now; the id and the creation time stay.
    pub fn touch(&mut self)
        ensures
            final(self).id == old(self).id,
            final(self).create_time == old(self).create_time,
    {
        let now = now_millis();
        self.touch_at(now);
    }
}

impl Default for BaseMongoFields {
    fn default() -> (r: BaseMongoFields)
        ensures
            r.id@.len() == 12,
            r.create_time == r.update_time,
    {
        BaseMongoFields::new()
    }
}

} // verus!
