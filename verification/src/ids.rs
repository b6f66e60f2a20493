use vstd::prelude::*;

verus! {

/// `2^64`, the weight of the upper half of a 128-bit value.
pub open spec fn half_base() -> nat {
    0x1_0000_0000_0000_0000nat
}

/// The 128-bit value whose upper and lower 64-bit halves are given.
pub open spec fn join_halves(lower: u64, upper: u64) -> nat {
    upper as nat * half_base() + lower as nat
}

/// A 128-bit value as the wire carries it: two 64-bit halves.
#[derive(Clone, Copy, Debug, PartialEq, Eq, Structural)]
pub struct WireUuid {
    pub lower: u64,
    pub upper: u64,
}

/// A score as the wire carries it: two 64-bit halves.
#[derive(Clone, Copy, Debug, PartialEq, Eq, Structural)]
pub struct WireScore {
    pub lower: u64,
    pub upper: u64,
}

/// The identity of a game entity shared between server and clients: a UUID,
/// held as its 128-bit value.
#[derive(Clone, Copy, Debug, Hash, PartialEq, Eq, Structural)]
pub struct EntityId(pub u128);

/// A text that is no UUID, with what the uuid crate found wrong in it.
#[derive(Debug, PartialEq, Eq)]
pub enum ParseEntityIdError {
    InvalidUuid(uuid::Error),
}

/// The value of a random (version 4, RFC 4122 variant) UUID: bits 76..80
/// hold the version 4, bits 62..64 the variant `0b10`.
pub open spec fn is_random_uuid(bits: u128) -> bool {
    &&& (bits >> 76u128) & 0xfu128 == 4
    &&& (bits >> 62u128) & 0x3u128 == 2
}

/// Whether `c` is a hexadecimal digit, in either case.
pub open spec fn is_hex_digit(c: char) -> bool {
    ('0' <= c && c <= '9') || ('a' <= c && c <= 'f') || ('A' <= c && c <= 'F')
}

/// The value of a hexadecimal digit.
pub open spec fn hex_digit_value(c: char) -> nat {
    if '0' <= c && c <= '9' {
        (c as int - '0' as int) as nat
    } else if 'a' <= c && c <= 'f' {
        (c as int - 'a' as int + 10) as nat
    } else {
        (c as int - 'A' as int + 10) as nat
    }
}

/// Whether every character of `s` is a hexadecimal digit.
pub open spec fn all_hex(s: Seq<char>) -> bool {
    forall|i: int| 0 <= i < s.len() ==> #[trigger] is_hex_digit(s[i])
}

/// The number that hexadecimal digits denote, most significant first.
pub open spec fn hex_value(s: Seq<char>) -> nat
    decreases s.len(),
{
    if s.len() == 0 {
        0
    } else {
        hex_value(s.drop_last()) * 16 + hex_digit_value(s.last())
    }
}

/// The hyphenated form: groups of 8, 4, 4, 4 and 12 hexadecimal digits
/// joined by `-`.
pub open spec fn is_hyphenated(s: Seq<char>) -> bool {
    &&& s.len() == 36
    &&& s[8] == '-' && s[13] == '-' && s[18] == '-' && s[23] == '-'
    &&& forall|i: int|
        0 <= i < 36 && i != 8 && i != 13 && i != 18 && i != 23 ==> #[trigger] is_hex_digit(s[i])
}

/// The 32 digits of the hyphenated form, without the hyphens.
pub open spec fn hyphenated_digits(s: Seq<char>) -> Seq<char> {
    s.subrange(0, 8) + s.subrange(9, 13) + s.subrange(14, 18) + s.subrange(19, 23) + s.subrange(24, 36)
}

/// The URN prefix `urn:uuid:`.
pub open spec fn urn_prefix() -> Seq<char> {
    seq!['u', 'r', 'n', ':', 'u', 'u', 'i', 'd', ':']
}

/// What `uuid::Uuid::parse_str` makes of a text: 32 hexadecimal digits
/// (simple form); the hyphenated form; or `urn:uuid:` followed by the
/// hyphenated form. The digits, in either case, are the UUID's value,
/// most significant first. Any other text is refused.
pub open spec fn uuid_text_value(text: Seq<char>) -> Option<u128> {
    if text.len() == 32 && all_hex(text) {
        Some(hex_value(text) as u128)
    } else if is_hyphenated(text) {
        Some(hex_value(hyphenated_digits(text)) as u128)
    } else if text.len() == 45 && text.subrange(0, 9) == urn_prefix() && is_hyphenated(text.subrange(9, 45)) {
        Some(hex_value(hyphenated_digits(text.subrange(9, 45))) as u128)
    } else {
        None
    }
}

#[verifier::external_type_specification]
#[verifier::external_body]
pub struct ExUuidError(uuid::Error);

/// Calls `uuid::Uuid::new_v4` and hands out the value of the UUID
/// (`Uuid::as_u128`, big-endian). The uuid source fills sixteen random
/// bytes, then forces the version nibble to 4 and the variant bits to `10`;
/// that is all the contract claims. `new_v4` panics where the operating
/// system gives no random bytes; this is left unsaid.
#[verifier::external_body]
fn random_uuid_bits() -> (bits: u128)
    ensures
        is_random_uuid(bits),
{
    uuid::Uuid::new_v4().as_u128()
}

/// Calls `uuid::Uuid::parse_str` and hands out the value of the UUID
/// (`Uuid::as_u128`, big-endian). The contract claims that it succeeds
/// exactly on the texts that `uuid_text_value` accepts (the simple,
/// hyphenated and URN forms), with the value that the hexadecimal digits
/// spell. Which error it reports for a refused text is left unsaid.
#[verifier::external_body]
fn parse_uuid_bits(text: &str) -> (parsed: Result<u128, uuid::Error>)
    ensures
        parsed is Ok <==> uuid_text_value(text@) is Some,
        parsed matches Ok(v) ==> uuid_text_value(text@) == Some(v),
{
    match uuid::Uuid::parse_str(text) {
        Ok(u) => Ok(u.as_u128()),
        Err(e) => Err(e),
    }
}

impl EntityId {
    /// A fresh random identity (a version 4 UUID).
    pub fn new() -> (id: EntityId)
        ensures
            is_random_uuid(id.0),
    {
        EntityId(random_uuid_bits())
    }

    /// The identity written in `text` (simple, hyphenated or URN form), or
    /// the uuid crate's error.
    pub fn parse(text: &str) -> (res: Result<EntityId, ParseEntityIdError>)
        ensures
            res is Ok <==> uuid_text_value(text@) is Some,
            res matches Ok(id) ==> uuid_text_value(text@) == Some(id.0),
    {
        EntityId::from_uuid_value(parse_uuid_bits(text))
    }

    /// Turns what the uuid crate made of a text into an identity, or its
    /// error into the library's error.
    pub fn from_uuid_value(parsed: Result<u128, uuid::Error>) -> (res: Result<EntityId, ParseEntityIdError>)
        ensures
            parsed matches Ok(v) ==> res == Ok::<EntityId, ParseEntityIdError>(EntityId(v)),
            parsed matches Err(e) ==> res == Err::<EntityId, ParseEntityIdError>(ParseEntityIdError::InvalidUuid(e)),
    {
        match parsed {
            Ok(v) => Ok(EntityId(v)),
            Err(e) => Err(ParseEntityIdError::InvalidUuid(e)),
        }
    }
}

impl std::str::FromStr for EntityId {
    type Err = uuid::Error;

    /// The identity written in `s`, as `EntityId::parse` reads it; a refused
    /// text gives the uuid crate's own error.
    fn from_str(s: &str) -> (res: Result<EntityId, uuid::Error>)
        ensures
            res is Ok <==> uuid_text_value(s@) is Some,
            res matches Ok(id) ==> uuid_text_value(s@) == Some(id.0),
    {
        match EntityId::parse(s) {
            Ok(id) => Ok(id),
            Err(ParseEntityIdError::InvalidUuid(e)) => Err(e),
        }
    }
}

impl Default for EntityId {
    /// The nil identity.
    fn default() -> (id: EntityId)
        ensures
            id.0 == 0,
    {
        EntityId(0)
    }
}

/// Splits a 128-bit value into its lower and upper halves.
fn split_u128(v: u128) -> (halves: (u64, u64))
    ensures
        halves.0 as nat == v as nat % half_base(),
        halves.1 as nat == v as nat / half_base(),
        join_halves(halves.0, halves.1) == v as nat,
{
    let lower: u64 = (v & 0xffff_ffff_ffff_ffffu128) as u64;
    let upper: u64 = (v >> 64u128) as u64;
    assert(lower == v % 0x1_0000_0000_0000_0000u128 && upper == v / 0x1_0000_0000_0000_0000u128)
        by (bit_vector)
        requires
            lower == (v & 0xffff_ffff_ffff_ffffu128) as u64,
            upper == (v >> 64u128) as u64,
    ;
    (lower, upper)
}

/// Joins a lower and an upper 64-bit half into their 128-bit value.
fn join_u128(lower: u64, upper: u64) -> (v: u128)
    ensures
        v as nat == join_halves(lower, upper),
{
    let v: u128 = lower as u128 | ((upper as u128) << 64u128);
    assert(v == upper as u128 * 0x1_0000_0000_0000_0000u128 + lower as u128) by (bit_vector)
        requires
            v == lower as u128 | ((upper as u128) << 64u128),
    ;
    v
}

/// The wire form of an identity.
pub open spec fn entity_id_wire(id: EntityId) -> WireUuid {
    WireUuid { lower: (id.0 as nat % half_base()) as u64, upper: (id.0 as nat / half_base()) as u64 }
}

/// The identity that a wire form carries.
pub open spec fn entity_id_of_wire(wire: WireUuid) -> EntityId {
    EntityId(join_halves(wire.lower, wire.upper) as u128)
}

/// The wire form of a score.
pub open spec fn score_wire(score: u128) -> WireScore {
    WireScore { lower: (score as nat % half_base()) as u64, upper: (score as nat / half_base()) as u64 }
}

/// The score that a wire form carries.
pub open spec fn score_of_wire(wire: WireScore) -> u128 {
    join_halves(wire.lower, wire.upper) as u128
}

/// The wire form of an entity identity: its value split into halves.
pub fn encode_entity_id(entity_id: EntityId) -> (wire: WireUuid)
    ensures
        wire == entity_id_wire(entity_id),
        wire.lower as nat == entity_id.0 as nat % half_base(),
        wire.upper as nat == entity_id.0 as nat / half_base(),
{
    let (lower, upper) = split_u128(entity_id.0);
    WireUuid { lower, upper }
}

/// The entity identity that a wire form carries.
pub fn parse_entity_id(proto_id: &WireUuid) -> (id: EntityId)
    ensures
        id == entity_id_of_wire(*proto_id),
        id.0 as nat == join_halves(proto_id.lower, proto_id.upper),
{
    EntityId(join_u128(proto_id.lower, proto_id.upper))
}

/// The wire form of a score: its value split into halves.
pub fn encode_score(score: u128) -> (wire: WireScore)
    ensures
        wire == score_wire(score),
        wire.lower as nat == score as nat % half_base(),
        wire.upper as nat == score as nat / half_base(),
{
    let (lower, upper) = split_u128(score);
    WireScore { lower, upper }
}

/// The score that a wire form carries.
pub fn parse_score(score: &WireScore) -> (v: u128)
    ensures
        v == score_of_wire(*score),
        v as nat == join_halves(score.lower, score.upper),
{
    join_u128(score.lower, score.upper)
}

/// Halving a value and joining the halves gives the value back.
proof fn lemma_split_then_join(v: u128)
    ensures
        join_halves((v as nat % half_base()) as u64, (v as nat / half_base()) as u64) == v as nat,
{
    assert(v as nat / half_base() < half_base()) by (nonlinear_arith)
        requires
            (v as nat) <= 0xffff_ffff_ffff_ffff_ffff_ffff_ffff_ffffnat,
    ;
}

/// The halves of a joined value are the halves it was joined from, and the
/// joined value fits in 128 bits.
proof fn lemma_join_then_split(lower: u64, upper: u64)
    ensures
        join_halves(lower, upper) % half_base() == lower as nat,
        join_halves(lower, upper) / half_base() == upper as nat,
        join_halves(lower, upper) <= u128::MAX,
{
    assert((upper as nat * half_base() + lower as nat) % half_base() == lower as nat
        && (upper as nat * half_base() + lower as nat) / half_base() == upper as nat)
        by (nonlinear_arith)
        requires
            (lower as nat) < half_base(),
    ;
    assert(upper as nat * half_base() + lower as nat <= 0xffff_ffff_ffff_ffff_ffff_ffff_ffff_ffffnat)
        by (nonlinear_arith)
        requires
            (lower as nat) < half_base(),
            (upper as nat) < half_base(),
    ;
}

/// Decoding the wire form of an identity gives the identity back.
pub proof fn law_entity_id_round_trip(id: EntityId)
    ensures
        entity_id_of_wire(entity_id_wire(id)) == id,
{
    lemma_split_then_join(id.0);
}

/// Encoding the identity that a wire form carries gives the wire form back.
pub proof fn law_wire_uuid_round_trip(wire: WireUuid)
    ensures
        entity_id_wire(entity_id_of_wire(wire)) == wire,
{
    lemma_join_then_split(wire.lower, wire.upper);
}

/// Decoding the wire form of a score gives the score back.
pub proof fn law_score_round_trip(score: u128)
    ensures
        score_of_wire(score_wire(score)) == score,
{
    lemma_split_then_join(score);
}

/// Encoding the score that a wire form carries gives the wire form back.
pub proof fn law_wire_score_round_trip(wire: WireScore)
    ensures
        score_wire(score_of_wire(wire)) == wire,
{
    lemma_join_then_split(wire.lower, wire.upper);
}

} // verus!
