//! Identities: the 128-bit universally unique identifiers of users and messages.
use vstd::prelude::*;

verus! {

/// The sixteen digits of the lower-case hexadecimal notation.
pub open spec fn hex_digits() -> Seq<char> {
    seq!['0', '1', '2', '3', '4', '5', '6', '7', '8', '9', 'a', 'b', 'c', 'd', 'e', 'f']
}

/// The digit at place `place` of the 32 hexadecimal digits of `bits`,
/// the highest first.
pub open spec fn hex_digit(bits: u128, place: int) -> char {
    hex_digits()[((bits >> ((4 * (31 - place)) as u128)) & 0xf) as int]
}

/// The hyphenated lower-case text of the UUID with the given 128 bits:
/// its 32 hexadecimal digits, the highest first, in groups of eight,
/// four, four, four and twelve, with a hyphen between the groups.
pub open spec fn hyphenated(bits: u128) -> Seq<char> {
    Seq::new(
        36,
        |i: int|
            if i == 8 || i == 13 || i == 18 || i == 23 {
                '-'
            } else if i < 8 {
                hex_digit(bits, i)
            } else if i < 13 {
                hex_digit(bits, i - 1)
            } else if i < 18 {
                hex_digit(bits, i - 2)
            } else if i < 23 {
                hex_digit(bits, i - 3)
            } else {
                hex_digit(bits, i - 4)
            },
    )
}

/// What the UUID parser makes of a text: the 128 bits of the UUID that
/// the text denotes, or the parser's error in the form in which `Debug`
/// shows it.
pub uninterp spec fn uuid_parsed(text: Seq<char>) -> Result<u128, Seq<char>>;

/// The 128 bits of the UUID that a text denotes, if it denotes one.
pub open spec fn uuid_bits(text: Seq<char>) -> Option<u128> {
    match uuid_parsed(text) {
        Ok(bits) => Some(bits),
        Err(_) => None,
    }
}

/// The bits that every random (version 4) UUID carries: its version and variant.
pub open spec fn is_random_uuid(bits: u128) -> bool {
    bits & 0x0000_0000_0000_f000_c000_0000_0000_0000u128
        == 0x0000_0000_0000_4000_8000_0000_0000_0000u128
}

/// `Uuid::from_u128` followed by the `Display` of `Uuid`: the text is the
/// hyphenated form of the bits, and `Uuid::parse_str` reads that form back
/// to the same bits.
#[verifier::external_body]
fn uuid_to_string(bits: u128) -> (text: String)
    ensures
        text@ == hyphenated(bits),
        uuid_bits(text@) == Some(bits),
{
    uuid::Uuid::from_u128(bits).to_string()
}

/// `Uuid::parse_str` followed by `Uuid::as_u128`: the bits of the UUID that
/// the text denotes, or the `Debug` form of the error with which the
/// parser rejects the text.
#[verifier::external_body]
fn uuid_parse_str(text: &str) -> (parsed: Result<u128, String>)
    ensures
        match parsed {
            Ok(bits) => uuid_parsed(text@) matches Ok(read) && read == bits,
            Err(reason) => uuid_parsed(text@) matches Err(why) && why == reason@,
        },
{
    uuid::Uuid::parse_str(text).map(|id| id.as_u128()).map_err(|e| format!("{:?}", e))
}

/// `Uuid::new_v4` followed by `Uuid::as_u128`: random bits, of which only
/// the version and the variant are fixed.
#[verifier::external_body]
fn uuid_new_v4() -> (bits: u128)
    ensures
        is_random_uuid(bits),
{
    uuid::Uuid::new_v4().as_u128()
}

/// An opaque unique identifier of a user or of a message.
#[derive(Clone, Copy, Debug, PartialEq, Eq, Structural, Hash)]
pub struct Identity(pub u128);

impl Identity {
    /// The identity with the given bits.
    pub fn from_u128(bits: u128) -> (id: Identity)
        ensures
            id == Identity(bits),
    {
        Identity(bits)
    }

    /// The bits of the identity.
    pub fn as_u128(&self) -> (bits: u128)
        ensures
            bits == self.0,
    {
        self.0
    }

    /// The identity whose bits are all zero.
    pub fn nil() -> (id: Identity)
        ensures
            id == Identity(0),
    {
        Identity(0)
    }

    /// A fresh random identity.
    pub fn random() -> (id: Identity)
        ensures
            is_random_uuid(id.0),
    {
        Identity(uuid_new_v4())
    }

    /// The identity that a text denotes, read as the UUID parser reads it.
    pub fn parse_str(text: &str) -> (id: Option<Identity>)
        ensures
            id == Identity::parsed(text@),
    {
        match uuid_parse_str(text) {
            Ok(bits) => Some(Identity(bits)),
            Err(_) => None,
        }
    }

    /// The identity that a text denotes, or what the UUID parser finds
    /// wrong with the text.
    pub fn try_parse(text: &str) -> (id: Result<Identity, String>)
        ensures
            match id {
                Ok(found) => uuid_parsed(text@) matches Ok(read) && read == found.0,
                Err(reason) => uuid_parsed(text@) matches Err(why) && why == reason@,
            },
    {
        match uuid_parse_str(text) {
            Ok(bits) => Ok(Identity(bits)),
            Err(reason) => Err(reason),
        }
    }

    /// What `parse_str` gives for a text.
    pub open spec fn parsed(text: Seq<char>) -> Option<Identity> {
        match uuid_bits(text) {
            Some(bits) => Some(Identity(bits)),
            None => None,
        }
    }

    /// The hyphenated text of the identity.
    pub open spec fn text(&self) -> Seq<char> {
        hyphenated(self.0)
    }

    /// The hyphenated text of the identity; parsing it gives the identity back.
    pub fn to_text(&self) -> (text: String)
        ensures
            text@ == self.text(),
            Identity::parsed(text@) == Some(*self),
    {
        uuid_to_string(self.0)
    }
}

} // verus!
