//! Opaque 128-bit identifiers of hosts and invocations.

use vstd::prelude::*;

verus! {

/// The canonical text of a UUID with the given 128-bit value: lower-case,
/// hyphenated, as the `uuid` crate prints it.
pub uninterp spec fn uuid_text_of(value: u128) -> Seq<char>;

/// What the `uuid` crate's parser makes of a text: the 128-bit value of the
/// UUID it reads, or nothing when the text is no UUID.
pub uninterp spec fn uuid_parse_of(text: Seq<char>) -> Option<u128>;

/// Relies on `uuid::Uuid::new_v4`: a random version-4 UUID, read out as its
/// 128-bit value. Nothing is promised of the value.
#[verifier::external_body]
fn random_uuid() -> (r: u128) {
    uuid::Uuid::new_v4().as_u128()
}

/// Relies on `uuid::Uuid::from_u128` and its `Display`, which prints the
/// hyphenated lower-case form of 36 characters.
#[verifier::external_body]
fn uuid_text(value: u128) -> (r: String)
    ensures
        r@ == uuid_text_of(value),
        r@.len() == 36,
{
    uuid::Uuid::from_u128(value).to_string()
}

/// Relies on `uuid::Uuid::parse_str`, read out as the UUID's 128-bit value.
#[verifier::external_body]
fn uuid_parse(text: &str) -> (r: Option<u128>)
    ensures
        r == uuid_parse_of(text@),
{
    match uuid::Uuid::parse_str(text) {
        Ok(u) => Some(u.as_u128()),
        Err(_) => None,
    }
}

/// The hyphenated text of the UUID with value `value`.
pub fn uuid_string(value: u128) -> (r: String)
    ensures
        r@ == uuid_text_of(value),
        r@.len() == 36,
{
    uuid_text(value)
}

/// A fresh random UUID, drawn as its 128-bit value.
pub fn fresh_uuid() -> (r: u128) {
    random_uuid()
}

/// Identifies a registered host.
#[derive(Clone, Copy, Debug, PartialEq, Eq, Hash, Structural)]
pub struct HostId(pub u128);

/// Identifies one invocation.
#[derive(Clone, Copy, Debug, PartialEq, Eq, Hash, Structural)]
pub struct InvocationId(pub u128);

impl HostId {
    /// A fresh random identifier.
    pub fn random() -> (r: HostId) {
        HostId(random_uuid())
    }

    /// The identifier's 128-bit value.
    pub fn as_u128(&self) -> (r: u128)
        ensures
            r == self.0,
    {
        self.0
    }

    /// The identifier as the hyphenated text used on the wire.
    pub fn to_string(&self) -> (r: String)
        ensures
            r@ == uuid_text_of(self.0),
    {
        uuid_text(self.0)
    }

    /// Reads an identifier from its text; `None` when the text is no UUID.
    pub fn parse(text: &str) -> (r: Option<HostId>)
        ensures
            r == (match uuid_parse_of(text@) {
                Some(v) => Some(HostId(v)),
                None => None,
            }),
    {
        match uuid_parse(text) {
            Some(v) => Some(HostId(v)),
            None => None,
        }
    }
}

impl InvocationId {
    /// A fresh random identifier.
    pub fn random() -> (r: InvocationId) {
        InvocationId(random_uuid())
    }

    /// The identifier's 128-bit value.
    pub fn as_u128(&self) -> (r: u128)
        ensures
            r == self.0,
    {
        self.0
    }

    /// The identifier as the hyphenated text used on the wire.
    pub fn to_string(&self) -> (r: String)
        ensures
            r@ == uuid_text_of(self.0),
    {
        uuid_text(self.0)
    }

    /// Reads an identifier from its text; `None` when the text is no UUID.
    pub fn parse(text: &str) -> (r: Option<InvocationId>)
        ensures
            r == (match uuid_parse_of(text@) {
                Some(v) => Some(InvocationId(v)),
                None => None,
            }),
    {
        match uuid_parse(text) {
            Some(v) => Some(InvocationId(v)),
            None => None,
        }
    }
}

} // verus!
