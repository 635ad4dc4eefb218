use vstd::prelude::*;

verus! {

/// A UUID, held as its 128-bit big-endian value.
#[derive(Clone, Copy, Debug, PartialEq, Eq, Structural, Hash)]
pub struct Uuid {
    pub value: u128,
}

/// The lower-case hexadecimal digit for `d` (`d < 16`).
pub open spec fn hex_digit(d: u128) -> char {
    seq!['0', '1', '2', '3', '4', '5', '6', '7', '8', '9', 'a', 'b', 'c', 'd', 'e', 'f'][d as int]
}

/// The `k`-th hexadecimal digit of `v`, counted from the most significant one.
pub open spec fn nibble(v: u128, k: int) -> u128 {
    (v >> ((124 - 4 * k) as u128)) & 0xf
}

/// How many group separators stand before position `i` of the hyphenated form.
pub open spec fn separators_before(i: int) -> int {
    if i < 8 {
        0
    } else if i < 13 {
        1
    } else if i < 18 {
        2
    } else if i < 23 {
        3
    } else {
        4
    }
}

/// The hyphenated text of a UUID: its 32 hexadecimal digits, most significant
/// first, in groups of 8, 4, 4, 4 and 12 separated by `-`.
pub open spec fn uuid_text(v: u128) -> Seq<char> {
    Seq::new(
        36,
        |i: int|
            if i == 8 || i == 13 || i == 18 || i == 23 {
                '-'
            } else {
                hex_digit(nibble(v, i - separators_before(i)))
            },
    )
}

/// What the uuid crate's parser makes of a text: the value it reads, or
/// `None` where it refuses the text.
pub uninterp spec fn uuid_parse(s: Seq<char>) -> Option<u128>;

/// Relies on `uuid::Uuid::from_u128` and uuid's `Display` for `Uuid`, which
/// writes the hyphenated lower-case form of the big-endian value.
#[verifier::external_body]
fn format_uuid(v: u128) -> (r: String)
    ensures
        r@ == uuid_text(v),
{
    uuid::Uuid::from_u128(v).to_string()
}

/// Relies on uuid's `FromStr` for `Uuid` (`Uuid::parse_str`) and on
/// `Uuid::as_u128` to read the parsed value back.
#[verifier::external_body]
fn parse_uuid(s: &str) -> (r: Option<u128>)
    ensures
        r == uuid_parse(s@),
{
    match <uuid::Uuid as std::str::FromStr>::from_str(s) {
        Ok(u) => Some(u.as_u128()),
        Err(_) => None,
    }
}

impl Uuid {
    pub fn from_u128(value: u128) -> (r: Uuid)
        ensures
            r.value == value,
    {
        Uuid { value }
    }

    pub fn as_u128(&self) -> (r: u128)
        ensures
            r == self.value,
    {
        self.value
    }

    /// The hyphenated lower-case text of this UUID.
    pub fn to_string(&self) -> (r: String)
        ensures
            r@ == uuid_text(self.value),
    {
        format_uuid(self.value)
    }

    /// Reads a UUID from text in any form that the uuid crate accepts.
    pub fn parse(s: &str) -> (r: Option<Uuid>)
        ensures
            r == (match uuid_parse(s@) {
                Some(v) => Some(Uuid { value: v }),
                None => None::<Uuid>,
            }),
    {
        match parse_uuid(s) {
            Some(v) => Some(Uuid { value: v }),
            None => None,
        }
    }
}

} // verus!
