use vstd::prelude::*;

verus! {

/// Lower-case hexadecimal digit for a value below sixteen.
pub open spec fn hex_char(n: int) -> char {
    if n == 0 { '0' } else if n == 1 { '1' } else if n == 2 { '2' } else if n == 3 { '3' }
    else if n == 4 { '4' } else if n == 5 { '5' } else if n == 6 { '6' } else if n == 7 { '7' }
    else if n == 8 { '8' } else if n == 9 { '9' } else if n == 10 { 'a' } else if n == 11 { 'b' }
    else if n == 12 { 'c' } else if n == 13 { 'd' } else if n == 14 { 'e' } else { 'f' }
}

/// Digit `j` (0 to 31) of the 32 hexadecimal digits of `b`, high nibble first.
pub open spec fn nibble_char(b: Seq<u8>, j: int) -> char {
    if j % 2 == 0 {
        hex_char(b[j / 2] as int / 16)
    } else {
        hex_char(b[j / 2] as int % 16)
    }
}

/// The positions of the four dashes in the hyphenated form.
pub open spec fn is_dash_position(i: int) -> bool {
    i == 8 || i == 13 || i == 18 || i == 23
}

/// How many dashes stand before position `i` of the hyphenated form.
pub open spec fn dashes_before(i: int) -> int {
    if i < 8 { 0 } else if i < 13 { 1 } else if i < 18 { 2 } else if i < 23 { 3 } else { 4 }
}

/// The 8-4-4-4-12 lower-case hexadecimal text of sixteen bytes.
pub open spec fn hyphenated(b: Seq<u8>) -> Seq<char> {
    Seq::new(
        36,
        |i: int|
            if is_dash_position(i) {
                '-'
            } else {
                nibble_char(b, i - dashes_before(i))
            },
    )
}

/// Version 4 (random) with the RFC 4122 variant: the high nibble of byte 6
/// is 4 and the two high bits of byte 8 are 10.
pub open spec fn is_random_uuid(b: Seq<u8>) -> bool {
    b.len() == 16 && b[6] / 16 == 4 && b[8] / 64 == 2
}

/// A character of the hyphenated alphabet: a lower-case hex digit or a dash.
pub open spec fn is_identifier_char(c: char) -> bool {
    ('0' <= c <= '9') || ('a' <= c <= 'f') || c == '-'
}

/// Relies on uuid::Uuid::new_v4: sixteen bytes from the system's random
/// source, with the version and variant bits of a random UUID set. It panics
/// only if the operating system cannot supply random bytes.
#[verifier::external_body]
fn new_v4_bytes() -> (r: [u8; 16])
    ensures
        is_random_uuid(r@),
{
    uuid::Uuid::new_v4().into_bytes()
}

/// Relies on uuid::Uuid::from_bytes and its Display impl, which writes the
/// lower-case hyphenated form.
#[verifier::external_body]
fn uuid_text(b: [u8; 16]) -> (r: String)
    ensures
        r@ == hyphenated(b@),
{
    uuid::Uuid::from_bytes(b).to_string()
}

/// A 128-bit identifier.
#[derive(Clone, Copy, Debug)]
pub struct Identifier {
    pub bytes: [u8; 16],
}

impl Identifier {
    pub fn from_bytes(bytes: [u8; 16]) -> (r: Identifier)
        ensures
            r.bytes@ == bytes@,
    {
        Identifier { bytes }
    }

    /// A fresh random (version 4) identifier.
    pub fn new_random() -> (r: Identifier)
        ensures
            is_random_uuid(r.bytes@),
    {
        Identifier { bytes: new_v4_bytes() }
    }

    /// The identifier as text: 36 characters, lower-case hex in 8-4-4-4-12 groups.
    pub fn text(&self) -> (r: String)
        ensures
            r@ == hyphenated(self.bytes@),
    {
        uuid_text(self.bytes)
    }
}

/// Every character of an identifier's text is a lower-case hex digit or a
/// dash, and the text is 36 characters long.
pub proof fn lemma_identifier_text_chars(b: Seq<u8>)
    requires
        b.len() == 16,
    ensures
        hyphenated(b).len() == 36,
        forall|i: int| 0 <= i < 36 ==> is_identifier_char(#[trigger] hyphenated(b)[i]),
{
    assert forall|i: int| 0 <= i < 36 implies is_identifier_char(#[trigger] hyphenated(b)[i]) by {
        if !is_dash_position(i) {
            let j = i - dashes_before(i);
            assert(0 <= j < 32);
            assert(0 <= j / 2 < 16);
            let x = b[j / 2];
            assert(x / 16 < 16 && x % 16 < 16);
        }
    }
}

} // verus!
