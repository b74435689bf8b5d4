//! Document identifiers: twelve raw bytes, written as 24 hex digits.
use vstd::prelude::*;

verus! {

/// The identifier of a stored document (a user, a project, a task, ...).
#[derive(Clone, Copy, Debug)]
pub struct Oid {
    pub bytes: [u8; 12],
}

impl PartialEq for Oid {
    fn eq(&self, other: &Oid) -> (r: bool)
        ensures
            r == (*self == *other),
    {
        let mut i: usize = 0;
        while i < 12
            invariant
                0 <= i <= 12,
                forall|j: int| 0 <= j < i ==> self.bytes[j] == other.bytes[j],
            decreases 12 - i,
        {
            if self.bytes[i] != other.bytes[i] {
                return false;
            }
            i = i + 1;
        }
        assert(self.bytes =~= other.bytes);
        true
    }
}

impl vstd::std_specs::cmp::PartialEqSpecImpl for Oid {
    open spec fn obeys_eq_spec() -> bool {
        true
    }

    open spec fn eq_spec(&self, other: &Oid) -> bool {
        *self == *other
    }
}

impl Eq for Oid {
}

/// Whether `v` holds `x`, compared by identifier.
pub fn contains_id(v: &Vec<Oid>, x: Oid) -> (r: bool)
    ensures
        r == v@.contains(x),
{
    let mut i: usize = 0;
    while i < v.len()
        invariant
            0 <= i <= v.len(),
            forall|j: int| 0 <= j < i ==> v@[j] != x,
        decreases v.len() - i,
    {
        if v[i] == x {
            return true;
        }
        i = i + 1;
    }
    false
}

pub open spec fn is_hex_digit(c: char) -> bool {
    ('0' <= c && c <= '9') || ('a' <= c && c <= 'f') || ('A' <= c && c <= 'F')
}

/// The value of one hex digit, of either case.
pub open spec fn hex_value(c: char) -> int {
    if '0' <= c && c <= '9' {
        c as int - '0' as int
    } else if 'a' <= c && c <= 'f' {
        c as int - 'a' as int + 10
    } else {
        c as int - 'A' as int + 10
    }
}

/// The lowercase hex digit of a value below 16.
pub open spec fn lower_hex_digit(n: int) -> char {
    if n < 10 {
        (n + '0' as int) as char
    } else {
        (n - 10 + 'a' as int) as char
    }
}

/// A string that names an identifier: exactly 24 hex digits.
pub open spec fn is_oid_hex(s: Seq<char>) -> bool {
    s.len() == 24 && forall|i: int| 0 <= i < 24 ==> is_hex_digit(#[trigger] s[i])
}

/// `s` is the hex text of `o`.
pub open spec fn names_oid(s: Seq<char>, o: Oid) -> bool {
    is_oid_hex(s) && forall|i: int| 0 <= i < 12 ==> o.bytes[i] as int == decoded_byte(s, i)
}

/// Byte `i` of the identifier that the hex string `s` names.
pub open spec fn decoded_byte(s: Seq<char>, i: int) -> int {
    hex_value(s[2 * i]) * 16 + hex_value(s[2 * i + 1])
}

/// The 24 lowercase hex digits of twelve bytes, high digit first.
pub open spec fn oid_hex(b: Seq<u8>) -> Seq<char> {
    Seq::new(
        24,
        |i: int|
            if i % 2 == 0 {
                lower_hex_digit(b[i / 2] as int / 16)
            } else {
                lower_hex_digit(b[i / 2] as int % 16)
            },
    )
}

/// Relies on bson's `ObjectId::parse_str`, which decodes with `hex::decode`: it
/// accepts exactly 24 hex digits of either case and reads them in pairs, high
/// digit first.
#[verifier::external_body]
fn parse_oid_bytes(s: &str) -> (r: Option<[u8; 12]>)
    ensures
        r.is_some() <==> is_oid_hex(s@),
        r matches Some(b) ==> forall|i: int| 0 <= i < 12 ==> b[i] as int == decoded_byte(s@, i),
{
    match bson::oid::ObjectId::parse_str(s) {
        Ok(o) => Some(o.bytes()),
        Err(_) => None,
    }
}

/// Relies on bson's `ObjectId::to_hex`, which writes the bytes with `hex::encode`:
/// two lowercase digits per byte.
#[verifier::external_body]
fn oid_bytes_to_hex(b: [u8; 12]) -> (r: String)
    ensures
        r@ == oid_hex(b@),
{
    bson::oid::ObjectId::from_bytes(b).to_hex()
}

impl Oid {
    /// Reads an identifier from its 24 hex digits; `None` for any other string.
    pub fn parse_str(s: &str) -> (r: Option<Oid>)
        ensures
            r.is_some() <==> is_oid_hex(s@),
            r matches Some(o) ==> names_oid(s@, o),
    {
        match parse_oid_bytes(s) {
            Some(b) => Some(Oid { bytes: b }),
            None => None,
        }
    }

    /// The identifier as 24 lowercase hex digits.
    pub fn to_hex(&self) -> (r: String)
        ensures
            r@ == oid_hex(self.bytes@),
    {
        oid_bytes_to_hex(self.bytes)
    }
}

} // verus!
