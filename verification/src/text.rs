//! Rendering of key and field names: decimal rendering of integers and the
//! hashed key-naming scheme.
use vstd::prelude::*;

use vstd::bytes::spec_u64_to_le_bytes;
use vstd::bytes::u64_to_le_bytes;
use vstd::string::StringExecFns;

verus! {

/// The character for one decimal digit.
pub open spec fn digit_char(d: int) -> char {
    if d == 0 {
        '0'
    } else if d == 1 {
        '1'
    } else if d == 2 {
        '2'
    } else if d == 3 {
        '3'
    } else if d == 4 {
        '4'
    } else if d == 5 {
        '5'
    } else if d == 6 {
        '6'
    } else if d == 7 {
        '7'
    } else if d == 8 {
        '8'
    } else {
        '9'
    }
}

/// The decimal rendering of a nonnegative integer, most significant digit
/// first, with no leading zeros.
pub open spec fn spec_decimal(n: nat) -> Seq<char>
    decreases n,
{
    if n < 10 {
        seq![digit_char(n as int)]
    } else {
        spec_decimal(n / 10) + seq![digit_char((n % 10) as int)]
    }
}

fn digit_str(d: u64) -> (r: &'static str)
    requires
        d < 10,
    ensures
        r@ == seq![digit_char(d as int)],
{
    proof {
        reveal_strlit("0");
        reveal_strlit("1");
        reveal_strlit("2");
        reveal_strlit("3");
        reveal_strlit("4");
        reveal_strlit("5");
        reveal_strlit("6");
        reveal_strlit("7");
        reveal_strlit("8");
        reveal_strlit("9");
    }
    let r: &'static str = match d {
        0 => "0",
        1 => "1",
        2 => "2",
        3 => "3",
        4 => "4",
        5 => "5",
        6 => "6",
        7 => "7",
        8 => "8",
        _ => "9",
    };
    proof {
        assert(r@ =~= seq![digit_char(d as int)]);
    }
    r
}

/// Render an integer in decimal.
pub fn u64_to_decimal(n: u64) -> (s: String)
    ensures
        s@ == spec_decimal(n as nat),
    decreases n,
{
    if n < 10 {
        String::from_str(digit_str(n))
    } else {
        let mut s = u64_to_decimal(n / 10);
        s.append(digit_str(n % 10));
        proof {
            assert(s@ =~= spec_decimal(n as nat));
        }
        s
    }
}

/// The 64-bit xxHash digest of a byte sequence; a fixed function of the bytes
/// alone, computed by an outside crate.
pub uninterp spec fn xxhash64_of(b: Seq<u8>) -> u64;

/// Relies on fasthash's `xx::hash64`: the 64-bit xxHash digest (seed zero) of
/// the given bytes, a deterministic function of the bytes alone.
#[verifier::external_body]
fn xx_hash64(b: &Vec<u8>) -> (r: u64)
    ensures
        r == xxhash64_of(b@),
{
    fasthash::xx::hash64(b.as_slice())
}

/// The integer a key id is rendered from: the id itself under ordered
/// insertion, otherwise its xxHash digest (scattering names over the
/// keyspace while staying a function of the id).
pub open spec fn spec_key_id(id: u64, ordered: bool) -> u64 {
    if ordered {
        id
    } else {
        xxhash64_of(spec_u64_to_le_bytes(id))
    }
}

/// The rendered key name for a key id.
pub open spec fn spec_key_name(id: u64, ordered: bool) -> Seq<char> {
    "user"@ + spec_decimal(spec_key_id(id, ordered) as nat)
}

/// Render a key name. A pure, deterministic function of the key id and the
/// ordered-insert flag.
pub fn key_name(id: u64, ordered: bool) -> (s: String)
    ensures
        s@ == spec_key_name(id, ordered),
{
    let num: u64 = if ordered {
        id
    } else {
        let bytes = u64_to_le_bytes(id);
        proof {
            vstd::bytes::lemma_auto_spec_u64_to_from_le_bytes();
        }
        xx_hash64(&bytes)
    };
    let mut s = String::from_str("user");
    s.append(u64_to_decimal(num).as_str());
    s
}

/// The rendered field name for a field index.
pub open spec fn spec_field_name(i: nat) -> Seq<char> {
    "field"@ + spec_decimal(i)
}

/// Render a field name.
pub fn field_name(i: u64) -> (s: String)
    ensures
        s@ == spec_field_name(i as nat),
{
    let mut s = String::from_str("field");
    s.append(u64_to_decimal(i).as_str());
    s
}

} // verus!
