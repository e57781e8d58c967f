use vstd::prelude::*;
use vstd::string::StringSliceAdditionalSpecFns;
use crate::quantity::Quantity;

verus! {

/// A difficulty rating with its display colour.
#[derive(Debug, PartialEq, Eq)]
pub struct Difficulty {
    pub name: String,
    pub icon: String,
    pub color: (u8, u8, u8),
    pub score_base: Quantity,
}

impl Clone for Difficulty {
    fn clone(&self) -> (copy: Self)
        ensures
            copy == *self,
    {
        Difficulty {
            name: self.name.clone(),
            icon: self.icon.clone(),
            color: (self.color.0, self.color.1, self.color.2),
            score_base: self.score_base,
        }
    }
}

/// The bytes of a colour code without the `#` signs it begins with.
pub open spec fn strip_hashes(code: Seq<u8>) -> Seq<u8>
    decreases code.len(),
{
    if code.len() > 0 && code[0] == 0x23 {
        strip_hashes(code.skip(1))
    } else {
        code
    }
}

/// The byte continues a character that began before it.
pub open spec fn continues_char(byte: u8) -> bool {
    0x80 <= byte < 0xC0
}

/// The code has six bytes or more and can be cut into three pieces of two
/// bytes without cutting through a character.
pub open spec fn has_three_pairs(code: Seq<u8>) -> bool {
    &&& code.len() >= 6
    &&& !continues_char(code[2])
    &&& !continues_char(code[4])
    &&& (code.len() == 6 || !continues_char(code[6]))
}

/// The value of a hexadecimal digit, in either case.
pub open spec fn hex_digit(byte: u8) -> Option<u8> {
    if 0x30 <= byte <= 0x39 {
        Some((byte - 0x30) as u8)
    } else if 0x61 <= byte <= 0x66 {
        Some((byte - 0x61 + 10) as u8)
    } else if 0x41 <= byte <= 0x46 {
        Some((byte - 0x41 + 10) as u8)
    } else {
        None
    }
}

/// The number that two bytes spell in base sixteen: two digits, or a plus
/// sign and one digit. Whatever spells no number counts as zero.
pub open spec fn hex_pair(first: u8, second: u8) -> u8 {
    if first == 0x2B {
        match hex_digit(second) {
            Some(low) => low,
            None => 0,
        }
    } else {
        match (hex_digit(first), hex_digit(second)) {
            (Some(high), Some(low)) => (16 * high + low) as u8,
            _ => 0,
        }
    }
}

/// The colour that the first six bytes of a stripped code spell.
pub open spec fn rgb_of(code: Seq<u8>) -> (u8, u8, u8) {
    (hex_pair(code[0], code[1]), hex_pair(code[2], code[3]), hex_pair(code[4], code[5]))
}

/// The value of a hexadecimal digit, in either case.
fn digit_value(byte: u8) -> (value: Option<u8>)
    ensures
        value == hex_digit(byte),
        value matches Some(v) ==> v < 16,
{
    if 0x30 <= byte && byte <= 0x39 {
        Some(byte - 0x30)
    } else if 0x61 <= byte && byte <= 0x66 {
        Some(byte - 0x61 + 10)
    } else if 0x41 <= byte && byte <= 0x46 {
        Some(byte - 0x41 + 10)
    } else {
        None
    }
}

/// The number that two bytes spell in base sixteen, or zero.
fn pair_value(first: u8, second: u8) -> (value: u8)
    ensures
        value == hex_pair(first, second),
{
    if first == 0x2B {
        match digit_value(second) {
            Some(low) => low,
            None => 0,
        }
    } else {
        match (digit_value(first), digit_value(second)) {
            (Some(high), Some(low)) => 16 * high + low,
            _ => 0,
        }
    }
}

/// Where the code begins once its `#` signs are passed over.
fn skip_hashes(bytes: &[u8]) -> (start: usize)
    ensures
        start <= bytes.len(),
        strip_hashes(bytes@) == bytes@.skip(start as int),
{
    let mut start: usize = 0;
    assert(bytes@.skip(0) =~= bytes@);
    while start < bytes.len() && bytes[start] == 0x23
        invariant
            start <= bytes.len(),
            strip_hashes(bytes@) == strip_hashes(bytes@.skip(start as int)),
        decreases bytes.len() - start,
    {
        proof {
            let rest = bytes@.skip(start as int);
            assert(rest[0] == bytes@[start as int]);
            assert(rest.skip(1) =~= bytes@.skip(start + 1));
        }
        start += 1;
    }
    proof {
        let rest = bytes@.skip(start as int);
        if start < bytes.len() {
            assert(rest[0] == bytes@[start as int]);
        }
    }
    start
}

/// Whether the byte continues a character that began before it.
fn is_continuation(byte: u8) -> (continues: bool)
    ensures
        continues == continues_char(byte),
{
    0x80 <= byte && byte < 0xC0
}

/// Whether `convert_from_hex_to_rgb` can read the code: whether, after its
/// `#` signs, it has three pieces of two bytes to read.
pub fn is_hex_code(hex: &str) -> (ok: bool)
    ensures
        ok == has_three_pairs(strip_hashes(hex.spec_bytes())),
{
    let bytes = hex.as_bytes();
    let start = skip_hashes(bytes);
    proof {
        let rest = bytes@.skip(start as int);
        assert(forall|i: int| 0 <= i < rest.len() ==> rest[i] == bytes@[start + i]);
    }
    if bytes.len() - start < 6 {
        return false;
    }
    !is_continuation(bytes[start + 2]) && !is_continuation(bytes[start + 4]) && (bytes.len() - start
        == 6 || !is_continuation(bytes[start + 6]))
}

/// Reads a colour code such as `#ff8800` into its red, green and blue parts.
///
/// The `#` signs at the beginning are passed over. The first six bytes
/// after them are read as three numbers in base sixteen; a piece that
/// spells no number gives zero. What follows the six bytes is not read.
pub fn convert_from_hex_to_rgb(hex: &str) -> (rgb: (u8, u8, u8))
    requires
        has_three_pairs(strip_hashes(hex.spec_bytes())),
    ensures
        rgb == rgb_of(strip_hashes(hex.spec_bytes())),
{
    let bytes = hex.as_bytes();
    let start = skip_hashes(bytes);
    proof {
        let rest = bytes@.skip(start as int);
        assert(forall|i: int| 0 <= i < rest.len() ==> rest[i] == bytes@[start + i]);
    }
    let red = pair_value(bytes[start], bytes[start + 1]);
    let green = pair_value(bytes[start + 2], bytes[start + 3]);
    let blue = pair_value(bytes[start + 4], bytes[start + 5]);
    (red, green, blue)
}

} // verus!
