//! Byte and text encodings shared by the worker: lower-case hexadecimal
//! rendering, left padding into fixed-size words and decimal rendering.

use vstd::prelude::*;

verus! {

/// The lower-case hexadecimal digit for a nibble `n` (`0 <= n < 16`).
pub open spec fn hex_digit(n: int) -> char {
    if n < 10 {
        (48 + n) as char
    } else {
        (87 + n) as char
    }
}

/// The lower-case hexadecimal rendering of `bytes`: two digits per byte,
/// the high nibble first.
pub open spec fn hex_lower(bytes: Seq<u8>) -> Seq<char> {
    Seq::new(
        2 * bytes.len(),
        |i: int|
            if i % 2 == 0 {
                hex_digit(bytes[i / 2] as int / 16)
            } else {
                hex_digit(bytes[i / 2] as int % 16)
            },
    )
}

/// Renders `data` in lower-case hexadecimal with `hex::encode`.
///
/// Trusted: `hex::encode` maps each byte to two characters from the table
/// `0123456789abcdef`, high nibble first, which is what `hex_lower` states.
#[verifier::external_body]
pub(crate) fn hex_encode(data: &[u8]) -> (s: String)
    ensures
        s@ == hex_lower(data@),
{
    hex::encode(data)
}

/// The value of a hexadecimal digit of either case.
pub open spec fn hex_value(c: char) -> Option<int> {
    if '0' <= c && c <= '9' {
        Some(c as int - 48)
    } else if 'a' <= c && c <= 'f' {
        Some(c as int - 87)
    } else if 'A' <= c && c <= 'F' {
        Some(c as int - 55)
    } else {
        None
    }
}

/// The decimal digit for `n` (`0 <= n < 10`).
pub open spec fn decimal_digit(n: nat) -> char {
    (48 + n) as char
}

/// The decimal rendering of `n`, without leading zeros.
pub open spec fn decimal(n: nat) -> Seq<char>
    decreases n,
{
    if n < 10 {
        seq![decimal_digit(n)]
    } else {
        decimal(n / 10).push(decimal_digit(n % 10))
    }
}

/// Renders `n` in decimal with `u64`'s `Display`.
///
/// Trusted: std documents the `Display` of integers as their decimal
/// rendering, without sign or leading zeros for an unsigned value.
#[verifier::external_body]
pub(crate) fn decimal_string(n: u64) -> (s: String)
    ensures
        s@ == decimal(n as nat),
{
    n.to_string()
}

/// `data` preceded by zeros up to `n` bytes.
pub open spec fn left_pad(data: Seq<u8>, n: nat) -> Seq<u8> {
    Seq::new((n - data.len()) as nat, |i: int| 0u8) + data
}

/// Left-pads a slice of at most 32 bytes with zeros into a 32-byte word, as a
/// big-endian number is widened.
pub fn left_pad32(slice: &[u8]) -> (r: [u8; 32])
    requires
        slice@.len() <= 32,
    ensures
        r@ == left_pad(slice@, 32),
{
    let a = slice.len();
    let mut output = [0u8; 32];
    let mut i: usize = 0;
    while i < a
        invariant
            a == slice@.len(),
            a <= 32,
            i <= a,
            output@.len() == 32,
            forall|j: int| 0 <= j < 32 - a ==> output@[j] == 0u8,
            forall|j: int| 0 <= j < i ==> output@[32 - a + j] == slice@[j],
            forall|j: int| 32 - a + i <= j < 32 ==> output@[j] == 0u8,
        decreases a - i,
    {
        output[32 - a + i] = slice[i];
        i = i + 1;
    }
    assert(output@ =~= left_pad(slice@, 32));
    output
}

/// The 8 little-endian bytes of `n`.
pub open spec fn u64_le(n: nat) -> Seq<u8> {
    Seq::new(8, |i: int| ((n / vstd::arithmetic::power::pow(256, i as nat) as nat) % 256) as u8)
}

/// Serialises a byte vector with `bincode::serialize`.
///
/// Trusted: bincode 1's default encoding writes a sequence as its length,
/// a little-endian `u64`, followed by its elements, one byte each for `u8`;
/// writing into memory cannot fail.
#[verifier::external_body]
pub(crate) fn bincode_bytes(data: &Vec<u8>) -> (r: Vec<u8>)
    ensures
        r@ == u64_le(data@.len()) + data@,
{
    bincode::serialize(data).unwrap()
}

} // verus!
