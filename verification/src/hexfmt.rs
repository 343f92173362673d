//! Bytes written as hexadecimal digits, two per byte.

use vstd::prelude::*;

verus! {

/// The hexadecimal digit of `d` (`0-9` then `A-F`, or `a-f` when `lower`).
pub open spec fn hex_digit(d: nat, lower: bool) -> char {
    if d < 10 {
        (48 + d) as char
    } else if lower {
        (97 + d - 10) as char
    } else {
        (65 + d - 10) as char
    }
}

/// Two hexadecimal digits per byte, high nibble first.
pub open spec fn hex_text(bytes: Seq<u8>, lower: bool) -> Seq<char> {
    Seq::new(
        2 * bytes.len(),
        |i: int|
            if i % 2 == 0 {
                hex_digit((bytes[i / 2] / 16) as nat, lower)
            } else {
                hex_digit((bytes[i / 2] % 16) as nat, lower)
            },
    )
}

pub fn hex_digit_char(d: u8, lower: bool) -> (c: char)
    requires
        d < 16,
    ensures
        c == hex_digit(d as nat, lower),
{
    if d < 10 {
        (48 + d) as char
    } else if lower {
        (97 + d - 10) as char
    } else {
        (65 + d - 10) as char
    }
}

/// Appends the two digits of every byte of `bytes` to `out`.
pub fn push_hex(out: &mut Vec<char>, bytes: &[u8], lower: bool)
    ensures
        final(out)@ == old(out)@ + hex_text(bytes@, lower),
{
    let ghost start = out@;
    let mut k: usize = 0;
    while k < bytes.len()
        invariant
            0 <= k <= bytes@.len(),
            out@ =~= start + hex_text(bytes@.take(k as int), lower),
        decreases bytes@.len() - k,
    {
        let b = bytes[k];
        out.push(hex_digit_char(b / 16, lower));
        out.push(hex_digit_char(b % 16, lower));
        proof {
            let t = hex_text(bytes@.take(k + 1), lower);
            assert(t =~= hex_text(bytes@.take(k as int), lower).push(
                hex_digit((b / 16) as nat, lower),
            ).push(hex_digit((b % 16) as nat, lower))) by {
                assert forall|i: int| 0 <= i < t.len() implies t[i] == hex_text(
                    bytes@.take(k as int),
                    lower,
                ).push(hex_digit((b / 16) as nat, lower)).push(
                    hex_digit((b % 16) as nat, lower),
                )[i] by {
                    if i < 2 * k {
                        assert(bytes@.take(k + 1)[i / 2] == bytes@.take(k as int)[i / 2]);
                    }
                }
            }
        }
        k = k + 1;
    }
    assert(bytes@.take(bytes@.len() as int) =~= bytes@);
}

/// The hexadecimal text of `bytes` (lowercase when `lower`).
pub fn hex_chars(bytes: &[u8], lower: bool) -> (res: Vec<char>)
    ensures
        res@ == hex_text(bytes@, lower),
{
    let mut out: Vec<char> = Vec::new();
    push_hex(&mut out, bytes, lower);
    assert(out@ =~= hex_text(bytes@, lower));
    out
}

/// Hex-encodes with `hex::encode`, which writes two lowercase digits per
/// byte, high nibble first; the contract states exactly that.
#[verifier::external_body]
pub(crate) fn encode_lower(data: &[u8]) -> (res: String)
    ensures
        res@ == hex_text(data@, true),
{
    hex::encode(data)
}

/// Hex-encodes with `hex::encode_upper`, which writes two uppercase digits per
/// byte, high nibble first; the contract states exactly that.
#[verifier::external_body]
pub(crate) fn encode_upper(data: &[u8]) -> (res: String)
    ensures
        res@ == hex_text(data@, false),
{
    hex::encode_upper(data)
}

} // verus!
