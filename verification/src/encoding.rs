//! Byte encodings shared by the signer and the validator: little-endian
//! integers and lower-case hexadecimal text.

use vstd::prelude::*;

verus! {

/// The `width` low-order bytes of `x`, least significant first.
pub open spec fn le_bytes(x: nat, width: nat) -> Seq<u8>
    decreases width,
{
    if width == 0 {
        Seq::empty()
    } else {
        seq![(x % 256) as u8] + le_bytes(x / 256, (width - 1) as nat)
    }
}

/// The number that `bytes` spell, least significant byte first.
pub open spec fn le_value(bytes: Seq<u8>) -> nat
    decreases bytes.len(),
{
    if bytes.len() == 0 {
        0
    } else {
        bytes[0] as nat + 256 * le_value(bytes.skip(1))
    }
}

/// The unsigned 16-bit number stored at `offset` of `data`, least
/// significant byte first.
pub open spec fn le_u16_at(data: Seq<u8>, offset: int) -> int {
    data[offset] as int + 256 * (data[offset + 1] as int)
}

/// `le_bytes` gives as many bytes as asked for.
pub proof fn lemma_le_bytes_len(x: nat, width: nat)
    ensures
        le_bytes(x, width).len() == width,
    decreases width,
{
    if width > 0 {
        lemma_le_bytes_len(x / 256, (width - 1) as nat);
    }
}

/// The two bytes of a number below 65536 are its remainder and its quotient
/// by 256, and they spell the number back.
pub proof fn lemma_le_bytes_u16(x: nat)
    requires
        x < 65536,
    ensures
        le_bytes(x, 2) == seq![(x % 256) as u8, (x / 256) as u8],
        le_u16_at(le_bytes(x, 2), 0) == x,
{
    reveal_with_fuel(le_bytes, 3);
    assert(le_bytes(x, 2) =~= seq![(x % 256) as u8, (x / 256) as u8]);
}

/// Decoding undoes encoding for every number that fits the width.
pub proof fn lemma_le_round_trip(x: nat, width: nat)
    ensures
        le_value(le_bytes(x, width)) + pow256(width) * (x / pow256(width)) == x,
    decreases width,
{
    if width == 0 {
        assert(le_value(le_bytes(x, 0)) == 0);
        assert(pow256(0) == 1);
        assert(x / 1 == x);
    } else {
        let rest = le_bytes(x / 256, (width - 1) as nat);
        let all = le_bytes(x, width);
        lemma_le_bytes_len(x / 256, (width - 1) as nat);
        assert(all.skip(1) =~= rest);
        assert(all[0] == (x % 256) as u8);
        assert(le_value(all) == (x % 256) + 256 * le_value(rest));
        lemma_le_round_trip(x / 256, (width - 1) as nat);
        let p = pow256((width - 1) as nat);
        let q = (x / 256) / p;
        lemma_pow256_positive((width - 1) as nat);
        assert(pow256(width) == 256 * p);
        assert((x / 256) / p == x / (256 * p)) by (nonlinear_arith)
            requires
                p > 0,
        ;
        let pw = pow256(width);
        let t = x / pw;
        assert(pw * t == 256 * (p * q)) by (nonlinear_arith)
            requires
                pw == 256 * p,
                t == q,
        ;
        assert(256 * le_value(rest) + pw * t == 256 * (x / 256));
    }
}

/// A number that fits the width is spelled back by its bytes.
pub proof fn lemma_le_value_of_le_bytes(x: nat, width: nat)
    requires
        x < pow256(width),
    ensures
        le_value(le_bytes(x, width)) == x,
{
    lemma_le_round_trip(x, width);
    let p = pow256(width);
    assert(x / p == 0) by (nonlinear_arith)
        requires
            x < p,
    ;
    assert(p * (x / p) == 0) by (nonlinear_arith)
        requires
            x / p == 0,
    ;
}

/// 256 to the power `n`.
pub open spec fn pow256(n: nat) -> nat
    decreases n,
{
    if n == 0 {
        1
    } else {
        256 * pow256((n - 1) as nat)
    }
}

/// Powers of 256 are positive.
pub proof fn lemma_pow256_positive(n: nat)
    ensures
        pow256(n) > 0,
    decreases n,
{
    if n > 0 {
        lemma_pow256_positive((n - 1) as nat);
    }
}

/// Appends the `width` low-order bytes of `x` to `out`, least significant
/// first.
pub fn push_le(out: &mut Vec<u8>, x: u64, width: usize)
    ensures
        final(out)@ == old(out)@ + le_bytes(x as nat, width as nat),
{
    let mut rest: u64 = x;
    let mut i: usize = 0;
    while i < width
        invariant
            i <= width,
            out@ + le_bytes(rest as nat, (width - i) as nat) == old(out)@ + le_bytes(
                x as nat,
                width as nat,
            ),
        decreases width - i,
    {
        let ghost before = out@;
        out.push((rest % 256) as u8);
        proof {
            let tail = le_bytes((rest / 256) as nat, (width - i - 1) as nat);
            assert(le_bytes(rest as nat, (width - i) as nat) == seq![(rest % 256) as u8] + tail);
            assert(before.push((rest % 256) as u8) + tail =~= before + (seq![(rest % 256) as u8]
                + tail));
        }
        rest = rest / 256;
        i = i + 1;
    }
    assert(out@ + le_bytes(rest as nat, 0) =~= out@);
}

/// Reads the unsigned 16-bit number stored at `offset` of `data`.
pub fn read_u16_le(data: &Vec<u8>, offset: usize) -> (r: u16)
    requires
        offset + 2 <= data.len(),
    ensures
        r as int == le_u16_at(data@, offset as int),
{
    let lo: u16 = data[offset] as u16;
    let hi: u16 = data[offset + 1] as u16;
    lo + 256 * hi
}

/// The lower-case hexadecimal digit of a number below sixteen.
pub open spec fn hex_digit(n: int) -> char {
    if n < 10 {
        (('0' as int) + n) as char
    } else {
        (('a' as int) + n - 10) as char
    }
}

/// The number a hexadecimal digit stands for, in either case; `None` for any
/// other character.
pub open spec fn hex_value(c: char) -> Option<int> {
    if '0' <= c <= '9' {
        Some(c as int - '0' as int)
    } else if 'a' <= c <= 'f' {
        Some(c as int - 'a' as int + 10)
    } else if 'A' <= c <= 'F' {
        Some(c as int - 'A' as int + 10)
    } else {
        None
    }
}

/// The hexadecimal text of `bytes`: two lower-case digits per byte, high
/// digit first.
pub open spec fn hex_encoding(bytes: Seq<u8>) -> Seq<char> {
    Seq::new(
        2 * bytes.len(),
        |i: int|
            if i % 2 == 0 {
                hex_digit(bytes[i / 2] as int / 16)
            } else {
                hex_digit(bytes[i / 2] as int % 16)
            },
    )
}

/// Whether `s` is hexadecimal text: an even number of hexadecimal digits.
pub open spec fn is_hex_text(s: Seq<char>) -> bool {
    &&& s.len() % 2 == 0
    &&& forall|i: int| 0 <= i < s.len() ==> (#[trigger] hex_value(s[i])) is Some
}

/// The bytes that hexadecimal text spells, `None` where `s` is no such text.
pub open spec fn hex_decoding(s: Seq<char>) -> Option<Seq<u8>> {
    if is_hex_text(s) {
        Some(
            Seq::new(
                (s.len() / 2) as nat,
                |i: int|
                    (16 * hex_value(s[2 * i]).unwrap() + hex_value(s[2 * i + 1]).unwrap()) as u8,
            ),
        )
    } else {
        None
    }
}

/// The view of optional bytes.
pub open spec fn bytes_view(b: Option<Vec<u8>>) -> Option<Seq<u8>> {
    match b {
        Some(v) => Some(v@),
        None => None,
    }
}

/// Every digit that `hex_digit` writes is read back by `hex_value`.
pub proof fn lemma_hex_digit_value(n: int)
    requires
        0 <= n < 16,
    ensures
        hex_value(hex_digit(n)) == Some(n),
{
}

/// Hexadecimal text decodes to the bytes it was made from.
pub proof fn lemma_hex_round_trip(bytes: Seq<u8>)
    ensures
        hex_encoding(bytes).len() == 2 * bytes.len(),
        is_hex_text(hex_encoding(bytes)),
        hex_decoding(hex_encoding(bytes)) == Some(bytes),
{
    let text = hex_encoding(bytes);
    assert forall|i: int| 0 <= i < text.len() implies (#[trigger] hex_value(text[i])) is Some by {
        let b = bytes[i / 2] as int;
        lemma_hex_digit_value(b / 16);
        lemma_hex_digit_value(b % 16);
    }
    let decoded = hex_decoding(text).unwrap();
    assert forall|i: int| 0 <= i < bytes.len() implies decoded[i] == bytes[i] by {
        let b = bytes[i] as int;
        lemma_hex_digit_value(b / 16);
        lemma_hex_digit_value(b % 16);
        assert(text[2 * i] == hex_digit(b / 16));
        assert(text[2 * i + 1] == hex_digit(b % 16));
    }
    assert(decoded =~= bytes);
}

/// `hex::encode` of the hex crate: two lower-case digits for each byte, in
/// order, from the table `0123456789abcdef`.
#[verifier::external_body]
pub(crate) fn hex_encode(data: &Vec<u8>) -> (text: String)
    ensures
        text@ == hex_encoding(data@),
{
    hex::encode(data)
}

/// `hex::decode` of the hex crate: accepts an even number of hexadecimal
/// digits of either case, a byte for each pair, and fails on anything else.
/// The failure is `None` here.
#[verifier::external_body]
pub(crate) fn hex_decode(text: &str) -> (bytes: Option<Vec<u8>>)
    ensures
        bytes_view(bytes) == hex_decoding(text@),
{
    match hex::decode(text) {
        Ok(bytes) => Some(bytes),
        Err(_) => None,
    }
}

/// Renders `data` as lower-case hexadecimal text.
pub fn to_hex(data: &Vec<u8>) -> (text: String)
    ensures
        text@ == hex_encoding(data@),
        hex_decoding(text@) == Some(data@),
{
    proof {
        lemma_hex_round_trip(data@);
    }
    hex_encode(data)
}

/// Reads hexadecimal text back into bytes.
pub fn from_hex(text: &str) -> (bytes: Option<Vec<u8>>)
    ensures
        bytes_view(bytes) == hex_decoding(text@),
{
    hex_decode(text)
}

} // verus!
