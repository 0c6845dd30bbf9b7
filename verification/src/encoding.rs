//! Hexadecimal and base64 text, and the SHA-256 digest: what each is, and
//! the calls into the crates that compute them.

use base64::Engine;
use sha2::Digest;
use vstd::prelude::*;

verus! {

/// The sixteen lowercase hexadecimal digits, in order of value.
pub open spec fn hex_alphabet() -> Seq<char> {
    seq!['0', '1', '2', '3', '4', '5', '6', '7', '8', '9', 'a', 'b', 'c', 'd', 'e', 'f']
}

/// Whether a character is a lowercase hexadecimal digit.
pub open spec fn is_lower_hex(c: char) -> bool {
    hex_alphabet().contains(c)
}

/// Lowercase hexadecimal text of a byte string: two digits per byte, the
/// high half first.
pub open spec fn hex_lower(bytes: Seq<u8>) -> Seq<char> {
    Seq::new(
        2 * bytes.len(),
        |i: int|
            if i % 2 == 0 {
                hex_alphabet()[bytes[i / 2] as int / 16]
            } else {
                hex_alphabet()[bytes[i / 2] as int % 16]
            },
    )
}

/// Every character of a hexadecimal text is a lowercase hexadecimal digit.
pub proof fn lemma_hex_lower_chars(bytes: Seq<u8>)
    ensures
        hex_lower(bytes).len() == 2 * bytes.len(),
        forall|i: int| 0 <= i < hex_lower(bytes).len() ==> is_lower_hex(#[trigger] hex_lower(bytes)[i]),
{
    assert forall|i: int| 0 <= i < hex_lower(bytes).len() implies is_lower_hex(
        #[trigger] hex_lower(bytes)[i],
    ) by {
        let b = bytes[i / 2] as int;
        let v = if i % 2 == 0 {
            b / 16
        } else {
            b % 16
        };
        assert(0 <= v < 16);
        assert(hex_lower(bytes)[i] == hex_alphabet()[v]);
    }
}

/// Different values below sixteen have different hexadecimal digits.
pub proof fn lemma_hex_digits_differ(u: int, v: int)
    requires
        0 <= u < 16,
        0 <= v < 16,
        hex_alphabet()[u] == hex_alphabet()[v],
    ensures
        u == v,
{
}

/// Different byte strings have different hexadecimal texts.
pub proof fn lemma_hex_lower_is_injective(a: Seq<u8>, b: Seq<u8>)
    requires
        hex_lower(a) == hex_lower(b),
    ensures
        a == b,
{
    assert(hex_lower(a).len() == 2 * a.len());
    assert(hex_lower(b).len() == 2 * b.len());
    assert forall|i: int| 0 <= i < a.len() implies a[i] == b[i] by {
        let x = a[i] as int;
        let y = b[i] as int;
        assert(hex_lower(a)[2 * i] == hex_alphabet()[x / 16]);
        assert(hex_lower(b)[2 * i] == hex_alphabet()[y / 16]);
        assert(hex_lower(a)[2 * i + 1] == hex_alphabet()[x % 16]);
        assert(hex_lower(b)[2 * i + 1] == hex_alphabet()[y % 16]);
        lemma_hex_digits_differ(x / 16, y / 16);
        lemma_hex_digits_differ(x % 16, y % 16);
    }
    assert(a =~= b);
}

/// The symbol that base64 writes for a six-bit value, in the standard
/// alphabet.
pub open spec fn base64_symbol(v: int) -> char {
    "ABCDEFGHIJKLMNOPQRSTUVWXYZabcdefghijklmnopqrstuvwxyz0123456789+/"@[v]
}

/// Standard base64 with padding: each group of three bytes gives four
/// symbols, and a last group of one or two bytes is filled up with `=`.
pub open spec fn base64_text(bytes: Seq<u8>) -> Seq<char>
    decreases bytes.len(),
{
    if bytes.len() == 0 {
        Seq::empty()
    } else if bytes.len() == 1 {
        seq![
            base64_symbol(bytes[0] as int / 4),
            base64_symbol((bytes[0] as int % 4) * 16),
            '=',
            '=',
        ]
    } else if bytes.len() == 2 {
        seq![
            base64_symbol(bytes[0] as int / 4),
            base64_symbol((bytes[0] as int % 4) * 16 + bytes[1] as int / 16),
            base64_symbol((bytes[1] as int % 16) * 4),
            '=',
        ]
    } else {
        seq![
            base64_symbol(bytes[0] as int / 4),
            base64_symbol((bytes[0] as int % 4) * 16 + bytes[1] as int / 16),
            base64_symbol((bytes[1] as int % 16) * 4 + bytes[2] as int / 64),
            base64_symbol(bytes[2] as int % 64),
        ] + base64_text(bytes.skip(3))
    }
}

/// Number of symbols that base64 with padding writes for `n` bytes.
pub open spec fn base64_len(n: nat) -> nat {
    4 * ((n + 2) / 3)
}

/// Different six-bit values have different symbols, and none of them is the
/// padding character.
pub proof fn lemma_base64_symbols_differ(u: int, v: int)
    requires
        0 <= u < 64,
        0 <= v < 64,
    ensures
        base64_symbol(u) != '=',
        base64_symbol(u) == base64_symbol(v) ==> u == v,
{
    reveal_strlit("ABCDEFGHIJKLMNOPQRSTUVWXYZabcdefghijklmnopqrstuvwxyz0123456789+/");
}

/// The text of a byte string has four symbols for each group of three bytes,
/// a last group of one or two included.
pub proof fn lemma_base64_text_len(bytes: Seq<u8>)
    ensures
        base64_text(bytes).len() == base64_len(bytes.len()),
    decreases bytes.len(),
{
    if bytes.len() >= 3 {
        lemma_base64_text_len(bytes.skip(3));
    }
}

/// Different byte strings have different base64 texts.
pub proof fn lemma_base64_text_is_injective(a: Seq<u8>, b: Seq<u8>)
    requires
        base64_text(a) == base64_text(b),
    ensures
        a == b,
    decreases a.len(),
{
    let ta = base64_text(a);
    let tb = base64_text(b);
    lemma_base64_text_len(a);
    lemma_base64_text_len(b);
    if a.len() == 0 || b.len() == 0 {
        assert(a.len() == 0 && b.len() == 0);
        assert(a =~= b);
    } else {
        let a0 = a[0] as int;
        let b0 = b[0] as int;
        lemma_base64_symbols_differ(a0 / 4, b0 / 4);
        assert(ta[0] == base64_symbol(a0 / 4));
        assert(tb[0] == base64_symbol(b0 / 4));
        if a.len() >= 3 {
            lemma_base64_text_len(a.skip(3));
            let a1 = a[1] as int;
            let a2 = a[2] as int;
            lemma_base64_symbols_differ(a2 % 64, 0);
            lemma_base64_symbols_differ((a1 % 16) * 4 + a2 / 64, 0);
            assert(ta[3] == base64_symbol(a2 % 64));
            assert(ta[2] == base64_symbol((a1 % 16) * 4 + a2 / 64));
            assert(ta[1] == base64_symbol((a0 % 4) * 16 + a1 / 16));
            if b.len() >= 3 {
                lemma_base64_text_len(b.skip(3));
                let b1 = b[1] as int;
                let b2 = b[2] as int;
                assert(tb[3] == base64_symbol(b2 % 64));
                assert(tb[2] == base64_symbol((b1 % 16) * 4 + b2 / 64));
                assert(tb[1] == base64_symbol((b0 % 4) * 16 + b1 / 16));
                lemma_base64_symbols_differ((a0 % 4) * 16 + a1 / 16, (b0 % 4) * 16 + b1 / 16);
                lemma_base64_symbols_differ((a1 % 16) * 4 + a2 / 64, (b1 % 16) * 4 + b2 / 64);
                lemma_base64_symbols_differ(a2 % 64, b2 % 64);
                assert(a0 == b0 && a1 == b1 && a2 == b2);
                assert(base64_text(a.skip(3)) =~= ta.skip(4));
                assert(base64_text(b.skip(3)) =~= tb.skip(4));
                lemma_base64_text_is_injective(a.skip(3), b.skip(3));
                assert(a =~= a.take(3) + a.skip(3));
                assert(b =~= b.take(3) + b.skip(3));
                assert(a.take(3) =~= b.take(3));
            } else {
                // the last symbols of `tb` are padding, those of `ta` are not
                assert(tb.len() == 4);
                assert(tb[3] == '=');
                assert(false);
            }
        } else if b.len() >= 3 {
            lemma_base64_text_len(b.skip(3));
            let b1 = b[1] as int;
            let b2 = b[2] as int;
            lemma_base64_symbols_differ(b2 % 64, 0);
            assert(tb[3] == base64_symbol(b2 % 64));
            assert(ta.len() == 4);
            assert(ta[3] == '=');
            assert(false);
        } else if a.len() == 1 {
            assert(ta[1] == base64_symbol((a0 % 4) * 16));
            assert(ta[2] == '=');
            if b.len() == 1 {
                assert(tb[1] == base64_symbol((b0 % 4) * 16));
                lemma_base64_symbols_differ((a0 % 4) * 16, (b0 % 4) * 16);
                assert(a0 == b0);
                assert(a =~= b);
            } else {
                let b1 = b[1] as int;
                lemma_base64_symbols_differ((b1 % 16) * 4, 0);
                assert(tb[2] == base64_symbol((b1 % 16) * 4));
                assert(false);
            }
        } else {
            let a1 = a[1] as int;
            lemma_base64_symbols_differ((a1 % 16) * 4, 0);
            assert(ta[1] == base64_symbol((a0 % 4) * 16 + a1 / 16));
            assert(ta[2] == base64_symbol((a1 % 16) * 4));
            if b.len() == 2 {
                let b1 = b[1] as int;
                assert(tb[1] == base64_symbol((b0 % 4) * 16 + b1 / 16));
                assert(tb[2] == base64_symbol((b1 % 16) * 4));
                lemma_base64_symbols_differ((a0 % 4) * 16 + a1 / 16, (b0 % 4) * 16 + b1 / 16);
                lemma_base64_symbols_differ((a1 % 16) * 4, (b1 % 16) * 4);
                assert(a0 == b0 && a1 == b1);
                assert(a =~= b);
            } else {
                assert(tb[2] == '=');
                assert(false);
            }
        }
    }
}

/// The SHA-256 digest of a byte string.
pub uninterp spec fn sha256(data: Seq<u8>) -> Seq<u8>;

/// Calls `hex::encode`, which writes two lowercase digits per byte from the
/// table `0123456789abcdef`, the high half of each byte first.
#[verifier::external_body]
pub(crate) fn hex_encode(bytes: &[u8]) -> (out: String)
    ensures
        out@ == hex_lower(bytes@),
{
    hex::encode(bytes)
}

/// Calls `encode` of base64's `STANDARD` engine: the alphabet of RFC 4648
/// with padding. That call panics where the length of its output overflows
/// `usize`, so such inputs are left out.
#[verifier::external_body]
pub(crate) fn base64_encode(bytes: &[u8]) -> (out: String)
    requires
        base64_len(bytes@.len()) <= usize::MAX,
    ensures
        out@ == base64_text(bytes@),
{
    base64::engine::general_purpose::STANDARD.encode(bytes)
}

/// Calls `Sha256::digest` of sha2. Not proved: that the result is the
/// SHA-256 digest of the input; the contract names it, and states its length
/// of 32 bytes.
#[verifier::external_body]
pub(crate) fn sha256_digest(data: &[u8]) -> (out: Vec<u8>)
    ensures
        out@ == sha256(data@),
        out@.len() == 32,
{
    sha2::Sha256::digest(data).to_vec()
}

} // verus!
