//! Base64 with the URL-safe alphabet and without padding.
use base64::engine::general_purpose::URL_SAFE_NO_PAD;
use base64::Engine;
use vstd::prelude::*;

verus! {

/// The character of the URL-safe alphabet that stands for six bits.
pub open spec fn digit(bits: int) -> char {
    if bits < 26 {
        ('A' as int + bits) as char
    } else if bits < 52 {
        ('a' as int + bits - 26) as char
    } else if bits < 62 {
        ('0' as int + bits - 52) as char
    } else if bits == 62 {
        '-'
    } else {
        '_'
    }
}

/// The `i`th group of six bits of `bytes`, counted from the most significant bit of the first
/// byte. Bits beyond the last byte are zero.
pub open spec fn six_bits(bytes: Seq<u8>, i: int) -> int {
    let first = 6 * i / 8;
    let low: int = if first + 1 < bytes.len() {
        bytes[first + 1] as int
    } else {
        0
    };
    let pair = bytes[first] * 256 + low;
    let skipped = 6 * i % 8;
    let dropped: int = if skipped == 0 {
        1024
    } else if skipped == 2 {
        256
    } else if skipped == 4 {
        64
    } else {
        16
    };
    pair / dropped % 64
}

/// The text of `bytes`: one character for each six bits begun.
pub open spec fn base64url(bytes: Seq<u8>) -> Seq<char> {
    Seq::new(((8 * bytes.len() + 5) / 6) as nat, |i: int| digit(six_bits(bytes, i)))
}

/// Six bits and their character determine each other.
proof fn lemma_digit_is_distinct(a: int, b: int)
    requires
        0 <= a < 64,
        0 <= b < 64,
        digit(a) == digit(b),
    ensures
        a == b,
{
}

/// The four positions that a group can have in a pair of bytes.
proof fn lemma_group_of_pair(high: u8, low: u8)
    by (bit_vector)
    ensures
        (high * 256 + low) / 1024 % 64 == high / 4,
        (high * 256 + low) / 256 % 64 == high % 64,
        (high * 256 + low) / 64 % 64 == high % 16 * 4 + low / 64,
        (high * 256 + low) / 16 % 64 == high % 4 * 16 + low / 16,
{
}

/// Undoes `high * size + low`.
proof fn lemma_undo_pairing(high: int, low: int, size: int)
    requires
        0 <= low < size,
        size == 4 || size == 16,
    ensures
        (high * size + low) / size == high,
        (high * size + low) % size == low,
{
}

/// Where the two groups that hold the bits of byte `k` begin.
proof fn lemma_group_positions(k: int)
    requires
        0 <= k,
    ensures
        ({
            let i = 8 * k / 6;
            &&& 0 <= i
            &&& k % 3 == 0 ==> 6 * i == 8 * k
            &&& k % 3 == 1 ==> 6 * i + 2 == 8 * k
            &&& k % 3 == 2 ==> 6 * i + 4 == 8 * k
        }),
{
    let q = k / 3;
    assert(k == 3 * q + k % 3);
}

/// The groups that hold the bits of byte `k` make it up again.
proof fn lemma_byte_from_groups(bytes: Seq<u8>, k: int)
    requires
        0 <= k < bytes.len(),
    ensures
        0 <= 8 * k / 6,
        8 * k / 6 + 1 < (8 * bytes.len() + 5) / 6,
        bytes[k] == ({
            let here = six_bits(bytes, 8 * k / 6);
            let next = six_bits(bytes, 8 * k / 6 + 1);
            if k % 3 == 0 {
                here * 4 + next / 16
            } else if k % 3 == 1 {
                here % 16 * 16 + next / 4
            } else {
                here % 4 * 64 + next
            }
        }),
{
    let i = 8 * k / 6;
    let byte = bytes[k];
    let before: u8 = if k > 0 {
        bytes[k - 1]
    } else {
        0
    };
    let after: u8 = if k + 1 < bytes.len() {
        bytes[k + 1]
    } else {
        0
    };
    lemma_group_positions(k);
    lemma_group_of_pair(byte, after);
    lemma_group_of_pair(before, byte);
    if k % 3 == 0 {
        assert(6 * i / 8 == k && 6 * i % 8 == 0);
        assert(6 * (i + 1) / 8 == k && 6 * (i + 1) % 8 == 6);
        assert(six_bits(bytes, i) == byte / 4);
        assert(six_bits(bytes, i + 1) == byte % 4 * 16 + after / 16);
        lemma_undo_pairing((byte % 4) as int, (after / 16) as int, 16);
    } else if k % 3 == 1 {
        assert(6 * i / 8 == k - 1 && 6 * i % 8 == 6);
        assert(6 * (i + 1) / 8 == k && 6 * (i + 1) % 8 == 4);
        assert(six_bits(bytes, i) == before % 4 * 16 + byte / 16);
        assert(six_bits(bytes, i + 1) == byte % 16 * 4 + after / 64);
        lemma_undo_pairing((before % 4) as int, (byte / 16) as int, 16);
        lemma_undo_pairing((byte % 16) as int, (after / 64) as int, 4);
    } else {
        assert(6 * i / 8 == k - 1 && 6 * i % 8 == 4);
        assert(6 * (i + 1) / 8 == k && 6 * (i + 1) % 8 == 2);
        assert(six_bits(bytes, i) == before % 16 * 4 + byte / 64);
        assert(six_bits(bytes, i + 1) == byte % 64);
        lemma_undo_pairing((before % 16) as int, (byte / 64) as int, 4);
    }
}

/// No two secrets of one length share a text.
pub proof fn law_text_determines_bytes(a: Seq<u8>, b: Seq<u8>)
    requires
        a.len() == b.len(),
        base64url(a) == base64url(b),
    ensures
        a == b,
{
    assert forall|k: int| 0 <= k < a.len() implies a[k] == b[k] by {
        lemma_byte_from_groups(a, k);
        lemma_byte_from_groups(b, k);
        let i = 8 * k / 6;
        assert(base64url(a)[i] == digit(six_bits(a, i)));
        assert(base64url(b)[i] == digit(six_bits(b, i)));
        assert(base64url(a)[i + 1] == digit(six_bits(a, i + 1)));
        assert(base64url(b)[i + 1] == digit(six_bits(b, i + 1)));
        lemma_digit_is_distinct(six_bits(a, i), six_bits(b, i));
        lemma_digit_is_distinct(six_bits(a, i + 1), six_bits(b, i + 1));
    }
    assert(a =~= b);
}

/// What a character of the URL-safe alphabet counts for: capital letters first, then small
/// letters, then digits, then the dash and the underscore.
pub open spec fn value_of(c: char) -> int {
    if 'A' <= c <= 'Z' {
        c as int - 'A' as int
    } else if 'a' <= c <= 'z' {
        c as int - 'a' as int + 26
    } else if '0' <= c <= '9' {
        c as int - '0' as int + 52
    } else if c == '-' {
        62
    } else {
        63
    }
}

/// The character for six bits counts for them.
proof fn lemma_value_of_digit(bits: int)
    requires
        0 <= bits < 64,
    ensures
        value_of(digit(bits)) == bits,
{
}

/// Read as a number, four characters in a row are the three bytes that they stand for.
pub proof fn law_four_characters_are_three_bytes(bytes: Seq<u8>, k: int)
    requires
        0 <= k,
        3 * k + 2 < bytes.len(),
    ensures
        4 * k + 3 < base64url(bytes).len(),
        ({
            let text = base64url(bytes);
            bytes[3 * k] * 65536 + bytes[3 * k + 1] * 256 + bytes[3 * k + 2] == value_of(
                text[4 * k],
            ) * 262144 + value_of(text[4 * k + 1]) * 4096 + value_of(text[4 * k + 2]) * 64
                + value_of(text[4 * k + 3])
        }),
{
    lemma_byte_from_groups(bytes, 3 * k);
    lemma_byte_from_groups(bytes, 3 * k + 1);
    lemma_byte_from_groups(bytes, 3 * k + 2);
    assert(8 * (3 * k) / 6 == 4 * k);
    assert(8 * (3 * k + 1) / 6 == 4 * k + 1);
    assert(8 * (3 * k + 2) / 6 == 4 * k + 2);
    lemma_value_of_digit(six_bits(bytes, 4 * k));
    lemma_value_of_digit(six_bits(bytes, 4 * k + 1));
    lemma_value_of_digit(six_bits(bytes, 4 * k + 2));
    lemma_value_of_digit(six_bits(bytes, 4 * k + 3));
}

/// The text of 32 bytes has 43 characters, and the last three of them are the last two bytes,
/// filled up with zero bits.
pub proof fn law_a_secrets_text_ends_with_its_last_bytes(secret: [u8; 32])
    ensures
        base64url(secret@).len() == 43,
        ({
            let text = base64url(secret@);
            secret@[30] * 1024 + secret@[31] * 4 == value_of(text[40]) * 4096 + value_of(text[41])
                * 64 + value_of(text[42])
        }),
{
    let bytes = secret@;
    lemma_byte_from_groups(bytes, 30);
    lemma_byte_from_groups(bytes, 31);
    lemma_value_of_digit(six_bits(bytes, 40));
    lemma_value_of_digit(six_bits(bytes, 41));
    lemma_value_of_digit(six_bits(bytes, 42));
    lemma_group_of_pair(bytes[31], 0);
}

/// Calls `Engine::encode` of the engine `URL_SAFE_NO_PAD`: each six bits become one character of
/// the URL-safe alphabet, the last group is filled up with zero bits, and no padding follows.
#[verifier::external_body]
pub(crate) fn encode(secret: &[u8; 32]) -> (r: String)
    ensures
        r@ == base64url(secret@),
{
    URL_SAFE_NO_PAD.encode(secret)
}

} // verus!
