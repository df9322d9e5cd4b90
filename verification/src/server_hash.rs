//! The server hash of the session handshake.
//!
//! The hash is the SHA-1 digest of the server id (always empty), the shared
//! secret and the encoded public key, read as one signed big-endian integer
//! in two's complement and written in lowercase hexadecimal: a leading `-`
//! for a negative value, no leading zeros, `0` for zero.

use vstd::prelude::*;

verus! {

/// The SHA-1 digest of `data`.
pub uninterp spec fn sha1_digest(data: Seq<u8>) -> Seq<u8>;

/// 256 to the power `len`.
pub open spec fn radix(len: nat) -> nat
    decreases len,
{
    if len == 0 {
        1
    } else {
        256 * radix((len - 1) as nat)
    }
}

/// The number that `bytes` spell in base 256, most significant byte first.
pub open spec fn unsigned_be(bytes: Seq<u8>) -> nat
    decreases bytes.len(),
{
    if bytes.len() == 0 {
        0
    } else {
        unsigned_be(bytes.drop_last()) * 256 + bytes.last() as nat
    }
}

/// The integer that `bytes` spell in two's complement, most significant
/// byte first. No bytes spell zero.
pub open spec fn signed_be(bytes: Seq<u8>) -> int {
    if bytes.len() > 0 && bytes[0] >= 128 {
        unsigned_be(bytes) - radix(bytes.len())
    } else {
        unsigned_be(bytes) as int
    }
}

/// The lowercase hexadecimal digit of `d`.
pub open spec fn hex_digit(d: nat) -> char
    recommends
        d < 16,
{
    seq!['0', '1', '2', '3', '4', '5', '6', '7', '8', '9', 'a', 'b', 'c', 'd', 'e', 'f'][d as int]
}

/// `n` in lowercase hexadecimal, without leading zeros.
pub open spec fn hex_magnitude(n: nat) -> Seq<char>
    decreases n,
{
    if n < 16 {
        seq![hex_digit(n)]
    } else {
        hex_magnitude(n / 16).push(hex_digit(n % 16))
    }
}

/// `value` in lowercase hexadecimal, with `-` before the magnitude of a
/// negative value.
pub open spec fn signed_hex(value: int) -> Seq<char> {
    if value < 0 {
        seq!['-'] + hex_magnitude((-value) as nat)
    } else {
        hex_magnitude(value as nat)
    }
}

/// The number that the lowercase hexadecimal digit `c` stands for, and
/// `None` for any other character.
pub open spec fn hex_digit_value(c: char) -> Option<nat> {
    if c == '0' {
        Some(0)
    } else if c == '1' {
        Some(1)
    } else if c == '2' {
        Some(2)
    } else if c == '3' {
        Some(3)
    } else if c == '4' {
        Some(4)
    } else if c == '5' {
        Some(5)
    } else if c == '6' {
        Some(6)
    } else if c == '7' {
        Some(7)
    } else if c == '8' {
        Some(8)
    } else if c == '9' {
        Some(9)
    } else if c == 'a' {
        Some(10)
    } else if c == 'b' {
        Some(11)
    } else if c == 'c' {
        Some(12)
    } else if c == 'd' {
        Some(13)
    } else if c == 'e' {
        Some(14)
    } else if c == 'f' {
        Some(15)
    } else {
        None
    }
}

/// Whether `text` is made of lowercase hexadecimal digits alone.
pub open spec fn is_hex_text(text: Seq<char>) -> bool {
    forall|i: int| 0 <= i < text.len() ==> hex_digit_value(#[trigger] text[i]) is Some
}

/// The number that `text` spells in hexadecimal, most significant digit
/// first. A character that is no digit counts as zero.
pub open spec fn hex_value(text: Seq<char>) -> nat
    decreases text.len(),
{
    if text.len() == 0 {
        0
    } else {
        hex_value(text.drop_last()) * 16 + match hex_digit_value(text.last()) {
            Some(d) => d,
            None => 0,
        }
    }
}

/// The digits of a signed hexadecimal text: the text without its `-`.
pub open spec fn digits_of(text: Seq<char>) -> Seq<char> {
    if text.len() > 0 && text[0] == '-' {
        text.subrange(1, text.len() as int)
    } else {
        text
    }
}

/// Whether `text` is the one way to write `value` in hexadecimal: `-` in
/// front exactly for a negative value, then at least one lowercase digit,
/// the digits spelling the magnitude, and no `0` in front but for zero,
/// which is written `0`.
pub open spec fn writes_in_hex(text: Seq<char>, value: int) -> bool {
    &&& text.len() >= 1
    &&& text[0] == '-' <==> value < 0
    &&& digits_of(text).len() >= 1
    &&& is_hex_text(digits_of(text))
    &&& hex_value(digits_of(text)) == if value < 0 {
        -value
    } else {
        value
    }
    &&& digits_of(text)[0] == '0' <==> value == 0
    &&& value == 0 ==> text == seq!['0']
}

/// The server hash for a shared secret and an encoded public key.
pub open spec fn server_hash(shared_secret: Seq<u8>, public_key: Seq<u8>) -> Seq<char> {
    signed_hex(signed_be(sha1_digest(shared_secret + public_key)))
}

/// `sha1::Sha1::from(data).digest().bytes()`: the SHA-1 digest of `data`.
/// Trusted: the result is the digest, which is a function of `data` alone
/// and has twenty bytes.
#[verifier::external_body]
fn sha1_of(data: &[u8]) -> (digest: Vec<u8>)
    ensures
        digest@ == sha1_digest(data@),
        digest@.len() == 20,
{
    sha1::Sha1::from(data).digest().bytes().to_vec()
}

/// `num_bigint::BigInt::from_signed_bytes_be(bytes)` written with `{:x}`.
/// Trusted: the first reads big-endian two's complement, the second writes
/// `-` for a negative value and then the magnitude in lowercase
/// hexadecimal.
#[verifier::external_body]
fn signed_hex_text(bytes: &[u8]) -> (text: String)
    ensures
        text@ == signed_hex(signed_be(bytes@)),
{
    let value = num_bigint::BigInt::from_signed_bytes_be(bytes);
    format!("{:x}", value)
}

/// The text of a digest: the digest read as a signed integer, in
/// hexadecimal.
pub fn hexdigest(digest: &[u8]) -> (text: String)
    ensures
        text@ == signed_hex(signed_be(digest@)),
        writes_in_hex(text@, signed_be(digest@)),
        text@[0] == '-' <==> digest@.len() > 0 && digest@[0] >= 128,
{
    proof {
        lemma_signed_hex_canonical(digest@);
    }
    signed_hex_text(digest)
}

/// The server hash that a client with `shared_secret` sends to the session
/// service for a server with the encoded public key `public_key`.
pub fn compute_server_hash(shared_secret: &[u8; 16], public_key: &[u8]) -> (hash: String)
    ensures
        hash@ == server_hash(shared_secret@, public_key@),
        sha1_digest(shared_secret@ + public_key@).len() == 20,
        writes_in_hex(hash@, signed_be(sha1_digest(shared_secret@ + public_key@))),
        1 <= hash@.len() <= 41,
{
    // The server id is always empty and adds nothing to the input.
    let mut input: Vec<u8> = Vec::new();
    input.extend_from_slice(shared_secret.as_slice());
    input.extend_from_slice(public_key);
    assert(input@ =~= shared_secret@ + public_key@);
    let digest = sha1_of(input.as_slice());
    proof {
        lemma_digest_text(digest@);
    }
    hexdigest(digest.as_slice())
}

/// The first byte of a sequence bounds the number that the sequence spells.
proof fn lemma_unsigned_be_bounds(bytes: Seq<u8>)
    requires
        bytes.len() > 0,
    ensures
        bytes[0] * radix((bytes.len() - 1) as nat) <= unsigned_be(bytes),
        unsigned_be(bytes) < (bytes[0] + 1) * radix((bytes.len() - 1) as nat),
    decreases bytes.len(),
{
    let b = bytes[0] as int;
    let total = unsigned_be(bytes) as int;
    if bytes.len() == 1 {
        assert(bytes.drop_last().len() == 0);
        assert(unsigned_be(bytes.drop_last()) == 0);
        assert(total == b);
        assert(radix(0) == 1);
        assert(b * 1 == b && (b + 1) * 1 == b + 1);
    } else {
        let front = bytes.drop_last();
        lemma_unsigned_be_bounds(front);
        assert(front[0] == bytes[0]);
        let r = radix((front.len() - 1) as nat) as int;
        let u = unsigned_be(front) as int;
        assert(total == u * 256 + bytes.last());
        assert(radix((bytes.len() - 1) as nat) == 256 * r);
        assert(b * (256 * r) <= u * 256) by (nonlinear_arith)
            requires
                b * r <= u,
        ;
        assert(u * 256 + 256 <= (b + 1) * (256 * r)) by (nonlinear_arith)
            requires
                u < (b + 1) * r,
        ;
    }
}

/// The hexadecimal text of a number is made of digits that spell the
/// number, and starts with `0` for zero alone.
proof fn lemma_hex_magnitude_canonical(n: nat)
    ensures
        hex_magnitude(n).len() >= 1,
        is_hex_text(hex_magnitude(n)),
        hex_value(hex_magnitude(n)) == n,
        hex_magnitude(n)[0] != '-',
        hex_magnitude(n)[0] == '0' <==> n == 0,
        n == 0 ==> hex_magnitude(n) == seq!['0'],
    decreases n,
{
    let text = hex_magnitude(n);
    if n < 16 {
        assert(text.drop_last() =~= Seq::<char>::empty());
        assert(hex_value(text.drop_last()) == 0);
        assert(hex_digit_value(hex_digit(n)) == Some(n));
    } else {
        let front = hex_magnitude(n / 16);
        lemma_hex_magnitude_canonical(n / 16);
        assert(text == front.push(hex_digit(n % 16)));
        assert(text.drop_last() =~= front);
        assert(hex_digit_value(hex_digit(n % 16)) == Some(n % 16));
        assert(text[0] == front[0]);
        assert forall|i: int| 0 <= i < text.len() implies hex_digit_value(
            #[trigger] text[i],
        ) is Some by {
            if i < front.len() {
                assert(text[i] == front[i]);
            }
        }
    }
}

/// A number below 256 to the power `len` has at most two hexadecimal digits
/// for each of the `len` bytes.
proof fn lemma_hex_magnitude_length(n: nat, len: nat)
    requires
        len >= 1,
        n < radix(len),
    ensures
        hex_magnitude(n).len() <= 2 * len,
    decreases len,
{
    reveal_with_fuel(hex_magnitude, 3);
    if n < 256 {
    } else {
        assert(radix(1) == 256) by {
            reveal_with_fuel(radix, 2);
        }
        assert(len >= 2);
        assert(radix(len) == 256 * radix((len - 1) as nat));
        assert((n / 16) / 16 == n / 256);
        lemma_hex_magnitude_length(n / 256, (len - 1) as nat);
        assert(hex_magnitude(n) == hex_magnitude(n / 256).push(hex_digit((n / 16) % 16)).push(
            hex_digit(n % 16),
        ));
    }
}

/// The text of the two's complement value of `bytes` is the one way to
/// write that value in hexadecimal. The value is negative, and the text
/// starts with `-`, exactly when the first bit of `bytes` is set. There are
/// at most two digits for each byte.
pub proof fn lemma_signed_hex_canonical(bytes: Seq<u8>)
    ensures
        signed_be(bytes) < 0 <==> bytes.len() > 0 && bytes[0] >= 128,
        writes_in_hex(signed_hex(signed_be(bytes)), signed_be(bytes)),
        bytes.len() >= 1 ==> digits_of(signed_hex(signed_be(bytes))).len() <= 2 * bytes.len(),
{
    let value = signed_be(bytes);
    let text = signed_hex(value);
    let magnitude: nat = if value < 0 {
        (-value) as nat
    } else {
        value as nat
    };
    if bytes.len() > 0 {
        lemma_unsigned_be_bounds(bytes);
        let r = radix((bytes.len() - 1) as nat);
        let b = bytes[0] as int;
        assert(radix(bytes.len()) == 256 * r);
        assert((b + 1) * r <= 256 * r) by (nonlinear_arith)
            requires
                b + 1 <= 256,
                r >= 0,
        ;
        if b >= 128 {
            assert(128 * r <= b * r) by (nonlinear_arith)
                requires
                    b >= 128,
                    r >= 0,
            ;
        }
        assert(magnitude < radix(bytes.len()));
        lemma_hex_magnitude_length(magnitude, bytes.len());
    }
    lemma_hex_magnitude_canonical(magnitude);
    if value < 0 {
        assert(digits_of(text) =~= hex_magnitude(magnitude));
    } else {
        assert(digits_of(text) == hex_magnitude(magnitude));
    }
}

/// Digits that do not start with `0` spell a number that is not zero, and
/// two or more of them spell sixteen at least.
proof fn lemma_hex_value_lower(digits: Seq<char>)
    requires
        digits.len() >= 1,
        is_hex_text(digits),
        digits[0] != '0',
    ensures
        hex_value(digits) >= 1,
        digits.len() >= 2 ==> hex_value(digits) >= 16,
    decreases digits.len(),
{
    let front = digits.drop_last();
    assert(hex_digit_value(digits.last()) is Some);
    if digits.len() == 1 {
        assert(hex_value(front) == 0);
        assert(digits.last() == digits[0]);
    } else {
        assert(front[0] == digits[0]);
        assert forall|i: int| 0 <= i < front.len() implies hex_digit_value(
            #[trigger] front[i],
        ) is Some by {
            assert(front[i] == digits[i]);
        }
        lemma_hex_value_lower(front);
    }
}

/// Two texts of digits that do not start with `0` and spell the same number
/// are the same text.
proof fn lemma_hex_digits_unique(a: Seq<char>, b: Seq<char>)
    requires
        a.len() >= 1,
        b.len() >= 1,
        is_hex_text(a),
        is_hex_text(b),
        a[0] != '0',
        b[0] != '0',
        hex_value(a) == hex_value(b),
    ensures
        a == b,
    decreases a.len(),
{
    let a_front = a.drop_last();
    let b_front = b.drop_last();
    assert(hex_digit_value(a.last()) is Some);
    assert(hex_digit_value(b.last()) is Some);
    let a_digit = hex_digit_value(a.last()).unwrap();
    let b_digit = hex_digit_value(b.last()).unwrap();
    assert(hex_value(a) == hex_value(a_front) * 16 + a_digit);
    assert(hex_value(b) == hex_value(b_front) * 16 + b_digit);
    assert(a_digit < 16 && b_digit < 16);
    assert(a_digit == b_digit && hex_value(a_front) == hex_value(b_front));
    assert(a.last() == b.last());
    assert forall|i: int| 0 <= i < a_front.len() implies hex_digit_value(
        #[trigger] a_front[i],
    ) is Some by {
        assert(a_front[i] == a[i]);
    }
    assert forall|i: int| 0 <= i < b_front.len() implies hex_digit_value(
        #[trigger] b_front[i],
    ) is Some by {
        assert(b_front[i] == b[i]);
    }
    if a.len() >= 2 {
        assert(a_front[0] == a[0]);
        lemma_hex_value_lower(a_front);
    } else {
        assert(hex_value(a_front) == 0);
    }
    if b.len() >= 2 {
        assert(b_front[0] == b[0]);
        lemma_hex_value_lower(b_front);
    } else {
        assert(hex_value(b_front) == 0);
    }
    if a.len() >= 2 {
        lemma_hex_digits_unique(a_front, b_front);
    }
    assert(a =~= a_front.push(a.last()));
    assert(b =~= b_front.push(b.last()));
}

/// A number is written in hexadecimal in one way only.
pub proof fn lemma_writes_in_hex_unique(first: Seq<char>, second: Seq<char>, value: int)
    requires
        writes_in_hex(first, value),
        writes_in_hex(second, value),
    ensures
        first == second,
{
    if value != 0 {
        lemma_hex_digits_unique(digits_of(first), digits_of(second));
        if value < 0 {
            assert(first =~= seq!['-'] + digits_of(first));
            assert(second =~= seq!['-'] + digits_of(second));
        }
    }
}

/// A digest of twenty bytes has a text of one to forty digits, with `-` in
/// front exactly where the first bit of the digest is set.
pub proof fn lemma_digest_text(digest: Seq<u8>)
    requires
        digest.len() == 20,
    ensures
        writes_in_hex(signed_hex(signed_be(digest)), signed_be(digest)),
        signed_hex(signed_be(digest))[0] == '-' <==> digest[0] >= 128,
        1 <= digits_of(signed_hex(signed_be(digest))).len() <= 40,
        1 <= signed_hex(signed_be(digest)).len() <= 41,
{
    lemma_signed_hex_canonical(digest);
}

} // verus!
