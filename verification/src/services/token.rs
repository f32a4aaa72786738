//! Opaque tokens: how they are made and how they are hashed for storage.

use crate::clock::unix_now_nanos;
use crate::text::is_alphanumeric_ascii;
use rand::Rng;
use vstd::prelude::*;

verus! {

/// `String::push` appends one character.
pub assume_specification[ String::push ](s: &mut String, c: char)
    ensures
        final(s)@ == old(s)@.push(c),
;

/// The lower-case hexadecimal BLAKE3 digest of a text's UTF-8 bytes.
pub uninterp spec fn blake3_hex_digest(text: Seq<char>) -> Seq<char>;

/// `blake3::hash(..).to_hex()` as a `String`.
#[verifier::external_body]
fn blake3_hex(text: &str) -> (r: String)
    ensures
        r@ == blake3_hex_digest(text@),
{
    blake3::hash(text.as_bytes()).to_hex().to_string()
}

/// The form in which an opaque token is stored: its BLAKE3 digest, so that
/// the store never holds the secret itself.
pub fn hash_token(token: &str) -> (r: String)
    ensures
        r@ == blake3_hex_digest(token@),
{
    blake3_hex(token)
}


/// One sample of `rand::distr::Alphanumeric` from the thread's generator:
/// a letter or digit of ASCII, which one is left open.
#[verifier::external_body]
fn random_alphanumeric_char() -> (c: char)
    ensures
        is_alphanumeric_ascii(c),
{
    char::from(rand::rng().sample(rand::distr::Alphanumeric))
}

/// A random string of `len` ASCII letters and digits.
pub fn random_alphanumeric(len: usize) -> (r: String)
    ensures
        r@.len() == len,
        forall|i: int| 0 <= i < r@.len() ==> is_alphanumeric_ascii(#[trigger] r@[i]),
{
    let mut out = String::new();
    let mut i: usize = 0;
    while i < len
        invariant
            i <= len,
            out@.len() == i,
            forall|j: int| 0 <= j < out@.len() ==> is_alphanumeric_ascii(#[trigger] out@[j]),
        decreases len - i,
    {
        let c = random_alphanumeric_char();
        out.push(c);
        i = i + 1;
    }
    out
}

/// The length of a refresh token.
pub const REFRESH_TOKEN_LEN: usize = 64;

/// The length of the random part of a one-time token.
pub const ONE_TIME_RANDOM_LEN: usize = 24;

/// The form of a refresh token: 64 ASCII letters and digits, and so no
/// full stop among them.
pub open spec fn is_refresh_token(token: Seq<char>) -> bool {
    &&& token.len() == REFRESH_TOKEN_LEN
    &&& forall|i: int| 0 <= i < token.len() ==> is_alphanumeric_ascii(#[trigger] token[i])
    &&& !token.contains('.')
}

/// A fresh refresh token: 64 random ASCII letters and digits, and so no
/// full stop among them.
pub fn generate_refresh_token() -> (r: String)
    ensures
        is_refresh_token(r@),
{
    let r = random_alphanumeric(REFRESH_TOKEN_LEN);
    proof {
        if r@.contains('.') {
            let i = choose|i: int| 0 <= i < r@.len() && r@[i] == '.';
            assert(is_alphanumeric_ascii(r@[i]));
        }
    }
    r
}

/// The character of a decimal digit.
pub open spec fn digit_char(d: nat) -> char
    recommends
        d < 10,
{
    if d == 0 {
        '0'
    } else if d == 1 {
        '1'
    } else if d == 2 {
        '2'
    } else if d == 3 {
        '3'
    } else if d == 4 {
        '4'
    } else if d == 5 {
        '5'
    } else if d == 6 {
        '6'
    } else if d == 7 {
        '7'
    } else if d == 8 {
        '8'
    } else {
        '9'
    }
}

/// The decimal digits of a natural number, without leading zeros.
pub open spec fn decimal(n: nat) -> Seq<char>
    decreases n,
{
    if n < 10 {
        seq![digit_char(n)]
    } else {
        decimal(n / 10).push(digit_char(n % 10))
    }
}

/// The decimal text of an integer, with a minus sign where it is negative.
pub open spec fn signed_decimal(n: int) -> Seq<char> {
    if n < 0 {
        seq!['-'] + decimal((-n) as nat)
    } else {
        decimal(n as nat)
    }
}

fn digit_of(d: u64) -> (c: char)
    requires
        d < 10,
    ensures
        c == digit_char(d as nat),
{
    if d == 0 {
        '0'
    } else if d == 1 {
        '1'
    } else if d == 2 {
        '2'
    } else if d == 3 {
        '3'
    } else if d == 4 {
        '4'
    } else if d == 5 {
        '5'
    } else if d == 6 {
        '6'
    } else if d == 7 {
        '7'
    } else if d == 8 {
        '8'
    } else {
        '9'
    }
}

/// Appends the decimal digits of `n` to `out`.
pub fn push_decimal(out: &mut String, n: u64)
    ensures
        final(out)@ == old(out)@ + decimal(n as nat),
    decreases n,
{
    if n >= 10 {
        push_decimal(out, n / 10);
    }
    out.push(digit_of(n % 10));
    assert(out@ =~= old(out)@ + decimal(n as nat));
}

/// Appends the decimal text of a signed number to `out`.
pub fn push_signed_decimal(out: &mut String, n: i64)
    ensures
        final(out)@ == old(out)@ + signed_decimal(n as int),
{
    if n < 0 {
        out.push('-');
        let magnitude: u64 = if n == i64::MIN {
            9223372036854775808u64
        } else {
            (-n) as u64
        };
        push_decimal(out, magnitude);
        assert(out@ =~= old(out)@ + signed_decimal(n as int));
    } else {
        push_decimal(out, n as u64);
    }
}

/// Whether a text can be the random part of a one-time token: 24 ASCII
/// letters and digits.
pub open spec fn is_random_part(part: Seq<char>) -> bool {
    part.len() == ONE_TIME_RANDOM_LEN && forall|i: int|
        0 <= i < part.len() ==> is_alphanumeric_ascii(#[trigger] part[i])
}

/// The text of a one-time token made of a timestamp, a counter and a
/// random part: the three joined by hyphens.
pub open spec fn one_time_token_text(timestamp: i64, counter: usize, random_part: Seq<char>) -> Seq<
    char,
> {
    signed_decimal(timestamp as int) + seq!['-'] + decimal(counter as nat) + seq!['-']
        + random_part
}

/// Whether every character of a text is a decimal digit.
pub open spec fn all_digits(text: Seq<char>) -> bool {
    forall|i: int| 0 <= i < text.len() ==> '0' <= #[trigger] text[i] <= '9'
}

/// The decimal text of a number is not empty and holds digits only.
pub proof fn lemma_decimal_is_digits(n: nat)
    ensures
        decimal(n).len() >= 1,
        all_digits(decimal(n)),
    decreases n,
{
    if n >= 10 {
        lemma_decimal_is_digits(n / 10);
    }
}

/// Two digits with the same character are the same digit.
pub proof fn lemma_digit_char_is_injective(a: nat, b: nat)
    requires
        a < 10,
        b < 10,
        digit_char(a) == digit_char(b),
    ensures
        a == b,
{
}

/// Two numbers with the same decimal text are the same number.
pub proof fn lemma_decimal_is_injective(a: nat, b: nat)
    requires
        decimal(a) == decimal(b),
    ensures
        a == b,
    decreases a,
{
    lemma_decimal_is_digits(a / 10);
    lemma_decimal_is_digits(b / 10);
    if a < 10 && b < 10 {
        assert(decimal(a) == seq![digit_char(a)]);
        assert(decimal(b) == seq![digit_char(b)]);
        assert(seq![digit_char(a)][0] == digit_char(a));
        assert(seq![digit_char(b)][0] == digit_char(b));
        lemma_digit_char_is_injective(a, b);
    } else if a >= 10 && b >= 10 {
        let x = decimal(a / 10);
        let y = decimal(b / 10);
        assert(decimal(a) == x.push(digit_char(a % 10)));
        assert(decimal(b) == y.push(digit_char(b % 10)));
        assert(x.push(digit_char(a % 10)).drop_last() =~= x);
        assert(y.push(digit_char(b % 10)).drop_last() =~= y);
        assert(x.push(digit_char(a % 10)).last() == digit_char(a % 10));
        assert(y.push(digit_char(b % 10)).last() == digit_char(b % 10));
        lemma_decimal_is_injective(a / 10, b / 10);
        lemma_digit_char_is_injective(a % 10, b % 10);
        assert(a == 10 * (a / 10) + a % 10);
        assert(b == 10 * (b / 10) + b % 10);
    } else if a < 10 {
        assert(decimal(a) == seq![digit_char(a)]);
        assert(decimal(b) == decimal(b / 10).push(digit_char(b % 10)));
        assert(decimal(a).len() == 1);
        assert(decimal(b).len() >= 2);
    } else {
        assert(decimal(b) == seq![digit_char(b)]);
        assert(decimal(a) == decimal(a / 10).push(digit_char(a % 10)));
        assert(decimal(b).len() == 1);
        assert(decimal(a).len() >= 2);
    }
}

/// Two one-time tokens made with different counter values differ,
/// whatever the clock showed and whatever was drawn at random.
pub proof fn lemma_tokens_differ_by_counter(
    first_time: i64,
    first_counter: usize,
    first_part: Seq<char>,
    second_time: i64,
    second_counter: usize,
    second_part: Seq<char>,
)
    requires
        is_random_part(first_part),
        is_random_part(second_part),
        first_counter != second_counter,
    ensures
        one_time_token_text(first_time, first_counter, first_part) != one_time_token_text(
            second_time,
            second_counter,
            second_part,
        ),
{
    let t1 = one_time_token_text(first_time, first_counter, first_part);
    let t2 = one_time_token_text(second_time, second_counter, second_part);
    let d1 = decimal(first_counter as nat);
    let d2 = decimal(second_counter as nat);
    let s1 = signed_decimal(first_time as int);
    let s2 = signed_decimal(second_time as int);
    lemma_decimal_is_digits(first_counter as nat);
    lemma_decimal_is_digits(second_counter as nat);
    if t1 == t2 {
        let n = t1.len() as int;
        let k1 = d1.len() as int;
        let k2 = d2.len() as int;
        assert(n == s1.len() + 1 + k1 + 1 + ONE_TIME_RANDOM_LEN);
        assert(n == s2.len() + 1 + k2 + 1 + ONE_TIME_RANDOM_LEN);
        assert(t1[s1.len() as int] == '-');
        assert(t2[s2.len() as int] == '-');
        assert forall|j: int| 0 <= j < k1 implies t1[s1.len() + 1 + j] == d1[j] by {}
        assert forall|j: int| 0 <= j < k2 implies t2[s2.len() + 1 + j] == d2[j] by {}
        if k1 < k2 {
            let j = s1.len() - (s2.len() + 1);
            assert(t2[s2.len() + 1 + j] == d2[j]);
        } else if k2 < k1 {
            let j = s2.len() - (s1.len() + 1);
            assert(t1[s1.len() + 1 + j] == d1[j]);
        } else {
            assert forall|j: int| 0 <= j < k1 implies d1[j] == d2[j] by {
                assert(t1[s1.len() + 1 + j] == d1[j]);
                assert(t2[s2.len() + 1 + j] == d2[j]);
            }
            assert(d1 =~= d2);
            lemma_decimal_is_injective(first_counter as nat, second_counter as nat);
        }
    }
}

/// Builds a one-time token from its three parts.
pub fn one_time_token_from(timestamp: i64, counter: usize, random_part: &str) -> (r: String)
    ensures
        r@ == one_time_token_text(timestamp, counter, random_part@),
{
    let mut out = String::new();
    push_signed_decimal(&mut out, timestamp);
    out.push('-');
    push_decimal(&mut out, counter as u64);
    out.push('-');
    out.append(random_part);
    assert(out@ =~= one_time_token_text(timestamp, counter, random_part@));
    out
}

/// A fresh one-time token: the clock's nanoseconds (0 where they do not
/// fit), the caller's counter value, and 24 random letters and digits. The
/// counter is advanced, wrapping at its limit, so that two tokens of one
/// owner differ even where the clock and the random part coincide.
pub fn generate_one_time_token(counter: &mut usize) -> (r: String)
    ensures
        *final(counter) == (if *old(counter) == usize::MAX {
            0usize
        } else {
            (*old(counter) + 1) as usize
        }),
        exists|timestamp: i64, random_part: Seq<char>|
            is_random_part(random_part) && r@ == #[trigger] one_time_token_text(
                timestamp,
                *old(counter),
                random_part,
            ),
{
    let current: usize = *counter;
    *counter = if current == usize::MAX {
        0
    } else {
        current + 1
    };
    let timestamp: i64 = match unix_now_nanos() {
        Some(t) => t,
        None => 0,
    };
    let random_part = random_alphanumeric(ONE_TIME_RANDOM_LEN);
    one_time_token_from(timestamp, current, random_part.as_str())
}

} // verus!
