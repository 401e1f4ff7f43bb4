//! Token and code generation, and the textual form of numeric codes.

use rand::RngCore;
use vstd::prelude::*;
use vstd::string::*;
use vstd::utf8::*;

verus! {

/// The number of decimal digits of a confirmation code.
pub const CODE_DIGITS: u32 = 4;

/// `n` copies of `c`.
pub open spec fn repeat_char(c: char, n: nat) -> Seq<char> {
    Seq::new(n, |_i: int| c)
}

/// `10` to the power `d`.
pub open spec fn pow10(d: nat) -> nat
    decreases d,
{
    if d == 0 {
        1
    } else {
        10 * pow10((d - 1) as nat)
    }
}

/// The character of a decimal digit.
pub open spec fn digit_char(d: nat) -> char {
    seq!['0', '1', '2', '3', '4', '5', '6', '7', '8', '9'][d as int]
}

/// The decimal digits of `n`, most significant first, without leading zeros.
pub open spec fn decimal(n: nat) -> Seq<char>
    decreases n,
{
    if n < 10 {
        seq![digit_char(n)]
    } else {
        decimal(n / 10).push(digit_char(n % 10))
    }
}

/// The textual form of a confirmation code: its decimal digits, zero-padded
/// on the left to four characters.
pub open spec fn code_text(code: nat) -> Seq<char> {
    repeat_char('0', (4 - decimal(code).len()) as nat) + decimal(code)
}

/// Relies on `String::push`: appends one character.
#[verifier::external_body]
fn push_char(s: &mut String, c: char)
    ensures
        final(s)@ == old(s)@.push(c),
{
    s.push(c)
}

/// Relies on rand's `OsRng::fill_bytes`: overwrites the buffer with bytes of
/// the operating system's secure random source (the process panics if that
/// source fails).
#[verifier::external_body]
fn fill_random(buf: &mut Vec<u8>)
    ensures
        final(buf)@.len() == old(buf)@.len(),
{
    rand::rngs::OsRng.fill_bytes(buf.as_mut_slice())
}

/// Relies on rand's `OsRng::next_u32`: a number of the operating system's
/// secure random source.
#[verifier::external_body]
fn random_u32() -> u32 {
    rand::rngs::OsRng.next_u32()
}

/// `string` preceded by as many `pad` characters as bring its length in bytes
/// to `target_length`.
pub fn left_pad(string: &str, pad: char, target_length: usize) -> (r: String)
    requires
        string.spec_bytes().len() <= target_length,
    ensures
        r@ == repeat_char(pad, (target_length - string.spec_bytes().len()) as nat) + string@,
{
    let n = target_length - string.len();
    let mut res = String::new();
    let mut i: usize = 0;
    while i < n
        invariant
            i <= n,
            res@ =~= repeat_char(pad, i as nat),
        decreases n - i,
    {
        push_char(&mut res, pad);
        i = i + 1;
    }
    res.append(string);
    res
}

/// `bytes` bytes of the secure random source.
pub fn random_token(bytes: usize) -> (r: Vec<u8>)
    ensures
        r@.len() == bytes,
{
    let mut token: Vec<u8> = Vec::new();
    let mut i: usize = 0;
    while i < bytes
        invariant
            i <= bytes,
            token@.len() == i,
        decreases bytes - i,
    {
        token.push(0u8);
        i = i + 1;
    }
    fill_random(&mut token);
    token
}

/// `10` to the power `d`.
pub fn pow10_u32(d: u32) -> (r: u32)
    requires
        d <= 9,
    ensures
        r == pow10(d as nat),
        r >= 1,
{
    let mut r: u32 = 1;
    let mut i: u32 = 0;
    while i < d
        invariant
            i <= d <= 9,
            r == pow10(i as nat),
            1 <= r <= 1_000_000_000,
        decreases d - i,
    {
        proof {
            lemma_pow10_bound(i as nat);
        }
        r = r * 10;
        i = i + 1;
    }
    r
}

/// Powers of ten up to the ninth fit in 32 bits.
proof fn lemma_pow10_bound(d: nat)
    requires
        d <= 8,
    ensures
        1 <= pow10(d) <= 100_000_000,
    decreases d,
{
    reveal_with_fuel(pow10, 10);
}

/// The last `digits` decimal digits of `draw`, as a number.
pub open spec fn code_of(draw: u32, digits: u32) -> nat {
    (draw as nat) % pow10(digits as nat)
}

/// The code of at most `digits` decimal digits that the number `draw` gives:
/// its last `digits` decimal digits.
pub fn code_from_draw(draw: u32, digits: u32) -> (r: u32)
    requires
        digits <= 9,
    ensures
        r == code_of(draw, digits),
        r < pow10(digits as nat),
{
    let m = pow10_u32(digits);
    draw % m
}

/// A random number of at most `digits` decimal digits, from the secure random
/// source: the code that a drawn number gives.
pub fn random_code(digits: u32) -> (r: u32)
    requires
        digits <= 9,
    ensures
        r < pow10(digits as nat),
        exists|draw: u32| r == #[trigger] code_of(draw, digits),
{
    let draw = random_u32();
    code_from_draw(draw, digits)
}

/// The decimal digits of `n`.
pub fn decimal_string(n: u32) -> (r: String)
    ensures
        r@ == decimal(n as nat),
    decreases n,
{
    let mut s = if n < 10 {
        String::new()
    } else {
        decimal_string(n / 10)
    };
    let d = n % 10;
    let c = if d == 0 {
        '0'
    } else if d == 1 {
        '1'
    } else if d == 2 {
        '2'
    } else if d == 3 {
        '3'
    } else if d == 4 {
        '4'
    } else if d == 5 {
        '5'
    } else if d == 6 {
        '6'
    } else if d == 7 {
        '7'
    } else if d == 8 {
        '8'
    } else {
        '9'
    };
    assert(c == digit_char(d as nat));
    push_char(&mut s, c);
    proof {
        if n < 10 {
            assert(s@ =~= seq![digit_char(n as nat)]);
        }
    }
    s
}

/// The decimal digits of a number are ASCII, and at most four below 10000.
proof fn lemma_decimal(n: nat)
    ensures
        is_ascii_chars(decimal(n)),
        n < 10 ==> decimal(n).len() == 1,
        n < 100 ==> decimal(n).len() <= 2,
        n < 1000 ==> decimal(n).len() <= 3,
        n < 10000 ==> decimal(n).len() <= 4,
    decreases n,
{
    if n >= 10 {
        lemma_decimal(n / 10);
        let s = decimal(n / 10);
        assert forall|i| 0 <= i < decimal(n).len() implies '\0' <= #[trigger] decimal(n)[i] <= '\u{7f}' by {
            if i < s.len() {
                assert(decimal(n)[i] == s[i]);
            }
        }
    }
}

/// The textual form of a confirmation code.
pub fn format_code(code: u16) -> (r: String)
    requires
        code <= 9999,
    ensures
        r@ == code_text(code as nat),
{
    let digits = decimal_string(code as u32);
    proof {
        lemma_decimal(code as nat);
        is_ascii_chars_encode_utf8(digits@);
    }
    left_pad(digits.as_str(), '0', 4)
}

/// Relies on chrono's `Utc::now` and `DateTime::timestamp`: the current time,
/// in seconds since the Unix epoch.
#[verifier::external_body]
pub(crate) fn now_timestamp() -> i64 {
    chrono::Utc::now().timestamp()
}

}
