//! Cookie value generation.
//!
//! A cookie value is a string of a fixed length over the alphanumeric
//! alphabet `[A-Za-z0-9]`. The secure default generator samples the
//! characters from a cryptographically secure source; the debug generator
//! emits an ascending, zero-padded counter and must not be used in
//! production.

use rand::distributions::DistString;
use vstd::arithmetic::div_mod::lemma_div_denominator;
use vstd::prelude::*;
use vstd::string::StringExecFns;

verus! {

/// Whether `c` lies in the cookie alphabet `[A-Za-z0-9]`.
pub open spec fn is_cookie_char(c: char) -> bool {
    ('A' <= c && c <= 'Z') || ('a' <= c && c <= 'z') || ('0' <= c && c <= '9')
}

/// Whether every character of `s` lies in the cookie alphabet.
pub open spec fn all_cookie_chars(s: Seq<char>) -> bool {
    forall|i: int| 0 <= i < s.len() ==> is_cookie_char(#[trigger] s[i])
}

/// Every string over the cookie alphabet is ASCII, so its UTF-8 encoding has
/// one byte per character.
pub proof fn lemma_cookie_chars_byte_len(s: Seq<char>)
    requires
        all_cookie_chars(s),
    ensures
        vstd::utf8::encode_utf8(s).len() == s.len(),
{
    assert(vstd::utf8::is_ascii_chars(s)) by {
        assert forall|i: int| 0 <= i < s.len() implies '\0' <= #[trigger] s[i] <= '\u{7f}' by {
            assert(is_cookie_char(s[i]));
        }
    }
    vstd::utf8::is_ascii_chars_encode_utf8(s);
}

/// A type with the ability to generate cookie values.
///
/// All generated values have the length `spec_cookie_length()` and consist of
/// alphanumeric characters only.
pub trait SessionCookieGenerator: Sized {
    /// The length of the session cookie, in characters.
    spec fn spec_cookie_length() -> usize;

    /// The length of the session cookie, in characters.
    fn cookie_length() -> (r: usize)
        ensures
            r == Self::spec_cookie_length(),
    ;

    /// Generate a cookie value: a string of exactly the configured length
    /// over the alphabet `[A-Za-z0-9]`.
    fn generate_cookie(&mut self) -> (r: String)
        ensures
            r@.len() == Self::spec_cookie_length(),
            all_cookie_chars(r@),
    ;
}

/// Relies on rand's `DistString::sample_string` for the `Alphanumeric`
/// distribution, with the thread-local CSPRNG: the result holds exactly `len`
/// characters, each drawn from `[A-Za-z0-9]`. Nothing is assumed about which
/// characters come back.
#[verifier::external_body]
fn random_alphanumeric_string(len: usize) -> (r: String)
    ensures
        r@.len() == len,
        all_cookie_chars(r@),
{
    rand::distributions::Alphanumeric.sample_string(&mut rand::thread_rng(), len)
}

/// The default cookie generator with focus on security. It samples every
/// character uniformly from the alphanumeric alphabet using a
/// cryptographically secure random source, which gives about 5.95 bits of
/// entropy per character and about 190 bits per cookie.
#[derive(Debug, Clone, Copy)]
pub struct DefaultSessionCookieGenerator;

impl Default for DefaultSessionCookieGenerator {
    fn default() -> (r: DefaultSessionCookieGenerator)
        ensures
            r == DefaultSessionCookieGenerator,
    {
        DefaultSessionCookieGenerator
    }
}

impl SessionCookieGenerator for DefaultSessionCookieGenerator {
    open spec fn spec_cookie_length() -> usize {
        32
    }

    fn cookie_length() -> (r: usize)
        ensures
            r == Self::spec_cookie_length(),
    {
        32
    }

    fn generate_cookie(&mut self) -> (r: String)
        ensures
            r@.len() == Self::spec_cookie_length(),
            all_cookie_chars(r@),
    {
        random_alphanumeric_string(32)
    }
}

/// `10^k`.
pub open spec fn pow10(k: nat) -> int
    decreases k,
{
    if k == 0 {
        1
    } else {
        10 * pow10((k - 1) as nat)
    }
}

proof fn lemma_pow10_pos(k: nat)
    ensures
        pow10(k) >= 1,
    decreases k,
{
    if k > 0 {
        lemma_pow10_pos((k - 1) as nat);
    }
}

/// The decimal digit of `n` with place value `10^k`.
pub open spec fn decimal_digit_at(n: nat, k: nat) -> int {
    (n as int / pow10(k)) % 10
}

/// The character for the decimal digit `d`.
pub open spec fn digit_char(d: int) -> char {
    if d == 0 {
        '0'
    } else if d == 1 {
        '1'
    } else if d == 2 {
        '2'
    } else if d == 3 {
        '3'
    } else if d == 4 {
        '4'
    } else if d == 5 {
        '5'
    } else if d == 6 {
        '6'
    } else if d == 7 {
        '7'
    } else if d == 8 {
        '8'
    } else {
        '9'
    }
}

/// The decimal rendering of `n`, zero-padded to 32 characters. The digit at
/// position `i` has place value `10^(31-i)`.
pub open spec fn zero_padded_decimal(n: nat) -> Seq<char> {
    Seq::new(32, |i: int| digit_char(decimal_digit_at(n, (31 - i) as nat)))
}

/// The character for the decimal digit `d`, as a one-character string slice.
fn digit_str(d: usize) -> (r: &'static str)
    requires
        d < 10,
    ensures
        r@ == seq![digit_char(d as int)],
{
    proof {
        reveal_strlit("0");
        reveal_strlit("1");
        reveal_strlit("2");
        reveal_strlit("3");
        reveal_strlit("4");
        reveal_strlit("5");
        reveal_strlit("6");
        reveal_strlit("7");
        reveal_strlit("8");
        reveal_strlit("9");
        assert("0"@ =~= seq![digit_char(0)]);
        assert("1"@ =~= seq![digit_char(1)]);
        assert("2"@ =~= seq![digit_char(2)]);
        assert("3"@ =~= seq![digit_char(3)]);
        assert("4"@ =~= seq![digit_char(4)]);
        assert("5"@ =~= seq![digit_char(5)]);
        assert("6"@ =~= seq![digit_char(6)]);
        assert("7"@ =~= seq![digit_char(7)]);
        assert("8"@ =~= seq![digit_char(8)]);
        assert("9"@ =~= seq![digit_char(9)]);
    }
    match d {
        0 => "0",
        1 => "1",
        2 => "2",
        3 => "3",
        4 => "4",
        5 => "5",
        6 => "6",
        7 => "7",
        8 => "8",
        _ => "9",
    }
}

/// The decimal rendering of `value`, zero-padded to 32 characters.
fn format_zero_padded(value: usize) -> (r: String)
    ensures
        r@ == zero_padded_decimal(value as nat),
{
    let mut digits: Vec<usize> = Vec::new();
    let mut m: usize = value;
    while digits.len() < 32
        invariant
            digits@.len() <= 32,
            m as int == value as int / pow10(digits@.len() as nat),
            forall|k: int|
                0 <= k < digits@.len() ==> #[trigger] digits@[k] == decimal_digit_at(
                    value as nat,
                    k as nat,
                ),
        decreases 32 - digits.len(),
    {
        let ghost len = digits@.len() as nat;
        proof {
            lemma_pow10_pos(len);
        }
        digits.push(m % 10);
        proof {
            lemma_pow10_pos(len);
            lemma_div_denominator(value as int, pow10(len), 10);
            assert(pow10(len) * 10 == 10 * pow10(len));
            assert(pow10(len + 1) == 10 * pow10(len));
        }
        m = m / 10;
    }
    let mut s = String::new();
    let mut j: usize = 0;
    while j < 32
        invariant
            j <= 32,
            digits@.len() == 32,
            forall|k: int|
                0 <= k < 32 ==> #[trigger] digits@[k] == decimal_digit_at(value as nat, k as nat),
            s@ == Seq::new(j as nat, |i: int| digit_char(decimal_digit_at(value as nat, (31 - i) as nat))),
        decreases 32 - j,
    {
        let d = digits[31 - j];
        proof {
            lemma_pow10_pos((31 - j) as nat);
        }
        s.append(digit_str(d));
        proof {
            assert(s@ =~= Seq::new(
                (j + 1) as nat,
                |i: int| digit_char(decimal_digit_at(value as nat, (31 - i) as nat)),
            ));
        }
        j += 1;
    }
    proof {
        assert(s@ =~= zero_padded_decimal(value as nat));
    }
    s
}

/// A debug cookie generator that renders an ascending counter, zero-padded
/// to the cookie length. Its output is predictable; it is meant for tests and
/// debugging only, never for production use.
#[derive(Debug)]
pub struct DebugSessionCookieGenerator {
    next_index: usize,
}

impl DebugSessionCookieGenerator {
    /// The counter value the next generated cookie will render.
    pub closed spec fn spec_next_index(&self) -> usize {
        self.next_index
    }
}

impl Default for DebugSessionCookieGenerator {
    fn default() -> (r: DebugSessionCookieGenerator)
        ensures
            r.spec_next_index() == 0,
    {
        DebugSessionCookieGenerator { next_index: 0 }
    }
}

impl SessionCookieGenerator for DebugSessionCookieGenerator {
    open spec fn spec_cookie_length() -> usize {
        32
    }

    fn cookie_length() -> (r: usize)
        ensures
            r == Self::spec_cookie_length(),
    {
        32
    }

    fn generate_cookie(&mut self) -> (r: String)
        ensures
            r@.len() == Self::spec_cookie_length(),
            all_cookie_chars(r@),
            r@ == zero_padded_decimal(old(self).spec_next_index() as nat),
            final(self).spec_next_index() == if old(self).spec_next_index() == usize::MAX {
                0usize
            } else {
                (old(self).spec_next_index() + 1) as usize
            },
    {
        let cookie = format_zero_padded(self.next_index);
        self.next_index = if self.next_index == usize::MAX {
            0
        } else {
            self.next_index + 1
        };
        proof {
            assert forall|i: int| 0 <= i < cookie@.len() implies is_cookie_char(
                #[trigger] cookie@[i],
            ) by {
                lemma_pow10_pos((31 - i) as nat);
                assert(0 <= decimal_digit_at(old(self).spec_next_index() as nat, (31 - i) as nat)
                    < 10);
            }
        }
        cookie
    }
}

} // verus!
