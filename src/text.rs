//! Text helpers: decimal numbers, two-digit clock fields, case folding and
//! substring search.

use vstd::prelude::*;

verus! {

/// The character of a decimal digit.
pub open spec fn digit_char(d: int) -> char {
    seq!['0', '1', '2', '3', '4', '5', '6', '7', '8', '9'][d]
}

/// Decimal notation of `n`, without leading zeros.
pub open spec fn decimal(n: nat) -> Seq<char>
    decreases n,
{
    if n < 10 {
        seq![digit_char(n as int)]
    } else {
        decimal(n / 10) + seq![digit_char((n % 10) as int)]
    }
}

/// Two decimal digits of `n` (below 100), zero-padded.
pub open spec fn two_digits(n: int) -> Seq<char> {
    seq![digit_char(n / 10), digit_char(n % 10)]
}

/// Whether `pat` occurs in `s` as a contiguous run.
pub open spec fn has_substring(s: Seq<char>, pat: Seq<char>) -> bool {
    exists|i: int| 0 <= i <= s.len() - pat.len() && #[trigger] s.subrange(i, i + pat.len()) == pat
}

/// Time of day `HH:MM:SS` (UTC) of an instant given in milliseconds since the
/// Unix epoch.
pub open spec fn clock_text(ms: int) -> Seq<char> {
    let day_secs = (ms / 1000) % 86400;
    two_digits(day_secs / 3600) + seq![':'] + two_digits((day_secs % 3600) / 60) + seq![':']
        + two_digits(day_secs % 60)
}

/// What `str::to_lowercase` makes of a text.
pub uninterp spec fn lower_of(s: Seq<char>) -> Seq<char>;

/// A one-character text holding the digit `d`.
fn digit_str(d: u64) -> (r: &'static str)
    requires
        d < 10,
    ensures
        r@ == seq![digit_char(d as int)],
{
    proof {
        reveal_strlit("0");
        reveal_strlit("1");
        reveal_strlit("2");
        reveal_strlit("3");
        reveal_strlit("4");
        reveal_strlit("5");
        reveal_strlit("6");
        reveal_strlit("7");
        reveal_strlit("8");
        reveal_strlit("9");
    }
    let r = match d {
        0 => "0",
        1 => "1",
        2 => "2",
        3 => "3",
        4 => "4",
        5 => "5",
        6 => "6",
        7 => "7",
        8 => "8",
        _ => "9",
    };
    assert(r@ =~= seq![digit_char(d as int)]);
    r
}

/// Decimal notation of `n`.
pub fn decimal_string(n: u64) -> (r: String)
    ensures
        r@ == decimal(n as nat),
    decreases n,
{
    if n < 10 {
        String::from_str(digit_str(n))
    } else {
        let mut s = decimal_string(n / 10);
        s.append(digit_str(n % 10));
        s
    }
}

/// Two zero-padded decimal digits of `n`.
pub fn two_digit_string(n: u64) -> (r: String)
    requires
        n < 100,
    ensures
        r@ == two_digits(n as int),
{
    let mut s = String::from_str(digit_str(n / 10));
    s.append(digit_str(n % 10));
    assert(s@ =~= two_digits(n as int));
    s
}

/// Floor quotient and non-negative remainder of `a` by a positive `b`.
fn floor_div_mod(a: i128, b: i128) -> (r: (i128, i128))
    requires
        0 < b < 1_000_000_000,
        -0x1_0000_0000_0000_0000 < a < 0x1_0000_0000_0000_0000,
    ensures
        r.0 == a / b,
        r.1 == a % b,
{
    if a >= 0 {
        let q = a / b;
        let m = a % b;
        proof {
            vstd::arithmetic::div_mod::lemma_fundamental_div_mod(a as int, b as int);
        }
        (q, m)
    } else {
        let n = -a;
        let q0 = n / b;
        let r0 = n % b;
        proof {
            vstd::arithmetic::div_mod::lemma_fundamental_div_mod(n as int, b as int);
        }
        let (q, m): (i128, i128) = if r0 == 0 {
            (-q0, 0)
        } else {
            (-q0 - 1, b - r0)
        };
        proof {
            assert(a == q * b + m && 0 <= m < b) by (nonlinear_arith)
                requires
                    n == -a,
                    n == b * q0 + r0,
                    0 <= r0 < b,
                    r0 == 0 ==> (q == -q0 && m == 0),
                    r0 != 0 ==> (q == -q0 - 1 && m == b - r0),
            ;
            vstd::arithmetic::div_mod::lemma_fundamental_div_mod_converse(
                a as int,
                b as int,
                q as int,
                m as int,
            );
        }
        (q, m)
    }
}

/// `HH:MM:SS` (UTC) of an instant given in milliseconds since the Unix epoch.
pub fn clock_time_string(ms: i64) -> (r: String)
    ensures
        r@ == clock_text(ms as int),
{
    let (secs, _) = floor_div_mod(ms as i128, 1000);
    let (_, day) = floor_div_mod(secs, 86400);
    let mut s = two_digit_string((day / 3600) as u64);
    s.append(":");
    let mm = two_digit_string(((day % 3600) / 60) as u64);
    s.append(mm.as_str());
    s.append(":");
    let ss = two_digit_string((day % 60) as u64);
    s.append(ss.as_str());
    proof {
        reveal_strlit(":");
    }
    assert(s@ =~= clock_text(ms as int));
    s
}

/// Relies on `str::to_lowercase`: the lower-case form of a text, which depends
/// on its characters alone.
#[verifier::external_body]
pub(crate) fn lowercase(s: &str) -> (r: String)
    ensures
        r@ == lower_of(s@),
{
    s.to_lowercase()
}

/// Whether `p` occurs in `t` at position `at`.
pub(crate) fn occurs_at(t: &str, n: usize, at: usize, p: &str, m: usize) -> (r: bool)
    requires
        n == t@.len(),
        m == p@.len(),
        at <= n,
    ensures
        r == (at + m <= n && t@.subrange(at as int, at + m) == p@),
{
    if m > n - at {
        return false;
    }
    let mut k: usize = 0;
    while k < m
        invariant
            n == t@.len(),
            m == p@.len(),
            at + m <= n,
            k <= m,
            forall|j: int| 0 <= j < k ==> t@[at + j] == p@[j],
        decreases m - k,
    {
        if t.get_char(at + k) != p.get_char(k) {
            assert(t@.subrange(at as int, at + m)[k as int] != p@[k as int]);
            return false;
        }
        k = k + 1;
    }
    assert(t@.subrange(at as int, at + m) =~= p@);
    true
}

/// Whether `pat` occurs in `s`.
pub fn contains_text(s: &str, pat: &str) -> (r: bool)
    ensures
        r == has_substring(s@, pat@),
{
    let n = s.unicode_len();
    let m = pat.unicode_len();
    if m > n {
        assert forall|i: int| !(0 <= i <= s@.len() - pat@.len() && #[trigger] s@.subrange(i, i + pat@.len()) == pat@) by {}
        return false;
    }
    if m == 0 {
        assert(s@.subrange(0int, 0int + pat@.len()) =~= pat@);
        return true;
    }
    let mut at: usize = 0;
    while at <= n - m
        invariant
            n == s@.len(),
            m == pat@.len(),
            1 <= m <= n,
            at <= n - m + 1,
            forall|i: int| 0 <= i < at ==> #[trigger] s@.subrange(i, i + m) != pat@,
        decreases n - m + 1 - at,
    {
        if occurs_at(s, n, at, pat, m) {
            assert(s@.subrange(at as int, at + m) == pat@);
            return true;
        }
        at = at + 1;
    }
    assert forall|i: int| !(0 <= i <= s@.len() - pat@.len() && #[trigger] s@.subrange(i, i + pat@.len()) == pat@) by {}
    false
}

} // verus!
