//! Text helpers with exact specifications: decimal rendering of integers and
//! string concatenation.

use vstd::prelude::*;
use vstd::string::*;

verus! {

/// The ASCII digit for a value below ten.
pub open spec fn digit_char(d: nat) -> char {
    if d == 0 { '0' }
    else if d == 1 { '1' }
    else if d == 2 { '2' }
    else if d == 3 { '3' }
    else if d == 4 { '4' }
    else if d == 5 { '5' }
    else if d == 6 { '6' }
    else if d == 7 { '7' }
    else if d == 8 { '8' }
    else { '9' }
}

/// Base-ten rendering of a natural number: most significant digit first,
/// no leading zeros, `"0"` for zero.  This is what `Display` prints for
/// unsigned integers.
pub open spec fn decimal_text(n: nat) -> Seq<char>
    decreases n,
{
    if n < 10 {
        seq![digit_char(n)]
    } else {
        decimal_text(n / 10).push(digit_char(n % 10))
    }
}

/// Renders an unsigned 64-bit integer in base ten, as `u64::to_string` does.
pub(crate) fn u64_decimal(n: u64) -> (s: String)
    ensures
        s@ == decimal_text(n as nat),
    decreases n,
{
    if n < 10 {
        return String::from_str(digit_str(n));
    }
    let mut s = u64_decimal(n / 10);
    s.append(digit_str(n % 10));
    proof {
        assert(s@ =~= decimal_text(n as nat));
    }
    s
}

/// Renders a `usize` in base ten, as `usize::to_string` does.
pub(crate) fn usize_decimal(n: usize) -> (s: String)
    ensures
        s@ == decimal_text(n as nat),
{
    u64_decimal(n as u64)
}

/// Concatenation of two string slices into a fresh `String`.
pub fn concat2(a: &str, b: &str) -> (s: String)
    ensures
        s@ == a@ + b@,
{
    let mut s = String::from_str(a);
    s.append(b);
    s
}

/// Concatenation of three string slices into a fresh `String`.
pub fn concat3(a: &str, b: &str, c: &str) -> (s: String)
    ensures
        s@ == a@ + b@ + c@,
{
    let mut s = String::from_str(a);
    s.append(b);
    s.append(c);
    s
}

/// `true` exactly when `p` is a prefix of `s`.
pub open spec fn is_prefix_text(p: Seq<char>, s: Seq<char>) -> bool {
    p.len() <= s.len() && s.subrange(0, p.len() as int) == p
}

/// The one-character string for a digit below ten.
pub fn digit_str(d: u64) -> (s: &'static str)
    requires
        d < 10,
    ensures
        s@ == seq![digit_char(d as nat)],
{
    proof {
        reveal_strlit("0");
        reveal_strlit("1");
        reveal_strlit("2");
        reveal_strlit("3");
        reveal_strlit("4");
        reveal_strlit("5");
        reveal_strlit("6");
        reveal_strlit("7");
        reveal_strlit("8");
        reveal_strlit("9");
    }
    if d == 0 { "0" }
    else if d == 1 { "1" }
    else if d == 2 { "2" }
    else if d == 3 { "3" }
    else if d == 4 { "4" }
    else if d == 5 { "5" }
    else if d == 6 { "6" }
    else if d == 7 { "7" }
    else if d == 8 { "8" }
    else { "9" }
}

/// The six fractional digits of `f / 10^6` for `f < 10^6`.
pub open spec fn frac6_text(f: nat) -> Seq<char> {
    seq![
        digit_char((f / 100000) % 10),
        digit_char((f / 10000) % 10),
        digit_char((f / 1000) % 10),
        digit_char((f / 100) % 10),
        digit_char((f / 10) % 10),
        digit_char(f % 10),
    ]
}

/// A micro-unit amount written with six decimals: `mc = 1_500_000` gives
/// `"1.500000"` (the `{:.6}` rendering of `mc / 10^6`).
pub open spec fn micros_text(mc: nat) -> Seq<char> {
    decimal_text(mc / 1000000) + "."@ + frac6_text(mc % 1000000)
}

/// Renders `mc / 10^6` with exactly six decimals.
pub fn micros_decimal(mc: u64) -> (s: String)
    ensures
        s@ == micros_text(mc as nat),
{
    let whole = mc / 1000000;
    let frac = mc % 1000000;
    let mut s = u64_decimal(whole);
    s.append(".");
    s.append(digit_str((frac / 100000) % 10));
    s.append(digit_str((frac / 10000) % 10));
    s.append(digit_str((frac / 1000) % 10));
    s.append(digit_str((frac / 100) % 10));
    s.append(digit_str((frac / 10) % 10));
    s.append(digit_str(frac % 10));
    proof {
        reveal_strlit(".");
        assert(s@ =~= micros_text(mc as nat));
    }
    s
}

/// Whole seconds nearest to `ms` milliseconds, ties to even (the `{:.0}`
/// rendering of the duration in seconds).
pub open spec fn rounded_secs(ms: nat) -> nat {
    let q = ms / 1000;
    let r = ms % 1000;
    if r > 500 { q + 1 } else if r < 500 { q } else if q % 2 == 1 { q + 1 } else { q }
}

/// Computes [`rounded_secs`].
pub fn rounded_secs_exec(ms: u64) -> (s: u64)
    ensures
        s as nat == rounded_secs(ms as nat),
{
    let q = ms / 1000;
    let r = ms % 1000;
    if r > 500 { q + 1 } else if r < 500 { q } else if q % 2 == 1 { q + 1 } else { q }
}

/// String-slice equality: equal exactly when the two slices hold the same
/// characters, as `<str as PartialEq>::eq` decides.
pub(crate) fn str_eq(a: &str, b: &str) -> (r: bool)
    ensures
        r == (a@ == b@),
{
    let n = a.unicode_len();
    if n != b.unicode_len() {
        return false;
    }
    let mut i: usize = 0;
    while i < n
        invariant
            n == a@.len(),
            n == b@.len(),
            i <= n,
            forall|j: int| 0 <= j < i ==> a@[j] == b@[j],
        decreases n - i,
    {
        if a.get_char(i) != b.get_char(i) {
            return false;
        }
        i = i + 1;
    }
    proof {
        assert(a@ =~= b@);
    }
    true
}

/// The lowercase hexadecimal digit for a value below sixteen.
pub open spec fn hex_digit_char(d: nat) -> char {
    if d < 10 { digit_char(d) }
    else if d == 10 { 'a' }
    else if d == 11 { 'b' }
    else if d == 12 { 'c' }
    else if d == 13 { 'd' }
    else if d == 14 { 'e' }
    else { 'f' }
}

/// The last `n` hexadecimal digits of `h`, most significant first, padded
/// with zeros (`{:0nx}` when `h < 16^n`).
pub open spec fn hex_text(h: nat, n: nat) -> Seq<char>
    decreases n,
{
    if n == 0 {
        Seq::empty()
    } else {
        hex_text(h / 16, (n - 1) as nat).push(hex_digit_char(h % 16))
    }
}

/// `hex_text(h, n)` has exactly `n` digits.
pub proof fn lemma_hex_text_len(h: nat, n: nat)
    ensures
        hex_text(h, n).len() == n,
    decreases n,
{
    if n > 0 {
        lemma_hex_text_len(h / 16, (n - 1) as nat);
    }
}

/// The one-character string for a hexadecimal digit.
pub fn hex_digit_str(d: u64) -> (s: &'static str)
    requires
        d < 16,
    ensures
        s@ == seq![hex_digit_char(d as nat)],
{
    if d < 10 {
        return digit_str(d);
    }
    proof {
        reveal_strlit("a");
        reveal_strlit("b");
        reveal_strlit("c");
        reveal_strlit("d");
        reveal_strlit("e");
        reveal_strlit("f");
    }
    if d == 10 { "a" }
    else if d == 11 { "b" }
    else if d == 12 { "c" }
    else if d == 13 { "d" }
    else if d == 14 { "e" }
    else { "f" }
}

/// The last `n` hexadecimal digits of `h`.
pub fn hex_string(h: u64, n: u64) -> (s: String)
    ensures
        s@ == hex_text(h as nat, n as nat),
    decreases n,
{
    if n == 0 {
        return String::new();
    }
    let mut s = hex_string(h / 16, n - 1);
    s.append(hex_digit_str(h % 16));
    proof {
        assert(s@ =~= hex_text(h as nat, n as nat));
    }
    s
}

/// `i` is the position of the first `/` in `s`.
pub open spec fn first_slash(s: Seq<char>, i: int) -> bool {
    0 <= i < s.len() && s[i] == '/' && forall|j: int| 0 <= j < i ==> s[j] != '/'
}

/// The provider prefix of a model name: the text before the first `/`, or
/// the empty string when there is none (`"openai/gpt-4"` gives `"openai"`).
pub fn provider_prefix(model: &str) -> (p: String)
    ensures
        forall|i: int| first_slash(model@, i) ==> p@ == model@.subrange(0, i),
        (forall|i: int| 0 <= i < model@.len() ==> model@[i] != '/') ==> p@.len() == 0,
{
    let n = model.unicode_len();
    let mut i: usize = 0;
    while i < n
        invariant
            n == model@.len(),
            i <= n,
            forall|j: int| 0 <= j < i ==> model@[j] != '/',
        decreases n - i,
    {
        if model.get_char(i) == '/' {
            let p = model.substring_char(0, i);
            let p = String::from_str(p);
            proof {
                assert forall|k: int| first_slash(model@, k) implies p@ == model@.subrange(0, k) by {
                    if k < i {
                        assert(model@[k] != '/');
                    } else if k > i {
                        assert(model@[i as int] != '/');
                    }
                }
            }
            return p;
        }
        i = i + 1;
    }
    String::new()
}

} // verus!
