//! Text helpers shared by the human-readable renderings of the library's
//! values: decimal and hexadecimal numerals, and Unicode-aware
//! case-insensitive matching.
use vstd::prelude::*;

verus! {

/// The character of a hexadecimal digit (upper case for 10..=15).
pub open spec fn digit_char(d: nat) -> char {
    if d == 0 { '0' }
    else if d == 1 { '1' }
    else if d == 2 { '2' }
    else if d == 3 { '3' }
    else if d == 4 { '4' }
    else if d == 5 { '5' }
    else if d == 6 { '6' }
    else if d == 7 { '7' }
    else if d == 8 { '8' }
    else if d == 9 { '9' }
    else if d == 10 { 'A' }
    else if d == 11 { 'B' }
    else if d == 12 { 'C' }
    else if d == 13 { 'D' }
    else if d == 14 { 'E' }
    else { 'F' }
}

/// The shortest numeral of `n` in base `base` (no sign, no leading zeros,
/// "0" for zero), as `{}` and `{:X}` render unsigned integers.
pub open spec fn numeral(n: nat, base: nat) -> Seq<char>
    recommends
        2 <= base <= 16,
    decreases n,
{
    if base < 2 || n < base {
        seq![digit_char(n % 16)]
    } else {
        proof {
            vstd::arithmetic::div_mod::lemma_div_decreases(n as int, base as int);
        }
        numeral(n / base, base) + seq![digit_char(n % base)]
    }
}

/// Decimal numeral of `n`.
pub open spec fn decimal(n: nat) -> Seq<char> {
    numeral(n, 10)
}

/// Decimal numeral of a signed integer, with a leading '-' when negative.
pub open spec fn signed_decimal(i: int) -> Seq<char> {
    if i < 0 {
        seq!['-'] + decimal((-i) as nat)
    } else {
        decimal(i as nat)
    }
}

/// Upper-case hexadecimal numeral of `n` (as `{:X}` renders it).
pub open spec fn hex_upper(n: nat) -> Seq<char> {
    numeral(n, 16)
}

/// The last `width` upper-case hexadecimal digits of `n`, zero-padded on the
/// left; for `n < 16^width` this is `{:0width$X}`.
pub open spec fn hex_fixed(n: nat, width: nat) -> Seq<char>
    decreases width,
{
    if width == 0 {
        Seq::empty()
    } else {
        hex_fixed(n / 16, (width - 1) as nat) + seq![digit_char(n % 16)]
    }
}

/// The one-character string holding hexadecimal digit `d`.
fn digit_str(d: u64) -> (s: &'static str)
    requires
        d < 16,
    ensures
        s@ == seq![digit_char(d as nat)],
{
    proof {
        reveal_strlit("0");
        reveal_strlit("1");
        reveal_strlit("2");
        reveal_strlit("3");
        reveal_strlit("4");
        reveal_strlit("5");
        reveal_strlit("6");
        reveal_strlit("7");
        reveal_strlit("8");
        reveal_strlit("9");
        reveal_strlit("A");
        reveal_strlit("B");
        reveal_strlit("C");
        reveal_strlit("D");
        reveal_strlit("E");
        reveal_strlit("F");
    }
    if d == 0 { "0" }
    else if d == 1 { "1" }
    else if d == 2 { "2" }
    else if d == 3 { "3" }
    else if d == 4 { "4" }
    else if d == 5 { "5" }
    else if d == 6 { "6" }
    else if d == 7 { "7" }
    else if d == 8 { "8" }
    else if d == 9 { "9" }
    else if d == 10 { "A" }
    else if d == 11 { "B" }
    else if d == 12 { "C" }
    else if d == 13 { "D" }
    else if d == 14 { "E" }
    else { "F" }
}

/// Appends the numeral of `n` in base `base` to `out`.
pub fn push_numeral(out: &mut String, n: u64, base: u64)
    requires
        2 <= base <= 16,
    ensures
        final(out)@ == old(out)@ + numeral(n as nat, base as nat),
    decreases n,
{
    if n < base {
        assert(n % 16 == n) by (nonlinear_arith)
            requires
                n < base,
                base <= 16,
        ;
        out.append(digit_str(n));
    } else {
        proof {
            vstd::arithmetic::div_mod::lemma_div_decreases(n as int, base as int);
        }
        push_numeral(out, n / base, base);
        out.append(digit_str(n % base));
        proof {
            let ghost t = numeral((n / base) as nat, base as nat);
            assert(old(out)@ + t + seq![digit_char((n % base) as nat)] =~= old(out)@ + (t
                + seq![digit_char((n % base) as nat)]));
        }
    }
}

/// Appends the decimal numeral of `n` to `out`.
pub fn push_decimal(out: &mut String, n: u64)
    ensures
        final(out)@ == old(out)@ + decimal(n as nat),
{
    push_numeral(out, n, 10);
}

/// Appends the decimal numeral of the signed `i` to `out`.
pub fn push_signed_decimal(out: &mut String, i: i64)
    ensures
        final(out)@ == old(out)@ + signed_decimal(i as int),
{
    if i < 0 {
        proof {
            reveal_strlit("-");
        }
        out.append("-");
        let magnitude: u64 = if i == i64::MIN {
            9223372036854775808u64
        } else {
            (-i) as u64
        };
        push_decimal(out, magnitude);
        proof {
            assert(old(out)@ + seq!['-'] + decimal(magnitude as nat) =~= old(out)@ + (seq!['-']
                + decimal(magnitude as nat)));
        }
    } else {
        push_decimal(out, i as u64);
    }
}

/// Appends the upper-case hexadecimal numeral of `n` to `out`.
pub fn push_hex_upper(out: &mut String, n: u64)
    ensures
        final(out)@ == old(out)@ + hex_upper(n as nat),
{
    push_numeral(out, n, 16);
}

/// Appends exactly `width` upper-case hexadecimal digits of `n` to `out`.
pub fn push_hex_fixed(out: &mut String, n: u64, width: u64)
    ensures
        final(out)@ == old(out)@ + hex_fixed(n as nat, width as nat),
    decreases width,
{
    if width > 0 {
        push_hex_fixed(out, n / 16, width - 1);
        out.append(digit_str(n % 16));
        proof {
            let ghost t = hex_fixed((n / 16) as nat, (width - 1) as nat);
            assert(old(out)@ + t + seq![digit_char((n % 16) as nat)] =~= old(out)@ + (t
                + seq![digit_char((n % 16) as nat)]));
        }
    } else {
        assert(old(out)@ + Seq::<char>::empty() =~= old(out)@);
    }
}

/// The lower-case form of a text, as `str::to_lowercase` gives it (the
/// Unicode `Lowercase` mapping, which may change the length of the text).
pub uninterp spec fn lowercase(s: Seq<char>) -> Seq<char>;

/// `str::to_lowercase`: the lower-case form of `s`. The mapping is Unicode's
/// and is named rather than written out; it depends on `s` alone. The empty
/// text stays empty (the result is built character by character).
#[verifier::external_body]
pub(crate) fn to_lowercase(s: &str) -> (r: String)
    ensures
        r@ == lowercase(s@),
        s@.len() == 0 ==> r@ == Seq::<char>::empty(),
{
    s.to_lowercase()
}

/// `needle` occurs as a contiguous part of `hay` (the empty text occurs in
/// every text).
pub open spec fn occurs_in(needle: Seq<char>, hay: Seq<char>) -> bool {
    exists|i: int|
        0 <= i && i + needle.len() <= hay.len() && #[trigger] hay.subrange(i, i + needle.len())
            == needle
}

/// `str::contains` with a `&str` pattern: whether `needle` occurs in `hay`,
/// as its documentation states ("returns true if the given pattern matches a
/// sub-slice of this string slice").
#[verifier::external_body]
pub(crate) fn str_contains(hay: &str, needle: &str) -> (r: bool)
    ensures
        r == occurs_in(needle@, hay@),
{
    hay.contains(needle)
}

/// The empty text occurs in every text.
pub proof fn lemma_empty_occurs_in(hay: Seq<char>)
    ensures
        occurs_in(Seq::<char>::empty(), hay),
{
    let e = Seq::<char>::empty();
    assert(hay.subrange(0int, 0int + e.len()) =~= e);
}

/// Case-insensitive containment as the filters use it: the lower-case form
/// of `hay` contains `lowered_needle`, which the caller has already lowered.
pub open spec fn contains_lowered(hay: Seq<char>, lowered_needle: Seq<char>) -> bool {
    occurs_in(lowered_needle, lowercase(hay))
}

/// Whether the lower-case form of `hay` contains `lowered_needle`.
pub fn lowered_contains(hay: &str, lowered_needle: &str) -> (r: bool)
    ensures
        r == contains_lowered(hay@, lowered_needle@),
{
    let lowered = to_lowercase(hay);
    str_contains(lowered.as_str(), lowered_needle)
}

/// Whether the lower-case form of `s` is exactly `lowered`.
pub fn lowered_equals(s: &str, lowered: &str) -> (r: bool)
    ensures
        r == (lowercase(s@) == lowered@),
{
    let l = to_lowercase(s);
    let other = String::from_str(lowered);
    l == other
}

} // verus!
