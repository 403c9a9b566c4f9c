//! Character-sequence helpers shared by the other modules.

use vstd::prelude::*;
use vstd::string::*;

verus! {

/// True when `c` is one of the ASCII decimal digits.
pub open spec fn is_digit(c: char) -> bool {
    '0' <= c && c <= '9'
}

/// True when the text begins with an ASCII decimal digit.
pub open spec fn starts_with_digit(s: Seq<char>) -> bool {
    s.len() > 0 && is_digit(s[0])
}

/// The text with one leading `v` or `V` removed, if there is one.
pub open spec fn strip_v(s: Seq<char>) -> Seq<char> {
    if s.len() > 0 && (s[0] == 'v' || s[0] == 'V') {
        s.drop_first()
    } else {
        s
    }
}

/// Decimal rendering of a natural number, without leading zeros.
pub open spec fn decimal(n: nat) -> Seq<char>
    decreases n,
{
    if n < 10 {
        seq![digit_char(n)]
    } else {
        decimal(n / 10).push(digit_char(n % 10))
    }
}

/// The ASCII digit for a value below ten.
pub open spec fn digit_char(d: nat) -> char {
    if d == 0 { '0' } else if d == 1 { '1' } else if d == 2 { '2' } else if d == 3 { '3' }
    else if d == 4 { '4' } else if d == 5 { '5' } else if d == 6 { '6' } else if d == 7 { '7' }
    else if d == 8 { '8' } else { '9' }
}

/// Result of lowercasing a text with `str::to_lowercase`.
pub uninterp spec fn lower_of(s: Seq<char>) -> Seq<char>;

/// True when every character is ASCII.
pub open spec fn is_ascii_text(s: Seq<char>) -> bool {
    forall|i: int| 0 <= i < s.len() ==> (s[i] as u32) < 128
}

/// The small letter for an ASCII capital; any other character itself.
pub open spec fn fold_char(c: char) -> char {
    if c == 'A' { 'a' } else
    if c == 'B' { 'b' } else
    if c == 'C' { 'c' } else
    if c == 'D' { 'd' } else
    if c == 'E' { 'e' } else
    if c == 'F' { 'f' } else
    if c == 'G' { 'g' } else
    if c == 'H' { 'h' } else
    if c == 'I' { 'i' } else
    if c == 'J' { 'j' } else
    if c == 'K' { 'k' } else
    if c == 'L' { 'l' } else
    if c == 'M' { 'm' } else
    if c == 'N' { 'n' } else
    if c == 'O' { 'o' } else
    if c == 'P' { 'p' } else
    if c == 'Q' { 'q' } else
    if c == 'R' { 'r' } else
    if c == 'S' { 's' } else
    if c == 'T' { 't' } else
    if c == 'U' { 'u' } else
    if c == 'V' { 'v' } else
    if c == 'W' { 'w' } else
    if c == 'X' { 'x' } else
    if c == 'Y' { 'y' } else
    if c == 'Z' { 'z' } else { c }
}

/// An ASCII text, lowercased: capitals move to small letters, every other
/// character stays.
pub open spec fn ascii_folded(s: Seq<char>, r: Seq<char>) -> bool {
    r.len() == s.len() && forall|i: int| 0 <= i < s.len() ==> r[i] == fold_char(s[i])
}

/// Relies on `str::to_lowercase`: the result depends on the text alone; on
/// ASCII text it maps `A`..`Z` to `a`..`z` and keeps every other character,
/// so lowercasing that result again changes nothing.
#[verifier::external_body]
pub(crate) fn lowercase(s: &str) -> (r: String)
    ensures
        r@ == lower_of(s@),
        is_ascii_text(s@) ==> ascii_folded(s@, r@) && lower_of(r@) == r@,
{
    s.to_lowercase()
}

/// Relies on `String::push`: appends one character at the end.
#[verifier::external_body]
pub(crate) fn push_char(s: &mut String, c: char)
    ensures
        final(s)@ == old(s)@.push(c),
{
    s.push(c)
}

/// The ASCII digit for a value below ten.
pub fn digit_of(d: u64) -> (c: char)
    requires
        d < 10,
    ensures
        c == digit_char(d as nat),
{
    if d == 0 { '0' } else if d == 1 { '1' } else if d == 2 { '2' } else if d == 3 { '3' }
    else if d == 4 { '4' } else if d == 5 { '5' } else if d == 6 { '6' } else if d == 7 { '7' }
    else if d == 8 { '8' } else { '9' }
}

/// Appends the decimal rendering of `n` to `out`.
pub fn push_decimal(out: &mut String, n: u64)
    ensures
        final(out)@ == old(out)@ + decimal(n as nat),
    decreases n,
{
    if n < 10 {
        push_char(out, digit_of(n));
        assert(old(out)@.push(digit_char(n as nat)) =~= old(out)@ + decimal(n as nat));
    } else {
        push_decimal(out, n / 10);
        push_char(out, digit_of(n % 10));
        assert(old(out)@ + decimal((n / 10) as nat) + seq![digit_char((n % 10) as nat)]
            =~= old(out)@ + decimal(n as nat));
    }
}

/// Whether two texts hold the same characters.
pub fn str_eq(a: &str, b: &str) -> (r: bool)
    ensures
        r == (a@ == b@),
{
    let n = a.unicode_len();
    if n != b.unicode_len() {
        return false;
    }
    let mut i: usize = 0;
    while i < n
        invariant
            n == a@.len(),
            n == b@.len(),
            i <= n,
            forall|k: int| 0 <= k < i ==> a@[k] == b@[k],
        decreases n - i,
    {
        if a.get_char(i) != b.get_char(i) {
            return false;
        }
        i = i + 1;
    }
    assert(a@ =~= b@);
    true
}

} // verus!

verus! {

/// A decimal rendering is non-empty and begins with a digit.
pub proof fn lemma_decimal_starts_with_digit(n: nat)
    ensures
        decimal(n).len() > 0,
        is_digit(decimal(n)[0]),
    decreases n,
{
    if n >= 10 {
        lemma_decimal_starts_with_digit(n / 10);
    }
}

} // verus!

verus! {

/// The texts of a list of strings.
pub open spec fn names_view(v: Seq<String>) -> Seq<Seq<char>> {
    v.map_values(|s: String| s@)
}

/// Whether `name` is one of `names`.
pub fn contains_name(names: &Vec<String>, name: &str) -> (r: bool)
    ensures
        r == names_view(names@).contains(name@),
{
    let mut i: usize = 0;
    while i < names.len()
        invariant
            i <= names.len(),
            forall|k: int| 0 <= k < i ==> names@[k]@ != name@,
        decreases names.len() - i,
    {
        if str_eq(names[i].as_str(), name) {
            assert(names_view(names@)[i as int] == name@);
            return true;
        }
        i = i + 1;
    }
    assert(!names_view(names@).contains(name@)) by {
        if names_view(names@).contains(name@) {
            let k = choose|k: int| 0 <= k < names_view(names@).len() && names_view(names@)[k] == name@;
            assert(names@[k]@ == name@);
        }
    }
    false
}

} // verus!
