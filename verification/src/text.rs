//! Character-sequence helpers the damage grammar is built on:
//! lower-casing, trimming, searching, and decimal digits, each with an
//! exact specification over `Seq<char>`.

use vstd::prelude::*;
use vstd::string::StrSliceExecFns;

verus! {

/// ASCII whitespace, the characters trimming removes.
pub open spec fn is_space_char(c: char) -> bool {
    ||| c as u32 == 32
    ||| c as u32 == 9
    ||| c as u32 == 10
    ||| c as u32 == 13
    ||| c as u32 == 11
    ||| c as u32 == 12
}

/// A decimal digit.
pub open spec fn is_digit_char(c: char) -> bool {
    48 <= c as u32 <= 57
}

/// The numeric value of a decimal digit.
pub open spec fn digit_val(c: char) -> int {
    c as u32 - 48
}

/// ASCII lower-casing of a single character; everything else is kept.
pub open spec fn to_lower_char(c: char) -> char {
    if 65 <= c as u32 <= 90 {
        (((c as u32) + 32) as u8) as char
    } else {
        c
    }
}

/// ASCII lower-casing of a whole sequence.
pub open spec fn lower_seq(s: Seq<char>) -> Seq<char> {
    Seq::new(s.len(), |i: int| to_lower_char(s[i]))
}

/// The sequence with leading whitespace removed.
pub open spec fn spec_trim_start(s: Seq<char>) -> Seq<char>
    decreases s.len(),
{
    if s.len() > 0 && is_space_char(s.first()) {
        spec_trim_start(s.drop_first())
    } else {
        s
    }
}

/// The sequence with trailing whitespace removed.
pub open spec fn spec_trim_end(s: Seq<char>) -> Seq<char>
    decreases s.len(),
{
    if s.len() > 0 && is_space_char(s.last()) {
        spec_trim_end(s.drop_last())
    } else {
        s
    }
}

/// The sequence with surrounding whitespace removed.
pub open spec fn spec_trim(s: Seq<char>) -> Seq<char> {
    spec_trim_end(spec_trim_start(s))
}

/// Trimming a sequence without surrounding whitespace changes nothing.
pub proof fn lemma_trim_nonspace(s: Seq<char>)
    requires
        forall|k: int| 0 <= k < s.len() ==> !is_space_char(#[trigger] s[k]),
    ensures
        spec_trim(s) == s,
{
    if s.len() > 0 {
        assert(!is_space_char(s.first()));
        assert(!is_space_char(s.last()));
    }
}

/// Whether `c` occurs anywhere in `s`.
pub open spec fn contains_char(s: Seq<char>, c: char) -> bool {
    exists|i: int| 0 <= i < s.len() && s[i] == c
}

/// `i` is the first position of `c` in `s`.
pub open spec fn is_first_occurrence(s: Seq<char>, c: char, i: int) -> bool {
    &&& 0 <= i < s.len()
    &&& s[i] == c
    &&& forall|k: int| 0 <= k < i ==> s[k] != c
}

/// `i` is the last position of `c` in `s`.
pub open spec fn is_last_occurrence(s: Seq<char>, c: char, i: int) -> bool {
    &&& 0 <= i < s.len()
    &&& s[i] == c
    &&& forall|k: int| i < k < s.len() ==> s[k] != c
}

/// The characters of a string slice, one `char` per element.
pub fn chars_of(s: &str) -> (r: Vec<char>)
    ensures
        r@ == s@,
{
    let n = s.unicode_len();
    let mut v: Vec<char> = Vec::new();

    while v.len() < n
        invariant
            n == s@.len(),
            v@.len() <= n,
            v@ =~= s@.take(v.len() as int),
        decreases n - v.len(),
    {
        let c = s.get_char(v.len());
        v.push(c);
        proof {
            assert(v@ =~= s@.take(v@.len() as int));
        }
    }

    proof {
        assert(s@.take(n as int) =~= s@);
        assert(v@ =~= s@);
    }

    v
}

/// A copy of `v[lo..hi]`.
pub fn subvec(v: &Vec<char>, lo: usize, hi: usize) -> (r: Vec<char>)
    requires
        lo <= hi <= v@.len(),
    ensures
        r@ == v@.subrange(lo as int, hi as int),
{
    let mut r: Vec<char> = Vec::new();
    let mut i = lo;

    while i < hi
        invariant
            lo <= i <= hi <= v@.len(),
            r@ =~= v@.subrange(lo as int, i as int),
        decreases hi - i,
    {
        r.push(v[i]);
        i += 1;
        proof {
            assert(r@ =~= v@.subrange(lo as int, i as int));
        }
    }

    r
}

/// ASCII lower-casing of one character.
pub fn lower_char(c: char) -> (r: char)
    ensures
        r == to_lower_char(c),
{
    let x = c as u32;
    if 65 <= x && x <= 90 {
        ((x + 32) as u8) as char
    } else {
        c
    }
}

/// ASCII lower-casing of a character vector.
pub fn to_lower_vec(v: &Vec<char>) -> (r: Vec<char>)
    ensures
        r@ == lower_seq(v@),
{
    let mut r: Vec<char> = Vec::new();

    for i in 0..v.len()
        invariant
            r@.len() == i,
            forall|k: int| 0 <= k < i ==> r@[k] == to_lower_char(v@[k]),
    {
        r.push(lower_char(v[i]));
    }

    proof {
        assert(r@ =~= lower_seq(v@));
    }

    r
}

/// A copy of `v` with surrounding whitespace removed.
pub fn trim_vec(v: &Vec<char>) -> (r: Vec<char>)
    ensures
        r@ == spec_trim(v@),
{
    let mut lo: usize = 0;
    let mut hi: usize = v.len();

    proof {
        assert(v@.subrange(0, v@.len() as int) =~= v@);
    }

    while lo < hi && is_space(v[lo])
        invariant
            0 <= lo <= hi <= v@.len(),
            hi == v@.len(),
            spec_trim_start(v@.subrange(lo as int, hi as int)) == spec_trim_start(v@),
        decreases hi - lo,
    {
        proof {
            let s = v@.subrange(lo as int, hi as int);
            assert(s.first() == v@[lo as int]);
            assert(s.drop_first() =~= v@.subrange(lo + 1, hi as int));
        }
        lo += 1;
    }

    proof {
        let s = v@.subrange(lo as int, hi as int);
        assert(spec_trim_start(s) == s);
    }

    while lo < hi && is_space(v[hi - 1])
        invariant
            0 <= lo <= hi <= v@.len(),
            spec_trim_end(v@.subrange(lo as int, hi as int)) == spec_trim_end(spec_trim_start(v@)),
        decreases hi,
    {
        proof {
            let s = v@.subrange(lo as int, hi as int);
            assert(s.last() == v@[hi - 1]);
            assert(s.drop_last() =~= v@.subrange(lo as int, hi - 1));
        }
        hi -= 1;
    }

    proof {
        let s = v@.subrange(lo as int, hi as int);
        assert(spec_trim_end(s) == s);
    }

    subvec(v, lo, hi)
}

/// Whether one character is ASCII whitespace.
pub fn is_space(c: char) -> (r: bool)
    ensures
        r == is_space_char(c),
{
    let x = c as u32;
    x == 32 || x == 9 || x == 10 || x == 13 || x == 11 || x == 12
}

/// Every character is a decimal digit.
pub open spec fn all_digits(s: Seq<char>) -> bool {
    forall|i: int| 0 <= i < s.len() ==> is_digit_char(#[trigger] s[i])
}

/// The number a digit sequence denotes, most significant digit first.
pub open spec fn digits_val(s: Seq<char>) -> int
    decreases s.len(),
{
    if s.len() == 0 {
        0
    } else {
        digits_val(s.drop_last()) * 10 + digit_val(s.last())
    }
}

/// A digit string never denotes a negative number.
pub proof fn lemma_digits_val_nonneg(s: Seq<char>)
    requires
        all_digits(s),
    ensures
        digits_val(s) >= 0,
    decreases s.len(),
{
    if s.len() > 0 {
        assert(forall|i: int| 0 <= i < s.drop_last().len()
            ==> #[trigger] s.drop_last()[i] == s[i]);
        lemma_digits_val_nonneg(s.drop_last());
    }
}

/// Reading one more digit multiplies the prefix value by ten and adds
/// the digit.
pub proof fn lemma_digits_val_take_step(s: Seq<char>, i: int)
    requires
        0 <= i < s.len(),
    ensures
        digits_val(s.take(i + 1)) == digits_val(s.take(i)) * 10 + digit_val(s[i]),
{
    assert(s.take(i + 1).drop_last() =~= s.take(i));
    assert(s.take(i + 1).last() == s[i]);
}

/// The value of a digit string is at least the value of any prefix.
pub proof fn lemma_digits_val_prefix_le(s: Seq<char>, i: int)
    requires
        all_digits(s),
        0 <= i <= s.len(),
    ensures
        digits_val(s.take(i)) <= digits_val(s),
    decreases s.len() - i,
{
    if i < s.len() {
        lemma_digits_val_take_step(s, i);
        assert(forall|k: int| 0 <= k < s.take(i).len() ==> #[trigger] s.take(i)[k] == s[k]);
        lemma_digits_val_nonneg(s.take(i));
        assert(digits_val(s.take(i)) <= digits_val(s.take(i)) * 10 + digit_val(s[i]))
            by (nonlinear_arith)
            requires digits_val(s.take(i)) >= 0 && digit_val(s[i]) >= 0;
        lemma_digits_val_prefix_le(s, i + 1);
    } else {
        assert(s.take(i) =~= s);
    }
}

/// A non-empty digit string below the integer-literal limit.
pub open spec fn is_uint_literal(s: Seq<char>) -> bool {
    &&& s.len() >= 1
    &&& all_digits(s)
    &&& digits_val(s) < 2_147_483_648
}

/// Parses a non-empty all-digit string into its value; anything else,
/// including a value at or past the integer-literal limit, is refused.
pub fn parse_uint(v: &Vec<char>) -> (r: Option<i64>)
    ensures
        r is Some <==> is_uint_literal(v@),
        r matches Some(x) ==> x == digits_val(v@) && 0 <= x < 2_147_483_648,
{
    if v.len() == 0 {
        return None;
    }

    let mut acc: i64 = 0;

    for i in 0..v.len()
        invariant
            v@.len() >= 1,
            forall|k: int| 0 <= k < i ==> is_digit_char(#[trigger] v@[k]),
            acc == digits_val(v@.take(i as int)),
            0 <= acc < 2_147_483_648,
    {
        let x = v[i] as u32;
        if x < 48 || x > 57 {
            return None;
        }
        let d = (x - 48) as i64;
        let next = acc * 10 + d;

        proof {
            lemma_digits_val_take_step(v@, i as int);
        }

        if next >= 2_147_483_648 {
            proof {
                if all_digits(v@) {
                    lemma_digits_val_prefix_le(v@, i + 1);
                }
            }
            return None;
        }

        acc = next;
    }

    proof {
        assert(v@.take(v@.len() as int) =~= v@);
    }

    Some(acc)
}

/// The decimal digit character for a value below ten.
pub open spec fn digit_char(d: int) -> char {
    ((48 + d) as u8) as char
}

/// The decimal notation of a non-negative number, no sign, no leading
/// zero except for zero itself.
pub open spec fn spec_uint_string(n: int) -> Seq<char>
    decreases n,
{
    if n < 10 {
        seq![digit_char(n)]
    } else {
        spec_uint_string(n / 10).push(digit_char(n % 10))
    }
}

/// Decimal notation consists of digits only and reads back as the
/// number it was produced from.
pub proof fn lemma_uint_string_val(n: int)
    requires
        0 <= n,
    ensures
        spec_uint_string(n).len() >= 1,
        all_digits(spec_uint_string(n)),
        digits_val(spec_uint_string(n)) == n,
    decreases n,
{
    if n < 10 {
        let s = spec_uint_string(n);
        assert(s.len() == 1);
        assert(s[0] == digit_char(n));
        assert(digit_char(n) as u32 == 48 + n);
        assert(s.drop_last() =~= Seq::<char>::empty());
        assert(digits_val(s) == digits_val(s.drop_last()) * 10 + digit_val(s.last()));
    } else {
        vstd::arithmetic::div_mod::lemma_fundamental_div_mod(n, 10);
        lemma_uint_string_val(n / 10);
        let p = spec_uint_string(n / 10);
        let s = spec_uint_string(n);
        assert(s == p.push(digit_char(n % 10)));
        assert(s.drop_last() =~= p);
        assert(s.last() == digit_char(n % 10));
        assert(digit_char(n % 10) as u32 == 48 + n % 10);
        assert(forall|i: int| 0 <= i < s.len() - 1 ==> s[i] == p[i]);
    }
}

/// The decimal notation of a non-negative number.
pub fn uint_string(n: u64) -> (r: Vec<char>)
    ensures
        r@ == spec_uint_string(n as int),
    decreases n,
{
    let d = (48 + (n % 10) as u8) as char;

    if n < 10 {
        let mut v: Vec<char> = Vec::new();
        v.push(d);
        proof {
            assert(v@ =~= seq![digit_char(n as int)]);
        }
        v
    } else {
        let mut v = uint_string(n / 10);
        v.push(d);
        v
    }
}

/// Builds a `String` holding exactly the given characters.
/// Relies on std's `String::push`, which appends the given character.
#[verifier::external_body]
fn push_char(s: &mut String, c: char)
    ensures
        final(s)@ == old(s)@.push(c),
{
    s.push(c);
}

/// A `String` holding exactly the characters of `v`.
pub fn string_from_chars(v: &Vec<char>) -> (r: String)
    ensures
        r@ == v@,
{
    let mut s = String::new();

    for i in 0..v.len()
        invariant
            s@ =~= v@.take(i as int),
    {
        push_char(&mut s, v[i]);
        proof {
            assert(s@ =~= v@.take(i + 1));
        }
    }

    proof {
        assert(v@.take(v@.len() as int) =~= v@);
    }

    s
}

/// Whether the characters of `v` spell exactly the given string.
pub fn eq_str(v: &Vec<char>, s: &str) -> (r: bool)
    ensures
        r == (v@ == s@),
{
    let n = s.unicode_len();

    if v.len() != n {
        return false;
    }

    for i in 0..n
        invariant
            n == s@.len(),
            v@.len() == n,
            forall|k: int| 0 <= k < i ==> v@[k] == s@[k],
    {
        if v[i] != s.get_char(i) {
            return false;
        }
    }

    proof {
        assert(v@ =~= s@);
    }

    true
}

/// The first position of `c` in `v`, if any.
pub fn find_first(v: &Vec<char>, c: char) -> (r: Option<usize>)
    ensures
        r matches Some(i) ==> is_first_occurrence(v@, c, i as int),
        r is None ==> !contains_char(v@, c),
{
    for i in 0..v.len()
        invariant
            forall|k: int| 0 <= k < i ==> v@[k] != c,
    {
        if v[i] == c {
            return Some(i);
        }
    }

    None
}

/// The last position of `c` in `v`, if any.
pub fn find_last(v: &Vec<char>, c: char) -> (r: Option<usize>)
    ensures
        r matches Some(i) ==> is_last_occurrence(v@, c, i as int),
        r is None ==> !contains_char(v@, c),
{
    let mut i = v.len();

    while i > 0
        invariant
            0 <= i <= v@.len(),
            forall|k: int| i <= k < v@.len() ==> v@[k] != c,
        decreases i,
    {
        i -= 1;
        if v[i] == c {
            return Some(i);
        }
    }

    None
}

} // verus!
