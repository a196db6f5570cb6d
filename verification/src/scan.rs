//! Byte-level scanning primitives for the report decoder.
//!
//! Every primitive exists twice: a spec function over `Seq<u8>` that defines
//! what is consumed and what value results, and an executable twin over
//! `&[u8]` proved equal to it. Positions are byte offsets; a parser returns
//! the value together with the position just past what it consumed.

use vstd::prelude::*;

verus! {

/// ASCII decimal digit.
pub open spec fn is_digit(b: u8) -> bool {
    48 <= b <= 57
}

/// Numeric value of an ASCII digit.
pub open spec fn digit_val(b: u8) -> int {
    b - 48
}

/// ASCII letter or digit.
pub open spec fn is_alnum(b: u8) -> bool {
    (48 <= b <= 57) || (65 <= b <= 90) || (97 <= b <= 122)
}

/// First position at or after `i` that does not hold a digit.
pub open spec fn digit_run_end(s: Seq<u8>, i: int) -> int
    decreases s.len() - i when 0 <= i <= s.len()
{
    if i < s.len() && is_digit(s[i]) {
        digit_run_end(s, i + 1)
    } else {
        i
    }
}

/// First position at or after `i` that does not hold a letter or digit.
pub open spec fn alnum_run_end(s: Seq<u8>, i: int) -> int
    decreases s.len() - i when 0 <= i <= s.len()
{
    if i < s.len() && is_alnum(s[i]) {
        alnum_run_end(s, i + 1)
    } else {
        i
    }
}

/// First position at or after `i` that does not hold a space.
pub open spec fn space_run_end(s: Seq<u8>, i: int) -> int
    decreases s.len() - i when 0 <= i <= s.len()
{
    if i < s.len() && s[i] == 32 {
        space_run_end(s, i + 1)
    } else {
        i
    }
}

/// Decimal value of the digits in `s[i..j)`.
pub open spec fn digits_value(s: Seq<u8>, i: int, j: int) -> int
    decreases j - i when i <= j
{
    if i >= j {
        0
    } else {
        digits_value(s, i, j - 1) * 10 + digit_val(s[j - 1])
    }
}

/// A run end never moves backwards and never passes the end of the input.
pub proof fn lemma_digit_run_end_bounds(s: Seq<u8>, i: int)
    requires
        0 <= i <= s.len(),
    ensures
        i <= digit_run_end(s, i) <= s.len(),
    decreases s.len() - i,
{
    if i < s.len() && is_digit(s[i]) {
        lemma_digit_run_end_bounds(s, i + 1);
    }
}

/// Same bound for runs of letters and digits.
pub proof fn lemma_alnum_run_end_bounds(s: Seq<u8>, i: int)
    requires
        0 <= i <= s.len(),
    ensures
        i <= alnum_run_end(s, i) <= s.len(),
    decreases s.len() - i,
{
    if i < s.len() && is_alnum(s[i]) {
        lemma_alnum_run_end_bounds(s, i + 1);
    }
}

/// Same bound for runs of spaces.
pub proof fn lemma_space_run_end_bounds(s: Seq<u8>, i: int)
    requires
        0 <= i <= s.len(),
    ensures
        i <= space_run_end(s, i) <= s.len(),
    decreases s.len() - i,
{
    if i < s.len() && s[i] == 32 {
        lemma_space_run_end_bounds(s, i + 1);
    }
}

/// `10^n` for small `n`.
pub open spec fn pow10(n: int) -> int
    decreases n when n >= 0
{
    if n <= 0 {
        1
    } else {
        pow10(n - 1) * 10
    }
}

proof fn lemma_pow10_vals()
    ensures
        pow10(0) == 1,
        pow10(1) == 10,
        pow10(2) == 100,
        pow10(3) == 1000,
        pow10(4) == 10000,
        pow10(5) == 100000,
        pow10(6) == 1000000,
        pow10(7) == 10000000,
{
    assert(pow10(0) == 1);
    assert(pow10(1) == 10);
    assert(pow10(2) == 100);
    assert(pow10(3) == 1000);
    assert(pow10(4) == 10000);
    assert(pow10(5) == 100000);
    assert(pow10(6) == 1000000);
    assert(pow10(7) == 10000000);
}

/// `10^n` is positive.
pub proof fn lemma_pow10_pos(n: int)
    requires
        n >= 0,
    ensures
        pow10(n) >= 1,
    decreases n,
{
    if n > 0 {
        lemma_pow10_pos(n - 1);
        assert(pow10(n - 1) * 10 >= 1) by (nonlinear_arith)
            requires
                pow10(n - 1) >= 1,
        ;
    }
}

/// A run of at most `n` digits is worth less than `10^n`.
pub proof fn lemma_digits_pow(s: Seq<u8>, i: int, j: int, n: int)
    requires
        0 <= i <= j <= s.len(),
        j - i <= n,
        0 <= n <= 7,
        forall|k: int| i <= k < j ==> #[trigger] is_digit(s[k]),
    ensures
        0 <= digits_value(s, i, j) < pow10(n),
    decreases j - i,
{
    lemma_pow10_vals();
    lemma_pow10_pos(n);
    if i < j {
        lemma_digits_pow(s, i, j - 1, n - 1);
        let v = digits_value(s, i, j - 1);
        assert(is_digit(s[j - 1]));
        assert(digits_value(s, i, j) == v * 10 + digit_val(s[j - 1]));
        assert(v * 10 + 9 < pow10(n - 1) * 10) by (nonlinear_arith)
            requires
                0 <= v < pow10(n - 1),
        ;
        assert(pow10(n) == pow10(n - 1) * 10);
    }
}

/// The value of at most seven digits stays below ten million.
pub proof fn lemma_digits_value_bound(s: Seq<u8>, i: int, j: int)
    requires
        0 <= i <= j <= s.len(),
        j - i <= 7,
        forall|k: int| i <= k < j ==> #[trigger] is_digit(s[k]),
    ensures
        0 <= digits_value(s, i, j) < 10000000,
{
    lemma_digits_pow(s, i, j, 7);
    lemma_pow10_vals();
}

/// The value of at most six digits stays below one million.
pub proof fn lemma_digits_value_bound_six(s: Seq<u8>, i: int, j: int)
    requires
        0 <= i <= j <= s.len(),
        j - i <= 6,
        forall|k: int| i <= k < j ==> #[trigger] is_digit(s[k]),
    ensures
        0 <= digits_value(s, i, j) < 1000000,
{
    lemma_digits_pow(s, i, j, 6);
    lemma_pow10_vals();
}

/// The value of at most three digits stays below one thousand.
pub proof fn lemma_digits_value_bound_three(s: Seq<u8>, i: int, j: int)
    requires
        0 <= i <= j <= s.len(),
        j - i <= 3,
        forall|k: int| i <= k < j ==> #[trigger] is_digit(s[k]),
    ensures
        0 <= digits_value(s, i, j) < 1000,
{
    lemma_digits_pow(s, i, j, 3);
    lemma_pow10_vals();
}

/// The value of at most two digits stays below one hundred.
pub proof fn lemma_digits_value_bound_two(s: Seq<u8>, i: int, j: int)
    requires
        0 <= i <= j <= s.len(),
        j - i <= 2,
        forall|k: int| i <= k < j ==> #[trigger] is_digit(s[k]),
    ensures
        0 <= digits_value(s, i, j) < 100,
{
    lemma_digits_pow(s, i, j, 2);
    lemma_pow10_vals();
}

/// The value of at most four digits stays below ten thousand.
pub proof fn lemma_digits_value_bound_four(s: Seq<u8>, i: int, j: int)
    requires
        0 <= i <= j <= s.len(),
        j - i <= 4,
        forall|k: int| i <= k < j ==> #[trigger] is_digit(s[k]),
    ensures
        0 <= digits_value(s, i, j) < 10000,
{
    lemma_digits_pow(s, i, j, 4);
    lemma_pow10_vals();
}

/// The value of at most five digits stays below one hundred thousand.
pub proof fn lemma_digits_value_bound_five(s: Seq<u8>, i: int, j: int)
    requires
        0 <= i <= j <= s.len(),
        j - i <= 5,
        forall|k: int| i <= k < j ==> #[trigger] is_digit(s[k]),
    ensures
        0 <= digits_value(s, i, j) < 100000,
{
    lemma_digits_pow(s, i, j, 5);
    lemma_pow10_vals();
}

/// Whether `s[i..i+n)` is a run of exactly `n` slashes.
pub open spec fn all_slashes(s: Seq<u8>, i: int, n: int) -> bool {
    &&& i + n <= s.len()
    &&& forall|k: int| i <= k < i + n ==> s[k] == 47
}

/// Whether the bytes of `t` occur at position `i` of `s`.
pub open spec fn has_tag(s: Seq<u8>, i: int, t: Seq<u8>) -> bool {
    &&& 0 <= i
    &&& i + t.len() <= s.len()
    &&& forall|k: int| 0 <= k < t.len() ==> s[i + k] == t[k]
}

/// Skips the run of spaces starting at `i`.
pub fn skip_spaces(s: &[u8], i: usize) -> (j: usize)
    requires
        i <= s@.len(),
    ensures
        j == space_run_end(s@, i as int),
        i <= j <= s@.len(),
{
    let mut j = i;
    proof {
        lemma_space_run_end_bounds(s@, i as int);
    }
    while j < s.len() && s[j] == 32u8
        invariant
            i <= j <= s@.len(),
            space_run_end(s@, i as int) == space_run_end(s@, j as int),
            space_run_end(s@, i as int) <= s@.len(),
        decreases s@.len() - j,
    {
        j = j + 1;
    }
    j
}

/// Matches a literal of 1 byte at position `i`.
pub fn scan_tag1(s: &[u8], i: usize, b0: u8) -> (r: Option<usize>)
    requires
        i <= s@.len(),
    ensures
        has_tag(s@, i as int, seq![b0]) ==> r == Some((i + 1) as usize),
        !has_tag(s@, i as int, seq![b0]) ==> r is None,
{
    let slen = s.len();
    proof {
            assert(seq![b0][0] == b0);
    }
    if slen - i >= 1 && s[i + 0] == b0 {
        assert(has_tag(s@, i as int, seq![b0]));
        Some(i + 1)
    } else {
        assert(!has_tag(s@, i as int, seq![b0]));
        None
    }
}

/// Matches a literal of 2 bytes at position `i`.
pub fn scan_tag2(s: &[u8], i: usize, b0: u8, b1: u8) -> (r: Option<usize>)
    requires
        i <= s@.len(),
    ensures
        has_tag(s@, i as int, seq![b0, b1]) ==> r == Some((i + 2) as usize),
        !has_tag(s@, i as int, seq![b0, b1]) ==> r is None,
{
    let slen = s.len();
    proof {
            assert(seq![b0, b1][0] == b0);
            assert(seq![b0, b1][1] == b1);
    }
    if slen - i >= 2 && s[i + 0] == b0 && s[i + 1] == b1 {
        assert(has_tag(s@, i as int, seq![b0, b1]));
        Some(i + 2)
    } else {
        assert(!has_tag(s@, i as int, seq![b0, b1]));
        None
    }
}

/// Matches a literal of 3 bytes at position `i`.
pub fn scan_tag3(s: &[u8], i: usize, b0: u8, b1: u8, b2: u8) -> (r: Option<usize>)
    requires
        i <= s@.len(),
    ensures
        has_tag(s@, i as int, seq![b0, b1, b2]) ==> r == Some((i + 3) as usize),
        !has_tag(s@, i as int, seq![b0, b1, b2]) ==> r is None,
{
    let slen = s.len();
    proof {
            assert(seq![b0, b1, b2][0] == b0);
            assert(seq![b0, b1, b2][1] == b1);
            assert(seq![b0, b1, b2][2] == b2);
    }
    if slen - i >= 3 && s[i + 0] == b0 && s[i + 1] == b1 && s[i + 2] == b2 {
        assert(has_tag(s@, i as int, seq![b0, b1, b2]));
        Some(i + 3)
    } else {
        assert(!has_tag(s@, i as int, seq![b0, b1, b2]));
        None
    }
}

/// Matches a literal of 4 bytes at position `i`.
pub fn scan_tag4(s: &[u8], i: usize, b0: u8, b1: u8, b2: u8, b3: u8) -> (r: Option<usize>)
    requires
        i <= s@.len(),
    ensures
        has_tag(s@, i as int, seq![b0, b1, b2, b3]) ==> r == Some((i + 4) as usize),
        !has_tag(s@, i as int, seq![b0, b1, b2, b3]) ==> r is None,
{
    let slen = s.len();
    proof {
            assert(seq![b0, b1, b2, b3][0] == b0);
            assert(seq![b0, b1, b2, b3][1] == b1);
            assert(seq![b0, b1, b2, b3][2] == b2);
            assert(seq![b0, b1, b2, b3][3] == b3);
    }
    if slen - i >= 4 && s[i + 0] == b0 && s[i + 1] == b1 && s[i + 2] == b2 && s[i + 3] == b3 {
        assert(has_tag(s@, i as int, seq![b0, b1, b2, b3]));
        Some(i + 4)
    } else {
        assert(!has_tag(s@, i as int, seq![b0, b1, b2, b3]));
        None
    }
}

/// Matches a literal of 5 bytes at position `i`.
pub fn scan_tag5(s: &[u8], i: usize, b0: u8, b1: u8, b2: u8, b3: u8, b4: u8) -> (r: Option<usize>)
    requires
        i <= s@.len(),
    ensures
        has_tag(s@, i as int, seq![b0, b1, b2, b3, b4]) ==> r == Some((i + 5) as usize),
        !has_tag(s@, i as int, seq![b0, b1, b2, b3, b4]) ==> r is None,
{
    let slen = s.len();
    proof {
            assert(seq![b0, b1, b2, b3, b4][0] == b0);
            assert(seq![b0, b1, b2, b3, b4][1] == b1);
            assert(seq![b0, b1, b2, b3, b4][2] == b2);
            assert(seq![b0, b1, b2, b3, b4][3] == b3);
            assert(seq![b0, b1, b2, b3, b4][4] == b4);
    }
    if slen - i >= 5 && s[i + 0] == b0 && s[i + 1] == b1 && s[i + 2] == b2 && s[i + 3] == b3 && s[i + 4] == b4 {
        assert(has_tag(s@, i as int, seq![b0, b1, b2, b3, b4]));
        Some(i + 5)
    } else {
        assert(!has_tag(s@, i as int, seq![b0, b1, b2, b3, b4]));
        None
    }
}

/// Matches a run of exactly `n` slashes at position `i`.
pub fn scan_slashes(s: &[u8], i: usize, n: usize) -> (r: bool)
    requires
        i <= s@.len(),
    ensures
        r == all_slashes(s@, i as int, n as int),
{
    if s.len() - i < n {
        return false;
    }
    let slen = s.len();
    let mut k: usize = 0;
    while k < n
        invariant
            0 <= k <= n,
            i + n <= s@.len(),
            s@.len() == slen,
            forall|m: int| i <= m < i + k ==> s@[m] == 47,
        decreases n - k,
    {
        if s[i + k] != 47u8 {
            assert(!all_slashes(s@, i as int, n as int));
            return false;
        }
        k = k + 1;
    }
    true
}

/// The greedy digit run starting at `i`: its value and end position, or
/// nothing when there is no digit or the run is longer than seven digits.
pub open spec fn sp_number(s: Seq<u8>, i: int) -> Option<(int, int)> {
    let j = digit_run_end(s, i);
    if j == i || j - i > 7 {
        None
    } else {
        Some((digits_value(s, i, j), j))
    }
}

/// Scans a greedy run of one to seven digits as a decimal number.
pub fn scan_number(s: &[u8], i: usize) -> (r: Option<(u32, usize)>)
    requires
        i <= s@.len(),
    ensures
        match (r, sp_number(s@, i as int)) {
            (Some((v, j)), Some((w, k))) => v as int == w && j as int == k && i < j <= s@.len()
                && v < 10000000,
            (None, None) => true,
            _ => false,
        },
{
    proof {
        lemma_digit_run_end_bounds(s@, i as int);
    }
    let mut j = i;
    let mut val: u32 = 0;
    while j < s.len() && 48u8 <= s[j] && s[j] <= 57u8 && j - i < 7
        invariant
            i <= j <= s@.len(),
            j - i <= 7,
            digit_run_end(s@, i as int) == digit_run_end(s@, j as int),
            digit_run_end(s@, i as int) <= s@.len(),
            forall|k: int| i <= k < j ==> #[trigger] is_digit(s@[k]),
            val == digits_value(s@, i as int, j as int),
            val < 10000000,
        decreases s@.len() - j,
    {
        assert(digits_value(s@, i as int, j as int) < 1000000) by {
            lemma_digits_value_bound_six(s@, i as int, j as int);
        }
        val = val * 10 + ((s[j] - 48) as u32);
        j = j + 1;
    }
    if j == i {
        return None;
    }
    if j < s.len() && 48u8 <= s[j] && s[j] <= 57u8 {
        // an eighth digit: the run is too long to be a report field
        assert(digit_run_end(s@, i as int) - i > 7) by {
            lemma_digit_run_end_bounds(s@, j as int + 1);
        }
        return None;
    }
    assert(digit_run_end(s@, j as int) == j);
    Some((val, j))
}

/// Scans exactly `n` digits (`1 <= n <= 6`) as a decimal number.
pub fn scan_digits_exact(s: &[u8], i: usize, n: usize) -> (r: Option<u32>)
    requires
        i <= s@.len(),
        1 <= n <= 6,
    ensures
        ({
            let ok = i + n <= s@.len() && (forall|k: int|
                i <= k < i + n ==> #[trigger] is_digit(s@[k]));
            &&& (ok ==> r == Some(digits_value(s@, i as int, i + n as int) as u32))
            &&& (!ok ==> r is None)
        }),
{
    if s.len() - i < n {
        return None;
    }
    let slen = s.len();
    let mut k: usize = 0;
    let mut val: u32 = 0;
    while k < n
        invariant
            0 <= k <= n,
            n <= 6,
            i + n <= s@.len(),
            s@.len() == slen,
            forall|m: int| i <= m < i + k ==> #[trigger] is_digit(s@[m]),
            val == digits_value(s@, i as int, (i + k) as int),
            val < 1000000,
        decreases n - k,
    {
        if !(48u8 <= s[i + k] && s[i + k] <= 57u8) {
            assert(!is_digit(s@[i + k]));
            return None;
        }
        assert(digits_value(s@, i as int, (i + k) as int) < 100000) by {
            lemma_digits_value_bound_five(s@, i as int, (i + k) as int);
        }
        val = val * 10 + ((s[i + k] - 48) as u32);
        k = k + 1;
    }
    Some(val)
}

/// End of the greedy run of letters and digits starting at `i`.
pub fn scan_alnum_end(s: &[u8], i: usize) -> (j: usize)
    requires
        i <= s@.len(),
    ensures
        j == alnum_run_end(s@, i as int),
        i <= j <= s@.len(),
{
    proof {
        lemma_alnum_run_end_bounds(s@, i as int);
    }
    let mut j = i;
    while j < s.len() && (48u8 <= s[j] && s[j] <= 57u8 || 65u8 <= s[j] && s[j] <= 90u8 || 97u8
        <= s[j] && s[j] <= 122u8)
        invariant
            i <= j <= s@.len(),
            alnum_run_end(s@, i as int) == alnum_run_end(s@, j as int),
            alnum_run_end(s@, i as int) <= s@.len(),
        decreases s@.len() - j,
    {
        j = j + 1;
    }
    j
}

/// Copies `s[i..j)` into a fresh vector.
pub fn copy_range(s: &[u8], i: usize, j: usize) -> (r: Vec<u8>)
    requires
        i <= j <= s@.len(),
    ensures
        r@ =~= s@.subrange(i as int, j as int),
{
    let mut r: Vec<u8> = Vec::new();
    let mut k = i;
    while k < j
        invariant
            i <= k <= j <= s@.len(),
            r@ =~= s@.subrange(i as int, k as int),
        decreases j - k,
    {
        r.push(s[k]);
        assert(r@ =~= s@.subrange(i as int, (k + 1) as int));
        k = k + 1;
    }
    r
}

} // verus!
