//! Character-level helpers shared by the parsers of this crate.
//!
//! Text is handled as a vector of `char`, whose view is the same sequence
//! that a `str` has, so that every index below is an index of characters.

use vstd::prelude::*;

verus! {

/// The characters of `s`, in order.
pub fn to_chars(s: &str) -> (v: Vec<char>)
    ensures
        v@ == s@,
{
    let mut v: Vec<char> = Vec::new();
    for c in it: s.chars()
        invariant
            it.seq() == s@,
            v@ == it.seq().take(it.index() as int),
    {
        v.push(c);
    }
    v
}

/// Whether `c` has the Unicode property `White_Space`.
pub open spec fn is_space(c: char) -> bool {
    let n = c as u32;
    ||| 0x09 <= n <= 0x0d
    ||| n == 0x20
    ||| n == 0x85
    ||| n == 0xa0
    ||| n == 0x1680
    ||| 0x2000 <= n <= 0x200a
    ||| n == 0x2028
    ||| n == 0x2029
    ||| n == 0x202f
    ||| n == 0x205f
    ||| n == 0x3000
}

/// Tests a character for the Unicode property `White_Space`.
pub fn is_whitespace(c: char) -> (r: bool)
    ensures
        r == is_space(c),
{
    let n: u32 = c as u32;
    (0x09 <= n && n <= 0x0d) || n == 0x20 || n == 0x85 || n == 0xa0 || n == 0x1680 || (0x2000 <= n
        && n <= 0x200a) || n == 0x2028 || n == 0x2029 || n == 0x202f || n == 0x205f || n == 0x3000
}

/// Whether the characters of `s` from `at` on begin with `pattern`.
pub open spec fn occurs_at(s: Seq<char>, at: int, pattern: Seq<char>) -> bool {
    &&& 0 <= at
    &&& at + pattern.len() <= s.len()
    &&& s.subrange(at, at + pattern.len()) == pattern
}

/// Whether `pattern` occurs somewhere in `s`.
pub open spec fn contains_text(s: Seq<char>, pattern: Seq<char>) -> bool {
    exists|at: int| occurs_at(s, at, pattern)
}

/// Whether `s` begins with `pattern`.
pub open spec fn starts_with_text(s: Seq<char>, pattern: Seq<char>) -> bool {
    occurs_at(s, 0, pattern)
}

/// Compares `pattern` with the characters of `v` that begin at `at`.
pub fn matches_at(v: &Vec<char>, at: usize, pattern: &Vec<char>) -> (r: bool)
    ensures
        r == occurs_at(v@, at as int, pattern@),
{
    if at > v.len() || pattern.len() > v.len() - at {
        return false;
    }
    let mut i: usize = 0;
    while i < pattern.len()
        invariant
            at + pattern.len() <= v.len(),
            i <= pattern.len(),
            forall|j: int| 0 <= j < i ==> v@[at + j] == pattern@[j],
        decreases pattern.len() - i,
    {
        if v[at + i] != pattern[i] {
            return false;
        }
        i += 1;
    }
    assert(v@.subrange(at as int, at + pattern.len()) =~= pattern@);
    true
}

/// Whether two texts hold the same characters.
pub fn same_text(a: &str, b: &str) -> (r: bool)
    ensures
        r == (a@ == b@),
{
    let x = to_chars(a);
    let y = to_chars(b);
    if x.len() != y.len() {
        return false;
    }
    let r = matches_at(&x, 0, &y);
    assert(x@.subrange(0, y@.len() as int) =~= x@);
    r
}

/// Whether `text` begins with `pattern`.
pub fn starts_with(text: &Vec<char>, pattern: &Vec<char>) -> (r: bool)
    ensures
        r == starts_with_text(text@, pattern@),
{
    matches_at(text, 0, pattern)
}

/// Whether the characters of `v` between `start` and `end` begin with
/// `pattern`.
pub fn range_starts_with(v: &Vec<char>, start: usize, end: usize, pattern: &Vec<char>) -> (r:
    bool)
    requires
        start <= end <= v.len(),
    ensures
        r == starts_with_text(v@.subrange(start as int, end as int), pattern@),
{
    if pattern.len() > end - start {
        return false;
    }
    let r = matches_at(v, start, pattern);
    assert(v@.subrange(start as int, end as int).subrange(0, pattern@.len() as int)
        =~= v@.subrange(start as int, start + pattern@.len()));
    r
}

/// Searches `text` for `pattern`.
pub fn contains(text: &Vec<char>, pattern: &Vec<char>) -> (r: bool)
    ensures
        r == contains_text(text@, pattern@),
{
    if pattern.len() > text.len() {
        return false;
    }
    let last: usize = text.len() - pattern.len();
    let mut i: usize = 0;
    while i < last
        invariant
            last == text.len() - pattern.len(),
            i <= last,
            forall|at: int| 0 <= at < i ==> !occurs_at(text@, at, pattern@),
        decreases last - i,
    {
        if matches_at(text, i, pattern) {
            return true;
        }
        i += 1;
    }
    let r = matches_at(text, last, pattern);
    r
}

/// The number of white-space characters at the front of `s`.
pub open spec fn leading_spaces(s: Seq<char>) -> nat
    decreases s.len(),
{
    if s.len() > 0 && is_space(s[0]) {
        1 + leading_spaces(s.skip(1))
    } else {
        0
    }
}

/// The number of white-space characters at the back of `s`.
pub open spec fn trailing_spaces(s: Seq<char>) -> nat
    decreases s.len(),
{
    if s.len() > 0 && is_space(s.last()) {
        1 + trailing_spaces(s.drop_last())
    } else {
        0
    }
}

/// `s` without the white space at its two ends.
pub open spec fn trim_text(s: Seq<char>) -> Seq<char> {
    let t = s.skip(leading_spaces(s) as int);
    t.take(t.len() - trailing_spaces(t))
}

proof fn lemma_leading_spaces(s: Seq<char>, k: int)
    requires
        0 <= k <= s.len(),
        forall|i: int| 0 <= i < k ==> is_space(s[i]),
        k == s.len() || !is_space(s[k]),
    ensures
        leading_spaces(s) == k,
    decreases k,
{
    if k > 0 {
        let rest = s.skip(1);
        lemma_leading_spaces(rest, k - 1);
    }
}

proof fn lemma_trailing_spaces(s: Seq<char>, k: int)
    requires
        0 <= k <= s.len(),
        forall|i: int| s.len() - k <= i < s.len() ==> is_space(s[i]),
        k == s.len() || !is_space(s[s.len() - k - 1]),
    ensures
        trailing_spaces(s) == k,
    decreases k,
{
    if k > 0 {
        let rest = s.drop_last();
        lemma_trailing_spaces(rest, k - 1);
    }
}

/// The bounds of the characters of `v` between `start` and `end` that are left
/// once the white space at the two ends is taken away.
pub fn trim_bounds(v: &Vec<char>, start: usize, end: usize) -> (r: (usize, usize))
    requires
        start <= end <= v.len(),
    ensures
        start <= r.0 <= r.1 <= end,
        v@.subrange(r.0 as int, r.1 as int) == trim_text(v@.subrange(start as int, end as int)),
{
    let mut a: usize = start;
    while a < end && is_whitespace(v[a])
        invariant
            start <= a <= end <= v.len(),
            forall|i: int| start <= i < a ==> is_space(v@[i]),
        decreases end - a,
    {
        a += 1;
    }
    let mut b: usize = end;
    while b > a && is_whitespace(v[b - 1])
        invariant
            a <= b <= end <= v.len(),
            forall|i: int| b <= i < end ==> is_space(v@[i]),
        decreases b,
    {
        b -= 1;
    }
    proof {
        let s = v@.subrange(start as int, end as int);
        lemma_leading_spaces(s, a - start);
        let t = s.skip(a - start);
        lemma_trailing_spaces(t, end - b);
    }
    (a, b)
}

/// The place of the first comma of `s`, its length where it has none.
pub open spec fn first_comma(s: Seq<char>) -> nat
    decreases s.len(),
{
    if s.len() == 0 || s[0] == ',' {
        0
    } else {
        1 + first_comma(s.skip(1))
    }
}

/// The first comma of `s` stands at `k` where no comma stands before `k` and
/// one stands at `k`, or `s` ends there.
pub proof fn lemma_first_comma(s: Seq<char>, k: int)
    requires
        0 <= k <= s.len(),
        forall|i: int| 0 <= i < k ==> s[i] != ',',
        k == s.len() || s[k] == ',',
    ensures
        first_comma(s) == k,
    decreases k,
{
    if k > 0 {
        let rest = s.skip(1);
        lemma_first_comma(rest, k - 1);
    }
}

/// The entries of the list `s`, which commas part, each without the white
/// space round it. A list without a comma has one entry, which may be empty.
pub open spec fn comma_entries(s: Seq<char>) -> Seq<Seq<char>>
    decreases s.len(),
{
    let k = first_comma(s) as int;
    let entry = seq![trim_text(s.take(k))];
    if k >= s.len() {
        entry
    } else {
        entry + comma_entries(s.skip(k + 1))
    }
}

/// The texts of a vector of texts.
pub open spec fn texts_of(v: Seq<String>) -> Seq<Seq<char>> {
    Seq::new(v.len(), |i: int| v[i]@)
}

/// Parts a list at its commas and takes the white space from the ends of
/// each entry.
pub fn split_entries(list: &str) -> (r: Vec<String>)
    ensures
        texts_of(r@) == comma_entries(list@),
{
    let chars = to_chars(list);
    let mut entries: Vec<String> = Vec::new();
    let mut start: usize = 0;
    assert(chars@.skip(0) =~= chars@);
    loop
        invariant
            chars@ == list@,
            start <= chars.len(),
            comma_entries(list@) == texts_of(entries@) + comma_entries(chars@.skip(start as int)),
        decreases chars.len() - start,
    {
        let ghost rest = chars@.skip(start as int);
        let mut end: usize = start;
        while end < chars.len() && chars[end] != ','
            invariant
                start <= end <= chars.len(),
                forall|i: int| start <= i < end ==> chars@[i] != ',',
            decreases chars.len() - end,
        {
            end += 1;
        }
        proof {
            lemma_first_comma(rest, end - start);
            assert(rest.take(end - start) =~= chars@.subrange(start as int, end as int));
        }
        let (from, to) = trim_bounds(&chars, start, end);
        entries.push(slice_text(list, from, to));
        if end >= chars.len() {
            return entries;
        }
        proof {
            assert(rest.skip(end - start + 1) =~= chars@.skip(end + 1));
        }
        start = end + 1;
    }
}

/// Reads `text` as `str::parse` reads a `u32`.
pub fn parse_u32(text: &str) -> (r: Option<u32>)
    ensures
        match r {
            Some(n) => unsigned_numeral(text@, u32::MAX as int) == Some(n as int),
            None => unsigned_numeral(text@, u32::MAX as int) is None,
        },
{
    let chars = to_chars(text);
    assert(chars@.subrange(0, chars@.len() as int) =~= chars@);
    read_u32(&chars, 0, chars.len())
}

/// Reads `text` as `str::parse` reads a `u8`.
pub fn parse_u8(text: &str) -> (r: Option<u8>)
    ensures
        match r {
            Some(n) => unsigned_numeral(text@, u8::MAX as int) == Some(n as int),
            None => unsigned_numeral(text@, u8::MAX as int) is None,
        },
{
    let chars = to_chars(text);
    assert(chars@.subrange(0, chars@.len() as int) =~= chars@);
    read_u8(&chars, 0, chars.len())
}

/// Reads `text` as `str::parse` reads a `u16`.
pub fn parse_u16(text: &str) -> (r: Option<u16>)
    ensures
        match r {
            Some(n) => unsigned_numeral(text@, u16::MAX as int) == Some(n as int),
            None => unsigned_numeral(text@, u16::MAX as int) is None,
        },
{
    let chars = to_chars(text);
    assert(chars@.subrange(0, chars@.len() as int) =~= chars@);
    let from: usize = if chars.len() > 0 && chars[0] == '+' {
        1
    } else {
        0
    };
    match read_numeral(&chars, from, chars.len(), 0xffff) {
        Some(n) => Some(n as u16),
        None => None,
    }
}

/// Whether `c` is one of the ten decimal digits.
pub open spec fn is_digit(c: char) -> bool {
    0x30 <= c as u32 <= 0x39
}

/// The value of the decimal digit `c`.
pub open spec fn digit_of(c: char) -> int {
    c as u32 - 0x30
}

/// Whether `s` holds decimal digits only.
pub open spec fn all_digits(s: Seq<char>) -> bool {
    forall|i: int| 0 <= i < s.len() ==> is_digit(#[trigger] s[i])
}

/// The number that the digits of `s` write in base ten.
pub open spec fn digits_value(s: Seq<char>) -> int
    decreases s.len(),
{
    if s.len() == 0 {
        0
    } else {
        digits_value(s.drop_last()) * 10 + digit_of(s.last())
    }
}

/// The number that `s` writes, if it is a plain decimal numeral of at least
/// one digit and the number is at most `max`.
pub open spec fn plain_numeral(s: Seq<char>, max: int) -> Option<int> {
    if s.len() > 0 && all_digits(s) && digits_value(s) <= max {
        Some(digits_value(s))
    } else {
        None
    }
}

/// The number that `s` writes for an unsigned integer type whose greatest
/// value is `max`: digits, with `+` allowed in front.
pub open spec fn unsigned_numeral(s: Seq<char>, max: int) -> Option<int> {
    if s.len() > 0 && s[0] == '+' {
        plain_numeral(s.skip(1), max)
    } else {
        plain_numeral(s, max)
    }
}

/// The number that `s` writes for a signed integer type that reaches from
/// `-(max + 1)` to `max`: digits, with `+` or `-` allowed in front.
pub open spec fn signed_numeral(s: Seq<char>, max: int) -> Option<int> {
    if s.len() > 0 && s[0] == '-' {
        match plain_numeral(s.skip(1), max + 1) {
            Some(n) => Some(-n),
            None => None,
        }
    } else {
        unsigned_numeral(s, max)
    }
}

proof fn lemma_digits_prefix(s: Seq<char>, k: int)
    requires
        all_digits(s),
        0 <= k <= s.len(),
    ensures
        0 <= digits_value(s.take(k)) <= digits_value(s),
    decreases s.len() - k,
{
    if k == s.len() {
        assert(s.take(k) =~= s);
        lemma_digits_nonnegative(s);
    } else {
        let shorter = s.drop_last();
        assert(shorter.take(k) =~= s.take(k));
        lemma_digits_prefix(shorter, k);
    }
}

proof fn lemma_digits_nonnegative(s: Seq<char>)
    requires
        all_digits(s),
    ensures
        0 <= digits_value(s),
    decreases s.len(),
{
    if s.len() > 0 {
        let shorter = s.drop_last();
        lemma_digits_nonnegative(shorter);
    }
}

/// Reads the characters of `v` between `start` and `end` as a plain decimal
/// numeral that is at most `max`.
pub fn read_numeral(v: &Vec<char>, start: usize, end: usize, max: u64) -> (r: Option<u64>)
    requires
        start <= end <= v.len(),
        max <= 0xffff_ffff,
    ensures
        match r {
            Some(n) => plain_numeral(v@.subrange(start as int, end as int), max as int) == Some(
                n as int,
            ),
            None => plain_numeral(v@.subrange(start as int, end as int), max as int) is None,
        },
{
    let ghost s = v@.subrange(start as int, end as int);
    if start == end {
        return None;
    }
    let mut acc: u64 = 0;
    let mut i: usize = start;
    while i < end
        invariant
            start <= i <= end <= v.len(),
            s == v@.subrange(start as int, end as int),
            all_digits(s.take(i - start)),
            acc == digits_value(s.take(i - start)),
            acc <= max <= 0xffff_ffff,
        decreases end - i,
    {
        let n: u32 = v[i] as u32;
        if n < 0x30 || n > 0x39 {
            assert(s[i - start] == v@[i as int]);
            return None;
        }
        let next: u64 = acc * 10 + (n - 0x30) as u64;
        proof {
            let longer = s.take(i + 1 - start);
            assert(longer.drop_last() =~= s.take(i - start));
            assert forall|j: int| 0 <= j < longer.len() implies is_digit(#[trigger] longer[j]) by {
            }
            if next > max && all_digits(s) {
                lemma_digits_prefix(s, i + 1 - start);
            }
        }
        if next > max {
            return None;
        }
        acc = next;
        i += 1;
    }
    assert(s.take(end - start) =~= s);
    Some(acc)
}

/// Reads the characters of `v` between `start` and `end` as `str::parse` reads
/// a `u32`.
pub fn read_u32(v: &Vec<char>, start: usize, end: usize) -> (r: Option<u32>)
    requires
        start <= end <= v.len(),
    ensures
        match r {
            Some(n) => unsigned_numeral(v@.subrange(start as int, end as int), u32::MAX as int)
                == Some(n as int),
            None => unsigned_numeral(v@.subrange(start as int, end as int), u32::MAX as int)
                is None,
        },
{
    let ghost s = v@.subrange(start as int, end as int);
    let from: usize = if start < end && v[start] == '+' {
        start + 1
    } else {
        start
    };
    proof {
        if from > start {
            assert(s.skip(1) =~= v@.subrange(from as int, end as int));
        }
    }
    match read_numeral(v, from, end, 0xffff_ffff) {
        Some(n) => Some(n as u32),
        None => None,
    }
}

/// Reads the characters of `v` between `start` and `end` as `str::parse` reads
/// a `u8`.
pub fn read_u8(v: &Vec<char>, start: usize, end: usize) -> (r: Option<u8>)
    requires
        start <= end <= v.len(),
    ensures
        match r {
            Some(n) => unsigned_numeral(v@.subrange(start as int, end as int), u8::MAX as int)
                == Some(n as int),
            None => unsigned_numeral(v@.subrange(start as int, end as int), u8::MAX as int)
                is None,
        },
{
    let ghost s = v@.subrange(start as int, end as int);
    let from: usize = if start < end && v[start] == '+' {
        start + 1
    } else {
        start
    };
    proof {
        if from > start {
            assert(s.skip(1) =~= v@.subrange(from as int, end as int));
        }
    }
    match read_numeral(v, from, end, 0xff) {
        Some(n) => Some(n as u8),
        None => None,
    }
}

/// Reads the characters of `v` between `start` and `end` as `str::parse` reads
/// an `i8`.
pub fn read_i8(v: &Vec<char>, start: usize, end: usize) -> (r: Option<i8>)
    requires
        start <= end <= v.len(),
    ensures
        match r {
            Some(n) => signed_numeral(v@.subrange(start as int, end as int), i8::MAX as int)
                == Some(n as int),
            None => signed_numeral(v@.subrange(start as int, end as int), i8::MAX as int)
                is None,
        },
{
    let ghost s = v@.subrange(start as int, end as int);
    proof {
        if start < end {
            assert(s.skip(1) =~= v@.subrange(start + 1, end as int));
        }
    }
    if start < end && v[start] == '-' {
        match read_numeral(v, start + 1, end, 128) {
            Some(n) => {
                let wide: i64 = -(n as i64);
                Some(wide as i8)
            },
            None => None,
        }
    } else {
        let from: usize = if start < end && v[start] == '+' {
            start + 1
        } else {
            start
        };
        match read_numeral(v, from, end, 127) {
            Some(n) => Some(n as i8),
            None => None,
        }
    }
}

/// The character that writes the digit `d`.
pub open spec fn digit_char(d: int) -> char {
    if d == 0 {
        '0'
    } else if d == 1 {
        '1'
    } else if d == 2 {
        '2'
    } else if d == 3 {
        '3'
    } else if d == 4 {
        '4'
    } else if d == 5 {
        '5'
    } else if d == 6 {
        '6'
    } else if d == 7 {
        '7'
    } else if d == 8 {
        '8'
    } else {
        '9'
    }
}

/// The digits that write `n` in base ten, without leading zeros.
pub open spec fn decimal_digits(n: nat) -> Seq<char>
    decreases n,
{
    if n < 10 {
        seq![digit_char(n as int)]
    } else {
        decimal_digits(n / 10) + seq![digit_char((n % 10) as int)]
    }
}

/// The text that writes the integer `n` in base ten.
pub open spec fn decimal_text(n: int) -> Seq<char> {
    if n < 0 {
        seq!['-'] + decimal_digits((-n) as nat)
    } else {
        decimal_digits(n as nat)
    }
}

fn digit_text(d: u64) -> (r: &'static str)
    requires
        d < 10,
    ensures
        r@ == seq![digit_char(d as int)],
{
    proof {
        reveal_strlit("0");
        reveal_strlit("1");
        reveal_strlit("2");
        reveal_strlit("3");
        reveal_strlit("4");
        reveal_strlit("5");
        reveal_strlit("6");
        reveal_strlit("7");
        reveal_strlit("8");
        reveal_strlit("9");
    }
    let r = if d == 0 {
        "0"
    } else if d == 1 {
        "1"
    } else if d == 2 {
        "2"
    } else if d == 3 {
        "3"
    } else if d == 4 {
        "4"
    } else if d == 5 {
        "5"
    } else if d == 6 {
        "6"
    } else if d == 7 {
        "7"
    } else if d == 8 {
        "8"
    } else {
        "9"
    };
    r
}

/// Writes `n` in base ten.
pub fn unsigned_text(n: u64) -> (r: String)
    ensures
        r@ == decimal_digits(n as nat),
    decreases n,
{
    if n < 10 {
        String::from_str(digit_text(n))
    } else {
        let mut r = unsigned_text(n / 10);
        r.append(digit_text(n % 10));
        r
    }
}

/// Writes `n` in base ten, with `-` in front of a negative number.
pub fn integer_text(n: i64) -> (r: String)
    ensures
        r@ == decimal_text(n as int),
{
    if n < 0 {
        let magnitude: u64 = (-(n + 1)) as u64 + 1;
        let mut r = String::from_str("-");
        proof {
            reveal_strlit("-");
        }
        let digits = unsigned_text(magnitude);
        r.append(digits.as_str());
        r
    } else {
        unsigned_text(n as u64)
    }
}

/// The characters of `s` from index `from` up to index `to`, as a text of their own.
pub fn slice_text(s: &str, from: usize, to: usize) -> (r: String)
    requires
        from <= to <= s@.len(),
    ensures
        r@ == s@.subrange(from as int, to as int),
{
    String::from_str(s.substring_char(from, to))
}

/// `a` followed by `b`.
pub fn join_text(a: &str, b: &str) -> (r: String)
    ensures
        r@ == a@ + b@,
{
    let mut r = String::from_str(a);
    r.append(b);
    r
}

} // verus!
