//! Character-level text helpers with exact specifications.

use vstd::prelude::*;

verus! {

/// Appends one character to a `String` (std `String::push`).
#[verifier::external_body]
pub(crate) fn push_char(s: &mut String, c: char)
    ensures
        final(s)@ == old(s)@.push(c),
{
    s.push(c)
}

/// The characters of `s`, in order.
pub fn chars_of(s: &str) -> (res: Vec<char>)
    ensures
        res@ == s@,
{
    let mut res: Vec<char> = Vec::new();
    for c in it: s.chars()
        invariant
            res@ == it.seq().take(it.index() as int),
            it.seq() == s@,
    {
        res.push(c);
    }
    res
}

/// Builds a `String` from characters.
pub fn string_of(cs: &[char]) -> (res: String)
    ensures
        res@ == cs@,
{
    let mut res = String::new();
    let mut i: usize = 0;
    while i < cs.len()
        invariant
            i <= cs.len(),
            res@ == cs@.take(i as int),
        decreases cs.len() - i,
    {
        push_char(&mut res, cs[i]);
        assert(cs@.take(i as int).push(cs@[i as int]) == cs@.take(i + 1));
        i = i + 1;
    }
    assert(cs@.take(cs.len() as int) == cs@);
    res
}

/// Whether two strings hold the same characters.
pub fn text_eq(a: &str, b: &str) -> (res: bool)
    ensures
        res == (a@ == b@),
{
    String::from_str(a) == String::from_str(b)
}


/// Whether `c` has the Unicode `White_Space` property (what `char::is_whitespace` tests).
pub open spec fn is_white_space(c: char) -> bool {
    let u = c as u32;
    ||| 0x09 <= u && u <= 0x0d
    ||| u == 0x20
    ||| u == 0x85
    ||| u == 0xa0
    ||| u == 0x1680
    ||| 0x2000 <= u && u <= 0x200a
    ||| u == 0x2028
    ||| u == 0x2029
    ||| u == 0x202f
    ||| u == 0x205f
    ||| u == 0x3000
}

/// `s` without its leading white space.
pub open spec fn trim_start_seq(s: Seq<char>) -> Seq<char>
    decreases s.len(),
{
    if s.len() > 0 && is_white_space(s[0]) {
        trim_start_seq(s.drop_first())
    } else {
        s
    }
}

/// `s` without its trailing white space.
pub open spec fn trim_end_seq(s: Seq<char>) -> Seq<char>
    decreases s.len(),
{
    if s.len() > 0 && is_white_space(s.last()) {
        trim_end_seq(s.drop_last())
    } else {
        s
    }
}

/// `s` without leading and trailing white space (what `str::trim` gives).
pub open spec fn trim_seq(s: Seq<char>) -> Seq<char> {
    trim_end_seq(trim_start_seq(s))
}

/// Whether `c` has the White_Space property.
pub fn is_whitespace(c: char) -> (res: bool)
    ensures
        res == is_white_space(c),
{
    let u = c as u32;
    (0x09 <= u && u <= 0x0d) || u == 0x20 || u == 0x85 || u == 0xa0 || u == 0x1680 || (0x2000
        <= u && u <= 0x200a) || u == 0x2028 || u == 0x2029 || u == 0x202f || u == 0x205f || u
        == 0x3000
}

proof fn lemma_trim_start_skip(s: Seq<char>, i: int)
    requires
        0 <= i < s.len(),
        is_white_space(s[i]),
    ensures
        trim_start_seq(s.skip(i)) == trim_start_seq(s.skip(i + 1)),
{
    assert(s.skip(i).drop_first() =~= s.skip(i + 1));
}

proof fn lemma_trim_end_sub(s: Seq<char>, i: int, j: int)
    requires
        0 <= i < j <= s.len(),
        is_white_space(s[j - 1]),
    ensures
        trim_end_seq(s.subrange(i, j)) == trim_end_seq(s.subrange(i, j - 1)),
{
    assert(s.subrange(i, j).drop_last() =~= s.subrange(i, j - 1));
}

/// The characters of `cs` without leading and trailing white space.
pub fn trim_chars(cs: &[char]) -> (res: Vec<char>)
    ensures
        res@ == trim_seq(cs@),
{
    let n = cs.len();
    let mut i: usize = 0;
    assert(cs@.skip(0) =~= cs@);
    while i < n && is_whitespace(cs[i])
        invariant
            i <= n,
            n == cs@.len(),
            trim_start_seq(cs@) == trim_start_seq(cs@.skip(i as int)),
        decreases n - i,
    {
        proof {
            lemma_trim_start_skip(cs@, i as int);
        }
        i = i + 1;
    }
    proof {
        if i < n {
            assert(!is_white_space(cs@.skip(i as int)[0]));
        } else {
            assert(cs@.skip(i as int).len() == 0);
        }
    }
    assert(trim_start_seq(cs@) == cs@.subrange(i as int, n as int));
    let mut j: usize = n;
    while j > i && is_whitespace(cs[j - 1])
        invariant
            i <= j <= n,
            n == cs@.len(),
            trim_seq(cs@) == trim_end_seq(cs@.subrange(i as int, j as int)),
        decreases j,
    {
        proof {
            lemma_trim_end_sub(cs@, i as int, j as int);
        }
        j = j - 1;
    }
    let mut res: Vec<char> = Vec::new();
    let mut k: usize = i;
    while k < j
        invariant
            i <= k <= j <= n,
            n == cs@.len(),
            res@ == cs@.subrange(i as int, k as int),
        decreases j - k,
    {
        res.push(cs[k]);
        assert(cs@.subrange(i as int, k as int).push(cs@[k as int]) =~= cs@.subrange(
            i as int,
            k + 1,
        ));
        k = k + 1;
    }
    res
}

/// `s` without leading and trailing white space (`str::trim`).
pub fn trim(s: &str) -> (res: String)
    ensures
        res@ == trim_seq(s@),
{
    let cs = chars_of(s);
    let t = trim_chars(cs.as_slice());
    string_of(t.as_slice())
}

/// Whether `s` is empty once trimmed.
pub fn is_blank(s: &str) -> (res: bool)
    ensures
        res == (trim_seq(s@).len() == 0),
{
    let t = trim(s);
    t.as_str().unicode_len() == 0
}


/// The view of an optional string.
pub open spec fn opt_seq(o: Option<String>) -> Option<Seq<char>> {
    match o {
        Some(s) => Some(s@),
        None => None,
    }
}

/// The concatenation of `a` and `b`.
pub fn concat(a: &str, b: &str) -> (res: String)
    ensures
        res@ == a@ + b@,
{
    let mut res = String::from_str(a);
    res.append(b);
    res
}

/// The concatenation of `a`, `b` and `c`.
pub fn concat3(a: &str, b: &str, c: &str) -> (res: String)
    ensures
        res@ == a@ + b@ + c@,
{
    let mut res = String::from_str(a);
    res.append(b);
    res.append(c);
    res
}

/// Whether `s` begins with `p`.
pub open spec fn starts_with_seq(s: Seq<char>, p: Seq<char>) -> bool {
    p.len() <= s.len() && s.take(p.len() as int) == p
}

/// Whether `p` occurs in `s`.
pub open spec fn contains_seq(s: Seq<char>, p: Seq<char>) -> bool {
    exists|i: int| 0 <= i && i + p.len() <= s.len() && #[trigger] s.subrange(i, i + p.len()) == p
}

/// Whether `cs[at..at + p.len()]` equals `p`.
fn matches_at(cs: &[char], p: &[char], at: usize) -> (res: bool)
    requires
        at + p@.len() <= cs@.len(),
    ensures
        res == (cs@.subrange(at as int, at + p@.len()) == p@),
{
    let mut k: usize = 0;
    while k < p.len()
        invariant
            k <= p@.len(),
            at + p@.len() <= cs@.len(),
            forall|m: int| 0 <= m < k ==> cs@[at + m] == p@[m],
        decreases p.len() - k,
    {
        assert(at + k < cs.len());
        if cs[at + k] != p[k] {
            assert(cs@.subrange(at as int, at + p@.len())[k as int] != p@[k as int]);
            return false;
        }
        k = k + 1;
    }
    assert(cs@.subrange(at as int, at + p@.len()) =~= p@);
    true
}

/// Whether `s` begins with `p` (`str::starts_with`).
pub fn starts_with(s: &str, p: &str) -> (res: bool)
    ensures
        res == starts_with_seq(s@, p@),
{
    let cs = chars_of(s);
    let ps = chars_of(p);
    if ps.len() > cs.len() {
        return false;
    }
    let r = matches_at(cs.as_slice(), ps.as_slice(), 0);
    assert(cs@.subrange(0, ps@.len() as int) =~= cs@.take(ps@.len() as int));
    r
}

/// `s` without the prefix `p`, where `s` begins with it (`str::strip_prefix`).
pub fn strip_prefix(s: &str, p: &str) -> (res: Option<String>)
    ensures
        match res {
            Some(rest) => starts_with_seq(s@, p@) && rest@ == s@.skip(p@.len() as int),
            None => !starts_with_seq(s@, p@),
        },
{
    if !starts_with(s, p) {
        return None;
    }
    let cs = chars_of(s);
    let ps = chars_of(p);
    let mut rest: Vec<char> = Vec::new();
    let mut k: usize = ps.len();
    while k < cs.len()
        invariant
            ps@.len() <= k <= cs@.len(),
            rest@ == cs@.subrange(ps@.len() as int, k as int),
        decreases cs.len() - k,
    {
        rest.push(cs[k]);
        assert(cs@.subrange(ps@.len() as int, k as int).push(cs@[k as int]) =~= cs@.subrange(
            ps@.len() as int,
            k + 1,
        ));
        k = k + 1;
    }
    assert(cs@.subrange(ps@.len() as int, cs@.len() as int) =~= cs@.skip(ps@.len() as int));
    Some(string_of(rest.as_slice()))
}

/// Whether `p` occurs in `s` (`str::contains`).
pub fn contains(s: &str, p: &str) -> (res: bool)
    ensures
        res == contains_seq(s@, p@),
{
    let cs = chars_of(s);
    let ps = chars_of(p);
    if ps.len() > cs.len() {
        assert forall|i: int| 0 <= i && i + p@.len() <= s@.len() implies #[trigger] s@.subrange(
            i,
            i + p@.len(),
        ) != p@ by {}
        return false;
    }
    let mut i: usize = 0;
    if ps.len() == 0 {
        assert(s@.subrange(0, 0 + p@.len() as int) =~= p@);
        return true;
    }
    let last = cs.len() - ps.len();
    while i <= last
        invariant
            last == cs@.len() - ps@.len(),
            last < cs.len(),
            ps@.len() <= cs@.len(),
            cs@ == s@,
            ps@ == p@,
            i <= last + 1,
            forall|j: int| 0 <= j < i ==> #[trigger] s@.subrange(j, j + p@.len()) != p@,
        decreases last + 1 - i,
    {
        if matches_at(cs.as_slice(), ps.as_slice(), i) {
            return true;
        }
        i = i + 1;
    }
    assert forall|j: int| 0 <= j && j + p@.len() <= s@.len() implies #[trigger] s@.subrange(
        j,
        j + p@.len(),
    ) != p@ by {}
    false
}

/// `s` without trailing occurrences of `c`.
pub open spec fn trim_end_char_seq(s: Seq<char>, c: char) -> Seq<char>
    decreases s.len(),
{
    if s.len() > 0 && s.last() == c {
        trim_end_char_seq(s.drop_last(), c)
    } else {
        s
    }
}

/// `s` without leading occurrences of `c`.
pub open spec fn trim_start_char_seq(s: Seq<char>, c: char) -> Seq<char>
    decreases s.len(),
{
    if s.len() > 0 && s[0] == c {
        trim_start_char_seq(s.drop_first(), c)
    } else {
        s
    }
}

/// `s` without trailing occurrences of `c` (`str::trim_end_matches` with a char).
pub fn trim_end_char(s: &str, c: char) -> (res: String)
    ensures
        res@ == trim_end_char_seq(s@, c),
{
    let cs = chars_of(s);
    let mut j: usize = cs.len();
    assert(cs@.take(cs@.len() as int) =~= cs@);
    while j > 0 && cs[j - 1] == c
        invariant
            j <= cs@.len(),
            trim_end_char_seq(s@, c) == trim_end_char_seq(cs@.take(j as int), c),
            cs@ == s@,
        decreases j,
    {
        assert(cs@.take(j as int).drop_last() =~= cs@.take(j - 1));
        j = j - 1;
    }
    string_of(&cs.as_slice()[0..j])
}

/// `s` without leading occurrences of `c` (`str::trim_start_matches` with a char).
pub fn trim_start_char(s: &str, c: char) -> (res: String)
    ensures
        res@ == trim_start_char_seq(s@, c),
{
    let cs = chars_of(s);
    let n = cs.len();
    let mut i: usize = 0;
    assert(cs@.skip(0) =~= cs@);
    while i < n && cs[i] == c
        invariant
            i <= n,
            n == cs@.len(),
            trim_start_char_seq(s@, c) == trim_start_char_seq(cs@.skip(i as int), c),
            cs@ == s@,
        decreases n - i,
    {
        assert(cs@.skip(i as int).drop_first() =~= cs@.skip(i + 1));
        i = i + 1;
    }
    let mut rest: Vec<char> = Vec::new();
    let mut k: usize = i;
    while k < n
        invariant
            i <= k <= n,
            n == cs@.len(),
            rest@ == cs@.subrange(i as int, k as int),
        decreases n - k,
    {
        rest.push(cs[k]);
        assert(cs@.subrange(i as int, k as int).push(cs@[k as int]) =~= cs@.subrange(
            i as int,
            k + 1,
        ));
        k = k + 1;
    }
    assert(cs@.subrange(i as int, n as int) =~= cs@.skip(i as int));
    string_of(rest.as_slice())
}


/// The decimal digit character for `d` (0..=9).
pub open spec fn digit_char(d: int) -> char {
    if d == 0 {
        '0'
    } else if d == 1 {
        '1'
    } else if d == 2 {
        '2'
    } else if d == 3 {
        '3'
    } else if d == 4 {
        '4'
    } else if d == 5 {
        '5'
    } else if d == 6 {
        '6'
    } else if d == 7 {
        '7'
    } else if d == 8 {
        '8'
    } else {
        '9'
    }
}

/// Decimal digits of `n`, without leading zeros.
pub open spec fn nat_text(n: nat) -> Seq<char>
    decreases n,
{
    if n < 10 {
        seq![digit_char(n as int)]
    } else {
        nat_text(n / 10).push(digit_char((n % 10) as int))
    }
}

/// Decimal text of `n`, with a leading `-` when negative (what `Display` prints for integers).
pub open spec fn int_text(n: int) -> Seq<char> {
    if n < 0 {
        seq!['-'] + nat_text((-n) as nat)
    } else {
        nat_text(n as nat)
    }
}

fn digit(d: u128) -> (c: char)
    requires
        d < 10,
    ensures
        c == digit_char(d as int),
{
    if d == 0 {
        '0'
    } else if d == 1 {
        '1'
    } else if d == 2 {
        '2'
    } else if d == 3 {
        '3'
    } else if d == 4 {
        '4'
    } else if d == 5 {
        '5'
    } else if d == 6 {
        '6'
    } else if d == 7 {
        '7'
    } else if d == 8 {
        '8'
    } else {
        '9'
    }
}

fn nat_chars(n: u128) -> (res: Vec<char>)
    ensures
        res@ == nat_text(n as nat),
    decreases n,
{
    if n < 10 {
        let mut v: Vec<char> = Vec::new();
        v.push(digit(n));
        assert(v@ =~= seq![digit_char(n as int)]);
        v
    } else {
        let mut v = nat_chars(n / 10);
        v.push(digit(n % 10));
        v
    }
}

/// Decimal text of a signed integer.
pub fn i128_text(n: i128) -> (res: String)
    requires
        n > i128::MIN,
    ensures
        res@ == int_text(n as int),
{
    if n < 0 {
        let digits = nat_chars((-n) as u128);
        let mut res = String::new();
        push_char(&mut res, '-');
        let tail = string_of(digits.as_slice());
        res.append(tail.as_str());
        assert(res@ =~= seq!['-'] + nat_text((-n) as nat));
        res
    } else {
        string_of(nat_chars(n as u128).as_slice())
    }
}

/// Decimal text of an `i64`.
pub fn i64_text(n: i64) -> (res: String)
    ensures
        res@ == int_text(n as int),
{
    i128_text(n as i128)
}

/// Decimal text of a `usize`.
pub fn usize_text(n: usize) -> (res: String)
    ensures
        res@ == int_text(n as int),
{
    i128_text(n as i128)
}

/// Decimal text of a `u64`.
pub fn u64_text(n: u64) -> (res: String)
    ensures
        res@ == int_text(n as int),
{
    i128_text(n as i128)
}

/// Whether `c` is an ASCII decimal digit.
pub open spec fn is_digit(c: char) -> bool {
    48 <= (c as u32) && (c as u32) <= 57
}

/// The value of the ASCII digit `c`.
pub open spec fn digit_value(c: char) -> int {
    (c as u32) - 48
}

/// The value of a string of decimal digits (0 for the empty string).
pub open spec fn digits_value(s: Seq<char>) -> int
    decreases s.len(),
{
    if s.len() == 0 {
        0
    } else {
        digits_value(s.drop_last()) * 10 + digit_value(s.last())
    }
}

/// Whether every character of `s` is an ASCII digit.
pub open spec fn all_digits(s: Seq<char>) -> bool {
    forall|i: int| 0 <= i < s.len() ==> is_digit(#[trigger] s[i])
}

/// What `str::parse` gives for an integer type whose values are `lo..=hi`: an optional
/// sign (`-` only where `lo` is negative), then at least one ASCII digit, and a value in range.
pub open spec fn parse_integer_seq(s: Seq<char>, lo: int, hi: int) -> Option<int> {
    let negative = s.len() > 0 && s[0] == '-' && lo < 0;
    let digits = if s.len() > 0 && (s[0] == '+' || negative) {
        s.drop_first()
    } else {
        s
    };
    let value = if negative {
        -digits_value(digits)
    } else {
        digits_value(digits)
    };
    if digits.len() == 0 || !all_digits(digits) || value < lo || value > hi {
        None
    } else {
        Some(value)
    }
}

pub proof fn lemma_digits_value_nonneg(s: Seq<char>)
    requires
        all_digits(s),
    ensures
        digits_value(s) >= 0,
    decreases s.len(),
{
    if s.len() > 0 {
        assert(all_digits(s.drop_last())) by {
            assert forall|i: int| 0 <= i < s.drop_last().len() implies is_digit(
                #[trigger] s.drop_last()[i],
            ) by {
                assert(s.drop_last()[i] == s[i]);
            }
        }
        lemma_digits_value_nonneg(s.drop_last());
        assert(is_digit(s[s.len() - 1]));
    }
}

proof fn lemma_digits_value_prefix(s: Seq<char>, k: int)
    requires
        all_digits(s),
        0 <= k <= s.len(),
    ensures
        digits_value(s.take(k)) <= digits_value(s),
    decreases s.len(),
{
    if k < s.len() {
        assert(all_digits(s.drop_last())) by {
            assert forall|i: int| 0 <= i < s.drop_last().len() implies is_digit(
                #[trigger] s.drop_last()[i],
            ) by {
                assert(s.drop_last()[i] == s[i]);
            }
        }
        lemma_digits_value_prefix(s.drop_last(), k);
        assert(s.drop_last().take(k) =~= s.take(k));
        lemma_digits_value_nonneg(s.drop_last());
        assert(is_digit(s[s.len() - 1]));
        assert(digits_value(s) == digits_value(s.drop_last()) * 10 + digit_value(s.last()));
    } else {
        assert(s.take(k) =~= s);
    }
}

proof fn lemma_parse_shape(s: Seq<char>, lo: int, hi: int, digits: Seq<char>, negative: bool)
    requires
        negative == (s.len() > 0 && s[0] == '-' && lo < 0),
        digits == (if s.len() > 0 && (s[0] == '+' || negative) {
            s.drop_first()
        } else {
            s
        }),
    ensures
        parse_integer_seq(s, lo, hi) == (if digits.len() == 0 || !all_digits(digits) || (if negative {
            -digits_value(digits)
        } else {
            digits_value(digits)
        }) < lo || (if negative {
            -digits_value(digits)
        } else {
            digits_value(digits)
        }) > hi {
            None
        } else {
            Some(
                if negative {
                    -digits_value(digits)
                } else {
                    digits_value(digits)
                },
            )
        }),
{
}

/// Parses an integer in `lo..=hi` as `str::parse` does.
pub fn parse_integer(cs: &[char], lo: i128, hi: i128) -> (res: Option<i128>)
    requires
        -0x1_0000_0000_0000_0000 <= lo <= 0 <= hi <= 0x1_0000_0000_0000_0000,
    ensures
        res matches Some(v) ==> parse_integer_seq(cs@, lo as int, hi as int) == Some(v as int),
        res is None ==> parse_integer_seq(cs@, lo as int, hi as int) is None,
{
    let n = cs.len();
    let negative = n > 0 && cs[0] == '-' && lo < 0;
    let start: usize = if n > 0 && (cs[0] == '+' || negative) {
        1
    } else {
        0
    };
    let ghost digits = if n > 0 && (cs@[0] == '+' || negative) {
        cs@.drop_first()
    } else {
        cs@
    };
    assert(digits =~= cs@.skip(start as int));
    if start == n {
        return None;
    }
    let cap: u128 = 0x1_0000_0000_0000_0000;
    let mut m: u128 = 0;
    let mut i: usize = start;
    assert(digits.take(0) =~= Seq::<char>::empty());
    while i < n
        invariant
            start <= i <= n,
            n == cs@.len(),
            digits == cs@.skip(start as int),
            m as int == digits_value(digits.take(i - start)),
            m <= cap,
            cap == 0x1_0000_0000_0000_0000,
            forall|j: int| 0 <= j < i - start ==> is_digit(#[trigger] digits[j]),
            negative == (cs@.len() > 0 && cs@[0] == '-' && lo < 0),
            digits == (if cs@.len() > 0 && (cs@[0] == '+' || negative) {
                cs@.drop_first()
            } else {
                cs@
            }),
            -0x1_0000_0000_0000_0000 <= lo <= 0 <= hi <= 0x1_0000_0000_0000_0000,
        decreases n - i,
    {
        let c = cs[i];
        if !(48 <= (c as u32) && (c as u32) <= 57) {
            proof {
                assert(!is_digit(digits[i - start]));
                assert(!all_digits(digits));
                lemma_parse_shape(cs@, lo as int, hi as int, digits, negative);
            }
            return None;
        }
        let d = ((c as u32) - 48) as u128;
        assert(digits.take(i - start + 1).drop_last() =~= digits.take(i - start));
        assert(digits[i - start] == c);
        let next = m * 10 + d;
        assert(next as int == digits_value(digits.take(i - start + 1)));
        if next > cap {
            proof {
                assert(all_digits(digits.take(i - start + 1))) by {
                    assert forall|j: int| 0 <= j < digits.take(i - start + 1).len() implies is_digit(
                        #[trigger] digits.take(i - start + 1)[j],
                    ) by {
                        assert(digits.take(i - start + 1)[j] == digits[j]);
                    }
                }
                if all_digits(digits) {
                    lemma_digits_value_prefix(digits, i - start + 1);
                }
                lemma_parse_shape(cs@, lo as int, hi as int, digits, negative);
            }
            return None;
        }
        m = next;
        i = i + 1;
    }
    assert(digits.take(n - start) =~= digits);
    assert(all_digits(digits));
    let v: i128 = if negative {
        -(m as i128)
    } else {
        m as i128
    };
    proof {
        lemma_parse_shape(cs@, lo as int, hi as int, digits, negative);
    }
    if v < lo || v > hi {
        None
    } else {
        Some(v)
    }
}

/// `str::parse::<i64>`.
pub fn parse_i64(s: &str) -> (res: Option<i64>)
    ensures
        match res {
            Some(v) => parse_integer_seq(s@, i64::MIN as int, i64::MAX as int) == Some(v as int),
            None => parse_integer_seq(s@, i64::MIN as int, i64::MAX as int) is None,
        },
{
    let cs = chars_of(s);
    match parse_integer(cs.as_slice(), i64::MIN as i128, i64::MAX as i128) {
        Some(v) => Some(v as i64),
        None => None,
    }
}

/// `str::parse::<u64>`.
pub fn parse_u64(s: &str) -> (res: Option<u64>)
    ensures
        match res {
            Some(v) => parse_integer_seq(s@, 0, u64::MAX as int) == Some(v as int),
            None => parse_integer_seq(s@, 0, u64::MAX as int) is None,
        },
{
    let cs = chars_of(s);
    match parse_integer(cs.as_slice(), 0, u64::MAX as i128) {
        Some(v) => Some(v as u64),
        None => None,
    }
}

/// The texts of `parts` with `sep` between neighbours.
pub open spec fn join_seq(parts: Seq<Seq<char>>, sep: Seq<char>) -> Seq<char>
    decreases parts.len(),
{
    if parts.len() == 0 {
        Seq::empty()
    } else if parts.len() == 1 {
        parts[0]
    } else {
        join_seq(parts.drop_last(), sep) + sep + parts.last()
    }
}

/// The views of a sequence of strings.
pub open spec fn views_of(parts: Seq<String>) -> Seq<Seq<char>> {
    parts.map_values(|p: String| p@)
}

/// Joins `parts` with `sep` (`[String]::join`).
pub fn join(parts: &[String], sep: &str) -> (res: String)
    ensures
        res@ == join_seq(views_of(parts@), sep@),
{
    let mut res = String::new();
    let mut i: usize = 0;
    while i < parts.len()
        invariant
            i <= parts@.len(),
            res@ == join_seq(views_of(parts@.take(i as int)), sep@),
        decreases parts.len() - i,
    {
        let ghost before = views_of(parts@.take(i as int));
        assert(views_of(parts@.take(i + 1)).drop_last() =~= before);
        assert(views_of(parts@.take(i + 1)).last() == parts@[i as int]@);
        if i > 0 {
            res.append(sep);
        } else {
            assert(before.len() == 0);
        }
        res.append(parts[i].as_str());
        i = i + 1;
    }
    assert(parts@.take(parts@.len() as int) =~= parts@);
    res
}


/// Whether `a` sorts before `b`: compared character by character by code point, a proper prefix
/// first (the order of `String`'s `Ord`, since UTF-8 keeps code point order).
pub open spec fn text_lt(a: Seq<char>, b: Seq<char>) -> bool
    decreases a.len(),
{
    if a.len() == 0 {
        b.len() > 0
    } else if b.len() == 0 {
        false
    } else if a[0] != b[0] {
        (a[0] as int) < (b[0] as int)
    } else {
        text_lt(a.drop_first(), b.drop_first())
    }
}

/// `text_lt` is transitive.
pub proof fn lemma_text_lt_transitive(a: Seq<char>, b: Seq<char>, c: Seq<char>)
    requires
        text_lt(a, b),
        text_lt(b, c),
    ensures
        text_lt(a, c),
    decreases a.len(),
{
    if a.len() > 0 && b.len() > 0 && c.len() > 0 && a[0] == b[0] && b[0] == c[0] {
        lemma_text_lt_transitive(a.drop_first(), b.drop_first(), c.drop_first());
    }
}

/// `text_lt` is irreflexive.
pub proof fn lemma_text_lt_irreflexive(a: Seq<char>)
    ensures
        !text_lt(a, a),
    decreases a.len(),
{
    if a.len() > 0 {
        lemma_text_lt_irreflexive(a.drop_first());
    }
}

/// Distinct texts are ordered one way or the other.
pub proof fn lemma_text_lt_total(a: Seq<char>, b: Seq<char>)
    requires
        a != b,
    ensures
        text_lt(a, b) || text_lt(b, a),
    decreases a.len(),
{
    if a.len() > 0 && b.len() > 0 && a[0] == b[0] {
        if a.drop_first() == b.drop_first() {
            assert(a =~= seq![a[0]] + a.drop_first());
            assert(b =~= seq![b[0]] + b.drop_first());
        }
        lemma_text_lt_total(a.drop_first(), b.drop_first());
    } else if a.len() == 0 && b.len() == 0 {
        assert(a =~= b);
    } else if a.len() > 0 && b.len() > 0 {
        assert((a[0] as int) != (b[0] as int));
    }
}

/// Whether `a` sorts before `b`.
pub fn text_less(a: &str, b: &str) -> (res: bool)
    ensures
        res == text_lt(a@, b@),
{
    let x = chars_of(a);
    let y = chars_of(b);
    let mut i: usize = 0;
    assert(a@.skip(0) =~= a@);
    assert(b@.skip(0) =~= b@);
    while i < x.len() && i < y.len() && x[i] == y[i]
        invariant
            i <= x@.len(),
            i <= y@.len(),
            x@ == a@,
            y@ == b@,
            text_lt(a@, b@) == text_lt(a@.skip(i as int), b@.skip(i as int)),
        decreases x.len() - i,
    {
        assert(a@.skip(i as int).drop_first() =~= a@.skip(i + 1));
        assert(b@.skip(i as int).drop_first() =~= b@.skip(i + 1));
        i = i + 1;
    }
    if i == x.len() {
        i < y.len()
    } else if i == y.len() {
        false
    } else {
        x[i] < y[i]
    }
}

/// Whether the texts are strictly increasing.
pub open spec fn strictly_sorted(s: Seq<Seq<char>>) -> bool {
    forall|i: int, j: int| 0 <= i < j < s.len() ==> text_lt(#[trigger] s[i], #[trigger] s[j])
}

/// Inserts `item` into the strictly increasing `sorted`, unless it is there already.
pub fn insert_sorted(sorted: &mut Vec<String>, item: String)
    requires
        strictly_sorted(views_of(old(sorted)@)),
    ensures
        strictly_sorted(views_of(final(sorted)@)),
        forall|t: Seq<char>| views_of(final(sorted)@).contains(t) <==> (views_of(
            old(sorted)@,
        ).contains(t) || t == item@),
{
    let ghost before = views_of(sorted@);
    let mut p: usize = 0;
    while p < sorted.len() && text_less(sorted[p].as_str(), item.as_str())
        invariant
            p <= sorted@.len(),
            sorted@ == old(sorted)@,
            before == views_of(sorted@),
            strictly_sorted(before),
            forall|k: int| 0 <= k < p ==> text_lt(#[trigger] before[k], item@),
        decreases sorted.len() - p,
    {
        p = p + 1;
    }
    if p < sorted.len() && text_eq(sorted[p].as_str(), item.as_str()) {
        assert(before[p as int] == item@);
        assert forall|t: Seq<char>| before.contains(t) <==> (before.contains(t) || t == item@) by {
            if t == item@ {
                assert(before[p as int] == t);
            }
        }
        return;
    }
    proof {
        if p < before.len() {
            lemma_text_lt_total(before[p as int], item@);
        }
    }
    sorted.insert(p, item);
    let ghost after = views_of(sorted@);
    assert(after =~= before.take(p as int).push(item@) + before.skip(p as int));
    assert forall|i: int, j: int| 0 <= i < j < after.len() implies text_lt(
        #[trigger] after[i],
        #[trigger] after[j],
    ) by {
        if j < p {
            assert(after[i] == before[i] && after[j] == before[j]);
        } else if j == p {
            assert(after[i] == before[i]);
        } else if i < p {
            assert(after[i] == before[i] && after[j] == before[j - 1]);
        } else if i == p {
            assert(after[j] == before[j - 1]);
            if j - 1 > p {
                lemma_text_lt_transitive(item@, before[p as int], before[j - 1]);
            }
        } else {
            assert(after[i] == before[i - 1] && after[j] == before[j - 1]);
        }
    }
    assert forall|t: Seq<char>| after.contains(t) <==> (before.contains(t) || t == item@) by {
        if after.contains(t) {
            let k = choose|k: int| 0 <= k < after.len() && after[k] == t;
            if k < p {
                assert(before[k] == t);
            } else if k > p {
                assert(before[k - 1] == t);
            }
        }
        if before.contains(t) {
            let k = choose|k: int| 0 <= k < before.len() && before[k] == t;
            if k < p {
                assert(after[k] == t);
            } else {
                assert(after[k + 1] == t);
            }
        }
        if t == item@ {
            assert(after[p as int] == t);
        }
    }
}


/// The first position in `s` whose element satisfies `p`.
pub open spec fn first_where<T>(s: Seq<T>, p: spec_fn(T) -> bool) -> Option<int>
    decreases s.len(),
{
    if s.len() == 0 {
        None
    } else if p(s[0]) {
        Some(0)
    } else {
        match first_where(s.drop_first(), p) {
            Some(i) => Some(i + 1),
            None => None,
        }
    }
}

/// `first_where` is the position of the first element satisfying `p`, and `None` when none does.
pub proof fn lemma_first_where<T>(s: Seq<T>, p: spec_fn(T) -> bool, i: int)
    requires
        0 <= i <= s.len(),
        forall|k: int| 0 <= k < i ==> !p(#[trigger] s[k]),
        i < s.len() ==> p(s[i]),
    ensures
        first_where(s, p) == (if i < s.len() {
            Some(i)
        } else {
            None::<int>
        }),
    decreases s.len(),
{
    if s.len() > 0 && i > 0 {
        assert forall|k: int| 0 <= k < i - 1 implies !p(#[trigger] s.drop_first()[k]) by {
            assert(s.drop_first()[k] == s[k + 1]);
        }
        if i < s.len() {
            assert(s.drop_first()[i - 1] == s[i]);
        }
        lemma_first_where(s.drop_first(), p, i - 1);
        assert(!p(s[0]));
    }
}

/// The position `first_where` finds is one of the sequence's, and satisfies the test.
pub proof fn lemma_first_where_found<T>(s: Seq<T>, p: spec_fn(T) -> bool)
    ensures
        first_where(s, p) matches Some(i) ==> 0 <= i < s.len() && p(s[i]),
    decreases s.len(),
{
    if s.len() > 0 && !p(s[0]) {
        lemma_first_where_found(s.drop_first(), p);
    }
}

} // verus!
