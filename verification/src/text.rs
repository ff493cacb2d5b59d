//! Character sequences: the classes of characters that prompts strip from a
//! line, trimming, substring search and decimal digits.

use vstd::prelude::*;
use vstd::string::*;

verus! {

/// The classes of characters that are stripped from the ends of an input line.
#[derive(Clone, Copy, Debug, PartialEq, Eq, Structural)]
pub enum CharClass {
    /// Unicode white space.
    Space,
    /// The double and the single quotation mark.
    Quote,
}

/// Whether `c` is white space as Unicode defines it (`White_Space`).
pub open spec fn is_space(c: char) -> bool {
    let n = c as u32;
    ||| 0x09 <= n <= 0x0D
    ||| n == 0x20
    ||| n == 0x85
    ||| n == 0xA0
    ||| n == 0x1680
    ||| 0x2000 <= n <= 0x200A
    ||| n == 0x2028
    ||| n == 0x2029
    ||| n == 0x202F
    ||| n == 0x205F
    ||| n == 0x3000
}

/// Whether `c` is `"` or `'`.
pub open spec fn is_quote(c: char) -> bool {
    c == '"' || c == '\''
}

/// Whether `c` belongs to `class`.
pub open spec fn in_class(class: CharClass, c: char) -> bool {
    match class {
        CharClass::Space => is_space(c),
        CharClass::Quote => is_quote(c),
    }
}

/// `s` without its longest prefix of characters of `class`.
pub open spec fn strip_front(s: Seq<char>, class: CharClass) -> Seq<char>
    decreases s.len(),
{
    if s.len() > 0 && in_class(class, s[0]) {
        strip_front(s.drop_first(), class)
    } else {
        s
    }
}

/// `s` without its longest suffix of characters of `class`.
pub open spec fn strip_back(s: Seq<char>, class: CharClass) -> Seq<char>
    decreases s.len(),
{
    if s.len() > 0 && in_class(class, s.last()) {
        strip_back(s.drop_last(), class)
    } else {
        s
    }
}

/// `s` with the characters of `class` removed from both ends.
pub open spec fn strip(s: Seq<char>, class: CharClass) -> Seq<char> {
    strip_back(strip_front(s, class), class)
}

/// `s` without leading and trailing white space.
pub open spec fn trimmed(s: Seq<char>) -> Seq<char> {
    strip(s, CharClass::Space)
}

/// A path as typed at a prompt: quotation marks are removed from both ends
/// first, then white space.
pub open spec fn cleaned(s: Seq<char>) -> Seq<char> {
    strip(strip(s, CharClass::Quote), CharClass::Space)
}

/// The menu entry that a line names: the line, without the white space
/// around it, is one decimal digit.
pub open spec fn choice_of(line: Seq<char>) -> Option<int> {
    let t = trimmed(line);
    if t.len() == 1 && is_digit(t[0]) {
        Some(digit_value(t[0]))
    } else {
        None
    }
}

/// The character sequences of a list of strings.
pub open spec fn lines_of(lines: Seq<String>) -> Seq<Seq<char>> {
    Seq::new(lines.len(), |i: int| lines[i]@)
}

/// Whether `needle` stands in `hay` at offset `at`.
pub open spec fn occurs_at(hay: Seq<char>, needle: Seq<char>, at: int) -> bool {
    &&& 0 <= at
    &&& at + needle.len() <= hay.len()
    &&& hay.subrange(at, at + needle.len()) == needle
}

/// Whether `needle` is a contiguous part of `hay`.
pub open spec fn occurs_in(hay: Seq<char>, needle: Seq<char>) -> bool {
    exists|at: int| occurs_at(hay, needle, at)
}

/// The character of the decimal digit `d`.
pub open spec fn digit_char(d: int) -> char {
    if d == 0 {
        '0'
    } else if d == 1 {
        '1'
    } else if d == 2 {
        '2'
    } else if d == 3 {
        '3'
    } else if d == 4 {
        '4'
    } else if d == 5 {
        '5'
    } else if d == 6 {
        '6'
    } else if d == 7 {
        '7'
    } else if d == 8 {
        '8'
    } else {
        '9'
    }
}

/// Whether `c` is one of `0` to `9`.
pub open spec fn is_digit(c: char) -> bool {
    '0' <= c <= '9'
}

/// The value of the decimal digit `c`.
pub open spec fn digit_value(c: char) -> int {
    c as u32 - '0' as u32
}

/// `n` in decimal, without leading zeros.
pub open spec fn decimal(n: nat) -> Seq<char>
    decreases n,
{
    if n < 10 {
        seq![digit_char(n as int)]
    } else {
        decimal(n / 10).push(digit_char((n % 10) as int))
    }
}

/// Whether every character of `s` is a decimal digit.
pub open spec fn all_digits(s: Seq<char>) -> bool {
    forall|i: int| 0 <= i < s.len() ==> is_digit(#[trigger] s[i])
}

/// Stripping from the front removes exactly the first `k` characters when
/// those belong to the class and the next one, if any, does not.
pub proof fn lemma_strip_front(s: Seq<char>, class: CharClass, k: int)
    requires
        0 <= k <= s.len(),
        forall|i: int| 0 <= i < k ==> in_class(class, #[trigger] s[i]),
        k < s.len() ==> !in_class(class, s[k]),
    ensures
        strip_front(s, class) == s.subrange(k, s.len() as int),
    decreases k,
{
    if k == 0 {
        assert(s.subrange(0, s.len() as int) =~= s);
    } else {
        let t = s.drop_first();
        assert forall|i: int| 0 <= i < k - 1 implies in_class(class, #[trigger] t[i]) by {
            assert(t[i] == s[i + 1]);
        }
        lemma_strip_front(t, class, k - 1);
        assert(t.subrange(k - 1, t.len() as int) =~= s.subrange(k, s.len() as int));
    }
}

/// Stripping from the back keeps exactly the first `k` characters when all
/// later ones belong to the class and the one before them, if any, does not.
pub proof fn lemma_strip_back(s: Seq<char>, class: CharClass, k: int)
    requires
        0 <= k <= s.len(),
        forall|i: int| k <= i < s.len() ==> in_class(class, #[trigger] s[i]),
        0 < k ==> !in_class(class, s[k - 1]),
    ensures
        strip_back(s, class) == s.subrange(0, k),
    decreases s.len() - k,
{
    if k == s.len() {
        assert(s.subrange(0, k) =~= s);
    } else {
        let t = s.drop_last();
        assert forall|i: int| k <= i < t.len() implies in_class(class, #[trigger] t[i]) by {
            assert(t[i] == s[i]);
        }
        lemma_strip_back(t, class, k);
        assert(t.subrange(0, k) =~= s.subrange(0, k));
    }
}

/// Every character of a number written in decimal is a digit.
pub proof fn lemma_decimal_digits(n: nat)
    ensures
        all_digits(decimal(n)),
        decimal(n).len() >= 1,
    decreases n,
{
    if n >= 10 {
        lemma_decimal_digits(n / 10);
    }
}

/// The number that a sequence of decimal digits spells.
pub open spec fn decimal_value(s: Seq<char>) -> nat
    decreases s.len(),
{
    if s.len() == 0 {
        0
    } else {
        (decimal_value(s.drop_last()) * 10 + digit_value(s.last())) as nat
    }
}

/// A number written in decimal spells that number, so two numbers are
/// written alike only if they are one.
pub proof fn lemma_decimal_round_trip(n: nat)
    ensures
        decimal_value(decimal(n)) == n,
    decreases n,
{
    reveal_with_fuel(decimal_value, 2);
    if n < 10 {
        let s = decimal(n);
        assert(s.drop_last() =~= Seq::<char>::empty());
        assert(s.last() == digit_char(n as int));
    } else {
        let s = decimal(n);
        lemma_decimal_round_trip(n / 10);
        assert(s.drop_last() =~= decimal(n / 10));
        assert(s.last() == digit_char((n % 10) as int));
    }
}

/// Two sequences that go on alike after a common start are equal from
/// there on; two that end alike after equal lengths of their own are equal
/// up to there.
pub proof fn lemma_concat_cancel(a: Seq<char>, x: Seq<char>, y: Seq<char>)
    ensures
        a + x == a + y ==> x == y,
        x + a == y + a ==> x == y,
{
    if a + x == a + y {
        assert(x =~= (a + x).subrange(a.len() as int, (a + x).len() as int));
        assert(y =~= (a + y).subrange(a.len() as int, (a + y).len() as int));
    }
    if x + a == y + a {
        assert((x + a).len() == x.len() + a.len());
        assert((y + a).len() == y.len() + a.len());
        assert(x =~= (x + a).subrange(0, x.len() as int));
        assert(y =~= (y + a).subrange(0, y.len() as int));
    }
}

/// Tells whether `c` is Unicode white space.
pub fn is_space_char(c: char) -> (b: bool)
    ensures
        b == is_space(c),
{
    let n: u32 = c as u32;
    (0x09 <= n && n <= 0x0D) || n == 0x20 || n == 0x85 || n == 0xA0 || n == 0x1680 || (0x2000 <= n
        && n <= 0x200A) || n == 0x2028 || n == 0x2029 || n == 0x202F || n == 0x205F || n == 0x3000
}

/// Tells whether `c` belongs to `class`.
pub fn class_has(class: CharClass, c: char) -> (b: bool)
    ensures
        b == in_class(class, c),
{
    match class {
        CharClass::Space => is_space_char(c),
        CharClass::Quote => c == '"' || c == '\'',
    }
}

/// The characters of `s`, one by one.
pub fn chars_of(s: &str) -> (v: Vec<char>)
    ensures
        v@ == s@,
{
    let n: usize = s.unicode_len();
    let mut v: Vec<char> = Vec::new();
    let mut i: usize = 0;
    while i < n
        invariant
            n == s@.len(),
            i <= n,
            v@ == s@.subrange(0, i as int),
        decreases n - i,
    {
        let c: char = s.get_char(i);
        v.push(c);
        i = i + 1;
        assert(v@ =~= s@.subrange(0, i as int));
    }
    assert(s@.subrange(0, n as int) =~= s@);
    v
}

/// Removes the characters of `class` from both ends of `s`.
pub fn strip_chars<'a>(s: &'a str, class: CharClass) -> (r: &'a str)
    ensures
        r@ == strip(s@, class),
{
    let cs: Vec<char> = chars_of(s);
    let n: usize = cs.len();
    let mut start: usize = 0;
    while start < n && class_has(class, cs[start])
        invariant
            start <= n,
            n == cs@.len(),
            forall|i: int| 0 <= i < start ==> in_class(class, #[trigger] cs@[i]),
        decreases n - start,
    {
        start = start + 1;
    }
    let mut end: usize = n;
    while end > start && class_has(class, cs[end - 1])
        invariant
            start <= end <= n,
            n == cs@.len(),
            forall|i: int| end <= i < n ==> in_class(class, #[trigger] cs@[i]),
        decreases end,
    {
        end = end - 1;
    }
    proof {
        let front = s@.subrange(start as int, n as int);
        lemma_strip_front(s@, class, start as int);
        assert forall|i: int| end - start <= i < front.len() implies in_class(
            class,
            #[trigger] front[i],
        ) by {
            assert(front[i] == cs@[i + start]);
        }
        if end > start {
            assert(front[end - start - 1] == cs@[end - 1]);
        }
        lemma_strip_back(front, class, end - start);
        assert(front.subrange(0, end - start) =~= s@.subrange(start as int, end as int));
    }
    s.substring_char(start, end)
}

/// Removes leading and trailing white space.
pub fn trim<'a>(s: &'a str) -> (r: &'a str)
    ensures
        r@ == trimmed(s@),
{
    strip_chars(s, CharClass::Space)
}

/// Reads a path typed at a prompt: removes quotation marks from both ends,
/// then white space.
pub fn clean_path<'a>(s: &'a str) -> (r: &'a str)
    ensures
        r@ == cleaned(s@),
{
    strip_chars(strip_chars(s, CharClass::Quote), CharClass::Space)
}

/// Reads the menu entry that a line names.
pub fn parse_choice(line: &str) -> (r: Option<u8>)
    ensures
        r matches Some(d) ==> d <= 9 && choice_of(line@) == Some(d as int),
        r is None ==> choice_of(line@) is None,
{
    let cs: Vec<char> = chars_of(trim(line));
    if cs.len() == 1 && '0' <= cs[0] && cs[0] <= '9' {
        Some((cs[0] as u32 - '0' as u32) as u8)
    } else {
        None
    }
}

/// A copy of `bytes`.
pub fn copy_bytes(bytes: &Vec<u8>) -> (r: Vec<u8>)
    ensures
        r@ == bytes@,
{
    let r: Vec<u8> = bytes.clone();
    assert(r@ =~= bytes@);
    r
}

/// Tells whether `needle` stands in `hay` at offset `at`.
pub fn matches_at(hay: &Vec<char>, needle: &Vec<char>, at: usize) -> (b: bool)
    ensures
        b == occurs_at(hay@, needle@, at as int),
{
    let n: usize = hay.len();
    let m: usize = needle.len();
    if at > n || m > n - at {
        return false;
    }
    let mut j: usize = 0;
    while j < m
        invariant
            n == hay@.len(),
            m == needle@.len(),
            at + m <= n,
            j <= m,
            forall|k: int| 0 <= k < j ==> hay@[at + k] == needle@[k],
        decreases m - j,
    {
        if hay[at + j] != needle[j] {
            proof {
                let part = hay@.subrange(at as int, at + m);
                assert(part[j as int] == hay@[at + j]);
            }
            return false;
        }
        j = j + 1;
    }
    assert(hay@.subrange(at as int, at + m) =~= needle@);
    true
}

/// Tells whether `needle` is a contiguous part of `hay`.
pub fn contains(hay: &Vec<char>, needle: &Vec<char>) -> (b: bool)
    ensures
        b == occurs_in(hay@, needle@),
{
    let n: usize = hay.len();
    let m: usize = needle.len();
    if m > n {
        return false;
    }
    let last: usize = n - m;
    let mut at: usize = 0;
    while at < last
        invariant
            n == hay@.len(),
            m == needle@.len(),
            last == n - m,
            at <= last,
            forall|k: int| 0 <= k < at ==> !occurs_at(hay@, needle@, k),
        decreases last - at,
    {
        if matches_at(hay, needle, at) {
            return true;
        }
        at = at + 1;
    }
    matches_at(hay, needle, last)
}

} // verus!
