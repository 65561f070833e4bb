//! Character-level helpers over the views of strings: whitespace, trimming,
//! prefixes, line splitting and unsigned decimal numbers.

use vstd::prelude::*;

verus! {

/// The characters of `s`, in order.
pub fn chars_of(s: &str) -> (r: Vec<char>)
    ensures
        r@ == s@,
{
    let mut r: Vec<char> = Vec::new();
    for c in it: s.chars()
        invariant
            r@ == it.seq().subrange(0, it.index() as int),
    {
        r.push(c);
    }
    r
}

/// Relies on `String: FromIterator<char>`: the string holds exactly the
/// given characters, in order.
#[verifier::external_body]
pub(crate) fn string_of(chars: &[char]) -> (r: String)
    ensures
        r@ == chars@,
{
    chars.iter().collect()
}

/// The characters `s[lo..hi]`.
pub fn slice_chars(s: &[char], lo: usize, hi: usize) -> (r: Vec<char>)
    requires
        lo <= hi <= s@.len(),
    ensures
        r@ == s@.subrange(lo as int, hi as int),
{
    let mut r: Vec<char> = Vec::new();
    let mut i: usize = lo;
    while i < hi
        invariant
            lo <= i <= hi <= s@.len(),
            r@ == s@.subrange(lo as int, i as int),
        decreases hi - i,
    {
        r.push(s[i]);
        i = i + 1;
    }
    r
}

/// Whether two character sequences are equal.
pub fn chars_eq(a: &[char], b: &[char]) -> (r: bool)
    ensures
        r == (a@ == b@),
{
    if a.len() != b.len() {
        return false;
    }
    let mut i: usize = 0;
    while i < a.len()
        invariant
            i <= a.len() == b.len(),
            a@.subrange(0, i as int) == b@.subrange(0, i as int),
        decreases a.len() - i,
    {
        if a[i] != b[i] {
            assert(a@.subrange(0, i as int + 1)[i as int] != b@.subrange(0, i as int + 1)[i as int]);
            return false;
        }
        assert(a@.subrange(0, i as int + 1) =~= a@.subrange(0, i as int).push(a@[i as int]));
        assert(b@.subrange(0, i as int + 1) =~= b@.subrange(0, i as int).push(b@[i as int]));
        i = i + 1;
    }
    assert(a@ =~= a@.subrange(0, a@.len() as int));
    assert(b@ =~= b@.subrange(0, b@.len() as int));
    true
}

/// Whether `s` is exactly the text `t`.
pub fn chars_eq_str(s: &[char], t: &str) -> (r: bool)
    ensures
        r == (s@ == t@),
{
    let tc = chars_of(t);
    chars_eq(s, tc.as_slice())
}

/// Whether `p` is a prefix of `s`.
pub open spec fn has_prefix(s: Seq<char>, p: Seq<char>) -> bool {
    p.len() <= s.len() && s.subrange(0, p.len() as int) == p
}

/// Whether `n` occurs in `s` as a contiguous run.
pub open spec fn has_infix(s: Seq<char>, n: Seq<char>) -> bool {
    exists|i: int| 0 <= i <= s.len() - n.len() && #[trigger] s.subrange(i, i + n.len()) == n
}

/// Whether `s` starts with `p`.
pub fn starts_with(s: &[char], p: &[char]) -> (r: bool)
    ensures
        r == has_prefix(s@, p@),
{
    if p.len() > s.len() {
        return false;
    }
    let head = slice_chars(s, 0, p.len());
    chars_eq(head.as_slice(), p)
}

/// Whether `n` occurs in `s`.
pub fn contains_chars(s: &[char], n: &[char]) -> (r: bool)
    ensures
        r == has_infix(s@, n@),
{
    if n.len() > s.len() {
        return false;
    }
    if n.len() == 0 {
        assert(s@.subrange(0, 0 + n@.len() as int) =~= n@);
        return true;
    }
    let last = s.len() - n.len();
    let mut i: usize = 0;
    while i <= last
        invariant
            last == s@.len() - n@.len(),
            0 < n@.len() <= s@.len(),
            i <= last + 1,
            forall|j: int| 0 <= j < i ==> #[trigger] s@.subrange(j, j + n@.len()) != n@,
        decreases last + 1 - i,
    {
        assert(n@.len() == n.len() && s@.len() == s.len());
        let run = slice_chars(s, i, i + n.len());
        if chars_eq(run.as_slice(), n) {
            return true;
        }
        i = i + 1;
    }
    false
}

/// Whether `s` holds the text `t` as a contiguous run.
pub fn contains_str(s: &[char], t: &str) -> (r: bool)
    ensures
        r == has_infix(s@, t@),
{
    let tc = chars_of(t);
    contains_chars(s, tc.as_slice())
}

/// Whether `c` occurs in `s`.
pub fn contains_char(s: &[char], c: char) -> (r: bool)
    ensures
        r == s@.contains(c),
{
    let mut i: usize = 0;
    while i < s.len()
        invariant
            i <= s.len(),
            forall|j: int| 0 <= j < i ==> s@[j] != c,
        decreases s.len() - i,
    {
        if s[i] == c {
            return true;
        }
        i = i + 1;
    }
    false
}

/// Whitespace as `char::is_whitespace` documents it: the characters with the
/// Unicode `White_Space` property.
pub open spec fn is_white(c: char) -> bool {
    ||| '\t' <= c <= '\r'
    ||| c == ' '
    ||| c == '\u{85}'
    ||| c == '\u{a0}'
    ||| c == '\u{1680}'
    ||| '\u{2000}' <= c <= '\u{200a}'
    ||| c == '\u{2028}'
    ||| c == '\u{2029}'
    ||| c == '\u{202f}'
    ||| c == '\u{205f}'
    ||| c == '\u{3000}'
}

/// Whether `c` is whitespace.
pub fn is_white_char(c: char) -> (r: bool)
    ensures
        r == is_white(c),
{
    ('\t' <= c && c <= '\r') || c == ' ' || c == '\u{85}' || c == '\u{a0}' || c == '\u{1680}'
        || ('\u{2000}' <= c && c <= '\u{200a}') || c == '\u{2028}' || c == '\u{2029}' || c
        == '\u{202f}' || c == '\u{205f}' || c == '\u{3000}'
}

/// `s` without its leading whitespace.
pub open spec fn trim_start(s: Seq<char>) -> Seq<char>
    decreases s.len(),
{
    if s.len() > 0 && is_white(s[0]) {
        trim_start(s.drop_first())
    } else {
        s
    }
}

/// `s` without its trailing whitespace.
pub open spec fn trim_end(s: Seq<char>) -> Seq<char>
    decreases s.len(),
{
    if s.len() > 0 && is_white(s.last()) {
        trim_end(s.drop_last())
    } else {
        s
    }
}

/// `s` without leading and trailing whitespace.
pub open spec fn trim(s: Seq<char>) -> Seq<char> {
    trim_end(trim_start(s))
}

/// The position of the first character of `s` that is not whitespace, or
/// its length.
fn skip_white(s: &[char]) -> (lo: usize)
    ensures
        lo <= s@.len(),
        trim_start(s@) == s@.subrange(lo as int, s@.len() as int),
{
    let mut lo: usize = 0;
    assert(s@.subrange(0, s@.len() as int) =~= s@);
    while lo < s.len() && is_white_char(s[lo])
        invariant
            lo <= s@.len(),
            trim_start(s@) == trim_start(s@.subrange(lo as int, s@.len() as int)),
        decreases s.len() - lo,
    {
        assert(s@.subrange(lo as int, s@.len() as int).drop_first() =~= s@.subrange(
            lo as int + 1,
            s@.len() as int,
        ));
        lo = lo + 1;
    }
    lo
}

/// `s` without its leading whitespace.
pub fn trim_start_chars(s: &[char]) -> (r: Vec<char>)
    ensures
        r@ == trim_start(s@),
{
    let lo = skip_white(s);
    slice_chars(s, lo, s.len())
}

/// `s` without leading and trailing whitespace.
pub fn trim_chars(s: &[char]) -> (r: Vec<char>)
    ensures
        r@ == trim(s@),
{
    let lo = skip_white(s);
    let ghost t = s@.subrange(lo as int, s@.len() as int);
    let mut hi: usize = s.len();
    while hi > lo && is_white_char(s[hi - 1])
        invariant
            lo <= hi <= s@.len(),
            t == s@.subrange(lo as int, s@.len() as int),
            trim_end(t) == trim_end(s@.subrange(lo as int, hi as int)),
        decreases hi,
    {
        assert(s@.subrange(lo as int, hi as int).drop_last() =~= s@.subrange(
            lo as int,
            hi as int - 1,
        ));
        hi = hi - 1;
    }
    slice_chars(s, lo, hi)
}

/// `s` with every leading copy of `p` taken off.
pub open spec fn strip_all_prefix(s: Seq<char>, p: Seq<char>) -> Seq<char>
    decreases s.len(),
{
    if p.len() > 0 && has_prefix(s, p) {
        strip_all_prefix(s.subrange(p.len() as int, s.len() as int), p)
    } else {
        s
    }
}

/// `s` with every leading copy of `p` taken off.
pub fn strip_all_prefix_chars(s: &[char], p: &[char]) -> (r: Vec<char>)
    ensures
        r@ == strip_all_prefix(s@, p@),
{
    if p.len() == 0 {
        return slice_chars(s, 0, s.len());
    }
    let mut lo: usize = 0;
    assert(s@.subrange(0, s@.len() as int) =~= s@);
    loop
        invariant
            lo <= s@.len(),
            p@.len() > 0,
            strip_all_prefix(s@, p@) == strip_all_prefix(
                s@.subrange(lo as int, s@.len() as int),
                p@,
            ),
        decreases s@.len() - lo,
    {
        let rest = slice_chars(s, lo, s.len());
        if !starts_with(rest.as_slice(), p) {
            return rest;
        }
        assert(rest@.subrange(p@.len() as int, rest@.len() as int) =~= s@.subrange(
            lo + p@.len(),
            s@.len() as int,
        ));
        lo = lo + p.len();
    }
}

/// Whether `c` is an ASCII decimal digit.
pub open spec fn is_digit(c: char) -> bool {
    '0' <= c <= '9'
}

/// The value of a digit character.
pub open spec fn digit_value(c: char) -> nat {
    (c as u32 - '0' as u32) as nat
}

/// The value of a sequence of decimal digits, most significant first.
pub open spec fn digits_value(s: Seq<char>) -> nat
    decreases s.len(),
{
    if s.len() == 0 {
        0
    } else {
        digits_value(s.drop_last()) * 10 + digit_value(s.last())
    }
}

pub open spec fn all_digits(s: Seq<char>) -> bool {
    forall|i: int| 0 <= i < s.len() ==> is_digit(#[trigger] s[i])
}

/// The digits of an unsigned number: one leading `+` is allowed.
pub open spec fn unsigned_digits(s: Seq<char>) -> Seq<char> {
    if s.len() > 0 && s[0] == '+' {
        s.drop_first()
    } else {
        s
    }
}

/// An unsigned decimal number no greater than `max`, as the standard
/// library's unsigned `from_str` reads one.
pub open spec fn parse_unsigned(s: Seq<char>, max: nat) -> Option<nat> {
    let d = unsigned_digits(s);
    if d.len() > 0 && all_digits(d) && digits_value(d) <= max {
        Some(digits_value(d))
    } else {
        None
    }
}

/// A prefix of a digit sequence never has a greater value.
proof fn lemma_digits_prefix_le(s: Seq<char>, k: int)
    requires
        0 <= k <= s.len(),
    ensures
        digits_value(s.subrange(0, k)) <= digits_value(s),
    decreases s.len(),
{
    if k < s.len() {
        assert(s.drop_last().subrange(0, k) =~= s.subrange(0, k));
        lemma_digits_prefix_le(s.drop_last(), k);
    } else {
        assert(s.subrange(0, k) =~= s);
    }
}

/// Reads an unsigned decimal number no greater than `max`.
pub fn parse_unsigned_chars(s: &[char], max: u64) -> (r: Option<u64>)
    ensures
        match parse_unsigned(s@, max as nat) {
            Some(v) => r == Some(v as u64),
            None => r is None,
        },
{
    let start: usize = if s.len() > 0 && s[0] == '+' {
        1
    } else {
        0
    };
    let ghost d = unsigned_digits(s@);
    assert(d =~= s@.subrange(start as int, s@.len() as int));
    if start == s.len() {
        return None;
    }
    let mut acc: u64 = 0;
    let mut i: usize = start;
    while i < s.len()
        invariant
            start <= i <= s@.len(),
            d == s@.subrange(start as int, s@.len() as int),
            d == unsigned_digits(s@),
            acc as nat == digits_value(s@.subrange(start as int, i as int)),
            all_digits(s@.subrange(start as int, i as int)),
            acc <= max,
        decreases s.len() - i,
    {
        let c = s[i];
        if !('0' <= c && c <= '9') {
            assert(d[i - start] == c);
            return None;
        }
        let digit: u64 = (c as u32 - '0' as u32) as u64;
        let next: u128 = acc as u128 * 10 + digit as u128;
        let ghost pre = s@.subrange(start as int, i as int + 1);
        assert(pre.drop_last() =~= s@.subrange(start as int, i as int));
        assert(digits_value(pre) == next);
        if next > max as u128 {
            proof {
                if all_digits(d) {
                    assert(d.subrange(0, i - start + 1) =~= pre);
                    lemma_digits_prefix_le(d, i - start + 1);
                }
            }
            return None;
        }
        acc = next as u64;
        i = i + 1;
    }
    assert(s@.subrange(start as int, i as int) =~= d);
    Some(acc)
}

/// The pieces of `s` between the separators `sep`; there is always at
/// least one piece.
pub open spec fn split_on(s: Seq<char>, sep: char) -> Seq<Seq<char>>
    decreases s.len(),
{
    if s.len() == 0 {
        seq![Seq::<char>::empty()]
    } else {
        let p = split_on(s.drop_last(), sep);
        if s.last() == sep {
            p.push(Seq::<char>::empty())
        } else {
            p.update(p.len() - 1, p.last().push(s.last()))
        }
    }
}

proof fn lemma_split_nonempty(s: Seq<char>, sep: char)
    ensures
        split_on(s, sep).len() >= 1,
    decreases s.len(),
{
    if s.len() > 0 {
        lemma_split_nonempty(s.drop_last(), sep);
    }
}

/// The views of a sequence of character vectors.
pub open spec fn views_of(v: Seq<Vec<char>>) -> Seq<Seq<char>> {
    v.map_values(|x: Vec<char>| x@)
}

/// The pieces of `s` between the separators `sep`.
pub fn split_chars(s: &[char], sep: char) -> (r: Vec<Vec<char>>)
    ensures
        views_of(r@) == split_on(s@, sep),
{
    let mut done: Vec<Vec<char>> = Vec::new();
    let mut cur: Vec<char> = Vec::new();
    let mut i: usize = 0;
    assert(s@.subrange(0, 0) =~= Seq::<char>::empty());
    assert(views_of(done@).push(cur@) =~= split_on(Seq::<char>::empty(), sep));
    while i < s.len()
        invariant
            i <= s@.len(),
            views_of(done@).push(cur@) == split_on(s@.subrange(0, i as int), sep),
        decreases s.len() - i,
    {
        let ghost before = s@.subrange(0, i as int);
        let ghost after = s@.subrange(0, i as int + 1);
        assert(after.drop_last() =~= before);
        proof {
            lemma_split_nonempty(before, sep);
        }
        if s[i] == sep {
            let piece = cur;
            done.push(piece);
            cur = Vec::new();
            assert(views_of(done@).push(cur@) =~= split_on(before, sep).push(Seq::<char>::empty()));
        } else {
            cur.push(s[i]);
            assert(views_of(done@).push(cur@) =~= split_on(before, sep).update(
                split_on(before, sep).len() - 1,
                split_on(before, sep).last().push(s@[i as int]),
            ));
        }
        i = i + 1;
    }
    assert(s@.subrange(0, s@.len() as int) =~= s@);
    done.push(cur);
    assert(views_of(done@) =~= split_on(s@, sep));
    done
}

} // verus!
