//! Character-level text helpers shared by the pages: building strings,
//! searching, trimming, truncating and decimal formatting.
use vstd::prelude::*;

verus! {

/// `String::push`: appends one character to the string.
#[verifier::external_body]
pub(crate) fn push_char(s: &mut String, c: char)
    ensures
        final(s)@ == old(s)@.push(c),
{
    s.push(c);
}

/// Appends the characters of `t` to `s`.
pub fn push_str(s: &mut String, t: &str)
    ensures
        final(s)@ == old(s)@ + t@,
{
    let cs = chars_of(t);
    push_chars(s, &cs);
}

/// Appends the given characters to `s`.
pub fn push_chars(s: &mut String, v: &Vec<char>)
    ensures
        final(s)@ == old(s)@ + v@,
{
    let ghost start = s@;
    let mut i: usize = 0;
    while i < v.len()
        invariant
            i <= v.len(),
            s@ == start + v@.take(i as int),
        decreases v.len() - i,
    {
        push_char(s, v[i]);
        assert(v@.take(i + 1) == v@.take(i as int).push(v@[i as int]));
        i += 1;
    }
    assert(v@.take(v.len() as int) == v@);
}

/// The characters of a string slice, in order.
pub fn chars_of(s: &str) -> (res: Vec<char>)
    ensures
        res@ == s@,
{
    let mut res: Vec<char> = Vec::new();
    for c in it: s.chars()
        invariant
            res@ == it.seq().take(it.index() as int),
            it.seq() == s@,
    {
        res.push(c);
    }
    res
}

/// Builds a `String` holding exactly the given characters.
pub fn string_from_chars(v: &Vec<char>) -> (res: String)
    ensures
        res@ == v@,
{
    let mut res = String::new();
    push_chars(&mut res, v);
    res
}

/// Builds a `String` from a character subrange `v[lo..hi]`.
pub fn string_from_range(v: &Vec<char>, lo: usize, hi: usize) -> (res: String)
    requires
        lo <= hi <= v.len(),
    ensures
        res@ == v@.subrange(lo as int, hi as int),
{
    let mut res = String::new();
    let mut i: usize = lo;
    while i < hi
        invariant
            lo <= i <= hi <= v.len(),
            res@ == v@.subrange(lo as int, i as int),
        decreases hi - i,
    {
        push_char(&mut res, v[i]);
        assert(v@.subrange(lo as int, i + 1) == v@.subrange(lo as int, i as int).push(v@[i as int]));
        i += 1;
    }
    res
}

/// Copies a string slice into an owned `String`.
pub fn to_owned_string(s: &str) -> (res: String)
    ensures
        res@ == s@,
{
    let mut res = String::new();
    push_str(&mut res, s);
    res
}

/// Whether two character sequences are equal.
pub fn chars_eq(a: &Vec<char>, b: &Vec<char>) -> (res: bool)
    ensures
        res == (a@ == b@),
{
    if a.len() != b.len() {
        return false;
    }
    let mut i: usize = 0;
    while i < a.len()
        invariant
            a.len() == b.len(),
            i <= a.len(),
            forall|j: int| 0 <= j < i ==> a@[j] == b@[j],
        decreases a.len() - i,
    {
        if a[i] != b[i] {
            return false;
        }
        i += 1;
    }
    assert(a@ =~= b@);
    true
}

/// Whether two string slices hold the same characters.
pub fn str_eq(a: &str, b: &str) -> (res: bool)
    ensures
        res == (a@ == b@),
{
    let x = chars_of(a);
    let y = chars_of(b);
    chars_eq(&x, &y)
}

/// `pat` occurs in `s` starting at character index `i`.
pub open spec fn occurs_at(s: Seq<char>, pat: Seq<char>, i: int) -> bool {
    0 <= i && i + pat.len() <= s.len() && s.subrange(i, i + pat.len()) == pat
}

/// Whether `pat` occurs in `s` at character index `i` (bounds checked).
pub fn chars_occur_at(s: &Vec<char>, pat: &Vec<char>, i: usize) -> (res: bool)
    ensures
        res == occurs_at(s@, pat@, i as int),
{
    if pat.len() > s.len() || i > s.len() - pat.len() {
        return false;
    }
    let mut k: usize = 0;
    while k < pat.len()
        invariant
            i + pat.len() <= s.len(),
            k <= pat.len(),
            forall|j: int| 0 <= j < k ==> s@[i + j] == pat@[j],
        decreases pat.len() - k,
    {
        if s[i + k] != pat[k] {
            assert(s@.subrange(i as int, i + pat.len())[k as int] != pat@[k as int]);
            return false;
        }
        k += 1;
    }
    assert(s@.subrange(i as int, i + pat.len()) =~= pat@);
    true
}

/// The index of the first occurrence of `pat` in `s`, if any.
pub open spec fn first_occurrence(s: Seq<char>, pat: Seq<char>) -> Option<int> {
    if exists|i: int| occurs_at(s, pat, i) {
        Some(choose|i: int| occurs_at(s, pat, i) && forall|j: int| 0 <= j < i ==> !occurs_at(s, pat, j))
    } else {
        None
    }
}

/// Character index of the first occurrence of `pat` in `s`.
pub fn find_chars(s: &Vec<char>, pat: &Vec<char>) -> (res: Option<usize>)
    ensures
        match res {
            Some(i) => occurs_at(s@, pat@, i as int) && forall|j: int| 0 <= j < i ==> !occurs_at(s@, pat@, j),
            None => forall|j: int| !occurs_at(s@, pat@, j),
        },
        res matches Some(i) ==> first_occurrence(s@, pat@) == Some(i as int),
        res is None ==> first_occurrence(s@, pat@) is None,
{
    if pat.len() > s.len() {
        return None;
    }
    let last = s.len() - pat.len();
    let mut i: usize = 0;
    loop
        invariant
            last + pat.len() == s.len(),
            i <= last,
            forall|j: int| 0 <= j < i ==> !occurs_at(s@, pat@, j),
        decreases last - i,
    {
        if chars_occur_at(s, pat, i) {
            proof {
                let c = choose|k: int| occurs_at(s@, pat@, k) && forall|j: int| 0 <= j < k ==> !occurs_at(s@, pat@, j);
                assert(occurs_at(s@, pat@, c));
                if c < i {
                    assert(!occurs_at(s@, pat@, c));
                } else if c > i {
                    assert(!occurs_at(s@, pat@, i as int));
                }
            }
            return Some(i);
        }
        if i == last {
            assert forall|j: int| !occurs_at(s@, pat@, j) by {
                if 0 <= j && j <= i {
                    if j == i {
                        assert(!occurs_at(s@, pat@, i as int));
                    }
                }
            }
            return None;
        }
        i += 1;
    }
}

/// Whether `pat` occurs somewhere in `s`.
pub fn contains_chars(s: &Vec<char>, pat: &Vec<char>) -> (res: bool)
    ensures
        res == exists|i: int| occurs_at(s@, pat@, i),
{
    match find_chars(s, pat) {
        Some(i) => true,
        None => false,
    }
}

/// Whether `prefix` is a prefix of `s`.
pub fn starts_with_chars(s: &Vec<char>, prefix: &Vec<char>) -> (res: bool)
    ensures
        res == prefix@.is_prefix_of(s@),
{
    let r = chars_occur_at(s, prefix, 0);
    proof {
        if r {
            assert forall|j: int| 0 <= j < prefix@.len() implies prefix@[j] == s@[j] by {
                assert(s@.subrange(0, prefix@.len() as int)[j] == s@[j]);
            }
        }
        if prefix@.is_prefix_of(s@) {
            assert(s@.subrange(0, prefix@.len() as int) =~= prefix@);
        }
    }
    r
}

/// The character `'0' + d` for a decimal digit `d`.
pub open spec fn digit_char(d: nat) -> char {
    (48 + d) as char
}

/// Decimal digits of a natural number, most significant first, no leading zeros.
pub open spec fn nat_decimal(n: nat) -> Seq<char>
    decreases n,
{
    if n < 10 {
        seq![digit_char(n)]
    } else {
        nat_decimal(n / 10).push(digit_char(n % 10))
    }
}

/// Decimal form of an integer: a minus sign before the digits of a negative number.
pub open spec fn int_decimal(i: int) -> Seq<char> {
    if i < 0 {
        seq!['-'] + nat_decimal((-i) as nat)
    } else {
        nat_decimal(i as nat)
    }
}

/// Appends the decimal digits of `n` to `s`.
pub fn push_decimal(s: &mut String, n: u64)
    ensures
        final(s)@ == old(s)@ + nat_decimal(n as nat),
    decreases n,
{
    if n >= 10 {
        push_decimal(s, n / 10);
    }
    let d: u8 = (n % 10) as u8;
    let c = (48u8 + d) as char;
    assert(c == digit_char((n % 10) as nat));
    push_char(s, c);
}

/// Appends the decimal form of a signed integer to `s`.
pub fn push_int(s: &mut String, n: i64)
    ensures
        final(s)@ == old(s)@ + int_decimal(n as int),
{
    if n < 0 {
        push_char(s, '-');
        let m: u64 = if n == i64::MIN { 9223372036854775808u64 } else { (-n) as u64 };
        push_decimal(s, m);
        assert(s@ =~= old(s)@ + int_decimal(n as int));
    } else {
        push_decimal(s, n as u64);
    }
}

/// Decimal form of an unsigned number as a new string.
pub fn usize_to_string(n: usize) -> (res: String)
    ensures
        res@ == nat_decimal(n as nat),
{
    let mut s = String::new();
    push_decimal(&mut s, n as u64);
    s
}

/// Decimal form of a signed number as a new string.
pub fn i32_to_string(n: i32) -> (res: String)
    ensures
        res@ == int_decimal(n as int),
{
    let mut s = String::new();
    push_int(&mut s, n as i64);
    s
}

/// The characters that `char::is_whitespace` accepts (Unicode `White_Space`).
pub open spec fn is_white_space(c: char) -> bool {
    let u = c as u32;
    ||| 0x09 <= u <= 0x0D
    ||| u == 0x20
    ||| u == 0x85
    ||| u == 0xA0
    ||| u == 0x1680
    ||| 0x2000 <= u <= 0x200A
    ||| u == 0x2028
    ||| u == 0x2029
    ||| u == 0x202F
    ||| u == 0x205F
    ||| u == 0x3000
}

/// Whether `c` is a Unicode white-space character.
pub fn is_whitespace(c: char) -> (res: bool)
    ensures
        res == is_white_space(c),
{
    let u = c as u32;
    (0x09 <= u && u <= 0x0D) || u == 0x20 || u == 0x85 || u == 0xA0 || u == 0x1680 || (0x2000 <= u
        && u <= 0x200A) || u == 0x2028 || u == 0x2029 || u == 0x202F || u == 0x205F || u == 0x3000
}

/// `s` with leading white space removed.
pub open spec fn trim_start(s: Seq<char>) -> Seq<char>
    decreases s.len(),
{
    if s.len() > 0 && is_white_space(s[0]) {
        trim_start(s.drop_first())
    } else {
        s
    }
}

/// `s` with trailing white space removed.
pub open spec fn trim_end(s: Seq<char>) -> Seq<char>
    decreases s.len(),
{
    if s.len() > 0 && is_white_space(s.last()) {
        trim_end(s.drop_last())
    } else {
        s
    }
}

/// `s` with white space removed from both ends, as `str::trim` does.
pub open spec fn trim(s: Seq<char>) -> Seq<char> {
    trim_end(trim_start(s))
}

/// Index of the first non-white-space character at or after `lo`, or `hi`.
fn skip_white_front(v: &Vec<char>, lo: usize, hi: usize) -> (res: usize)
    requires
        lo <= hi <= v.len(),
    ensures
        lo <= res <= hi,
        trim_start(v@.subrange(lo as int, hi as int)) == v@.subrange(res as int, hi as int),
    decreases hi - lo,
{
    if lo < hi && is_whitespace(v[lo]) {
        assert(v@.subrange(lo as int, hi as int).drop_first() == v@.subrange(lo + 1, hi as int));
        skip_white_front(v, lo + 1, hi)
    } else {
        lo
    }
}

/// Index just past the last non-white-space character before `hi`, or `lo`.
fn skip_white_back(v: &Vec<char>, lo: usize, hi: usize) -> (res: usize)
    requires
        lo <= hi <= v.len(),
    ensures
        lo <= res <= hi,
        trim_end(v@.subrange(lo as int, hi as int)) == v@.subrange(lo as int, res as int),
    decreases hi - lo,
{
    if lo < hi && is_whitespace(v[hi - 1]) {
        assert(v@.subrange(lo as int, hi as int).drop_last() == v@.subrange(lo as int, hi - 1));
        skip_white_back(v, lo, hi - 1)
    } else {
        hi
    }
}

/// The characters of `v` without leading and trailing white space.
pub fn trim_chars(v: &Vec<char>) -> (res: String)
    ensures
        res@ == trim(v@),
{
    let lo = skip_white_front(v, 0, v.len());
    assert(v@.subrange(0, v.len() as int) == v@);
    let hi = skip_white_back(v, lo, v.len());
    string_from_range(v, lo, hi)
}

/// `s` cut to at most `max` characters: longer text keeps `max - 3` characters
/// (none when `max < 3`) followed by `...`.
pub open spec fn truncated(s: Seq<char>, max: nat) -> Seq<char> {
    if s.len() > max {
        s.take(if max >= 3 { max - 3 } else { 0 }) + "..."@
    } else {
        s
    }
}

/// Shortens text for a table cell, marking the cut with `...`.
pub fn truncate(s: &str, max: usize) -> (res: String)
    ensures
        res@ == truncated(s@, max as nat),
{
    let v = chars_of(s);
    if v.len() > max {
        let keep: usize = if max >= 3 { max - 3 } else { 0 };
        let mut r = string_from_range(&v, 0, keep);
        push_str(&mut r, "...");
        assert(v@.subrange(0, keep as int) == v@.take(keep as int));
        r
    } else {
        string_from_chars(&v)
    }
}

/// Concatenation of `parts` with `sep` between neighbours.
pub open spec fn join(parts: Seq<Seq<char>>, sep: Seq<char>) -> Seq<char>
    decreases parts.len(),
{
    if parts.len() == 0 {
        Seq::empty()
    } else if parts.len() == 1 {
        parts[0]
    } else {
        join(parts.drop_last(), sep) + sep + parts.last()
    }
}

/// The views of a vector of strings.
pub open spec fn views(v: Seq<String>) -> Seq<Seq<char>> {
    v.map_values(|s: String| s@)
}

/// Joins the strings `parts[0..n]` with `sep`.
pub fn join_prefix(parts: &Vec<String>, n: usize, sep: &str) -> (res: String)
    requires
        n <= parts.len(),
    ensures
        res@ == join(views(parts@.take(n as int)), sep@),
{
    let mut res = String::new();
    let mut i: usize = 0;
    while i < n
        invariant
            i <= n <= parts.len(),
            res@ == join(views(parts@.take(i as int)), sep@),
        decreases n - i,
    {
        let ghost before = views(parts@.take(i as int));
        if i > 0 {
            push_str(&mut res, sep);
        }
        push_str(&mut res, parts[i].as_str());
        proof {
            let after = views(parts@.take(i + 1));
            assert(after.drop_last() =~= before);
            assert(after.last() == parts@[i as int]@);
            if i == 0 {
                assert(after.len() == 1);
            }
        }
        i += 1;
    }
    res
}

/// Joins all of `parts` with `sep`.
pub fn join_strings(parts: &Vec<String>, sep: &str) -> (res: String)
    ensures
        res@ == join(views(parts@), sep@),
{
    let r = join_prefix(parts, parts.len(), sep);
    assert(parts@.take(parts.len() as int) == parts@);
    r
}

} // verus!
