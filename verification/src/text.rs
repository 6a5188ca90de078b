//! Character-sequence helpers shared by the parsers.
//!
//! Texts are handled as `Vec<char>`, whose view is the `Seq<char>` of a
//! string; every helper is stated over that view.
use vstd::prelude::*;

verus! {

// ─────────────────────────────────────────────────────────────────────
// Model
// ─────────────────────────────────────────────────────────────────────

/// Unicode `White_Space`, as `char::is_whitespace` documents it.
pub open spec fn is_ws(c: char) -> bool {
    ||| ('\u{9}' <= c && c <= '\u{d}')
    ||| c == ' '
    ||| c == '\u{85}'
    ||| c == '\u{a0}'
    ||| c == '\u{1680}'
    ||| ('\u{2000}' <= c && c <= '\u{200a}')
    ||| c == '\u{2028}'
    ||| c == '\u{2029}'
    ||| c == '\u{202f}'
    ||| c == '\u{205f}'
    ||| c == '\u{3000}'
}

/// Name for what `char::is_alphanumeric` returns (Unicode `Alphabetic`
/// or `Numeric`), a table far too large to restate.
pub uninterp spec fn unicode_alphanumeric(c: char) -> bool;

pub open spec fn is_ascii_upper(c: char) -> bool {
    'A' <= c && c <= 'Z'
}

/// Drop leading whitespace.
pub open spec fn trim_start(s: Seq<char>) -> Seq<char>
    decreases s.len(),
{
    if s.len() > 0 && is_ws(s[0]) {
        trim_start(s.drop_first())
    } else {
        s
    }
}

/// Drop trailing whitespace.
pub open spec fn trim_end(s: Seq<char>) -> Seq<char>
    decreases s.len(),
{
    if s.len() > 0 && is_ws(s.last()) {
        trim_end(s.drop_last())
    } else {
        s
    }
}

/// Drop whitespace at both ends.
pub open spec fn trim(s: Seq<char>) -> Seq<char> {
    trim_end(trim_start(s))
}

pub open spec fn starts_with(s: Seq<char>, p: Seq<char>) -> bool {
    p.len() <= s.len() && s.take(p.len() as int) == p
}

pub open spec fn ends_with(s: Seq<char>, p: Seq<char>) -> bool {
    p.len() <= s.len() && s.skip(s.len() - p.len()) == p
}

/// `p` occurs somewhere in `s`.
pub open spec fn contains(s: Seq<char>, p: Seq<char>) -> bool {
    exists|i: int| 0 <= i && i + p.len() <= s.len() && #[trigger] s.subrange(i, i + p.len()) == p
}

/// First position of `c`, if any.
pub open spec fn find_char(s: Seq<char>, c: char) -> Option<int>
    decreases s.len(),
{
    if s.len() == 0 {
        None
    } else if s[0] == c {
        Some(0)
    } else {
        match find_char(s.drop_first(), c) {
            Some(i) => Some(i + 1),
            None => None,
        }
    }
}

/// A character that continues an identifier: alphanumeric or `_`, and
/// `$` too when `dollar` holds.
pub open spec fn is_name_char(c: char, dollar: bool) -> bool {
    unicode_alphanumeric(c) || c == '_' || (dollar && c == '$')
}

/// Length of the leading run of name characters.
pub open spec fn name_len(s: Seq<char>, dollar: bool) -> int
    decreases s.len(),
{
    if s.len() > 0 && is_name_char(s[0], dollar) {
        1 + name_len(s.drop_first(), dollar)
    } else {
        0
    }
}

/// The lines of a text the way `str::lines` cuts them: at `\n`, with a
/// `\r` right before it dropped, and no empty line after a final `\n`.
pub open spec fn lines(s: Seq<char>) -> Seq<Seq<char>>
    decreases s.len(),
{
    if s.len() == 0 {
        Seq::empty()
    } else {
        match find_char(s, '\n') {
            None => seq![s],
            Some(i) => {
                proof {
                    lemma_find_char_range(s, '\n');
                }
                let line = s.take(i);
                let line = if line.len() > 0 && line.last() == '\r' {
                    line.drop_last()
                } else {
                    line
                };
                seq![line] + lines(s.skip(i + 1))
            },
        }
    }
}

pub proof fn lemma_find_char_range(s: Seq<char>, c: char)
    ensures
        find_char(s, c) matches Some(i) ==> 0 <= i < s.len() && s[i] == c && forall|j: int|
            0 <= j < i ==> s[j] != c,
        find_char(s, c) is None ==> forall|j: int| 0 <= j < s.len() ==> s[j] != c,
    decreases s.len(),
{
    if s.len() > 0 {
        lemma_find_char_range(s.drop_first(), c);
        if s[0] != c {
            assert forall|j: int| 1 <= j < s.len() implies s[j] == s.drop_first()[j - 1] by {}
        }
    }
}

pub proof fn lemma_name_len_range(s: Seq<char>, dollar: bool)
    ensures
        0 <= name_len(s, dollar) <= s.len(),
        forall|j: int| 0 <= j < name_len(s, dollar) ==> is_name_char(#[trigger] s[j], dollar),
        name_len(s, dollar) < s.len() ==> !is_name_char(s[name_len(s, dollar)], dollar),
    decreases s.len(),
{
    if s.len() > 0 && is_name_char(s[0], dollar) {
        lemma_name_len_range(s.drop_first(), dollar);
        assert forall|j: int| 0 <= j < name_len(s, dollar) implies is_name_char(#[trigger] s[j], dollar) by {
            if j > 0 {
                assert(s[j] == s.drop_first()[j - 1]);
            }
        }
    }
}

pub proof fn lemma_trim_start_is_suffix(s: Seq<char>)
    ensures
        trim_start(s).len() <= s.len(),
        trim_start(s) == s.skip(s.len() - trim_start(s).len()),
    decreases s.len(),
{
    if s.len() > 0 && is_ws(s[0]) {
        lemma_trim_start_is_suffix(s.drop_first());
        assert(s.drop_first().skip(s.drop_first().len() - trim_start(s).len()) =~= s.skip(
            s.len() - trim_start(s).len(),
        ));
    } else {
        assert(s.skip(0) =~= s);
    }
}

// ─────────────────────────────────────────────────────────────────────
// Trusted std calls
// ─────────────────────────────────────────────────────────────────────

/// `char::is_alphanumeric`: the contract ties the answer to the name
/// `unicode_alphanumeric`; what that table holds is left unsaid.
#[verifier::external_body]
pub(crate) fn char_is_alphanumeric(c: char) -> (b: bool)
    ensures
        b == unicode_alphanumeric(c),
{
    c.is_alphanumeric()
}

/// `String::push`: appends one character.
#[verifier::external_body]
pub(crate) fn push_char(s: &mut String, c: char)
    ensures
        final(s)@ == old(s)@.push(c),
{
    s.push(c)
}

// ─────────────────────────────────────────────────────────────────────
// Executable helpers
// ─────────────────────────────────────────────────────────────────────

/// The characters of a string slice, in order.
pub fn chars_of(s: &str) -> (out: Vec<char>)
    ensures
        out@ == s@,
{
    let mut out: Vec<char> = Vec::new();
    for c in it: s.chars()
        invariant
            out@ == it.seq().take(it.index() as int),
    {
        out.push(c);
    }
    out
}

/// A `String` holding exactly the given characters.
pub fn string_of(v: &Vec<char>) -> (s: String)
    ensures
        s@ == v@,
{
    let mut s = String::new();
    let mut i: usize = 0;
    while i < v.len()
        invariant
            i <= v.len(),
            s@ == v@.take(i as int),
        decreases v.len() - i,
    {
        push_char(&mut s, v[i]);
        assert(v@.take(i + 1) =~= v@.take(i as int).push(v@[i as int]));
        i = i + 1;
    }
    assert(v@.take(v.len() as int) =~= v@);
    s
}

pub fn is_whitespace(c: char) -> (b: bool)
    ensures
        b == is_ws(c),
{
    ('\u{9}' <= c && c <= '\u{d}') || c == ' ' || c == '\u{85}' || c == '\u{a0}' || c == '\u{1680}' || (
    '\u{2000}' <= c && c <= '\u{200a}') || c == '\u{2028}' || c == '\u{2029}' || c == '\u{202f}' || c
        == '\u{205f}' || c == '\u{3000}'
}

/// `s[from..to]` as a new vector.
pub fn slice_chars(s: &Vec<char>, from: usize, to: usize) -> (r: Vec<char>)
    requires
        from <= to <= s.len(),
    ensures
        r@ == s@.subrange(from as int, to as int),
{
    let mut r: Vec<char> = Vec::new();
    let mut i: usize = from;
    while i < to
        invariant
            from <= i <= to,
            to <= s.len(),
            r@ == s@.subrange(from as int, i as int),
        decreases to - i,
    {
        r.push(s[i]);
        assert(s@.subrange(from as int, i + 1) =~= s@.subrange(from as int, i as int).push(s@[i as int]));
        i = i + 1;
    }
    r
}

/// `s[from..]` as a new vector.
pub fn skip_chars(s: &Vec<char>, from: usize) -> (r: Vec<char>)
    requires
        from <= s.len(),
    ensures
        r@ == s@.skip(from as int),
{
    slice_chars(s, from, s.len())
}

/// Drop leading whitespace.
pub fn trim_start_chars(s: &Vec<char>) -> (r: Vec<char>)
    ensures
        r@ == trim_start(s@),
{
    let mut i: usize = 0;
    assert(s@.skip(0) =~= s@);
    while i < s.len() && is_whitespace(s[i])
        invariant
            i <= s.len(),
            trim_start(s@) == trim_start(s@.skip(i as int)),
        decreases s.len() - i,
    {
        assert(s@.skip(i as int).drop_first() =~= s@.skip(i + 1));
        i = i + 1;
    }
    assert(s@.skip(0) =~= s@);
    skip_chars(s, i)
}

/// Drop trailing whitespace.
pub fn trim_end_chars(s: &Vec<char>) -> (r: Vec<char>)
    ensures
        r@ == trim_end(s@),
{
    let mut j: usize = s.len();
    assert(s@.take(j as int) =~= s@);
    while j > 0 && is_whitespace(s[j - 1])
        invariant
            j <= s.len(),
            trim_end(s@) == trim_end(s@.take(j as int)),
        decreases j,
    {
        assert(s@.take(j as int).drop_last() =~= s@.take(j - 1));
        j = j - 1;
    }
    slice_chars(s, 0, j)
}

/// Drop whitespace at both ends.
pub fn trim_chars(s: &Vec<char>) -> (r: Vec<char>)
    ensures
        r@ == trim(s@),
{
    let t = trim_start_chars(s);
    trim_end_chars(&t)
}

/// Does `s` start with the characters of `p`?
pub fn starts_with_chars(s: &Vec<char>, p: &Vec<char>) -> (b: bool)
    ensures
        b == starts_with(s@, p@),
{
    if p.len() > s.len() {
        return false;
    }
    let mut i: usize = 0;
    while i < p.len()
        invariant
            p.len() <= s.len(),
            i <= p.len(),
            forall|j: int| 0 <= j < i ==> s@[j] == p@[j],
        decreases p.len() - i,
    {
        if s[i] != p[i] {
            assert(s@.take(p.len() as int)[i as int] != p@[i as int]);
            return false;
        }
        i = i + 1;
    }
    assert(s@.take(p.len() as int) =~= p@);
    true
}

/// Does `s` start with the string `p`?
pub fn starts_with_str(s: &Vec<char>, p: &str) -> (b: bool)
    ensures
        b == starts_with(s@, p@),
{
    let pv = chars_of(p);
    starts_with_chars(s, &pv)
}

/// If `s` starts with `p`, the rest of `s`.
pub fn strip_prefix_str(s: &Vec<char>, p: &str) -> (r: Option<Vec<char>>)
    ensures
        r is Some <==> starts_with(s@, p@),
        r matches Some(v) ==> v@ == s@.skip(p@.len() as int),
{
    let pv = chars_of(p);
    if starts_with_chars(s, &pv) {
        Some(skip_chars(s, pv.len()))
    } else {
        None
    }
}

/// Does `s` end with the characters of `p`?
pub fn ends_with_chars(s: &Vec<char>, p: &Vec<char>) -> (b: bool)
    ensures
        b == ends_with(s@, p@),
{
    if p.len() > s.len() {
        return false;
    }
    let off = s.len() - p.len();
    let mut i: usize = 0;
    while i < p.len()
        invariant
            p.len() <= s.len(),
            off == s.len() - p.len(),
            i <= p.len(),
            forall|j: int| 0 <= j < i ==> s@[off + j] == p@[j],
        decreases p.len() - i,
    {
        if s[off + i] != p[i] {
            assert(s@.skip(off as int)[i as int] != p@[i as int]);
            return false;
        }
        i = i + 1;
    }
    assert(s@.skip(off as int) =~= p@);
    true
}

/// Does `p` occur at position `i` of `s`?
fn occurs_at(s: &Vec<char>, p: &Vec<char>, i: usize) -> (b: bool)
    requires
        i + p.len() <= s.len(),
    ensures
        b == (s@.subrange(i as int, i + p.len()) == p@),
{
    let mut j: usize = 0;
    while j < p.len()
        invariant
            i + p.len() <= s.len(),
            j <= p.len(),
            forall|k: int| 0 <= k < j ==> s@[i + k] == p@[k],
        decreases p.len() - j,
    {
        if s[i + j] != p[j] {
            assert(s@.subrange(i as int, i + p.len())[j as int] != p@[j as int]);
            return false;
        }
        j = j + 1;
    }
    assert(s@.subrange(i as int, i + p.len()) =~= p@);
    true
}

/// Does `p` occur anywhere in `s`?
pub fn contains_chars(s: &Vec<char>, p: &Vec<char>) -> (b: bool)
    ensures
        b == contains(s@, p@),
{
    if p.len() > s.len() {
        return false;
    }
    let mut i: usize = 0;
    let last = s.len() - p.len();
    while i <= last
        invariant
            p.len() <= s.len(),
            last == s.len() - p.len(),
            forall|k: int| 0 <= k < i ==> #[trigger] s@.subrange(k, k + p.len()) != p@,
        decreases last - i,
    {
        if occurs_at(s, p, i) {
            return true;
        }
        if i == last {
            return false;
        }
        i = i + 1;
    }
    false
}

/// Does the string `p` occur anywhere in `s`?
pub fn contains_str(s: &Vec<char>, p: &str) -> (b: bool)
    ensures
        b == contains(s@, p@),
{
    let pv = chars_of(p);
    contains_chars(s, &pv)
}

/// First position of `c` in `s`.
pub fn find_char_in(s: &Vec<char>, c: char) -> (r: Option<usize>)
    ensures
        match r {
            Some(i) => find_char(s@, c) == Some(i as int) && i < s@.len(),
            None => find_char(s@, c) is None,
        },
{
    let mut i: usize = 0;
    assert(s@.skip(0) =~= s@);
    while i < s.len()
        invariant
            i <= s.len(),
            find_char(s@, c) == (match find_char(s@.skip(i as int), c) {
                Some(k) => Some(k + i),
                None => None::<int>,
            }),
        decreases s.len() - i,
    {
        if s[i] == c {
            proof {
                lemma_find_char_range(s@, c);
            }
            return Some(i);
        }
        assert(s@.skip(i as int).drop_first() =~= s@.skip(i + 1));
        i = i + 1;
    }
    proof {
        r_none_helper(s@, c, i as int);
    }
    None
}

proof fn r_none_helper(s: Seq<char>, c: char, i: int)
    requires
        i == s.len(),
        find_char(s, c) == (match find_char(s.skip(i), c) {
            Some(k) => Some(k + i),
            None => None::<int>,
        }),
    ensures
        find_char(s, c) is None,
{
    assert(s.skip(i) =~= Seq::<char>::empty());
}

/// Length of the leading run of name characters of `s`.
pub fn name_len_of(s: &Vec<char>, dollar: bool) -> (n: usize)
    ensures
        n == name_len(s@, dollar),
{
    let mut i: usize = 0;
    assert(s@.skip(0) =~= s@);
    while i < s.len() && (char_is_alphanumeric(s[i]) || s[i] == '_' || (dollar && s[i] == '$'))
        invariant
            i <= s.len(),
            name_len(s@, dollar) == i + name_len(s@.skip(i as int), dollar),
        decreases s.len() - i,
    {
        assert(s@.skip(i as int).drop_first() =~= s@.skip(i + 1));
        i = i + 1;
    }
    assert(s@.skip(0) =~= s@);
    i
}

/// The lines of a text, cut as `str::lines` cuts them.
pub fn lines_of(s: &Vec<char>) -> (out: Vec<Vec<char>>)
    ensures
        out@.len() == lines(s@).len(),
        forall|i: int| 0 <= i < out@.len() ==> #[trigger] out@[i]@ == lines(s@)[i],
{
    let mut out: Vec<Vec<char>> = Vec::new();
    let mut start: usize = 0;
    assert(s@.skip(0) =~= s@);
    while start < s.len()
        invariant
            start <= s.len(),
            forall|i: int| 0 <= i < out@.len() ==> #[trigger] out@[i]@ == lines(s@)[i],
            lines(s@) =~= out@.map_values(|v: Vec<char>| v@) + lines(s@.skip(start as int)),
        decreases s.len() - start,
    {
        let rest = skip_chars(s, start);
        let ghost old_out = out@;
        match find_char_in(&rest, '\n') {
            None => {
                proof {
                    lemma_find_char_range(rest@, '\n');
                }
                out.push(rest);
                assert(lines(s@.skip(start as int)) =~= seq![s@.skip(start as int)]);
                assert(s@.skip(s.len() as int) =~= Seq::<char>::empty());
                assert(out@.map_values(|v: Vec<char>| v@) =~= old_out.map_values(|v: Vec<char>| v@).push(
                    s@.skip(start as int),
                ));
                start = s.len();
            },
            Some(i) => {
                proof {
                    lemma_find_char_range(rest@, '\n');
                }
                let line0 = slice_chars(&rest, 0, i);
                let line = if i > 0 && line0[i - 1] == '\r' {
                    slice_chars(&rest, 0, i - 1)
                } else {
                    line0
                };
                assert(rest@.take(i as int).len() > 0 && rest@.take(i as int).last() == '\r' ==> line@
                    =~= rest@.take(i as int).drop_last());
                let ghost l = line@;
                out.push(line);
                assert(s@.skip(start as int).skip(i + 1) =~= s@.skip(start + i + 1));
                assert(lines(s@.skip(start as int)) =~= seq![l] + lines(s@.skip(start + i + 1)));
                assert(out@.map_values(|v: Vec<char>| v@) =~= old_out.map_values(|v: Vec<char>| v@).push(l));
                start = start + i + 1;
            },
        }
    }
    assert(s@.skip(start as int) =~= Seq::<char>::empty());
    assert(lines(s@) =~= out@.map_values(|v: Vec<char>| v@));
    out
}

/// Append the characters of `w` to `v`.
pub fn append_chars(v: &mut Vec<char>, w: &Vec<char>)
    ensures
        final(v)@ == old(v)@ + w@,
{
    let ghost v0 = v@;
    let mut i: usize = 0;
    while i < w.len()
        invariant
            i <= w.len(),
            v@ == v0 + w@.take(i as int),
        decreases w.len() - i,
    {
        v.push(w[i]);
        assert(w@.take(i + 1) =~= w@.take(i as int).push(w@[i as int]));
        i = i + 1;
    }
    assert(w@.take(w.len() as int) =~= w@);
}

/// Append the characters of the string `s` to `v`.
pub fn append_str(v: &mut Vec<char>, s: &str)
    ensures
        final(v)@ == old(v)@ + s@,
{
    let w = chars_of(s);
    append_chars(v, &w);
}

/// Decimal digits of a natural number, most significant first.
pub open spec fn decimal(n: nat) -> Seq<char>
    decreases n,
{
    if n < 10 {
        seq![digit_char(n)]
    } else {
        decimal(n / 10) + seq![digit_char(n % 10)]
    }
}

pub open spec fn digit_char(d: nat) -> char {
    if d == 0 { '0' } else if d == 1 { '1' } else if d == 2 { '2' } else if d == 3 { '3' } else if d == 4 {
        '4'
    } else if d == 5 { '5' } else if d == 6 { '6' } else if d == 7 { '7' } else if d == 8 { '8' } else { '9' }
}

fn digit(d: u64) -> (c: char)
    requires
        d < 10,
    ensures
        c == digit_char(d as nat),
{
    if d == 0 { '0' } else if d == 1 { '1' } else if d == 2 { '2' } else if d == 3 { '3' } else if d == 4 {
        '4'
    } else if d == 5 { '5' } else if d == 6 { '6' } else if d == 7 { '7' } else if d == 8 { '8' } else { '9' }
}

/// Append the decimal form of `n` (as `{}` formats it) to `v`.
pub fn append_decimal(v: &mut Vec<char>, n: u64)
    ensures
        final(v)@ == old(v)@ + decimal(n as nat),
    decreases n,
{
    if n >= 10 {
        append_decimal(v, n / 10);
    }
    v.push(digit(n % 10));
    proof {
        if n < 10 {
            assert(n % 10 == n);
        }
    }
}

/// Decimal form of an integer, with a leading `-` when negative.
pub open spec fn signed_decimal(i: int) -> Seq<char> {
    if i < 0 {
        seq!['-'] + decimal((-i) as nat)
    } else {
        decimal(i as nat)
    }
}

/// Append the decimal form of `i` (as `{}` formats an `i64`) to `v`.
pub fn append_signed(v: &mut Vec<char>, i: i64)
    ensures
        final(v)@ == old(v)@ + signed_decimal(i as int),
{
    if i < 0 {
        v.push('-');
        let m: i128 = -(i as i128);
        append_decimal(v, m as u64);
    } else {
        append_decimal(v, i as u64);
    }
}

/// ASCII lower-casing of every character.
pub open spec fn ascii_lower(s: Seq<char>) -> Seq<char> {
    Seq::new(s.len(), |i: int| lower_char(s[i]))
}

pub open spec fn lower_char(c: char) -> char {
    if 'A' <= c && c <= 'Z' {
        ((c as u32) + 32) as char
    } else {
        c
    }
}

pub fn ascii_lower_chars(s: &Vec<char>) -> (r: Vec<char>)
    ensures
        r@ == ascii_lower(s@),
{
    let mut r: Vec<char> = Vec::new();
    let mut i: usize = 0;
    while i < s.len()
        invariant
            i <= s.len(),
            r@.len() == i,
            forall|j: int| 0 <= j < i ==> r@[j] == lower_char(s@[j]),
        decreases s.len() - i,
    {
        let l = ascii_lowercase(s[i]);
        r.push(l);
        i = i + 1;
    }
    assert(r@ =~= ascii_lower(s@));
    r
}

/// ASCII lower case of one character: `'A'..='Z'` becomes `'a'..='z'`,
/// every other character stays.
pub(crate) fn ascii_lowercase(c: char) -> (r: char)
    ensures
        r == lower_char(c),
{
    if 'A' <= c && c <= 'Z' {
        let b: u8 = c as u8;
        (b + 32) as char
    } else {
        c
    }
}

pub fn chars_eq_str(s: &Vec<char>, p: &str) -> (b: bool)
    ensures
        b == (s@ == p@),
{
    let pv = chars_of(p);
    if s.len() != pv.len() {
        return false;
    }
    let r = starts_with_str(s, p);
    assert(s@.take(pv@.len() as int) =~= s@);
    r
}

/// ASCII upper-casing of one character.
pub open spec fn upper_char(c: char) -> char {
    if 'a' <= c && c <= 'z' {
        ((c as u32) - 32) as char
    } else {
        c
    }
}

/// ASCII upper case of one character: `'a'..='z'` becomes `'A'..='Z'`,
/// every other character stays.
pub(crate) fn ascii_uppercase(c: char) -> (r: char)
    ensures
        r == upper_char(c),
{
    if 'a' <= c && c <= 'z' {
        let b: u8 = c as u8;
        (b - 32) as char
    } else {
        c
    }
}

/// The parts joined with `sep` between neighbours.
pub open spec fn joined(parts: Seq<Seq<char>>, sep: Seq<char>) -> Seq<char>
    decreases parts.len(),
{
    if parts.len() == 0 {
        Seq::empty()
    } else if parts.len() == 1 {
        parts[0]
    } else {
        joined(parts.drop_last(), sep) + sep + parts.last()
    }
}

pub fn chars_eq(a: &Vec<char>, b: &Vec<char>) -> (r: bool)
    ensures
        r == (a@ == b@),
{
    if a.len() != b.len() {
        return false;
    }
    let mut i: usize = 0;
    while i < a.len()
        invariant
            a.len() == b.len(),
            i <= a.len(),
            forall|k: int| 0 <= k < i ==> a@[k] == b@[k],
        decreases a.len() - i,
    {
        if a[i] != b[i] {
            return false;
        }
        i = i + 1;
    }
    assert(a@ =~= b@);
    true
}

/// Whether `c` is an ASCII decimal digit.
pub open spec fn is_digit(c: char) -> bool {
    '0' <= c && c <= '9'
}

/// The number an all-digit sequence spells in base ten.
pub open spec fn digits_value(s: Seq<char>) -> nat
    decreases s.len(),
{
    if s.len() == 0 {
        0
    } else {
        digits_value(s.drop_last()) * 10 + ((s.last() as u32) - ('0' as u32)) as nat
    }
}

/// Why a text is not an unsigned integer, as `str::parse` reports it.
#[derive(Debug, Clone, Copy, PartialEq, Eq, Structural)]
pub enum IntErrorKind {
    /// The text is empty.
    Empty,
    /// A character is not a digit (a lone sign included).
    InvalidDigit,
    /// The value exceeds the type's maximum.
    PosOverflow,
}

/// The value of the digits of `d`, read left to right, or the first
/// error met: a non-digit, or a prefix exceeding `max`.
pub open spec fn digit_scan(d: Seq<char>, max: nat) -> Result<nat, IntErrorKind>
    decreases d.len(),
{
    if d.len() == 0 {
        Ok(0)
    } else {
        match digit_scan(d.drop_last(), max) {
            Err(e) => Err(e),
            Ok(v) => if !is_digit(d.last()) {
                Err(IntErrorKind::InvalidDigit)
            } else if v * 10 + ((d.last() as u32) - ('0' as u32)) > max {
                Err(IntErrorKind::PosOverflow)
            } else {
                Ok(v * 10 + ((d.last() as u32) - ('0' as u32)) as nat)
            },
        }
    }
}

/// What `str::parse` gives for an unsigned type whose maximum is `max`:
/// an optional leading `+`, then at least one ASCII digit.
pub open spec fn uint_parse(s: Seq<char>, max: nat) -> Result<nat, IntErrorKind> {
    if s.len() == 0 {
        Err(IntErrorKind::Empty)
    } else if s.len() == 1 && (s[0] == '+' || s[0] == '-') {
        Err(IntErrorKind::InvalidDigit)
    } else if s[0] == '+' {
        digit_scan(s.skip(1), max)
    } else {
        digit_scan(s, max)
    }
}

/// The message `ParseIntError` displays for each kind.
pub open spec fn int_error_text(k: IntErrorKind) -> Seq<char> {
    match k {
        IntErrorKind::Empty => "cannot parse integer from empty string"@,
        IntErrorKind::InvalidDigit => "invalid digit found in string"@,
        IntErrorKind::PosOverflow => "number too large to fit in target type"@,
    }
}

impl IntErrorKind {
    /// The message `ParseIntError` displays.
    pub fn message(&self) -> (r: &'static str)
        ensures
            r@ == int_error_text(*self),
    {
        match self {
            IntErrorKind::Empty => "cannot parse integer from empty string",
            IntErrorKind::InvalidDigit => "invalid digit found in string",
            IntErrorKind::PosOverflow => "number too large to fit in target type",
        }
    }
}

/// Parse an unsigned decimal integer no greater than `max`, as
/// `str::parse` does for an unsigned type with that maximum.
pub fn parse_uint(s: &Vec<char>, max: u64) -> (r: Result<u64, IntErrorKind>)
    ensures
        match r {
            Ok(v) => uint_parse(s@, max as nat) == Ok::<nat, IntErrorKind>(v as nat),
            Err(e) => uint_parse(s@, max as nat) == Err::<nat, IntErrorKind>(e),
        },
{
    if s.len() == 0 {
        return Err(IntErrorKind::Empty);
    }
    if s.len() == 1 && (s[0] == '+' || s[0] == '-') {
        return Err(IntErrorKind::InvalidDigit);
    }
    let start: usize = if s[0] == '+' {
        1
    } else {
        0
    };
    let ghost d = s@.skip(start as int);
    if start == 0 {
        assert(d =~= s@);
    }
    assert(uint_parse(s@, max as nat) == digit_scan(d, max as nat));
    let mut v: u64 = 0;
    let mut i: usize = start;
    assert(d.take(0) =~= Seq::<char>::empty());
    while i < s.len()
        invariant
            start <= i <= s@.len(),
            d == s@.skip(start as int),
            uint_parse(s@, max as nat) == digit_scan(d, max as nat),
            digit_scan(d.take(i - start), max as nat) == Ok::<nat, IntErrorKind>(v as nat),
            v <= max,
        decreases s.len() - i,
    {
        let c = s[i];
        assert(d[i - start] == c);
        assert(d.take(i - start + 1).drop_last() =~= d.take(i - start));
        assert(d.take(i - start + 1).last() == c);
        if !('0' <= c && c <= '9') {
            proof {
                lemma_scan_error_persists(d, i - start + 1, max as nat);
            }
            return Err(IntErrorKind::InvalidDigit);
        }
        let dig: u64 = ((c as u32) - ('0' as u32)) as u64;
        if dig > max || v > (max - dig) / 10 {
            proof {
                assert(v * 10 + dig > max) by (nonlinear_arith)
                    requires
                        dig > max || v > (max - dig) / 10,
                        dig <= 9,
                ;
                lemma_scan_error_persists(d, i - start + 1, max as nat);
            }
            return Err(IntErrorKind::PosOverflow);
        }
        proof {
            assert(v * 10 + dig <= max) by (nonlinear_arith)
                requires
                    dig <= max,
                    v <= (max - dig) / 10,
                    dig <= 9,
            ;
        }
        v = v * 10 + dig;
        i = i + 1;
    }
    assert(d.take(d.len() as int) =~= d);
    Ok(v)
}

proof fn lemma_scan_error_persists(d: Seq<char>, k: int, max: nat)
    requires
        0 <= k <= d.len(),
        digit_scan(d.take(k), max) is Err,
    ensures
        digit_scan(d, max) == digit_scan(d.take(k), max),
    decreases d.len() - k,
{
    if k < d.len() {
        assert(d.take(k + 1).drop_last() =~= d.take(k));
        lemma_scan_error_persists(d, k + 1, max);
    } else {
        assert(d.take(k) =~= d);
    }
}

} // verus!
