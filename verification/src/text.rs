//! Character-level text helpers shared by the rest of the crate.
//!
//! Text enters and leaves the crate as `str` / `String`; inside, it is handled
//! as a vector of `char`s so that every index means one character.

use vstd::prelude::*;

verus! {

/// `String::push` of the standard library: the string afterwards is the
/// string before with `ch` appended.
pub assume_specification[ String::push ](s: &mut String, ch: char)
    ensures
        final(s)@ == old(s)@.push(ch),
;

/// The characters of `s`, one element per character.
pub fn to_chars(s: &str) -> (v: Vec<char>)
    ensures
        v@ == s@,
{
    let mut v: Vec<char> = Vec::new();
    for c in it: s.chars()
        invariant
            v@ == it.seq().take(it.index()),
            it.seq() == s@,
    {
        v.push(c);
    }
    v
}

/// The string made of `v[from..to]`.
pub fn text_of(v: &Vec<char>, from: usize, to: usize) -> (s: String)
    requires
        from <= to <= v.len(),
    ensures
        s@ == v@.subrange(from as int, to as int),
{
    let mut s = String::new();
    let mut i: usize = from;
    while i < to
        invariant
            from <= i <= to <= v.len(),
            s@ == v@.subrange(from as int, i as int),
        decreases to - i,
    {
        s.push(v[i]);
        i += 1;
    }
    s
}

/// Characters with the Unicode `White_Space` property.
pub open spec fn is_space(c: char) -> bool {
    let n = c as u32;
    ||| 0x09 <= n <= 0x0D
    ||| n == 0x20
    ||| n == 0x85
    ||| n == 0xA0
    ||| n == 0x1680
    ||| 0x2000 <= n <= 0x200A
    ||| n == 0x2028
    ||| n == 0x2029
    ||| n == 0x202F
    ||| n == 0x205F
    ||| n == 0x3000
}

/// Executable form of [`is_space`].
pub fn is_space_char(c: char) -> (b: bool)
    ensures
        b == is_space(c),
{
    let n: u32 = c as u32;
    (0x09 <= n && n <= 0x0D) || n == 0x20 || n == 0x85 || n == 0xA0 || n == 0x1680 || (0x2000 <= n
        && n <= 0x200A) || n == 0x2028 || n == 0x2029 || n == 0x202F || n == 0x205F || n == 0x3000
}

/// `s` without its leading white space.
pub open spec fn without_leading_space(s: Seq<char>) -> Seq<char>
    decreases s.len(),
{
    if s.len() > 0 && is_space(s.first()) {
        without_leading_space(s.drop_first())
    } else {
        s
    }
}

/// `s` without its trailing white space.
pub open spec fn without_trailing_space(s: Seq<char>) -> Seq<char>
    decreases s.len(),
{
    if s.len() > 0 && is_space(s.last()) {
        without_trailing_space(s.drop_last())
    } else {
        s
    }
}

/// `s` with white space removed at both ends.
pub open spec fn trimmed(s: Seq<char>) -> Seq<char> {
    without_trailing_space(without_leading_space(s))
}

/// The bounds `(from, to)` of the trimmed part of `v`.
pub fn trim_bounds(v: &Vec<char>) -> (r: (usize, usize))
    ensures
        r.0 <= r.1 <= v.len(),
        v@.subrange(r.0 as int, r.1 as int) == trimmed(v@),
{
    let n: usize = v.len();
    let mut from: usize = 0;
    assert(v@.skip(0) == v@);
    while from < n && is_space_char(v[from])
        invariant
            from <= n == v.len(),
            without_leading_space(v@) == without_leading_space(v@.skip(from as int)),
        decreases n - from,
    {
        assert(v@.skip(from as int).drop_first() == v@.skip(from + 1));
        from += 1;
    }
    let mut to: usize = n;
    while to > from && is_space_char(v[to - 1])
        invariant
            from <= to <= n == v.len(),
            without_trailing_space(v@.skip(from as int)) == without_trailing_space(
                v@.subrange(from as int, to as int),
            ),
        decreases to,
    {
        assert(v@.subrange(from as int, to as int).drop_last() == v@.subrange(
            from as int,
            to - 1,
        ));
        to -= 1;
    }
    proof {
        assert(v@.skip(from as int) == v@.subrange(from as int, n as int));
        assert(without_leading_space(v@.skip(from as int)) == v@.skip(from as int));
        let mid = v@.subrange(from as int, to as int);
        assert(without_trailing_space(mid) == mid);
    }
    (from, to)
}

/// `s` with white space removed at both ends, as `str::trim` does.
pub fn trim(s: &str) -> (t: String)
    ensures
        t@ == trimmed(s@),
{
    let v = to_chars(s);
    let (from, to) = trim_bounds(&v);
    text_of(&v, from, to)
}

/// `s` with white space removed at its end, as `str::trim_end` does.
pub fn trim_end(s: &str) -> (t: String)
    ensures
        t@ == without_trailing_space(s@),
{
    let v = to_chars(s);
    let mut to: usize = v.len();
    assert(v@.take(to as int) == v@);
    while to > 0 && is_space_char(v[to - 1])
        invariant
            to <= v.len(),
            without_trailing_space(v@) == without_trailing_space(v@.take(to as int)),
        decreases to,
    {
        assert(v@.take(to as int).drop_last() == v@.take(to - 1));
        to -= 1;
    }
    assert(v@.take(to as int) == v@.subrange(0, to as int));
    text_of(&v, 0, to)
}

/// The character of the decimal digit `d`.
pub open spec fn digit_char(d: nat) -> char
    recommends
        d < 10,
{
    (0x30 + d) as char
}

/// The decimal numeral of `n`, without sign or leading zeros.
pub open spec fn decimal(n: nat) -> Seq<char>
    decreases n,
{
    if n < 10 {
        seq![digit_char(n)]
    } else {
        decimal(n / 10).push(digit_char(n % 10))
    }
}

/// Executable form of [`digit_char`].
pub fn digit(d: u8) -> (c: char)
    requires
        d < 10,
    ensures
        c == digit_char(d as nat),
{
    (0x30u8 + d) as char
}

/// Appends the decimal numeral of `n` to `out`.
pub fn push_decimal(out: &mut String, n: u64)
    ensures
        final(out)@ == old(out)@ + decimal(n as nat),
    decreases n,
{
    if n >= 10 {
        push_decimal(out, n / 10);
    }
    out.push(digit((n % 10) as u8));
}

/// A copy of `v[from..to]`.
pub fn part_of(v: &Vec<char>, from: usize, to: usize) -> (w: Vec<char>)
    requires
        from <= to <= v.len(),
    ensures
        w@ == v@.subrange(from as int, to as int),
{
    let mut w: Vec<char> = Vec::new();
    let mut i: usize = from;
    while i < to
        invariant
            from <= i <= to <= v.len(),
            w@ == v@.subrange(from as int, i as int),
        decreases to - i,
    {
        w.push(v[i]);
        i += 1;
    }
    w
}

/// `c` with an ASCII capital letter turned into its small letter; any other
/// character is kept.
pub open spec fn ascii_lower(c: char) -> char {
    if 0x41 <= c as u32 <= 0x5A {
        ((c as u32) + 0x20) as char
    } else {
        c
    }
}

/// `s` with [`ascii_lower`] applied to each character.
pub open spec fn lowered(s: Seq<char>) -> Seq<char> {
    Seq::new(s.len(), |i: int| ascii_lower(s[i]))
}

/// Executable form of [`ascii_lower`].
pub fn ascii_lower_char(c: char) -> (l: char)
    ensures
        l == ascii_lower(c),
{
    let n: u32 = c as u32;
    if 0x41 <= n && n <= 0x5A {
        ((n as u8) + 0x20u8) as char
    } else {
        c
    }
}

/// Executable form of [`lowered`].
pub fn lower(v: &Vec<char>) -> (w: Vec<char>)
    ensures
        w@ == lowered(v@),
{
    let mut w: Vec<char> = Vec::new();
    let mut i: usize = 0;
    while i < v.len()
        invariant
            i <= v.len(),
            w@ == lowered(v@).take(i as int),
        decreases v.len() - i,
    {
        w.push(ascii_lower_char(v[i]));
        assert(w@ =~= lowered(v@).take(i + 1));
        i += 1;
    }
    assert(lowered(v@).take(v.len() as int) =~= lowered(v@));
    w
}

/// Whether `needle` stands in `hay` at index `i`.
pub open spec fn occurs_at(hay: Seq<char>, needle: Seq<char>, i: int) -> bool {
    &&& 0 <= i
    &&& i + needle.len() <= hay.len()
    &&& hay.subrange(i, i + needle.len()) == needle
}

/// Whether `needle` stands somewhere in `hay`.
pub open spec fn contains(hay: Seq<char>, needle: Seq<char>) -> bool {
    exists|i: int| occurs_at(hay, needle, i)
}

/// The first index at or after `from` at which `needle` stands in `hay`.
pub open spec fn find_from(hay: Seq<char>, needle: Seq<char>, from: int) -> Option<int>
    decreases hay.len() + 1 - from,
{
    if from < 0 || from + needle.len() > hay.len() {
        None
    } else if occurs_at(hay, needle, from) {
        Some(from)
    } else {
        find_from(hay, needle, from + 1)
    }
}

/// The first index at which `needle` stands in `hay`.
pub open spec fn find(hay: Seq<char>, needle: Seq<char>) -> Option<int> {
    find_from(hay, needle, 0)
}

/// [`find_from`] gives the least index of an occurrence at or after `from`,
/// and `None` exactly when there is none.
pub proof fn lemma_find_from_is_first(hay: Seq<char>, needle: Seq<char>, from: int)
    requires
        0 <= from,
    ensures
        match find_from(hay, needle, from) {
            Some(i) => from <= i && occurs_at(hay, needle, i) && forall|j: int|
                from <= j < i ==> !occurs_at(hay, needle, j),
            None => forall|j: int| from <= j ==> !occurs_at(hay, needle, j),
        },
    decreases hay.len() + 1 - from,
{
    if from + needle.len() > hay.len() {
    } else if occurs_at(hay, needle, from) {
    } else {
        lemma_find_from_is_first(hay, needle, from + 1);
    }
}

/// [`find`] gives the least index of an occurrence, and is `Some` exactly
/// when [`contains`] holds.
pub proof fn lemma_find_is_first(hay: Seq<char>, needle: Seq<char>)
    ensures
        find(hay, needle).is_some() == contains(hay, needle),
        match find(hay, needle) {
            Some(i) => occurs_at(hay, needle, i) && forall|j: int|
                j < i ==> !occurs_at(hay, needle, j),
            None => true,
        },
{
    lemma_find_from_is_first(hay, needle, 0);
}

/// Whether `needle` stands in `hay` at index `i`.
pub fn occurs_at_index(hay: &Vec<char>, needle: &Vec<char>, i: usize) -> (b: bool)
    requires
        i + needle.len() <= hay.len(),
    ensures
        b == occurs_at(hay@, needle@, i as int),
{
    let mut j: usize = 0;
    while j < needle.len()
        invariant
            j <= needle.len(),
            i + needle.len() <= hay.len(),
            hay@.subrange(i as int, i + j) == needle@.take(j as int),
        decreases needle.len() - j,
    {
        if hay[i + j] != needle[j] {
            assert(hay@.subrange(i as int, i + needle.len())[j as int] != needle@[j as int]);
            return false;
        }
        assert(hay@.subrange(i as int, i + j + 1) =~= needle@.take(j + 1));
        j += 1;
    }
    assert(needle@.take(needle.len() as int) == needle@);
    true
}

/// The first index at which `needle` stands in `hay`.
pub fn find_in(hay: &Vec<char>, needle: &Vec<char>) -> (r: Option<usize>)
    ensures
        match r {
            Some(i) => find(hay@, needle@) == Some(i as int) && i + needle.len() <= hay.len(),
            None => find(hay@, needle@).is_none(),
        },
{
    if needle.len() > hay.len() {
        return None;
    }
    let last: usize = hay.len() - needle.len();
    let mut i: usize = 0;
    loop
        invariant
            i <= last,
            last == hay.len() - needle.len(),
            find(hay@, needle@) == find_from(hay@, needle@, i as int),
        decreases last - i,
    {
        if occurs_at_index(hay, needle, i) {
            return Some(i);
        }
        if i == last {
            assert(find_from(hay@, needle@, i + 1).is_none());
            return None;
        }
        i += 1;
    }
}

/// Whether `needle` stands somewhere in `hay`.
pub fn contains_in(hay: &Vec<char>, needle: &Vec<char>) -> (b: bool)
    ensures
        b == contains(hay@, needle@),
{
    proof {
        lemma_find_is_first(hay@, needle@);
    }
    find_in(hay, needle).is_some()
}

/// Characters that part the components of a path: `/` and `\\`.
pub open spec fn is_separator(c: char) -> bool {
    c == '/' || c == '\\'
}

/// The last component of `path`: what follows its last separator, or all of
/// it where it holds none.
pub open spec fn file_name(path: Seq<char>) -> Seq<char>
    decreases path.len(),
{
    if path.len() == 0 || is_separator(path.last()) {
        Seq::empty()
    } else {
        file_name(path.drop_last()).push(path.last())
    }
}

/// [`file_name`] holds no separator and is the part of `path` behind the last
/// one.
pub proof fn lemma_file_name_is_suffix(path: Seq<char>)
    ensures
        file_name(path).len() <= path.len(),
        file_name(path) == path.skip(path.len() - file_name(path).len()),
        forall|i: int| 0 <= i < file_name(path).len() ==> !is_separator(#[trigger] file_name(path)[i]),
        file_name(path).len() < path.len() ==> is_separator(
            path[path.len() - file_name(path).len() - 1],
        ),
    decreases path.len(),
{
    if path.len() == 0 || is_separator(path.last()) {
        assert(path.skip(path.len() as int) =~= Seq::<char>::empty());
    } else {
        let shorter = path.drop_last();
        lemma_file_name_is_suffix(shorter);
        let inner = file_name(shorter);
        assert(file_name(path) =~= path.skip(path.len() - (inner.len() + 1)));
    }
}

/// The start of the last component of `v[..]`.
pub fn file_name_start(v: &Vec<char>) -> (k: usize)
    ensures
        k <= v.len(),
        v@.skip(k as int) == file_name(v@),
{
    let mut k: usize = v.len();
    assert(v@.skip(k as int) =~= Seq::<char>::empty());
    assert(v@.take(k as int) == v@);
    assert(file_name(v@) + Seq::<char>::empty() =~= file_name(v@));
    while k > 0 && v[k - 1] != '/' && v[k - 1] != '\\'
        invariant
            k <= v.len(),
            file_name(v@) == file_name(v@.take(k as int)) + v@.skip(k as int),
        decreases k,
    {
        proof {
            let head = v@.take(k as int);
            assert(head.drop_last() == v@.take(k - 1));
            assert(head.last() == v@[k - 1]);
            assert(file_name(head) == file_name(v@.take(k - 1)).push(v@[k - 1]));
            assert(file_name(v@.take(k - 1)).push(v@[k - 1]) + v@.skip(k as int) =~= file_name(
                v@.take(k - 1),
            ) + v@.skip(k - 1));
        }
        k -= 1;
    }
    proof {
        let head = v@.take(k as int);
        if k > 0 {
            assert(head.last() == v@[k - 1]);
        }
        assert(file_name(head) =~= Seq::<char>::empty());
        assert(Seq::<char>::empty() + v@.skip(k as int) =~= v@.skip(k as int));
    }
    k
}

} // verus!
