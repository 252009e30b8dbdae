//! Operations on strings, stated over their characters.
use vstd::prelude::*;
use vstd::string::StringExecFns;

verus! {

broadcast use vstd::string::group_string_axioms;

/// Whether a character is white space, as `char::is_whitespace` says.
pub uninterp spec fn is_whitespace(c: char) -> bool;

/// The lower-case form of a string, as `str::to_lowercase` gives it.
pub uninterp spec fn lowercased(s: Seq<char>) -> Seq<char>;

/// Whether the character is white space.
///
/// Calls `char::is_whitespace`. Trusted: the result is the value of
/// `is_whitespace`, the name that this crate has for that function.
#[verifier::external_body]
pub(crate) fn char_is_whitespace(c: char) -> (r: bool)
    ensures
        r == is_whitespace(c),
{
    c.is_whitespace()
}

/// The lower-case form of the string.
///
/// Calls `str::to_lowercase`. Trusted: the result is the value of
/// `lowercased`, the name that this crate has for that function.
#[verifier::external_body]
pub(crate) fn to_lowercase(s: &str) -> (r: String)
    ensures
        r@ == lowercased(s@),
{
    s.to_lowercase()
}

/// Adds a character at the end of the string.
///
/// Calls `String::push`. Trusted: the string is the old one with the
/// character after it.
#[verifier::external_body]
pub(crate) fn push_char(s: &mut String, c: char)
    ensures
        final(s)@ == old(s)@.push(c),
{
    s.push(c)
}

/// The two strings, one after the other.
pub fn concat2(a: &str, b: &str) -> (r: String)
    ensures
        r@ == a@ + b@,
{
    let mut r = String::from_str(a);
    r.append(b);
    r
}

/// The three strings, one after the other.
pub fn concat3(a: &str, b: &str, c: &str) -> (r: String)
    ensures
        r@ == a@ + b@ + c@,
{
    let mut r = String::from_str(a);
    r.append(b);
    r.append(c);
    r
}

/// A copy of the string.
pub fn owned(a: &str) -> (r: String)
    ensures
        r@ == a@,
{
    String::from_str(a)
}

/// The characters of the string.
pub fn chars_of(s: &str) -> (v: Vec<char>)
    ensures
        v@ == s@,
{
    let mut v: Vec<char> = Vec::new();
    for c in it: s.chars()
        invariant
            it.seq() == s@,
            v@ == it.seq().take(it.index() as int),
    {
        v.push(c);
        assert(v@ =~= it.seq().take(it.index() + 1));
    }
    assert(v@ =~= s@);
    v
}

/// The string of the characters from `from` up to `to`.
pub fn string_of(chars: &Vec<char>, from: usize, to: usize) -> (s: String)
    requires
        from <= to <= chars@.len(),
    ensures
        s@ == chars@.subrange(from as int, to as int),
{
    let mut s = String::new();
    let mut i: usize = from;
    while i < to
        invariant
            from <= i <= to,
            to <= chars@.len(),
            s@ == chars@.subrange(from as int, i as int),
        decreases to - i,
    {
        push_char(&mut s, chars[i]);
        assert(s@ =~= chars@.subrange(from as int, i + 1));
        i += 1;
    }
    s
}

/// A string without the white space at its start.
pub open spec fn trim_start(s: Seq<char>) -> Seq<char>
    decreases s.len(),
{
    if s.len() > 0 && is_whitespace(s[0]) {
        trim_start(s.drop_first())
    } else {
        s
    }
}

/// A string without the white space at its end.
pub open spec fn trim_end(s: Seq<char>) -> Seq<char>
    decreases s.len(),
{
    if s.len() > 0 && is_whitespace(s.last()) {
        trim_end(s.drop_last())
    } else {
        s
    }
}

/// A string without the white space at its start and at its end.
pub open spec fn trimmed(s: Seq<char>) -> Seq<char> {
    trim_end(trim_start(s))
}

/// The string without the white space at its start and at its end, as
/// `str::trim` gives it.
pub fn trim(s: &str) -> (r: String)
    ensures
        r@ == trimmed(s@),
{
    let chars = chars_of(s);
    trim_chars(&chars)
}

/// The characters as a string, without the white space at the start and at
/// the end.
pub fn trim_chars(chars: &Vec<char>) -> (r: String)
    ensures
        r@ == trimmed(chars@),
{
    let mut from: usize = 0;
    assert(chars@.skip(0) =~= chars@);
    while from < chars.len() && char_is_whitespace(chars[from])
        invariant
            from <= chars@.len(),
            trim_start(chars@) == trim_start(chars@.skip(from as int)),
        decreases chars@.len() - from,
    {
        assert(chars@.skip(from as int).drop_first() =~= chars@.skip(from + 1));
        from += 1;
    }
    assert(trim_start(chars@) == chars@.skip(from as int));
    let mut to: usize = chars.len();
    assert(chars@.subrange(from as int, to as int) =~= chars@.skip(from as int));
    while to > from && char_is_whitespace(chars[to - 1])
        invariant
            from <= to <= chars@.len(),
            trimmed(chars@) == trim_end(chars@.subrange(from as int, to as int)),
        decreases to,
    {
        assert(chars@.subrange(from as int, to as int).drop_last() =~= chars@.subrange(
            from as int,
            to - 1,
        ));
        to -= 1;
    }
    string_of(chars, from, to)
}

/// The character of a decimal digit.
pub open spec fn digit_char(d: int) -> char {
    if d == 0 {
        '0'
    } else if d == 1 {
        '1'
    } else if d == 2 {
        '2'
    } else if d == 3 {
        '3'
    } else if d == 4 {
        '4'
    } else if d == 5 {
        '5'
    } else if d == 6 {
        '6'
    } else if d == 7 {
        '7'
    } else if d == 8 {
        '8'
    } else {
        '9'
    }
}

/// The decimal numeral of a natural number, without leading zeros.
pub open spec fn decimal(n: nat) -> Seq<char>
    decreases n,
{
    if n < 10 {
        seq![digit_char(n as int)]
    } else {
        decimal(n / 10).push(digit_char((n % 10) as int))
    }
}

fn digit(d: u64) -> (c: char)
    requires
        d < 10,
    ensures
        c == digit_char(d as int),
{
    if d == 0 {
        '0'
    } else if d == 1 {
        '1'
    } else if d == 2 {
        '2'
    } else if d == 3 {
        '3'
    } else if d == 4 {
        '4'
    } else if d == 5 {
        '5'
    } else if d == 6 {
        '6'
    } else if d == 7 {
        '7'
    } else if d == 8 {
        '8'
    } else {
        '9'
    }
}

/// The decimal numeral of `n`, as `n.to_string()` gives it.
pub fn decimal_string(n: u64) -> (s: String)
    ensures
        s@ == decimal(n as nat),
{
    // The digits from the last to the first.
    let mut digits: Vec<char> = Vec::new();
    let mut rest: u64 = n;
    while rest >= 10
        invariant
            decimal(n as nat) == decimal(rest as nat) + digits@.reverse(),
        decreases rest,
    {
        let ghost before = digits@;
        digits.push(digit(rest % 10));
        proof {
            assert(digits@.reverse() =~= seq![digit_char((rest % 10) as int)] + before.reverse());
            assert(decimal(rest as nat) == decimal((rest / 10) as nat).push(
                digit_char((rest % 10) as int),
            ));
            assert(decimal(rest as nat) + before.reverse() =~= decimal((rest / 10) as nat)
                + digits@.reverse());
        }
        rest = rest / 10;
    }
    let mut s = String::new();
    push_char(&mut s, digit(rest));
    let mut i: usize = digits.len();
    while i > 0
        invariant
            i <= digits@.len(),
            s@ == decimal(rest as nat) + digits@.reverse().take(digits@.len() - i),
        decreases i,
    {
        i -= 1;
        push_char(&mut s, digits[i]);
        assert(s@ =~= decimal(rest as nat) + digits@.reverse().take(digits@.len() - i));
    }
    assert(digits@.reverse().take(digits@.len() as int) =~= digits@.reverse());
    s
}

/// How often a character occurs in a string.
pub open spec fn count_of(s: Seq<char>, c: char) -> nat
    decreases s.len(),
{
    if s.len() == 0 {
        0
    } else {
        count_of(s.drop_last(), c) + if s.last() == c {
            1nat
        } else {
            0nat
        }
    }
}

/// The place of the first occurrence of a character in a string, or the
/// length of the string if there is none.
pub open spec fn first_index(s: Seq<char>, c: char) -> int
    decreases s.len(),
{
    if s.len() == 0 || s[0] == c {
        0
    } else {
        1 + first_index(s.drop_first(), c)
    }
}

/// The string without every occurrence of a character.
pub open spec fn without(s: Seq<char>, c: char) -> Seq<char>
    decreases s.len(),
{
    if s.len() == 0 {
        s
    } else if s.last() == c {
        without(s.drop_last(), c)
    } else {
        without(s.drop_last(), c).push(s.last())
    }
}

/// The part of a string before the first occurrence of a character: the whole
/// string if there is none.
pub open spec fn before_first(s: Seq<char>, c: char) -> Seq<char> {
    s.take(first_index(s, c))
}

/// The first occurrence lies within the string, or at its end.
pub proof fn lemma_first_index_bounds(s: Seq<char>, c: char)
    ensures
        0 <= first_index(s, c) <= s.len(),
        first_index(s, c) < s.len() ==> s[first_index(s, c)] == c,
        forall|k: int| 0 <= k < first_index(s, c) ==> s[k] != c,
    decreases s.len(),
{
    if s.len() > 0 && s[0] != c {
        lemma_first_index_bounds(s.drop_first(), c);
        assert forall|k: int| 0 <= k < first_index(s, c) implies s[k] != c by {
            if k > 0 {
                assert(s.drop_first()[k - 1] == s[k]);
            }
        }
    }
}

/// How often the character occurs.
pub fn count_char(v: &Vec<char>, c: char) -> (n: usize)
    ensures
        n == count_of(v@, c),
{
    let mut n: usize = 0;
    let mut i: usize = 0;
    while i < v.len()
        invariant
            i <= v@.len(),
            n <= i,
            n == count_of(v@.take(i as int), c),
        decreases v@.len() - i,
    {
        assert(v@.take(i + 1).drop_last() =~= v@.take(i as int));
        if v[i] == c {
            n += 1;
        }
        i += 1;
    }
    assert(v@.take(v@.len() as int) =~= v@);
    n
}

/// The place of the first occurrence of the character, or the length.
pub fn find_char(v: &Vec<char>, c: char) -> (i: usize)
    ensures
        i == first_index(v@, c),
        i <= v@.len(),
{
    let mut i: usize = 0;
    assert(v@.skip(0) =~= v@);
    while i < v.len() && v[i] != c
        invariant
            i <= v@.len(),
            first_index(v@, c) == i + first_index(v@.skip(i as int), c),
        decreases v@.len() - i,
    {
        assert(v@.skip(i as int).drop_first() =~= v@.skip(i + 1));
        i += 1;
    }
    i
}

/// The first `to` characters without the occurrences of `c`.
pub fn remove_char(v: &Vec<char>, to: usize, c: char) -> (r: Vec<char>)
    requires
        to <= v@.len(),
    ensures
        r@ == without(v@.take(to as int), c),
{
    let mut r: Vec<char> = Vec::new();
    let mut i: usize = 0;
    while i < to
        invariant
            i <= to <= v@.len(),
            r@ == without(v@.take(i as int), c),
        decreases to - i,
    {
        assert(v@.take(i + 1).drop_last() =~= v@.take(i as int));
        if v[i] != c {
            r.push(v[i]);
        }
        i += 1;
    }
    r
}

/// The first `to` characters.
pub fn take_chars(v: &Vec<char>, to: usize) -> (r: Vec<char>)
    requires
        to <= v@.len(),
    ensures
        r@ == v@.take(to as int),
{
    let mut r: Vec<char> = Vec::new();
    let mut i: usize = 0;
    while i < to
        invariant
            i <= to <= v@.len(),
            r@ == v@.take(i as int),
        decreases to - i,
    {
        r.push(v[i]);
        assert(r@ =~= v@.take(i + 1));
        i += 1;
    }
    r
}

/// A string in which a character does not occur counts none of it.
pub proof fn lemma_count_zero(s: Seq<char>, c: char)
    requires
        forall|k: int| 0 <= k < s.len() ==> s[k] != c,
    ensures
        count_of(s, c) == 0,
    decreases s.len(),
{
    if s.len() > 0 {
        lemma_count_zero(s.drop_last(), c);
    }
}

/// The parts of a string between the occurrences of a separator. A string
/// with n separators has n + 1 parts, some of which may be empty.
pub open spec fn split_on(s: Seq<char>, c: char) -> Seq<Seq<char>>
    decreases s.len(),
{
    if s.len() == 0 {
        seq![Seq::<char>::empty()]
    } else {
        let parts = split_on(s.drop_last(), c);
        if s.last() == c {
            parts.push(Seq::<char>::empty())
        } else {
            parts.update(parts.len() - 1, parts.last().push(s.last()))
        }
    }
}

/// Each string without the white space around it.
pub open spec fn each_trimmed(parts: Seq<Seq<char>>) -> Seq<Seq<char>> {
    Seq::new(parts.len(), |i: int| trimmed(parts[i]))
}

/// The views of a sequence of strings.
pub open spec fn views(v: Seq<String>) -> Seq<Seq<char>> {
    Seq::new(v.len(), |i: int| v[i]@)
}

/// The parts of the string between the occurrences of the separator, each
/// without the white space around it.
pub fn split_trimmed(s: &str, separator: char) -> (parts: Vec<String>)
    ensures
        views(parts@) == each_trimmed(split_on(s@, separator)),
{
    let chars = chars_of(s);
    let mut parts: Vec<String> = Vec::new();
    let mut current: Vec<char> = Vec::new();
    let mut i: usize = 0;
    assert(chars@.take(0) =~= Seq::<char>::empty());
    assert(views(parts@) =~= each_trimmed(split_on(chars@.take(0), separator).drop_last()));
    while i < chars.len()
        invariant
            i <= chars@.len(),
            split_on(chars@.take(i as int), separator).len() >= 1,
            current@ == split_on(chars@.take(i as int), separator).last(),
            views(parts@) == each_trimmed(split_on(chars@.take(i as int), separator).drop_last()),
        decreases chars@.len() - i,
    {
        let ghost before = split_on(chars@.take(i as int), separator);
        let ghost after = split_on(chars@.take(i + 1), separator);
        assert(chars@.take(i + 1).drop_last() =~= chars@.take(i as int));
        if chars[i] == separator {
            let ghost old_parts = views(parts@);
            let part = trim_chars(&current);
            parts.push(part);
            current = Vec::new();
            assert(after == before.push(Seq::<char>::empty()));
            assert(after.drop_last() =~= before);
            assert(before =~= before.drop_last().push(before.last()));
            assert(views(parts@) =~= old_parts.push(part@));
            assert(each_trimmed(before) =~= each_trimmed(before.drop_last()).push(
                trimmed(before.last()),
            ));
            assert(views(parts@) =~= each_trimmed(after.drop_last()));
        } else {
            current.push(chars[i]);
            assert(after == before.update(before.len() - 1, before.last().push(chars@[i as int])));
            assert(after.drop_last() =~= before.drop_last());
        }
        i += 1;
    }
    assert(chars@.take(chars@.len() as int) =~= chars@);
    let ghost all = split_on(chars@, separator);
    let ghost old_parts = views(parts@);
    let part = trim_chars(&current);
    parts.push(part);
    assert(all =~= all.drop_last().push(all.last()));
    assert(views(parts@) =~= old_parts.push(part@));
    assert(each_trimmed(all) =~= each_trimmed(all.drop_last()).push(trimmed(all.last())));
    assert(views(parts@) =~= each_trimmed(all));
    parts
}

/// `needle` stands in `s` at place `i`.
pub open spec fn occurs_at(s: Seq<char>, needle: Seq<char>, i: int) -> bool {
    0 <= i && i + needle.len() <= s.len() && s.subrange(i, i + needle.len()) == needle
}

/// `needle` stands somewhere in `s`. The empty string stands in every string.
pub open spec fn has_substring(s: Seq<char>, needle: Seq<char>) -> bool {
    exists|i: int| occurs_at(s, needle, i)
}

fn matches_at(s: &Vec<char>, needle: &Vec<char>, i: usize) -> (r: bool)
    requires
        i + needle@.len() <= s@.len(),
    ensures
        r == occurs_at(s@, needle@, i as int),
{
    let n: usize = s.len();
    let mut k: usize = 0;
    while k < needle.len()
        invariant
            k <= needle@.len(),
            n == s@.len(),
            i + needle@.len() <= s@.len(),
            forall|j: int| 0 <= j < k ==> s@[i + j] == needle@[j],
        decreases needle@.len() - k,
    {
        if s[i + k] != needle[k] {
            assert(s@.subrange(i as int, i + needle@.len())[k as int] != needle@[k as int]);
            return false;
        }
        k += 1;
    }
    assert(s@.subrange(i as int, i + needle@.len()) =~= needle@);
    true
}

/// Whether `needle` stands somewhere in `s`, as `str::contains` says.
pub fn contains_text(s: &str, needle: &str) -> (r: bool)
    ensures
        r == has_substring(s@, needle@),
{
    let hay = chars_of(s);
    let pin = chars_of(needle);
    if pin.len() > hay.len() {
        return false;
    }
    let last: usize = hay.len() - pin.len();
    let mut i: usize = 0;
    loop
        invariant
            i <= last,
            last == hay@.len() - pin@.len(),
            hay@ == s@,
            pin@ == needle@,
            forall|j: int| 0 <= j < i ==> !occurs_at(hay@, pin@, j),
        decreases last - i,
    {
        if matches_at(&hay, &pin, i) {
            return true;
        }
        if i == last {
            return false;
        }
        i += 1;
    }
}

} // verus!
