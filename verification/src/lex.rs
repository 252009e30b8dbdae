//! The order of strings: lexicographic by the bytes of their UTF-8 encoding,
//! which is the order that `str` has in Rust.
use vstd::prelude::*;
use vstd::utf8::encode_utf8;
use vstd::utf8::decode_utf8;
use vstd::utf8::encode_utf8_decode_utf8;

verus! {

/// `a` comes strictly before `b` in lexicographic byte order.
pub open spec fn lex_lt(a: Seq<u8>, b: Seq<u8>) -> bool
    decreases a.len(),
{
    if b.len() == 0 {
        false
    } else if a.len() == 0 {
        true
    } else if a[0] != b[0] {
        a[0] < b[0]
    } else {
        lex_lt(a.drop_first(), b.drop_first())
    }
}

/// The order of two strings, given by their characters: byte order of the
/// UTF-8 encodings.
pub open spec fn name_lt(a: Seq<char>, b: Seq<char>) -> bool {
    lex_lt(encode_utf8(a), encode_utf8(b))
}

/// `a` is not after `b`.
pub open spec fn name_le(a: Seq<char>, b: Seq<char>) -> bool {
    a == b || name_lt(a, b)
}

/// No byte sequence comes before itself.
pub proof fn lemma_lex_lt_irreflexive(a: Seq<u8>)
    ensures
        !lex_lt(a, a),
    decreases a.len(),
{
    if a.len() > 0 {
        lemma_lex_lt_irreflexive(a.drop_first());
    }
}

/// The byte order is transitive.
pub proof fn lemma_lex_lt_transitive(a: Seq<u8>, b: Seq<u8>, c: Seq<u8>)
    requires
        lex_lt(a, b),
        lex_lt(b, c),
    ensures
        lex_lt(a, c),
    decreases a.len(),
{
    if a.len() > 0 && a[0] == b[0] && b[0] == c[0] {
        lemma_lex_lt_transitive(a.drop_first(), b.drop_first(), c.drop_first());
    }
}

/// Two different byte sequences are ordered one way or the other.
pub proof fn lemma_lex_lt_total(a: Seq<u8>, b: Seq<u8>)
    ensures
        a == b || lex_lt(a, b) || lex_lt(b, a),
    decreases a.len(),
{
    if a.len() > 0 && b.len() > 0 && a[0] == b[0] {
        lemma_lex_lt_total(a.drop_first(), b.drop_first());
        if a.drop_first() == b.drop_first() {
            assert(a =~= seq![a[0]] + a.drop_first());
            assert(b =~= seq![b[0]] + b.drop_first());
        }
    } else if a.len() == 0 && b.len() == 0 {
        assert(a =~= b);
    }
}

/// No string comes before itself.
pub proof fn lemma_name_lt_irreflexive(a: Seq<char>)
    ensures
        !name_lt(a, a),
{
    lemma_lex_lt_irreflexive(encode_utf8(a));
}

/// The order of strings is transitive.
pub proof fn lemma_name_lt_transitive(a: Seq<char>, b: Seq<char>, c: Seq<char>)
    requires
        name_lt(a, b),
        name_lt(b, c),
    ensures
        name_lt(a, c),
{
    lemma_lex_lt_transitive(encode_utf8(a), encode_utf8(b), encode_utf8(c));
}

/// Of two strings at most one comes before the other.
pub proof fn lemma_name_lt_asymmetric(a: Seq<char>, b: Seq<char>)
    requires
        name_lt(a, b),
    ensures
        !name_lt(b, a),
        a != b,
{
    if name_lt(b, a) {
        lemma_name_lt_transitive(a, b, a);
    }
    lemma_name_lt_irreflexive(a);
}

/// Two different strings are ordered one way or the other.
pub proof fn lemma_name_lt_total(a: Seq<char>, b: Seq<char>)
    ensures
        a == b || name_lt(a, b) || name_lt(b, a),
{
    lemma_lex_lt_total(encode_utf8(a), encode_utf8(b));
    if encode_utf8(a) == encode_utf8(b) {
        encode_utf8_decode_utf8(a);
        encode_utf8_decode_utf8(b);
        assert(decode_utf8(encode_utf8(a)) == decode_utf8(encode_utf8(b)));
    }
}

/// Whether `a` comes strictly before `b`, as `a < b` on `str` decides it.
pub fn str_lt(a: &str, b: &str) -> (r: bool)
    ensures
        r == name_lt(a@, b@),
{
    let x = a.as_bytes();
    let y = b.as_bytes();
    let mut i: usize = 0;
    proof {
        assert(x@.skip(0) =~= x@);
        assert(y@.skip(0) =~= y@);
    }
    while i < x.len() && i < y.len()
        invariant
            i <= x@.len(),
            i <= y@.len(),
            x@ == encode_utf8(a@),
            y@ == encode_utf8(b@),
            lex_lt(x@, y@) == lex_lt(x@.skip(i as int), y@.skip(i as int)),
        decreases x@.len() - i,
    {
        proof {
            assert(x@.skip(i as int).drop_first() =~= x@.skip(i + 1));
            assert(y@.skip(i as int).drop_first() =~= y@.skip(i + 1));
        }
        if x[i] != y[i] {
            return x[i] < y[i];
        }
        i += 1;
    }
    i < y.len()
}

/// Whether `a` is not after `b`.
pub fn str_le(a: &str, b: &str) -> (r: bool)
    ensures
        r == name_le(a@, b@),
{
    proof {
        lemma_name_lt_total(a@, b@);
        if name_lt(b@, a@) {
            lemma_name_lt_asymmetric(b@, a@);
        }
    }
    !str_lt(b, a)
}

/// The two names in ascending order.
pub open spec fn canonical_pair(x: Seq<char>, y: Seq<char>) -> (Seq<char>, Seq<char>) {
    if name_lt(x, y) {
        (x, y)
    } else {
        (y, x)
    }
}

/// The first of a canonical pair is not after the second, and is before it
/// where the two names differ.
pub proof fn lemma_canonical_pair(x: Seq<char>, y: Seq<char>)
    ensures
        name_le(canonical_pair(x, y).0, canonical_pair(x, y).1),
        x != y ==> name_lt(canonical_pair(x, y).0, canonical_pair(x, y).1),
        canonical_pair(x, y) == canonical_pair(y, x),
{
    lemma_name_lt_total(x, y);
    if name_lt(x, y) {
        lemma_name_lt_asymmetric(x, y);
    }
}

/// Whether two strings are the same.
pub fn str_eq(a: &str, b: &str) -> (r: bool)
    ensures
        r == (a@ == b@),
{
    proof {
        lemma_name_lt_total(a@, b@);
        if a@ == b@ {
            lemma_name_lt_irreflexive(a@);
        }
    }
    !str_lt(a, b) && !str_lt(b, a)
}

} // verus!
