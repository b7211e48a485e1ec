//! Comparisons on strings, stated over their characters.

use vstd::prelude::*;
use vstd::std_specs::iter::IteratorSpec;

verus! {

broadcast use vstd::string::group_string_axioms;

/// Lexicographic "less than or equal" on character sequences, characters
/// ordered by code point. A proper prefix comes before its extensions.
pub open spec fn lex_le(a: Seq<char>, b: Seq<char>) -> bool
    decreases a.len(),
{
    if a.len() == 0 {
        true
    } else if b.len() == 0 {
        false
    } else if a[0] != b[0] {
        (a[0] as u32) < (b[0] as u32)
    } else {
        lex_le(a.drop_first(), b.drop_first())
    }
}

/// Whether `text` begins with `prefix`, character for character.
pub fn starts_with(text: &str, prefix: &str) -> (r: bool)
    ensures
        r == prefix@.is_prefix_of(text@),
{
    let mut rest_text = text.chars();
    let mut rest_prefix = prefix.chars();
    let ghost mut n: int = 0;
    loop
        invariant
            0 <= n <= prefix@.len(),
            n <= text@.len(),
            rest_prefix.remaining() == prefix@.skip(n),
            rest_text.remaining() == text@.skip(n),
            prefix@.take(n) == text@.take(n),
        decreases prefix@.len() - n,
    {
        match rest_prefix.next() {
            None => {
                assert(prefix@.take(n) == prefix@);
                assert(text@.take(n) == text@.subrange(0, prefix@.len() as int));
                return true;
            },
            Some(pc) => {
                match rest_text.next() {
                    None => {
                        return false;
                    },
                    Some(tc) => {
                        if pc != tc {
                            assert(prefix@[n] != text@[n]);
                            return false;
                        }
                        proof {
                            assert(prefix@.take(n + 1) == prefix@.take(n).push(prefix@[n]));
                            assert(text@.take(n + 1) == text@.take(n).push(text@[n]));
                            assert(prefix@.skip(n).drop_first() == prefix@.skip(n + 1));
                            assert(text@.skip(n).drop_first() == text@.skip(n + 1));
                            n = n + 1;
                        }
                    },
                }
            },
        }
    }
}

/// Whether two strings hold the same characters.
pub fn same(a: &str, b: &str) -> (r: bool)
    ensures
        r == (a@ == b@),
{
    let r = starts_with(a, b) && starts_with(b, a);
    proof {
        if r {
            assert(a@ =~= b@);
        }
    }
    r
}

/// Whether `a` comes before `b`, or equals it, in lexicographic order.
pub fn precedes(a: &str, b: &str) -> (r: bool)
    ensures
        r == lex_le(a@, b@),
{
    let mut rest_a = a.chars();
    let mut rest_b = b.chars();
    let ghost mut n: int = 0;
    loop
        invariant
            0 <= n <= a@.len(),
            n <= b@.len(),
            rest_a.remaining() == a@.skip(n),
            rest_b.remaining() == b@.skip(n),
            lex_le(a@, b@) == lex_le(a@.skip(n), b@.skip(n)),
        decreases a@.len() - n,
    {
        match rest_a.next() {
            None => {
                return true;
            },
            Some(ac) => {
                match rest_b.next() {
                    None => {
                        return false;
                    },
                    Some(bc) => {
                        if ac != bc {
                            return (ac as u32) < (bc as u32);
                        }
                        proof {
                            assert(a@.skip(n).drop_first() == a@.skip(n + 1));
                            assert(b@.skip(n).drop_first() == b@.skip(n + 1));
                            n = n + 1;
                        }
                    },
                }
            },
        }
    }
}

/// Every sequence precedes itself.
pub proof fn lemma_lex_le_reflexive(a: Seq<char>)
    ensures
        lex_le(a, a),
    decreases a.len(),
{
    if a.len() > 0 {
        lemma_lex_le_reflexive(a.drop_first());
    }
}

/// Of two sequences, one precedes the other.
pub proof fn lemma_lex_le_total(a: Seq<char>, b: Seq<char>)
    ensures
        lex_le(a, b) || lex_le(b, a),
    decreases a.len(),
{
    if a.len() > 0 && b.len() > 0 {
        if a[0] == b[0] {
            lemma_lex_le_total(a.drop_first(), b.drop_first());
        } else {
            vstd::utf8::char_u32_cast(a[0], a[0] as u32);
            vstd::utf8::char_u32_cast(b[0], b[0] as u32);
        }
    }
}

/// Two sequences that precede each other are equal.
pub proof fn lemma_lex_le_antisymmetric(a: Seq<char>, b: Seq<char>)
    requires
        lex_le(a, b),
        lex_le(b, a),
    ensures
        a == b,
    decreases a.len(),
{
    if a.len() > 0 && b.len() > 0 {
        lemma_lex_le_antisymmetric(a.drop_first(), b.drop_first());
        assert(a == seq![a[0]] + a.drop_first());
        assert(b == seq![b[0]] + b.drop_first());
    } else {
        assert(a == b);
    }
}

/// Precedence carries over a middle sequence.
pub proof fn lemma_lex_le_transitive(a: Seq<char>, b: Seq<char>, c: Seq<char>)
    requires
        lex_le(a, b),
        lex_le(b, c),
    ensures
        lex_le(a, c),
    decreases a.len(),
{
    if a.len() > 0 && b.len() > 0 && c.len() > 0 && a[0] == b[0] && b[0] == c[0] {
        lemma_lex_le_transitive(a.drop_first(), b.drop_first(), c.drop_first());
    }
}

} // verus!
