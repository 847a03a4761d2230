//! Escaping of single quotes in URLs before script injection.
//!
//! A received URL is spliced into a single-quoted JavaScript string literal.
//! Every single quote in the URL therefore gains a preceding backslash, so
//! that no quote of the URL can terminate the literal early.

use vstd::prelude::*;

verus! {

/// How one character of a URL appears inside the single-quoted script
/// literal: a single quote gains a preceding backslash, every other
/// character stands as it is.
pub open spec fn escaped_char(c: char) -> Seq<char> {
    if c == '\'' {
        seq!['\\', '\'']
    } else {
        seq![c]
    }
}

/// A URL as it appears inside the single-quoted script literal: every single
/// quote escaped with a backslash, all other characters unchanged and in
/// order.
pub open spec fn escaped(s: Seq<char>) -> Seq<char>
    decreases s.len(),
{
    if s.len() == 0 {
        Seq::empty()
    } else {
        escaped_char(s[0]) + escaped(s.skip(1))
    }
}

/// Escaping one character more extends the escaped form at the end.
pub proof fn lemma_escaped_push(s: Seq<char>, c: char)
    ensures
        escaped(s.push(c)) == escaped(s) + escaped_char(c),
    decreases s.len(),
{
    if s.len() == 0 {
        assert(s.push(c).skip(1) =~= Seq::<char>::empty());
        assert(escaped(Seq::<char>::empty()) == Seq::<char>::empty());
        assert(s.push(c)[0] == c);
        assert(escaped(s.push(c)) == escaped_char(c) + escaped(Seq::<char>::empty()));
        assert(escaped(s.push(c)) =~= escaped(s) + escaped_char(c));
    } else {
        assert(s.push(c).skip(1) =~= s.skip(1).push(c));
        lemma_escaped_push(s.skip(1), c);
        assert(escaped(s.push(c)) =~= escaped(s) + escaped_char(c));
    }
}

/// In an escaped string, each single quote stands right after a backslash.
pub proof fn lemma_escaped_quote_has_backslash_at(s: Seq<char>, i: int)
    requires
        0 <= i < escaped(s).len(),
        escaped(s)[i] == '\'',
    ensures
        i > 0,
        escaped(s)[i - 1] == '\\',
    decreases s.len(),
{
    let head = escaped_char(s[0]);
    if i >= head.len() {
        lemma_escaped_quote_has_backslash_at(s.skip(1), i - head.len());
    }
}

/// Law: after escaping, every single quote is immediately preceded by a
/// backslash, so no quote of the URL terminates the surrounding
/// single-quoted script literal early.
pub proof fn lemma_escaped_quotes_are_escaped(s: Seq<char>)
    ensures
        forall|i: int|
            0 <= i < escaped(s).len() && #[trigger] escaped(s)[i] == '\'' ==> i > 0 && escaped(
                s,
            )[i - 1] == '\\',
{
    assert forall|i: int|
        0 <= i < escaped(s).len() && #[trigger] escaped(s)[i] == '\'' implies i > 0 && escaped(s)[i
        - 1] == '\\' by {
        lemma_escaped_quote_has_backslash_at(s, i);
    }
}

/// Replaces every single quote of `s` with a backslash followed by a single
/// quote, leaving all other characters unchanged and in order.
pub fn escape_single_quotes(s: &str) -> (r: String)
    ensures
        r@ == escaped(s@),
{
    let n = s.unicode_len();
    let mut r = String::new();
    let mut i: usize = 0;
    while i < n
        invariant
            n == s@.len(),
            i <= n,
            r@ == escaped(s@.take(i as int)),
        decreases n - i,
    {
        let c = s.get_char(i);
        proof {
            lemma_escaped_push(s@.take(i as int), c);
            assert(s@.take(i as int).push(c) =~= s@.take(i + 1 as int));
        }
        if c == '\'' {
            r.append("\\'");
            proof {
                reveal_strlit("\\'");
                assert("\\'"@ =~= escaped_char(c));
            }
        } else {
            r.append(s.substring_char(i, i + 1));
            proof {
                assert(s@.subrange(i as int, i + 1 as int) =~= escaped_char(c));
            }
        }
        i = i + 1;
    }
    proof {
        assert(s@.take(n as int) =~= s@);
    }
    r
}

} // verus!
