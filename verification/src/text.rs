//! Normalization of "smart" punctuation to plain ASCII equivalents before a
//! sentence is handed to the inference engine.

use vstd::prelude::*;
use crate::strutil::{trim_of, trim_str};

verus! {

/// What one character becomes: curly quotes, long dashes, the ellipsis,
/// guillemets and full-width CJK punctuation turn into ASCII, everything else
/// stays itself.
pub open spec fn ascii_replacement(c: char) -> Seq<char> {
    if c == '\u{2018}' || c == '\u{2019}' {
        seq!['\'']
    } else if c == '\u{201c}' || c == '\u{201d}' {
        seq!['"']
    } else if c == '\u{2014}' || c == '\u{2013}' {
        seq!['-']
    } else if c == '\u{2026}' {
        seq!['.', '.', '.']
    } else if c == '\u{ab}' {
        seq!['(']
    } else if c == '\u{bb}' {
        seq![')']
    } else if c == '\u{ff0c}' {
        seq![',']
    } else if c == '\u{3002}' {
        seq!['.']
    } else if c == '\u{ff01}' {
        seq!['!']
    } else if c == '\u{ff1f}' {
        seq!['?']
    } else if c == '\u{ff1a}' {
        seq![':']
    } else if c == '\u{ff1b}' {
        seq![';']
    } else {
        seq![c]
    }
}

/// The whole view with each character replaced.
pub open spec fn replaced_of(s: Seq<char>) -> Seq<char>
    decreases s.len(),
{
    if s.len() == 0 {
        Seq::empty()
    } else {
        ascii_replacement(s[0]) + replaced_of(s.drop_first())
    }
}

/// The full sanitisation: punctuation replaced, then white space trimmed from
/// both ends.
pub open spec fn sanitised_of(s: Seq<char>) -> Seq<char> {
    trim_of(replaced_of(s))
}

proof fn lemma_replaced_push(s: Seq<char>, c: char)
    ensures
        replaced_of(s.push(c)) == replaced_of(s) + ascii_replacement(c),
    decreases s.len(),
{
    if s.len() == 0 {
        let p = s.push(c);
        assert(p[0] == c);
        assert(p.drop_first() =~= Seq::<char>::empty());
        assert(replaced_of(Seq::<char>::empty()) == Seq::<char>::empty());
        assert(replaced_of(p) == ascii_replacement(c) + replaced_of(p.drop_first()));
        assert(ascii_replacement(c) + Seq::<char>::empty() =~= ascii_replacement(c));
        assert(replaced_of(s) + ascii_replacement(c) =~= ascii_replacement(c));
    } else {
        lemma_replaced_push(s.drop_first(), c);
        assert(s.push(c).drop_first() =~= s.drop_first().push(c));
        assert(replaced_of(s) + ascii_replacement(c) =~= ascii_replacement(s[0]) + (replaced_of(
            s.drop_first(),
        ) + ascii_replacement(c)));
    }
}

fn map_char(c: char) -> (r: char)
    requires
        c != '\u{2026}',
    ensures
        ascii_replacement(c) == seq![r],
{
    if c == '\u{2018}' || c == '\u{2019}' {
        '\''
    } else if c == '\u{201c}' || c == '\u{201d}' {
        '"'
    } else if c == '\u{2014}' || c == '\u{2013}' {
        '-'
    } else if c == '\u{ab}' {
        '('
    } else if c == '\u{bb}' {
        ')'
    } else if c == '\u{ff0c}' {
        ','
    } else if c == '\u{3002}' {
        '.'
    } else if c == '\u{ff01}' {
        '!'
    } else if c == '\u{ff1f}' {
        '?'
    } else if c == '\u{ff1a}' {
        ':'
    } else if c == '\u{ff1b}' {
        ';'
    } else {
        c
    }
}

/// Replaces smart punctuation with ASCII equivalents and trims the result,
/// improving engine robustness on curly quotes, dashes and CJK punctuation.
pub fn sanitise_sentence(s: &str) -> (r: String)
    ensures
        r@ == sanitised_of(s@),
{
    let len = s.unicode_len();
    let mut out = String::new();
    let mut i: usize = 0;
    while i < len
        invariant
            len == s@.len(),
            i <= len,
            out@ == replaced_of(s@.subrange(0, i as int)),
        decreases len - i,
    {
        let c = s.get_char(i);
        proof {
            lemma_replaced_push(s@.subrange(0, i as int), s@[i as int]);
            assert(s@.subrange(0, i as int).push(s@[i as int]) =~= s@.subrange(0, i + 1));
        }
        if c == '\u{2026}' {
            out.push('.');
            out.push('.');
            out.push('.');
            proof {
                assert(out@ =~= replaced_of(s@.subrange(0, i as int)) + ascii_replacement(
                    s@[i as int],
                ));
            }
        } else {
            let m = map_char(c);
            out.push(m);
            proof {
                assert(out@ =~= replaced_of(s@.subrange(0, i as int)) + ascii_replacement(
                    s@[i as int],
                ));
            }
        }
        i = i + 1;
    }
    proof {
        assert(s@.subrange(0, len as int) =~= s@);
    }
    let t = trim_str(out.as_str());
    t.to_owned()
}

} // verus!
