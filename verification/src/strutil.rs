//! Verified string helpers: equality, decimal rendering, truncation,
//! whitespace trimming, substring search and separator splitting.
//!
//! Everything here works over `Seq<char>` views; the only trusted item is a
//! specification for `String::push`, which vstd does not cover.

use vstd::prelude::*;

verus! {

/// Relies on `String::push`: appends the given character to the end of the string.
pub assume_specification[ String::push ](s: &mut String, c: char)
    ensures
        final(s)@ == old(s)@.push(c),
;

/// The Unicode `White_Space` property, the set of characters that
/// `str::trim` removes.
pub open spec fn is_white_space(c: char) -> bool {
    ||| c == ' '
    ||| (0x09 <= c as u32 && c as u32 <= 0x0d)
    ||| c as u32 == 0x85
    ||| c as u32 == 0xa0
    ||| c as u32 == 0x1680
    ||| (0x2000 <= c as u32 && c as u32 <= 0x200a)
    ||| c as u32 == 0x2028
    ||| c as u32 == 0x2029
    ||| c as u32 == 0x202f
    ||| c as u32 == 0x205f
    ||| c as u32 == 0x3000
}

/// Executable check for the `White_Space` property.
pub fn white_space(c: char) -> (r: bool)
    ensures
        r == is_white_space(c),
{
    let u = c as u32;
    u == 0x20 || (0x09 <= u && u <= 0x0d) || u == 0x85 || u == 0xa0 || u == 0x1680
        || (0x2000 <= u && u <= 0x200a) || u == 0x2028 || u == 0x2029 || u == 0x202f
        || u == 0x205f || u == 0x3000
}

/// String equality over views.
pub fn str_eq(a: &str, b: &str) -> (r: bool)
    ensures
        r == (a@ == b@),
{
    let sa = a.to_owned();
    let sb = b.to_owned();
    sa == sb
}

/// The character for one decimal digit.
pub open spec fn dec_digit(d: nat) -> char {
    if d == 0 {
        '0'
    } else if d == 1 {
        '1'
    } else if d == 2 {
        '2'
    } else if d == 3 {
        '3'
    } else if d == 4 {
        '4'
    } else if d == 5 {
        '5'
    } else if d == 6 {
        '6'
    } else if d == 7 {
        '7'
    } else if d == 8 {
        '8'
    } else {
        '9'
    }
}

/// The decimal rendering of a natural number, most significant digit first.
pub open spec fn dec_of(n: nat) -> Seq<char>
    decreases n,
{
    if n < 10 {
        seq![dec_digit(n)]
    } else {
        dec_of(n / 10).push(dec_digit(n % 10))
    }
}

fn dec_digit_exec(d: u64) -> (c: char)
    requires
        d < 10,
    ensures
        c == dec_digit(d as nat),
{
    if d == 0 {
        '0'
    } else if d == 1 {
        '1'
    } else if d == 2 {
        '2'
    } else if d == 3 {
        '3'
    } else if d == 4 {
        '4'
    } else if d == 5 {
        '5'
    } else if d == 6 {
        '6'
    } else if d == 7 {
        '7'
    } else if d == 8 {
        '8'
    } else {
        '9'
    }
}

fn push_dec(r: &mut String, m: u64)
    ensures
        final(r)@ == old(r)@ + dec_of(m as nat),
    decreases m,
{
    if m >= 10 {
        assert(m / 10 < m) by (nonlinear_arith)
            requires
                m >= 10,
        ;
        push_dec(r, m / 10);
    }
    let d = dec_digit_exec(m % 10);
    r.push(d);
    proof {
        if m < 10 {
            assert(old(r)@ + dec_of(m as nat) =~= old(r)@.push(dec_digit(m as nat)));
        } else {
            assert(old(r)@ + dec_of(m as nat) =~= (old(r)@ + dec_of((m / 10) as nat)).push(
                dec_digit((m % 10) as nat),
            ));
        }
    }
}

/// Renders an unsigned number in decimal.
pub fn u64_to_dec(n: u64) -> (r: String)
    ensures
        r@ == dec_of(n as nat),
{
    let mut r = String::new();
    push_dec(&mut r, n);
    proof {
        assert(r@ =~= dec_of(n as nat));
    }
    r
}

/// `n` occurs in `h` starting at position `i`.
pub open spec fn occurs_at(h: Seq<char>, n: Seq<char>, i: int) -> bool {
    0 <= i && i + n.len() <= h.len() && h.subrange(i, i + n.len()) == n
}

/// `n` occurs somewhere in `h`.
pub open spec fn occurs_in(h: Seq<char>, n: Seq<char>) -> bool {
    exists|i: int| occurs_at(h, n, i)
}

/// Substring search: whether `needle` occurs in `hay`.
pub fn contains_str(hay: &str, needle: &str) -> (r: bool)
    ensures
        r == occurs_in(hay@, needle@),
{
    let hay_len = hay.unicode_len();
    let needle_len = needle.unicode_len();
    if needle_len > hay_len {
        return false;
    }
    let mut i: usize = 0;
    while i <= hay_len - needle_len
        invariant
            needle_len == needle@.len(),
            hay_len == hay@.len(),
            needle_len <= hay_len,
            i <= hay_len - needle_len + 1,
            forall|k: int| 0 <= k < i ==> !occurs_at(hay@, needle@, k),
        decreases hay_len - needle_len - i + 1,
    {
        let mut j: usize = 0;
        let mut matches = true;
        while j < needle_len
            invariant
                needle_len == needle@.len(),
                hay_len == hay@.len(),
                needle_len <= hay_len,
                i <= hay_len - needle_len,
                j <= needle_len,
                matches == (forall|l: int| 0 <= l < j ==> hay@[i + l] == needle@[l]),
            decreases needle_len - j,
        {
            let hc = hay.get_char(i + j);
            let nc = needle.get_char(j);
            if hc != nc {
                matches = false;
                j = needle_len;
            } else {
                j = j + 1;
            }
        }
        if matches {
            proof {
                assert(hay@.subrange(i as int, i + needle@.len()) =~= needle@);
                assert(occurs_at(hay@, needle@, i as int));
            }
            return true;
        }
        i = i + 1;
    }
    proof {
        assert(forall|k: int| occurs_at(hay@, needle@, k) ==> 0 <= k <= hay@.len()
            - needle@.len());
    }
    false
}

/// The view with leading white space removed.
pub open spec fn trim_start_of(s: Seq<char>) -> Seq<char>
    decreases s.len(),
{
    if s.len() > 0 && is_white_space(s[0]) {
        trim_start_of(s.drop_first())
    } else {
        s
    }
}

/// The view with trailing white space removed.
pub open spec fn trim_end_of(s: Seq<char>) -> Seq<char>
    decreases s.len(),
{
    if s.len() > 0 && is_white_space(s.last()) {
        trim_end_of(s.drop_last())
    } else {
        s
    }
}

/// The view with white space removed from both ends, as `str::trim` leaves it.
pub open spec fn trim_of(s: Seq<char>) -> Seq<char> {
    trim_end_of(trim_start_of(s))
}

proof fn lemma_trim_start_scan(s: Seq<char>, i: int)
    requires
        0 <= i <= s.len(),
        forall|k: int| 0 <= k < i ==> is_white_space(s[k]),
        i < s.len() ==> !is_white_space(s[i]),
    ensures
        trim_start_of(s) == s.subrange(i, s.len() as int),
    decreases i,
{
    if i == 0 {
        assert(s.subrange(0, s.len() as int) =~= s);
    } else {
        lemma_trim_start_scan(s.drop_first(), i - 1);
        assert(s.drop_first().subrange(i - 1, s.drop_first().len() as int) =~= s.subrange(
            i,
            s.len() as int,
        ));
    }
}

proof fn lemma_trim_end_scan(s: Seq<char>, e: int)
    requires
        0 <= e <= s.len(),
        forall|k: int| e <= k < s.len() ==> is_white_space(s[k]),
        e > 0 ==> !is_white_space(s[e - 1]),
    ensures
        trim_end_of(s) == s.subrange(0, e),
    decreases s.len(),
{
    if e == s.len() {
        if s.len() > 0 && is_white_space(s.last()) {
            assert(false);
        }
        assert(s.subrange(0, e) =~= s);
    } else {
        lemma_trim_end_scan(s.drop_last(), e);
        assert(s.drop_last().subrange(0, e) =~= s.subrange(0, e));
    }
}

/// White space stripped from both ends, exactly as `str::trim` would do.
pub fn trim_str<'a>(s: &'a str) -> (r: &'a str)
    ensures
        r@ == trim_of(s@),
{
    let len = s.unicode_len();
    let mut start: usize = 0;
    while start < len && white_space(s.get_char(start))
        invariant
            len == s@.len(),
            start <= len,
            forall|k: int| 0 <= k < start ==> is_white_space(s@[k]),
        decreases len - start,
    {
        start = start + 1;
    }
    proof {
        lemma_trim_start_scan(s@, start as int);
    }
    if start == len {
        let r = s.substring_char(len, len);
        proof {
            assert(trim_of(s@) =~= r@);
        }
        return r;
    }
    let mut end: usize = len;
    while end > start && white_space(s.get_char(end - 1))
        invariant
            len == s@.len(),
            start <= end <= len,
            start < len,
            !is_white_space(s@[start as int]),
            forall|k: int| end <= k < len ==> is_white_space(s@[k]),
        decreases end,
    {
        end = end - 1;
    }
    let r = s.substring_char(start, end);
    proof {
        let t = trim_start_of(s@);
        assert(t == s@.subrange(start as int, len as int));
        assert(end > start);
        assert(!is_white_space(t[end - start - 1]));
        assert(forall|k: int|
            end - start <= k < t.len() ==> is_white_space(#[trigger] t[k]) && is_white_space(
                s@[k + start],
            ));
        lemma_trim_end_scan(t, end - start);
        assert(t.subrange(0, end - start) =~= s@.subrange(start as int, end as int));
    }
    r
}

/// The pieces of a character sequence split on `/`, empty pieces included,
/// with `cur` the piece accumulated so far.
pub open spec fn split_parts(s: Seq<char>, cur: Seq<char>) -> Seq<Seq<char>>
    decreases s.len(),
{
    if s.len() == 0 {
        seq![cur]
    } else if s[0] == '/' {
        seq![cur] + split_parts(s.drop_first(), Seq::empty())
    } else {
        split_parts(s.drop_first(), cur.push(s[0]))
    }
}

/// The non-empty pieces of a sequence of pieces, in order.
pub open spec fn nonempty_parts(parts: Seq<Seq<char>>) -> Seq<Seq<char>>
    decreases parts.len(),
{
    if parts.len() == 0 {
        Seq::empty()
    } else if parts[0].len() > 0 {
        seq![parts[0]] + nonempty_parts(parts.drop_first())
    } else {
        nonempty_parts(parts.drop_first())
    }
}

/// The path components of a string: split on `/`, empty pieces dropped.
pub open spec fn components_of(s: Seq<char>) -> Seq<Seq<char>> {
    nonempty_parts(split_parts(s, Seq::empty()))
}

/// Splits on `/`, keeping empty pieces.
pub fn split_slash(s: &str) -> (parts: Vec<String>)
    ensures
        parts.deep_view() == split_parts(s@, Seq::empty()),
{
    let len = s.unicode_len();
    let mut parts: Vec<String> = Vec::new();
    let mut cur = String::new();
    let mut i: usize = 0;
    proof {
        assert(s@.skip(0) =~= s@);
        assert(parts.deep_view() + split_parts(s@, Seq::empty()) =~= split_parts(
            s@,
            Seq::empty(),
        ));
    }
    while i < len
        invariant
            len == s@.len(),
            i <= len,
            split_parts(s@, Seq::empty()) == parts.deep_view() + split_parts(
                s@.skip(i as int),
                cur@,
            ),
        decreases len - i,
    {
        let c = s.get_char(i);
        proof {
            assert(s@.skip(i as int)[0] == s@[i as int]);
            assert(s@.skip(i as int).drop_first() =~= s@.skip(i + 1));
        }
        if c == '/' {
            let ghost ps = parts.deep_view();
            let ghost cv = cur@;
            parts.push(cur);
            cur = String::new();
            proof {
                assert(parts.deep_view() =~= ps.push(cv));
                assert(ps + (seq![cv] + split_parts(s@.skip(i + 1), Seq::empty())) =~= ps.push(cv)
                    + split_parts(s@.skip(i + 1), Seq::empty()));
            }
        } else {
            cur.push(c);
        }
        i = i + 1;
    }
    proof {
        assert(s@.skip(len as int) =~= Seq::<char>::empty());
    }
    let ghost ps = parts.deep_view();
    let ghost cv = cur@;
    parts.push(cur);
    proof {
        assert(parts.deep_view() =~= ps.push(cv));
        assert(ps + seq![cv] =~= ps.push(cv));
    }
    parts
}

proof fn lemma_nonempty_skip(parts: Seq<Seq<char>>, idx: int)
    requires
        0 <= idx < parts.len(),
    ensures
        nonempty_parts(parts.skip(idx)) == (if parts[idx].len() > 0 {
            seq![parts[idx]]
        } else {
            Seq::<Seq<char>>::empty()
        }) + nonempty_parts(parts.skip(idx + 1)),
{
    let s = parts.skip(idx);
    assert(s[0] == parts[idx]);
    assert(s.drop_first() =~= parts.skip(idx + 1));
    if parts[idx].len() == 0 {
        assert(Seq::<Seq<char>>::empty() + nonempty_parts(parts.skip(idx + 1))
            =~= nonempty_parts(parts.skip(idx + 1)));
    }
}

/// The path components of a string: the non-empty pieces between `/`
/// separators, in order.
pub fn components(s: &str) -> (r: Vec<String>)
    ensures
        r.deep_view() == components_of(s@),
{
    let parts = split_slash(s);
    let ghost all = split_parts(s@, Seq::empty());
    let mut r: Vec<String> = Vec::new();
    let mut idx: usize = 0;
    proof {
        assert(all.skip(0) =~= all);
    }
    while idx < parts.len()
        invariant
            parts.deep_view() == all,
            idx <= parts@.len(),
            parts@.len() == all.len(),
            nonempty_parts(all) == r.deep_view() + nonempty_parts(all.skip(idx as int)),
        decreases parts@.len() - idx,
    {
        proof {
            lemma_nonempty_skip(all, idx as int);
        }
        let part = &parts[idx];
        if !part.as_str().is_empty() {
            let ghost rs = r.deep_view();
            r.push(part.clone());
            proof {
                assert(r.deep_view() =~= rs.push(all[idx as int]));
                assert(rs + (seq![all[idx as int]] + nonempty_parts(all.skip(idx + 1))) =~= rs.push(
                    all[idx as int],
                ) + nonempty_parts(all.skip(idx + 1)));
            }
        } else {
            proof {
                assert(r.deep_view() + (Seq::<Seq<char>>::empty() + nonempty_parts(
                    all.skip(idx + 1),
                )) =~= r.deep_view() + nonempty_parts(all.skip(idx + 1)));
            }
        }
        idx = idx + 1;
    }
    proof {
        assert(all.skip(all.len() as int) =~= Seq::<Seq<char>>::empty());
        assert(r.deep_view() + Seq::<Seq<char>>::empty() =~= r.deep_view());
    }
    r
}

/// The first `max` characters of a string, or all of it if shorter.
pub fn truncate_chars(s: &str, max: usize) -> (r: String)
    ensures
        r@ == s@.subrange(0, if max < s@.len() { max as int } else { s@.len() as int }),
{
    let len = s.unicode_len();
    let end = if max < len {
        max
    } else {
        len
    };
    let sub = s.substring_char(0, end);
    sub.to_owned()
}

} // verus!
