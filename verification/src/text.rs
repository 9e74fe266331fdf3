//! Verified character-sequence utilities.
//!
//! The launcher's logic is almost entirely string manipulation: splitting
//! Maven coordinates, substituting `${...}` placeholders, building paths.
//! Executable code works on `Vec<char>`, whose view is a `Seq<char>`, the
//! same model as the view of `&str` and `String`, so contracts can connect
//! the two worlds directly.

use vstd::prelude::*;
use vstd::string::StrSliceExecFns;

verus! {

/// Collect the characters of a string slice.
pub fn str_chars(s: &str) -> (r: Vec<char>)
    ensures
        r@ == s@,
{
    let n = s.unicode_len();
    let mut r: Vec<char> = Vec::new();
    let mut i: usize = 0;
    while i < n
        invariant
            i <= n,
            n == s@.len(),
            r@ == s@.take(i as int),
        decreases n - i,
    {
        let c = s.get_char(i);
        r.push(c);
        i = i + 1;
        proof {
            assert(r@ =~= s@.take(i as int));
        }
    }
    proof {
        assert(s@.take(n as int) =~= s@);
    }
    r
}

/// Relies on `String::push` from std: appends exactly the given character
/// at the end of the string.
#[verifier::external_body]
fn push_char(s: &mut String, c: char)
    ensures
        final(s)@ == old(s)@ + seq![c],
{
    s.push(c)
}

/// Build a `String` out of a character vector.
pub fn chars_string(v: &Vec<char>) -> (r: String)
    ensures
        r@ == v@,
{
    let mut r = String::new();
    let mut i: usize = 0;
    while i < v.len()
        invariant
            i <= v@.len(),
            r@ == v@.take(i as int),
        decreases v@.len() - i,
    {
        push_char(&mut r, v[i]);
        i = i + 1;
        proof {
            assert(r@ =~= v@.take(i as int));
        }
    }
    proof {
        assert(v@.take(v@.len() as int) =~= v@);
    }
    r
}

/// Append a copy of `src` to `dst`.
pub fn append_chars(dst: &mut Vec<char>, src: &Vec<char>)
    ensures
        final(dst)@ == old(dst)@ + src@,
{
    let mut i: usize = 0;
    while i < src.len()
        invariant
            i <= src@.len(),
            dst@ == old(dst)@ + src@.take(i as int),
        decreases src@.len() - i,
    {
        dst.push(src[i]);
        i = i + 1;
        proof {
            assert(dst@ =~= old(dst)@ + src@.take(i as int));
        }
    }
    proof {
        assert(old(dst)@ + src@.take(src@.len() as int) =~= old(dst)@ + src@);
    }
}

/// Append the characters of a string slice to `dst`.
pub fn append_str(dst: &mut Vec<char>, src: &str)
    ensures
        final(dst)@ == old(dst)@ + src@,
{
    let cs = str_chars(src);
    append_chars(dst, &cs);
}

/// Copy a character vector.
pub fn copy_chars(v: &Vec<char>) -> (r: Vec<char>)
    ensures
        r@ == v@,
{
    let mut r: Vec<char> = Vec::new();
    append_chars(&mut r, v);
    r
}

/// A vector holding one character.
pub fn char_vec1(c: char) -> (v: Vec<char>)
    ensures
        v@ == seq![c],
{
    let mut v: Vec<char> = Vec::new();
    v.push(c);
    proof {
        assert(v@ =~= seq![c]);
    }
    v
}

/// Character-wise equality of two vectors.
pub fn chars_eq(a: &Vec<char>, b: &Vec<char>) -> (r: bool)
    ensures
        r == (a@ == b@),
{
    if a.len() != b.len() {
        proof {
            assert(a@ != b@);
        }
        return false;
    }
    let mut i: usize = 0;
    while i < a.len()
        invariant
            i <= a@.len(),
            a@.len() == b@.len(),
            forall|j: int| 0 <= j < i ==> a@[j] == b@[j],
        decreases a@.len() - i,
    {
        if a[i] != b[i] {
            return false;
        }
        i = i + 1;
    }
    proof {
        assert(a@ =~= b@);
    }
    true
}

/// True when `pat` occurs at position `i` of `s`.
pub open spec fn matches_at(s: Seq<char>, pat: Seq<char>, i: int) -> bool {
    0 <= i && i + pat.len() <= s.len() && s.subrange(i, i + pat.len()) == pat
}

/// True when `pat` occurs somewhere in `s` as a contiguous run.
pub open spec fn has_substring(s: Seq<char>, pat: Seq<char>) -> bool {
    exists|i: int| matches_at(s, pat, i)
}

/// Check whether `pat` occurs at position `i` of `s`.
pub fn check_match_at(s: &Vec<char>, pat: &Vec<char>, i: usize) -> (r: bool)
    requires
        i + pat@.len() <= s@.len(),
    ensures
        r == matches_at(s@, pat@, i as int),
{
    let n = s.len();
    let mut j: usize = 0;
    while j < pat.len()
        invariant
            j <= pat@.len(),
            i + pat@.len() <= s@.len(),
            n == s@.len(),
            forall|k: int| 0 <= k < j ==> s@[i + k] == pat@[k],
        decreases pat@.len() - j,
    {
        if s[i + j] != pat[j] {
            proof {
                assert(s@.subrange(i as int, i + pat@.len())[j as int] == s@[i + j]);
            }
            return false;
        }
        j = j + 1;
    }
    proof {
        assert(s@.subrange(i as int, i + pat@.len()) =~= pat@);
    }
    true
}

/// Substring search by scanning every starting position.
pub fn contains_sub(s: &Vec<char>, pat: &Vec<char>) -> (r: bool)
    ensures
        r == has_substring(s@, pat@),
{
    if pat.len() > s.len() {
        proof {
            assert(forall|i: int| !matches_at(s@, pat@, i));
        }
        return false;
    }
    if pat.len() == 0 {
        proof {
            assert(s@.subrange(0, 0) =~= pat@);
            assert(matches_at(s@, pat@, 0));
        }
        return true;
    }
    let n = s.len();
    let end = n - pat.len();
    let mut i: usize = 0;
    while i <= end
        invariant
            i <= end + 1,
            end + pat@.len() == s@.len(),
            n == s@.len(),
            pat@.len() >= 1,
            forall|k: int| 0 <= k < i ==> !matches_at(s@, pat@, k),
        decreases end + 1 - i,
    {
        if check_match_at(s, pat, i) {
            return true;
        }
        i = i + 1;
    }
    proof {
        assert(forall|k: int| matches_at(s@, pat@, k) ==> 0 <= k <= end);
    }
    false
}

/// True when `s` ends with `suffix`.
pub open spec fn ends_with(s: Seq<char>, suffix: Seq<char>) -> bool {
    s.len() >= suffix.len() && s.subrange(s.len() - suffix.len(), s.len() as int) == suffix
}

/// Check whether `s` ends with `suffix`.
pub fn chars_end_with(s: &Vec<char>, suffix: &Vec<char>) -> (r: bool)
    ensures
        r == ends_with(s@, suffix@),
{
    if suffix.len() > s.len() {
        return false;
    }
    let start = s.len() - suffix.len();
    let r = check_match_at(s, suffix, start);
    proof {
        assert(s@.subrange(start as int, start + suffix@.len())
            == s@.subrange(s@.len() - suffix@.len(), s@.len() as int));
    }
    r
}

/// Splitting on a separator character, with the semantics of `str::split`:
/// the empty sequence yields one empty part, `n` separators yield `n + 1`
/// parts, and empty parts are kept.
pub open spec fn split_parts(s: Seq<char>, sep: char) -> Seq<Seq<char>>
    decreases s.len(),
{
    if s.len() == 0 {
        seq![Seq::<char>::empty()]
    } else if s[0] == sep {
        seq![Seq::<char>::empty()] + split_parts(s.drop_first(), sep)
    } else {
        let rest = split_parts(s.drop_first(), sep);
        seq![seq![s[0]] + rest[0]] + rest.drop_first()
    }
}

pub proof fn lemma_split_parts_len(s: Seq<char>, sep: char)
    ensures
        split_parts(s, sep).len() >= 1,
    decreases s.len(),
{
    if s.len() > 0 {
        lemma_split_parts_len(s.drop_first(), sep);
    }
}

/// Prepend `p` onto the first part of an already-split tail.
spec fn graft_first(p: Seq<char>, parts: Seq<Seq<char>>) -> Seq<Seq<char>> {
    seq![p + parts[0]] + parts.drop_first()
}

proof fn lemma_graft_first_empty(parts: Seq<Seq<char>>)
    requires
        parts.len() >= 1,
    ensures
        graft_first(Seq::<char>::empty(), parts) == parts,
{
    assert(Seq::<char>::empty() + parts[0] =~= parts[0]);
    assert(graft_first(Seq::<char>::empty(), parts) =~= parts);
}

proof fn lemma_graft_first_push(p: Seq<char>, c: char, parts: Seq<Seq<char>>)
    requires
        parts.len() >= 1,
    ensures
        graft_first(p, graft_first(seq![c], parts)) == graft_first(p.push(c), parts),
{
    assert(p + (seq![c] + parts[0]) =~= p.push(c) + parts[0]);
    assert(graft_first(p, graft_first(seq![c], parts)) =~= graft_first(p.push(c), parts));
}

/// Split a character vector on a separator character.
pub fn split_chars(s: &Vec<char>, sep: char) -> (parts: Vec<Vec<char>>)
    ensures
        parts.deep_view() == split_parts(s@, sep),
        parts@.len() >= 1,
{
    let n = s.len();
    let mut parts: Vec<Vec<char>> = Vec::new();
    let mut cur: Vec<char> = Vec::new();
    let mut i: usize = 0;
    proof {
        lemma_split_parts_len(s@, sep);
        assert(s@.skip(0) =~= s@);
        lemma_graft_first_empty(split_parts(s@, sep));
        assert(parts.deep_view() =~~= Seq::<Seq<char>>::empty());
        assert(Seq::<Seq<char>>::empty() + split_parts(s@, sep) =~= split_parts(s@, sep));
    }
    while i < n
        invariant
            i <= n,
            n == s@.len(),
            split_parts(s@, sep) == parts.deep_view() + graft_first(
                cur@,
                split_parts(s@.skip(i as int), sep),
            ),
        decreases n - i,
    {
        let ghost tail = split_parts(s@.skip(i as int + 1), sep);
        proof {
            lemma_split_parts_len(s@.skip(i as int + 1), sep);
            assert(s@.skip(i as int).drop_first() =~= s@.skip(i as int + 1));
            assert(s@.skip(i as int)[0] == s@[i as int]);
        }
        if s[i] == sep {
            let ghost dv0 = parts.deep_view();
            let ghost cur0 = cur@;
            proof {
                assert(split_parts(s@.skip(i as int), sep) == seq![Seq::<char>::empty()] + tail);
                assert(graft_first(cur0, seq![Seq::<char>::empty()] + tail) =~= seq![cur0] + tail);
                lemma_graft_first_empty(tail);
                assert(dv0 + (seq![cur0] + tail) =~= dv0.push(cur0) + graft_first(
                    Seq::<char>::empty(),
                    tail,
                ));
            }
            let done = cur;
            cur = Vec::new();
            parts.push(done);
            proof {
                assert(parts.deep_view() =~~= dv0.push(cur0));
            }
        } else {
            let c = s[i];
            proof {
                assert(split_parts(s@.skip(i as int), sep) == graft_first(seq![c], tail));
                lemma_graft_first_push(cur@, c, tail);
            }
            cur.push(c);
        }
        i = i + 1;
    }
    proof {
        assert(s@.skip(n as int) =~= Seq::<char>::empty());
        assert(split_parts(Seq::<char>::empty(), sep) == seq![Seq::<char>::empty()]);
        assert(graft_first(cur@, seq![Seq::<char>::empty()]) =~= seq![cur@]);
        lemma_split_parts_len(s@, sep);
    }
    let ghost dv1 = parts.deep_view();
    let ghost curv = cur@;
    parts.push(cur);
    proof {
        assert(parts.deep_view() =~~= dv1.push(curv));
        assert(dv1 + seq![curv] =~= dv1.push(curv));
    }
    parts
}

/// Replacement of every non-overlapping occurrence of `pat` by `to`,
/// scanning left to right, with the semantics of `str::replace` (an empty
/// pattern replaces nothing).
pub open spec fn replace_seq(s: Seq<char>, pat: Seq<char>, to: Seq<char>) -> Seq<char>
    decreases s.len(),
{
    if pat.len() == 0 || s.len() < pat.len() {
        s
    } else if s.take(pat.len() as int) == pat {
        to + replace_seq(s.skip(pat.len() as int), pat, to)
    } else {
        seq![s[0]] + replace_seq(s.drop_first(), pat, to)
    }
}

/// Replace every occurrence of `pat` in `s` by `to`.
pub fn replace_chars(s: &Vec<char>, pat: &Vec<char>, to: &Vec<char>) -> (r: Vec<char>)
    ensures
        r@ == replace_seq(s@, pat@, to@),
{
    if pat.len() == 0 {
        return copy_chars(s);
    }
    let n = s.len();
    let plen = pat.len();
    let mut r: Vec<char> = Vec::new();
    let mut i: usize = 0;
    proof {
        assert(s@.skip(0) =~= s@);
        assert(Seq::<char>::empty() + replace_seq(s@, pat@, to@) =~= replace_seq(s@, pat@, to@));
    }
    while plen <= n && i <= n - plen
        invariant
            i <= n,
            n == s@.len(),
            plen == pat@.len(),
            plen >= 1,
            replace_seq(s@, pat@, to@) == r@ + replace_seq(s@.skip(i as int), pat@, to@),
        decreases n - i,
    {
        let ghost rest = s@.skip(i as int);
        proof {
            assert(rest.take(plen as int) =~= s@.subrange(i as int, i + plen));
            assert(rest.drop_first() =~= s@.skip(i as int + 1));
            assert(rest[0] == s@[i as int]);
        }
        if check_match_at(s, pat, i) {
            let ghost r0 = r@;
            proof {
                assert(rest.skip(plen as int) =~= s@.skip(i + plen));
                assert(replace_seq(rest, pat@, to@) == to@ + replace_seq(
                    s@.skip(i + plen),
                    pat@,
                    to@,
                ));
            }
            append_chars(&mut r, to);
            i = i + plen;
            proof {
                assert(r0 + (to@ + replace_seq(s@.skip(i as int), pat@, to@)) =~= r@
                    + replace_seq(s@.skip(i as int), pat@, to@));
            }
        } else {
            let ghost r0 = r@;
            proof {
                assert(replace_seq(rest, pat@, to@) == seq![s@[i as int]] + replace_seq(
                    s@.skip(i as int + 1),
                    pat@,
                    to@,
                ));
            }
            r.push(s[i]);
            i = i + 1;
            proof {
                assert(r0 + (seq![s@[i - 1]] + replace_seq(s@.skip(i as int), pat@, to@)) =~= r@
                    + replace_seq(s@.skip(i as int), pat@, to@));
            }
        }
    }
    while i < n
        invariant
            i <= n,
            n == s@.len(),
            plen == pat@.len(),
            plen >= 1,
            n - i < plen,
            replace_seq(s@, pat@, to@) == r@ + replace_seq(s@.skip(i as int), pat@, to@),
        decreases n - i,
    {
        let ghost r0 = r@;
        proof {
            assert(replace_seq(s@.skip(i as int), pat@, to@) == s@.skip(i as int));
            assert(replace_seq(s@.skip(i as int + 1), pat@, to@) == s@.skip(i as int + 1));
            assert(r0 + s@.skip(i as int) =~= (r0 + seq![s@[i as int]]) + s@.skip(i as int + 1));
        }
        r.push(s[i]);
        i = i + 1;
    }
    proof {
        assert(s@.skip(n as int) =~= Seq::<char>::empty());
        assert(replace_seq(Seq::<char>::empty(), pat@, to@) == Seq::<char>::empty());
        assert(r@ + Seq::<char>::empty() =~= r@);
    }
    r
}

/// The whitespace characters recognised when splitting a legacy argument
/// template: space, tab, carriage return and line feed.
pub open spec fn is_space_char(c: char) -> bool {
    c == ' ' || c == '\t' || c == '\n' || c == '\r'
}

/// Whitespace-separated tokens of `s`: maximal runs of non-space
/// characters, in order, with no empty tokens.
pub open spec fn ws_tokens(s: Seq<char>) -> Seq<Seq<char>>
    decreases s.len(),
{
    if s.len() == 0 {
        Seq::<Seq<char>>::empty()
    } else if is_space_char(s[0]) {
        ws_tokens(s.drop_first())
    } else if s.len() >= 2 && !is_space_char(s[1]) {
        let rest = ws_tokens(s.drop_first());
        seq![seq![s[0]] + rest[0]] + rest.drop_first()
    } else {
        seq![seq![s[0]]] + ws_tokens(s.drop_first())
    }
}

proof fn lemma_ws_tokens_nonempty(s: Seq<char>)
    requires
        s.len() > 0,
        !is_space_char(s[0]),
    ensures
        ws_tokens(s).len() >= 1,
{
}

/// What the remaining input contributes to the token list, given the
/// pending (possibly empty) token `cur`.
spec fn ws_pending(cur: Seq<char>, rest: Seq<char>) -> Seq<Seq<char>> {
    if cur.len() == 0 {
        ws_tokens(rest)
    } else if rest.len() > 0 && !is_space_char(rest[0]) {
        graft_first(cur, ws_tokens(rest))
    } else {
        seq![cur] + ws_tokens(rest)
    }
}

/// Exec test for the whitespace characters of `is_space_char`.
pub fn is_space(c: char) -> (r: bool)
    ensures
        r == is_space_char(c),
{
    c == ' ' || c == '\t' || c == '\n' || c == '\r'
}

/// Split a character vector into whitespace-separated tokens.
pub fn split_whitespace_chars(s: &Vec<char>) -> (tokens: Vec<Vec<char>>)
    ensures
        tokens.deep_view() == ws_tokens(s@),
{
    let n = s.len();
    let mut tokens: Vec<Vec<char>> = Vec::new();
    let mut cur: Vec<char> = Vec::new();
    let mut i: usize = 0;
    proof {
        assert(s@.skip(0) =~= s@);
        assert(tokens.deep_view() =~~= Seq::<Seq<char>>::empty());
        assert(Seq::<Seq<char>>::empty() + ws_pending(cur@, s@) =~= ws_pending(cur@, s@));
    }
    while i < n
        invariant
            i <= n,
            n == s@.len(),
            ws_tokens(s@) == tokens.deep_view() + ws_pending(cur@, s@.skip(i as int)),
        decreases n - i,
    {
        let ghost rest = s@.skip(i as int);
        let ghost rest1 = s@.skip(i as int + 1);
        proof {
            assert(rest.drop_first() =~= rest1);
            assert(rest[0] == s@[i as int]);
            if i + 1 < n {
                assert(rest[1] == s@[i as int + 1]);
                assert(rest1[0] == s@[i as int + 1]);
            }
        }
        let c = s[i];
        if is_space(c) {
            if cur.len() > 0 {
                let ghost dv0 = tokens.deep_view();
                let ghost cur0 = cur@;
                proof {
                    assert(ws_tokens(rest) == ws_tokens(rest1));
                    assert(ws_pending(cur0, rest) =~= seq![cur0] + ws_tokens(rest1));
                    assert(dv0 + (seq![cur0] + ws_tokens(rest1)) =~= dv0.push(cur0) + ws_pending(
                        Seq::<char>::empty(),
                        rest1,
                    ));
                }
                let done = cur;
                cur = Vec::new();
                tokens.push(done);
                proof {
                    assert(tokens.deep_view() =~~= dv0.push(cur0));
                }
            } else {
                proof {
                    assert(ws_tokens(rest) == ws_tokens(rest1));
                }
            }
        } else {
            let ghost cur0 = cur@;
            proof {
                if i + 1 < n && !is_space_char(s@[i as int + 1]) {
                    lemma_ws_tokens_nonempty(rest1);
                    assert(ws_tokens(rest) == graft_first(seq![c], ws_tokens(rest1)));
                    if cur0.len() == 0 {
                        assert(cur0.push(c) =~= seq![c]);
                    } else {
                        lemma_graft_first_push(cur0, c, ws_tokens(rest1));
                    }
                    assert(ws_pending(cur0, rest) =~~= ws_pending(cur0.push(c), rest1));
                } else {
                    assert(ws_tokens(rest) == seq![seq![c]] + ws_tokens(rest1));
                    if cur0.len() == 0 {
                        assert(ws_pending(cur0, rest) =~~= seq![cur0.push(c)] + ws_tokens(rest1));
                    } else {
                        assert(graft_first(cur0, seq![seq![c]] + ws_tokens(rest1)) =~~= seq![
                            cur0.push(c),
                        ] + ws_tokens(rest1));
                    }
                    assert(ws_pending(cur0.push(c), rest1) =~= seq![cur0.push(c)] + ws_tokens(
                        rest1,
                    ));
                }
            }
            cur.push(c);
        }
        i = i + 1;
    }
    proof {
        assert(s@.skip(n as int) =~= Seq::<char>::empty());
    }
    if cur.len() > 0 {
        let ghost dv1 = tokens.deep_view();
        let ghost curv = cur@;
        proof {
            assert(ws_pending(curv, Seq::<char>::empty()) =~= seq![curv]);
            assert(dv1 + seq![curv] =~= dv1.push(curv));
        }
        tokens.push(cur);
        proof {
            assert(tokens.deep_view() =~~= dv1.push(curv));
        }
    } else {
        proof {
            assert(ws_pending(cur@, Seq::<char>::empty()) =~= Seq::<Seq<char>>::empty());
            assert(tokens.deep_view() + Seq::<Seq<char>>::empty() =~= tokens.deep_view());
        }
    }
    tokens
}

/// `s` with every trailing repetition of `suffix` removed, as
/// `str::trim_end_matches` does with a literal pattern.
pub open spec fn trim_suffix_all(s: Seq<char>, suffix: Seq<char>) -> Seq<char>
    decreases s.len(),
{
    if suffix.len() > 0 && ends_with(s, suffix) {
        trim_suffix_all(s.take(s.len() - suffix.len()), suffix)
    } else {
        s
    }
}

/// A copy of the first `n` characters.
pub fn copy_prefix(v: &Vec<char>, n: usize) -> (r: Vec<char>)
    requires
        n <= v@.len(),
    ensures
        r@ == v@.take(n as int),
{
    let mut r: Vec<char> = Vec::new();
    let mut i: usize = 0;
    while i < n
        invariant
            i <= n <= v@.len(),
            r@ == v@.take(i as int),
        decreases n - i,
    {
        r.push(v[i]);
        i = i + 1;
        proof {
            assert(r@ =~= v@.take(i as int));
        }
    }
    r
}

/// Remove every trailing repetition of `suffix`.
pub fn chars_trim_suffix_all(v: &Vec<char>, suffix: &Vec<char>) -> (r: Vec<char>)
    ensures
        r@ == trim_suffix_all(v@, suffix@),
    decreases v@.len(),
{
    if suffix.len() > 0 && chars_end_with(v, suffix) {
        let prefix = copy_prefix(v, v.len() - suffix.len());
        chars_trim_suffix_all(&prefix, suffix)
    } else {
        copy_chars(v)
    }
}

/// Lexicographic order on character sequences, the order `str` values
/// compare in.
pub open spec fn lex_le(a: Seq<char>, b: Seq<char>) -> bool
    decreases a.len(),
{
    if a.len() == 0 {
        true
    } else if b.len() == 0 {
        false
    } else if (a[0] as u32) < (b[0] as u32) {
        true
    } else if (a[0] as u32) > (b[0] as u32) {
        false
    } else {
        lex_le(a.drop_first(), b.drop_first())
    }
}

pub proof fn lemma_lex_le_total(a: Seq<char>, b: Seq<char>)
    ensures
        lex_le(a, b) || lex_le(b, a),
    decreases a.len(),
{
    if a.len() > 0 && b.len() > 0 && (a[0] as u32) == (b[0] as u32) {
        lemma_lex_le_total(a.drop_first(), b.drop_first());
    }
}

pub proof fn lemma_lex_le_trans(a: Seq<char>, b: Seq<char>, c: Seq<char>)
    requires
        lex_le(a, b),
        lex_le(b, c),
    ensures
        lex_le(a, c),
    decreases a.len(),
{
    if a.len() > 0 && b.len() > 0 && c.len() > 0 && (a[0] as u32) == (b[0] as u32) && (b[0]
        as u32) == (c[0] as u32) {
        lemma_lex_le_trans(a.drop_first(), b.drop_first(), c.drop_first());
    }
}

/// Compare two character vectors in lexicographic order.
pub fn chars_lex_le(a: &Vec<char>, b: &Vec<char>) -> (r: bool)
    ensures
        r == lex_le(a@, b@),
{
    let mut i: usize = 0;
    let an = a.len();
    let bn = b.len();
    proof {
        assert(a@.skip(0) =~= a@);
        assert(b@.skip(0) =~= b@);
    }
    while i < an && i < bn
        invariant
            i <= an,
            i <= bn,
            an == a@.len(),
            bn == b@.len(),
            lex_le(a@, b@) == lex_le(a@.skip(i as int), b@.skip(i as int)),
        decreases an - i,
    {
        proof {
            assert(a@.skip(i as int)[0] == a@[i as int]);
            assert(b@.skip(i as int)[0] == b@[i as int]);
            assert(a@.skip(i as int).drop_first() =~= a@.skip(i as int + 1));
            assert(b@.skip(i as int).drop_first() =~= b@.skip(i as int + 1));
        }
        let ca = a[i] as u32;
        let cb = b[i] as u32;
        if ca < cb {
            return true;
        }
        if ca > cb {
            return false;
        }
        i = i + 1;
    }
    proof {
        if i >= an {
            assert(a@.skip(i as int).len() == 0);
        } else {
            assert(b@.skip(i as int).len() == 0);
            assert(a@.skip(i as int).len() > 0);
        }
    }
    an <= bn
}

/// The character for one decimal digit.
pub open spec fn digit_char(d: int) -> char {
    if d == 0 {
        '0'
    } else if d == 1 {
        '1'
    } else if d == 2 {
        '2'
    } else if d == 3 {
        '3'
    } else if d == 4 {
        '4'
    } else if d == 5 {
        '5'
    } else if d == 6 {
        '6'
    } else if d == 7 {
        '7'
    } else if d == 8 {
        '8'
    } else {
        '9'
    }
}

/// The decimal representation of a non-negative integer, most significant
/// digit first, without leading zeroes (zero itself is `"0"`).
pub open spec fn dec_chars(n: int) -> Seq<char>
    recommends
        n >= 0,
    decreases n,
{
    if n < 10 {
        seq![digit_char(n)]
    } else {
        dec_chars(n / 10).push(digit_char(n % 10))
    }
}

fn digit_to_char(d: u32) -> (c: char)
    requires
        d < 10,
    ensures
        c == digit_char(d as int),
{
    if d == 0 {
        '0'
    } else if d == 1 {
        '1'
    } else if d == 2 {
        '2'
    } else if d == 3 {
        '3'
    } else if d == 4 {
        '4'
    } else if d == 5 {
        '5'
    } else if d == 6 {
        '6'
    } else if d == 7 {
        '7'
    } else if d == 8 {
        '8'
    } else {
        '9'
    }
}

/// The decimal digits of `n`.
pub fn u32_dec_chars(n: u32) -> (r: Vec<char>)
    ensures
        r@ == dec_chars(n as int),
    decreases n,
{
    if n < 10 {
        let mut r: Vec<char> = Vec::new();
        r.push(digit_to_char(n));
        proof {
            assert(r@ =~= seq![digit_char(n as int)]);
        }
        r
    } else {
        let mut r = u32_dec_chars(n / 10);
        r.push(digit_to_char(n % 10));
        r
    }
}

/// Format `n` in decimal.
pub fn u32_string(n: u32) -> (r: String)
    ensures
        r@ == dec_chars(n as int),
{
    let cs = u32_dec_chars(n);
    chars_string(&cs)
}

/// True when `c` is a decimal digit.
pub open spec fn is_digit_char(c: char) -> bool {
    '0' as u32 <= c as u32 && c as u32 <= '9' as u32
}

/// The numeric value of a digit character.
pub open spec fn digit_char_val(c: char) -> int {
    c as u32 - '0' as u32
}

/// True when every character of `s` is a decimal digit.
pub open spec fn all_digits(s: Seq<char>) -> bool {
    forall|i: int| 0 <= i < s.len() ==> is_digit_char(s[i])
}

/// The value of a digit string, most significant digit first.
pub open spec fn digits_val(s: Seq<char>) -> int
    recommends
        all_digits(s),
    decreases s.len(),
{
    if s.len() == 0 {
        0
    } else {
        digits_val(s.drop_last()) * 10 + digit_char_val(s.last())
    }
}

/// What `str::parse::<u32>` yields on a plain digit string: the value when
/// `s` is non-empty, all digits, and in range; nothing otherwise.
pub open spec fn parse_u32_spec(s: Seq<char>) -> Option<u32> {
    if s.len() > 0 && all_digits(s) && digits_val(s) <= u32::MAX {
        Some(digits_val(s) as u32)
    } else {
        None
    }
}

proof fn lemma_digits_val_nonneg(s: Seq<char>)
    requires
        all_digits(s),
    ensures
        digits_val(s) >= 0,
    decreases s.len(),
{
    if s.len() > 0 {
        lemma_digits_val_nonneg(s.drop_last());
        assert(digits_val(s.drop_last()) * 10 >= 0) by (nonlinear_arith)
            requires
                digits_val(s.drop_last()) >= 0,
        ;
    }
}

proof fn lemma_digits_val_prefix_le(s: Seq<char>, i: int)
    requires
        all_digits(s),
        0 <= i <= s.len(),
    ensures
        digits_val(s) >= digits_val(s.take(i)),
    decreases s.len() - i,
{
    if i < s.len() {
        lemma_digits_val_prefix_le(s, i + 1);
        let p = s.take(i + 1);
        assert(p.drop_last() =~= s.take(i));
        lemma_digits_val_nonneg(s.take(i));
        assert(digits_val(s.take(i)) * 10 + digit_char_val(p.last()) >= digits_val(s.take(i)))
            by (nonlinear_arith)
            requires
                digits_val(s.take(i)) >= 0,
                digit_char_val(p.last()) >= 0,
        ;
    } else {
        assert(s.take(i) =~= s);
    }
}

/// Parse a decimal digit string as `u32`.
pub fn parse_u32(s: &Vec<char>) -> (r: Option<u32>)
    ensures
        r == parse_u32_spec(s@),
{
    let n = s.len();
    if n == 0 {
        return None;
    }
    let mut acc: u32 = 0;
    let mut i: usize = 0;
    proof {
        assert(s@.take(0) =~= Seq::<char>::empty());
    }
    while i < n
        invariant
            i <= n,
            n == s@.len(),
            all_digits(s@.take(i as int)),
            acc == digits_val(s@.take(i as int)),
        decreases n - i,
    {
        let c = s[i];
        let cu = c as u32;
        if cu < 48 || cu > 57 {
            proof {
                assert(!is_digit_char(s@[i as int]));
            }
            return None;
        }
        let d = cu - 48;
        let wide: u64 = acc as u64 * 10 + d as u64;
        proof {
            let p = s@.take(i as int + 1);
            assert(p.drop_last() =~= s@.take(i as int));
            assert(p.last() == s@[i as int]);
            assert(digits_val(p) == acc * 10 + d);
        }
        if wide > 0xffff_ffff {
            proof {
                if all_digits(s@) && digits_val(s@) <= u32::MAX {
                    lemma_digits_val_prefix_le(s@, i as int + 1);
                }
            }
            return None;
        }
        acc = wide as u32;
        i = i + 1;
    }
    proof {
        assert(s@.take(n as int) =~= s@);
    }
    Some(acc)
}

/// The parts joined with a separator between consecutive parts.
pub open spec fn join_with(parts: Seq<Seq<char>>, sep: Seq<char>) -> Seq<char>
    decreases parts.len(),
{
    if parts.len() == 0 {
        Seq::<char>::empty()
    } else if parts.len() == 1 {
        parts[0]
    } else {
        parts[0] + sep + join_with(parts.drop_first(), sep)
    }
}

proof fn lemma_join_push(parts: Seq<Seq<char>>, sep: Seq<char>, x: Seq<char>)
    ensures
        parts.len() == 0 ==> join_with(parts.push(x), sep) == x,
        parts.len() > 0 ==> join_with(parts.push(x), sep) == join_with(parts, sep) + sep + x,
    decreases parts.len(),
{
    if parts.len() == 0 {
        assert(parts.push(x)[0] == x);
    } else if parts.len() == 1 {
        assert(parts.push(x).drop_first() =~= seq![x]);
        assert(join_with(seq![x], sep) == x);
        assert(parts.push(x)[0] == parts[0]);
        assert(join_with(parts.push(x), sep) == parts[0] + sep + x);
    } else {
        lemma_join_push(parts.drop_first(), sep, x);
        assert(parts.push(x).drop_first() =~= parts.drop_first().push(x));
        assert(parts[0] + sep + (join_with(parts.drop_first(), sep) + sep + x) =~= (parts[0] + sep
            + join_with(parts.drop_first(), sep)) + sep + x);
    }
}

/// Join strings with a separator, as the classpath is joined.
pub fn join_strings(parts: &Vec<String>, sep: &str) -> (r: String)
    ensures
        r@ == join_with(parts.deep_view(), sep@),
{
    let mut out: Vec<char> = Vec::new();
    let mut i: usize = 0;
    proof {
        assert(parts.deep_view().take(0) =~= Seq::<Seq<char>>::empty());
        assert(out@ =~= join_with(parts.deep_view().take(0), sep@));
    }
    while i < parts.len()
        invariant
            i <= parts@.len(),
            parts.deep_view().len() == parts@.len(),
            out@ == join_with(parts.deep_view().take(i as int), sep@),
        decreases parts@.len() - i,
    {
        let ghost pre = parts.deep_view().take(i as int);
        proof {
            lemma_join_push(pre, sep@, parts.deep_view()[i as int]);
            assert(parts.deep_view().take(i as int + 1) =~= pre.push(parts.deep_view()[i as int]));
        }
        if i > 0 {
            append_str(&mut out, sep);
        }
        let cs = str_chars(parts[i].as_str());
        append_chars(&mut out, &cs);
        i = i + 1;
    }
    proof {
        assert(parts.deep_view().take(parts@.len() as int) =~= parts.deep_view());
    }
    chars_string(&out)
}

} // verus!
