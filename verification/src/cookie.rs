//! Cookie text normalization: the text is split into lines (`str::lines`),
//! each line is trimmed, empty lines are dropped and the rest are joined
//! with single spaces.

use vstd::prelude::*;
use crate::text::{
    chars_of, string_from_chars, extend_chars, sub_chars, trim_chars, trim_spec, is_white_space,
    lemma_trim_shape, lemma_trim_fixed,
};

verus! {

/// Number of characters before the first `'\n'` of `s` (all of `s` if none).
pub open spec fn line_len(s: Seq<char>) -> nat
    decreases s.len(),
{
    if s.len() == 0 || s[0] == '\n' {
        0
    } else {
        1 + line_len(s.drop_first())
    }
}

/// The trimmed, non-empty lines of `s`, in order.
pub open spec fn cookie_pieces(s: Seq<char>) -> Seq<Seq<char>>
    decreases s.len(),
{
    if s.len() == 0 {
        seq![]
    } else {
        let n = line_len(s);
        let t = trim_spec(s.take(n as int));
        let rest = if n < s.len() {
            cookie_pieces(s.skip((n + 1) as int))
        } else {
            seq![]
        };
        if t.len() == 0 {
            rest
        } else {
            seq![t] + rest
        }
    }
}

/// The pieces joined with one space between neighbours.
pub open spec fn join_space(p: Seq<Seq<char>>) -> Seq<char>
    decreases p.len(),
{
    if p.len() == 0 {
        seq![]
    } else if p.len() == 1 {
        p[0]
    } else {
        join_space(p.drop_last()) + seq![' '] + p.last()
    }
}

/// The normalized form of a cookie text.
pub open spec fn normalize_cookie_spec(s: Seq<char>) -> Seq<char> {
    join_space(cookie_pieces(s))
}

proof fn lemma_line_len_bound(s: Seq<char>)
    ensures
        line_len(s) <= s.len(),
    decreases s.len(),
{
    if s.len() > 0 && s[0] != '\n' {
        lemma_line_len_bound(s.drop_first());
    }
}

fn find_newline(v: &Vec<char>, start: usize) -> (end: usize)
    requires
        start <= v.len(),
    ensures
        start <= end <= v.len(),
        end - start == line_len(v@.skip(start as int)),
        end < v.len() ==> v@[end as int] == '\n',
{
    let mut i: usize = start;
    while i < v.len() && v[i] != '\n'
        invariant
            start <= i <= v.len(),
            line_len(v@.skip(start as int)) == (i - start) + line_len(v@.skip(i as int)),
        decreases v.len() - i,
    {
        assert(v@.skip(i as int).drop_first() =~= v@.skip(i + 1));
        assert(v@.skip(i as int)[0] == v@[i as int]);
        i += 1;
    }
    if i < v.len() {
        assert(v@.skip(i as int)[0] == v@[i as int]);
    }
    i
}


proof fn lemma_line_len_facts(s: Seq<char>)
    ensures
        line_len(s) <= s.len(),
        forall|i: int| 0 <= i < line_len(s) ==> s[i] != '\n',
        line_len(s) < s.len() ==> s[line_len(s) as int] == '\n',
    decreases s.len(),
{
    if s.len() > 0 && s[0] != '\n' {
        lemma_line_len_facts(s.drop_first());
        assert forall|i: int| 0 <= i < line_len(s) implies s[i] != '\n' by {
            if i > 0 {
                assert(s[i] == s.drop_first()[i - 1]);
            }
        }
        if line_len(s) < s.len() {
            assert(s[line_len(s) as int] == s.drop_first()[line_len(s) - 1]);
        }
    }
}

proof fn lemma_line_len_without_newline(s: Seq<char>)
    requires
        forall|i: int| 0 <= i < s.len() ==> s[i] != '\n',
    ensures
        line_len(s) == s.len(),
    decreases s.len(),
{
    if s.len() > 0 {
        assert forall|i: int| 0 <= i < s.drop_first().len() implies s.drop_first()[i] != '\n' by {
            assert(s.drop_first()[i] == s[i + 1]);
        }
        lemma_line_len_without_newline(s.drop_first());
    }
}

/// A piece of a normalized cookie: not empty, on one line, and neither
/// starting nor ending with white space.
pub open spec fn is_clean_piece(p: Seq<char>) -> bool {
    &&& p.len() > 0
    &&& forall|i: int| 0 <= i < p.len() ==> p[i] != '\n'
    &&& !is_white_space(p[0])
    &&& !is_white_space(p.last())
}

proof fn lemma_pieces_clean(s: Seq<char>)
    ensures
        forall|i: int| 0 <= i < cookie_pieces(s).len() ==> is_clean_piece(#[trigger] cookie_pieces(s)[i]),
    decreases s.len(),
{
    if s.len() > 0 {
        let n = line_len(s);
        lemma_line_len_facts(s);
        let line = s.take(n as int);
        let t = trim_spec(line);
        let (a, b) = lemma_trim_shape(line);
        assert forall|i: int| 0 <= i < t.len() implies t[i] != '\n' by {
            assert(t[i] == line[a + i]);
        }
        if n < s.len() {
            lemma_pieces_clean(s.skip((n + 1) as int));
        }
        let rest = if n < s.len() {
            cookie_pieces(s.skip((n + 1) as int))
        } else {
            seq![]
        };
        if t.len() > 0 {
            assert forall|i: int| 0 <= i < (seq![t] + rest).len() implies is_clean_piece(#[trigger] (seq![t] + rest)[i]) by {
                if i > 0 {
                    assert((seq![t] + rest)[i] == rest[i - 1]);
                }
            }
        }
    }
}

proof fn lemma_join_clean(p: Seq<Seq<char>>)
    requires
        forall|i: int| 0 <= i < p.len() ==> is_clean_piece(#[trigger] p[i]),
    ensures
        forall|i: int| 0 <= i < join_space(p).len() ==> join_space(p)[i] != '\n',
        p.len() > 0 ==> join_space(p).len() > 0 && join_space(p)[0] == p[0][0]
            && join_space(p).last() == p.last().last(),
    decreases p.len(),
{
    if p.len() > 1 {
        let q = p.drop_last();
        assert forall|i: int| 0 <= i < q.len() implies is_clean_piece(#[trigger] q[i]) by {
            assert(q[i] == p[i]);
        }
        lemma_join_clean(q);
        let j = join_space(p);
        let jq = join_space(q);
        assert(j == jq + seq![' '] + p.last());
        assert(is_clean_piece(p.last()));
        assert forall|i: int| 0 <= i < j.len() implies j[i] != '\n' by {
            if i < jq.len() {
                assert(j[i] == jq[i]);
            } else if i > jq.len() {
                assert(j[i] == p.last()[i - jq.len() - 1]);
            }
        }
        assert(j[0] == jq[0]);
    } else if p.len() == 1 {
        assert(is_clean_piece(p[0]));
    }
}

/// Normalizing a normalized cookie leaves it unchanged.
pub proof fn law_normalize_cookie_idempotent(s: Seq<char>)
    ensures
        normalize_cookie_spec(normalize_cookie_spec(s)) == normalize_cookie_spec(s),
{
    let p = cookie_pieces(s);
    let out = join_space(p);
    lemma_pieces_clean(s);
    lemma_join_clean(p);
    if out.len() > 0 {
        assert(p.len() > 0);
        assert(is_clean_piece(p[0]));
        assert(is_clean_piece(p.last()));
        lemma_line_len_without_newline(out);
        assert(out.take(out.len() as int) =~= out);
        lemma_trim_fixed(out);
        assert(cookie_pieces(out) =~= seq![out]);
    } else {
        assert(cookie_pieces(out) =~= seq![]);
    }
}

/// Normalizes a cookie given as characters.
pub fn normalize_cookie_chars(v: &Vec<char>) -> (r: Vec<char>)
    ensures
        r@ == normalize_cookie_spec(v@),
{
    let mut out: Vec<char> = Vec::new();
    let ghost mut acc: Seq<Seq<char>> = seq![];
    let mut start: usize = 0;
    assert(v@.skip(0) =~= v@);
    while start < v.len()
        invariant
            start <= v.len(),
            acc + cookie_pieces(v@.skip(start as int)) == cookie_pieces(v@),
            out@ == join_space(acc),
            (acc.len() == 0) == (out@.len() == 0),
        decreases v.len() - start,
    {
        let end = find_newline(v, start);
        let line = sub_chars(v, start, end);
        let t = trim_chars(&line);
        let ghost s = v@.skip(start as int);
        let ghost n = line_len(s);
        assert(s.take(n as int) =~= line@);
        let ghost rest = if n < s.len() {
            cookie_pieces(s.skip((n + 1) as int))
        } else {
            seq![]
        };
        assert(cookie_pieces(s) == if t@.len() == 0 {
            rest
        } else {
            seq![t@] + rest
        });
        if t.len() > 0 {
            proof {
                assert(acc.push(t@).drop_last() =~= acc);
                assert(acc + (seq![t@] + rest) =~= acc.push(t@) + rest);
            }
            if out.len() > 0 {
                out.push(' ');
            }
            extend_chars(&mut out, &t);
            proof {
                if acc.len() == 0 {
                    assert(out@ =~= t@);
                } else {
                    assert(out@ =~= join_space(acc) + seq![' '] + t@);
                }
                acc = acc.push(t@);
            }
        }
        if end < v.len() {
            assert(s.skip((n + 1) as int) =~= v@.skip(end + 1));
            start = end + 1;
        } else {
            assert(rest =~= seq![]);
            assert(v@.skip(v.len() as int) =~= seq![]);
            start = v.len();
        }
    }
    assert(v@.skip(start as int) =~= seq![]);
    assert(acc + seq![] =~= acc);
    out
}

/// Normalizes a cookie text.
pub fn normalize_cookie_text(value: &str) -> (r: String)
    ensures
        r@ == normalize_cookie_spec(value@),
{
    let v = chars_of(value);
    let n = normalize_cookie_chars(&v);
    string_from_chars(&n)
}

} // verus!
