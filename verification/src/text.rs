//! The string model shared by every path type: canonical strings are
//! sequences of characters, split on `'/'` into segments and joined back
//! with `'/'`. `split_segs` and `join_segs` are exact inverses, which is
//! what makes every parse/format pair in this crate a round trip.
use vstd::prelude::*;

verus! {

/// The segments of `s`, split at every `'/'`. Mirrors the behaviour of
/// splitting a string on a separator: an empty string has one empty
/// segment, and adjacent separators produce empty segments.
pub open spec fn split_segs(s: Seq<char>) -> Seq<Seq<char>>
    decreases s.len(),
{
    if s.len() == 0 {
        seq![Seq::<char>::empty()]
    } else if s.last() == '/' {
        split_segs(s.drop_last()).push(Seq::<char>::empty())
    } else {
        let r = split_segs(s.drop_last());
        r.update(r.len() - 1, r.last().push(s.last()))
    }
}

/// The segments joined with `'/'` between each pair.
pub open spec fn join_segs(segs: Seq<Seq<char>>) -> Seq<char>
    decreases segs.len(),
{
    if segs.len() == 0 {
        Seq::empty()
    } else if segs.len() == 1 {
        segs[0]
    } else {
        join_segs(segs.drop_last()) + seq!['/'] + segs.last()
    }
}

/// No character of `s` is a `'/'`.
pub open spec fn slash_free(s: Seq<char>) -> bool {
    forall|i: int| 0 <= i < s.len() ==> s[i] != '/'
}

/// Every segment is slash-free.
pub open spec fn all_slash_free(segs: Seq<Seq<char>>) -> bool {
    forall|i: int| 0 <= i < segs.len() ==> slash_free(#[trigger] segs[i])
}

/// The length in bytes of the UTF-8 encoding of `s`. This is the measure
/// all identifier and name length limits are stated over.
pub open spec fn byte_len(s: Seq<char>) -> nat {
    vstd::utf8::encode_utf8(s).len()
}

/// `p` occurs contiguously somewhere in `s`.
pub open spec fn contains_seq(s: Seq<char>, p: Seq<char>) -> bool {
    exists|i: int| 0 <= i && i + p.len() <= s.len() && #[trigger] s.subrange(i, i + p.len()) == p
}

/// The views of a vector of owned strings.
pub open spec fn views_of_strings(parts: Seq<String>) -> Seq<Seq<char>> {
    Seq::new(parts.len(), |i: int| parts[i]@)
}

/// Splitting always yields at least one segment.
pub proof fn lemma_split_len(s: Seq<char>)
    ensures
        split_segs(s).len() >= 1,
    decreases s.len(),
{
    if s.len() > 0 {
        lemma_split_len(s.drop_last());
    }
}

/// Joining the last segment back on after a push of a separator.
proof fn lemma_join_snoc_empty(r: Seq<Seq<char>>)
    requires
        r.len() >= 1,
    ensures
        join_segs(r.push(Seq::<char>::empty())) == join_segs(r) + seq!['/'],
{
    let p = r.push(Seq::<char>::empty());
    assert(p.drop_last() =~= r);
    assert(join_segs(p) =~= join_segs(r) + seq!['/']);
}

/// Extending the final segment by one character extends the join by that
/// character.
proof fn lemma_join_update_last(r: Seq<Seq<char>>, c: char)
    requires
        r.len() >= 1,
    ensures
        join_segs(r.update(r.len() - 1, r.last().push(c))) == join_segs(r).push(c),
{
    let u = r.update(r.len() - 1, r.last().push(c));
    if r.len() == 1 {
        assert(join_segs(u) =~= join_segs(r).push(c));
    } else {
        assert(u.drop_last() =~= r.drop_last());
        assert(u.last() == r.last().push(c));
        assert(join_segs(u) =~= join_segs(r).push(c));
    }
}

/// Joining the segments of `s` gives back `s`.
pub proof fn lemma_join_split(s: Seq<char>)
    ensures
        join_segs(split_segs(s)) == s,
    decreases s.len(),
{
    if s.len() == 0 {
        assert(join_segs(split_segs(s)) =~= s);
    } else if s.last() == '/' {
        lemma_join_split(s.drop_last());
        lemma_split_len(s.drop_last());
        lemma_join_snoc_empty(split_segs(s.drop_last()));
        assert(join_segs(split_segs(s)) =~= s);
    } else {
        lemma_join_split(s.drop_last());
        lemma_split_len(s.drop_last());
        lemma_join_update_last(split_segs(s.drop_last()), s.last());
        assert(join_segs(split_segs(s)) =~= s);
    }
}

/// Splitting distributes over a separator between two strings.
pub proof fn lemma_split_concat(a: Seq<char>, b: Seq<char>)
    ensures
        split_segs(a + seq!['/'] + b) == split_segs(a) + split_segs(b),
    decreases b.len(),
{
    let s = a + seq!['/'] + b;
    if b.len() == 0 {
        assert(s.last() == '/');
        assert(s.drop_last() =~= a);
        assert(split_segs(b) =~= seq![Seq::<char>::empty()]);
        assert(split_segs(s) =~= split_segs(a) + split_segs(b));
    } else {
        let b0 = b.drop_last();
        lemma_split_concat(a, b0);
        assert(s.last() == b.last());
        assert(s.drop_last() =~= a + seq!['/'] + b0);
        if b.last() == '/' {
            assert(split_segs(s) =~= split_segs(a) + split_segs(b));
        } else {
            lemma_split_len(b0);
            lemma_split_len(a);
            let r = split_segs(a) + split_segs(b0);
            let rb = split_segs(b0);
            assert(r.last() == rb.last());
            assert(r.update(r.len() - 1, r.last().push(b.last())) =~= split_segs(a) + rb.update(
                rb.len() - 1,
                rb.last().push(b.last()),
            ));
            assert(split_segs(s) =~= split_segs(a) + split_segs(b));
        }
    }
}

/// A slash-free string splits into exactly one segment: itself.
pub proof fn lemma_split_slash_free(s: Seq<char>)
    requires
        slash_free(s),
    ensures
        split_segs(s) == seq![s],
    decreases s.len(),
{
    if s.len() == 0 {
        assert(s =~= Seq::<char>::empty());
        assert(split_segs(s) =~~= seq![s]);
    } else {
        assert(s[s.len() - 1] != '/');
        assert(slash_free(s.drop_last()));
        lemma_split_slash_free(s.drop_last());
        assert(s.drop_last().push(s.last()) =~= s);
        assert(split_segs(s) =~= seq![s]);
    }
}

/// Splitting the join of slash-free segments gives back the segments.
pub proof fn lemma_split_join_inverse(segs: Seq<Seq<char>>)
    requires
        segs.len() >= 1,
        all_slash_free(segs),
    ensures
        split_segs(join_segs(segs)) == segs,
    decreases segs.len(),
{
    if segs.len() == 1 {
        lemma_split_slash_free(segs[0]);
        assert(split_segs(join_segs(segs)) =~= segs);
    } else {
        let front = segs.drop_last();
        assert(all_slash_free(front));
        lemma_split_join_inverse(front);
        lemma_split_concat(join_segs(front), segs.last());
        lemma_split_slash_free(segs.last());
        assert(split_segs(join_segs(segs)) =~= segs);
    }
}

/// Joining a concatenation of two non-empty segment lists.
pub proof fn lemma_join_concat(a: Seq<Seq<char>>, b: Seq<Seq<char>>)
    requires
        a.len() >= 1,
        b.len() >= 1,
    ensures
        join_segs(a + b) == join_segs(a) + seq!['/'] + join_segs(b),
    decreases b.len(),
{
    if b.len() == 1 {
        assert((a + b).drop_last() =~= a);
        assert((a + b).last() == b[0]);
        assert(join_segs(a + b) =~= join_segs(a) + seq!['/'] + join_segs(b));
    } else {
        lemma_join_concat(a, b.drop_last());
        assert((a + b).drop_last() =~= a + b.drop_last());
        assert((a + b).last() == b.last());
        assert(join_segs(a + b) =~= join_segs(a) + seq!['/'] + join_segs(b));
    }
}

/// Joining after pushing one more segment.
pub proof fn lemma_join_push(segs: Seq<Seq<char>>, x: Seq<char>)
    requires
        segs.len() >= 1,
    ensures
        join_segs(segs.push(x)) == join_segs(segs) + seq!['/'] + x,
{
    assert(segs.push(x).drop_last() =~= segs);
    assert(join_segs(segs.push(x)) =~= join_segs(segs) + seq!['/'] + x);
}

/// A UTF-8 encoding has at least one byte per character.
pub proof fn lemma_byte_len_ge_len(s: Seq<char>)
    ensures
        byte_len(s) >= s.len(),
    decreases s.len(),
{
    if s.len() > 0 {
        lemma_byte_len_ge_len(s.drop_first());
        vstd::utf8::char_is_scalar(s[0]);
        assert(vstd::utf8::encode_scalar(s[0] as u32).len() >= 1);
    }
}

/// The empty string is the only string of zero bytes.
pub proof fn lemma_byte_len_zero(s: Seq<char>)
    ensures
        byte_len(s) == 0 <==> s.len() == 0,
{
    lemma_byte_len_ge_len(s);
}

/// The length of `s` in bytes: exactly the spec measure `byte_len`.
pub fn str_byte_len(s: &str) -> (n: usize)
    ensures
        n == byte_len(s@),
{
    broadcast use vstd::slice::axiom_spec_len;

    let b: &[u8] = s.as_bytes();
    b.len()
}

/// Character-by-character string equality.
pub fn str_eq(a: &str, b: &str) -> (r: bool)
    ensures
        r == (a@ == b@),
{
    let n: usize = a.unicode_len();
    let m: usize = b.unicode_len();
    if n != m {
        return false;
    }
    let mut i: usize = 0;
    while i < n
        invariant
            0 <= i <= n,
            n == a@.len(),
            n == b@.len(),
            forall|j: int| 0 <= j < i ==> a@[j] == b@[j],
        decreases n - i,
    {
        if a.get_char(i) != b.get_char(i) {
            return false;
        }
        i += 1;
    }
    proof {
        assert(a@ =~= b@);
    }
    true
}

/// Whether `pat` occurs contiguously in `hay`.
pub fn contains_str(hay: &str, pat: &str) -> (r: bool)
    ensures
        r == contains_seq(hay@, pat@),
{
    let n: usize = hay.unicode_len();
    let m: usize = pat.unicode_len();
    if m > n {
        return false;
    }
    if m == 0 {
        proof {
            assert(hay@.subrange(0, 0 + pat@.len() as int) =~= pat@);
        }
        return true;
    }
    let mut i: usize = 0;
    while i <= n - m
        invariant
            0 <= i <= n - m + 1,
            1 <= m <= n,
            n == hay@.len(),
            m == pat@.len(),
            forall|k: int| 0 <= k < i ==> #[trigger] hay@.subrange(k, k + m as int) != pat@,
        decreases n - i,
    {
        let mut j: usize = 0;
        let mut matched = true;
        while matched && j < m
            invariant
                0 <= j <= m,
                i + m <= n,
                n == hay@.len(),
                m == pat@.len(),
                matched ==> forall|t: int| 0 <= t < j ==> hay@[i + t] == pat@[t],
                !matched ==> hay@.subrange(i as int, i + m as int) != pat@,
            decreases m - j + (if matched { 1int } else { 0int }),
        {
            if hay.get_char(i + j) != pat.get_char(j) {
                matched = false;
                proof {
                    assert(hay@.subrange(i as int, i + m as int)[j as int] != pat@[j as int]);
                }
            } else {
                j += 1;
            }
        }
        if matched {
            proof {
                assert(hay@.subrange(i as int, i + m as int) =~= pat@);
            }
            return true;
        }
        i += 1;
    }
    proof {
        assert forall|k: int| 0 <= k && k + pat@.len() <= hay@.len() implies #[trigger] hay@.subrange(
            k,
            k + pat@.len() as int,
        ) != pat@ by {
            assert(k < i);
        }
    }
    false
}

/// Splits `s` at every `'/'` into owned segment strings.
pub fn split_all(s: &str) -> (parts: Vec<String>)
    ensures
        views_of_strings(parts@) == split_segs(s@),
{
    let n: usize = s.unicode_len();
    let mut parts: Vec<String> = Vec::new();
    let mut start: usize = 0;
    let mut i: usize = 0;
    proof {
        assert(s@.take(0) =~= Seq::<char>::empty());
        assert(views_of_strings(parts@).push(s@.subrange(0, 0)) =~~= seq![Seq::<char>::empty()]);
    }
    while i < n
        invariant
            0 <= start <= i <= n,
            n == s@.len(),
            forall|j: int| start <= j < i ==> s@[j] != '/',
            split_segs(s@.take(i as int)) == views_of_strings(parts@).push(
                s@.subrange(start as int, i as int),
            ),
        decreases n - i,
    {
        let c = s.get_char(i);
        if c == '/' {
            let seg = s.substring_char(start, i);
            let ghost old_parts = parts@;
            parts.push(seg.to_owned());
            proof {
                assert(views_of_strings(parts@) =~~= views_of_strings(old_parts).push(
                    s@.subrange(start as int, i as int),
                ));
                assert(s@.take(i + 1).last() == '/');
                assert(s@.take(i + 1).drop_last() =~= s@.take(i as int));
                assert(split_segs(s@.take(i + 1)) =~~= views_of_strings(parts@).push(
                    s@.subrange(i + 1, i + 1),
                ));
            }
            start = i + 1;
        } else {
            proof {
                assert(s@.take(i + 1).last() == s@[i as int]);
                assert(s@.take(i + 1).drop_last() =~= s@.take(i as int));
                let r = split_segs(s@.take(i as int));
                lemma_split_len(s@.take(i as int));
                assert(r.last() == s@.subrange(start as int, i as int));
                assert(r.update(r.len() - 1, r.last().push(s@[i as int])) =~~= views_of_strings(
                    parts@,
                ).push(s@.subrange(start as int, i + 1)));
                assert(split_segs(s@.take(i + 1)) =~~= views_of_strings(parts@).push(
                    s@.subrange(start as int, i + 1),
                ));
            }
        }
        i += 1;
    }
    let seg = s.substring_char(start, n);
    let ghost old_parts = parts@;
    parts.push(seg.to_owned());
    proof {
        assert(s@.take(n as int) =~= s@);
        assert(views_of_strings(parts@) =~~= views_of_strings(old_parts).push(
            s@.subrange(start as int, n as int),
        ));
    }
    parts
}

} // verus!
