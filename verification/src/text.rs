//! Small verified string helpers used across the crate.

use vstd::prelude::*;
use vstd::string::*;

verus! {

/// Whether two strings hold the same characters.
pub fn str_eq(a: &str, b: &str) -> (r: bool)
    ensures
        r == (a@ == b@),
{
    let n = a.unicode_len();
    let m = b.unicode_len();
    if n != m {
        return false;
    }
    let mut i: usize = 0;
    while i < n
        invariant
            n == a@.len(),
            m == b@.len(),
            n == m,
            i <= n,
            forall|j: int| 0 <= j < i ==> a@[j] == b@[j],
        decreases n - i,
    {
        if a.get_char(i) != b.get_char(i) {
            return false;
        }
        i = i + 1;
    }
    assert(a@ =~= b@);
    true
}


/// Appends the character `c` to `s` (`String::push`).
/// Trusted: std documents `push` as appending the given char to the end.
#[verifier::external_body]
pub fn push_char(s: &mut String, c: char)
    ensures
        final(s)@ == old(s)@.push(c),
{
    s.push(c)
}

/// Whether the text `p` of length `m` occurs in `s` at character `i`.
pub fn occurs_at(s: &str, i: usize, p: &str, m: usize) -> (r: bool)
    requires
        m == p@.len(),
        i + m <= s@.len(),
        s@.len() <= usize::MAX,
    ensures
        r == (s@.subrange(i as int, i + m) == p@),
{
    let mut j: usize = 0;
    while j < m
        invariant
            m == p@.len(),
            i + m <= s@.len(),
            s@.len() <= usize::MAX,
            j <= m,
            s@.subrange(i as int, i + j) == p@.take(j as int),
        decreases m - j,
    {
        if s.get_char(i + j) != p.get_char(j) {
            assert(s@.subrange(i as int, i + m)[j as int] != p@[j as int]);
            return false;
        }
        j = j + 1;
        assert(s@.subrange(i as int, i + j) =~= p@.take(j as int));
    }
    assert(p@.take(m as int) =~= p@);
    true
}

/// Whether the text `p` occurs somewhere in `s`.
pub open spec fn holds_text(s: Seq<char>, p: Seq<char>) -> bool {
    exists|k: int| 0 <= k && k + p.len() <= s.len() && #[trigger] s.subrange(k, k + p.len()) == p
}

/// Whether the text `p` occurs somewhere in `s`.
pub fn contains_text(s: &str, p: &str) -> (r: bool)
    ensures
        r == holds_text(s@, p@),
{
    let n = s.unicode_len();
    let m = p.unicode_len();
    if m > n {
        return false;
    }
    let mut i: usize = 0;
    while i <= n - m
        invariant
            n == s@.len(),
            m == p@.len(),
            m <= n,
            i <= n - m + 1,
            forall|k: int| 0 <= k < i ==> #[trigger] s@.subrange(k, k + m) != p@,
        decreases n - m + 1 - i,
    {
        if occurs_at(s, i, p, m) {
            return true;
        }
        if i == n - m {
            return false;
        }
        i = i + 1;
    }
    false
}

/// The views of a sequence of strings.
pub open spec fn strings_view(v: Seq<String>) -> Seq<Seq<char>> {
    Seq::new(v.len(), |i: int| v[i]@)
}

/// The strings of `v`, separated by `sep`.
pub open spec fn join(v: Seq<Seq<char>>, sep: Seq<char>) -> Seq<char>
    decreases v.len(),
{
    if v.len() == 0 {
        Seq::empty()
    } else if v.len() == 1 {
        v[0]
    } else {
        join(v.drop_last(), sep) + sep + v.last()
    }
}

/// The pieces of `s` between the occurrences of `c` (as `str::split` with a
/// char): there is always at least one piece.
pub open spec fn split(s: Seq<char>, c: char) -> Seq<Seq<char>>
    decreases s.len(),
{
    if s.len() == 0 {
        seq![Seq::empty()]
    } else {
        let prev = split(s.drop_last(), c);
        if s.last() == c {
            prev.push(Seq::empty())
        } else {
            prev.update(prev.len() - 1, prev.last().push(s.last()))
        }
    }
}

/// `s` with every `from` replaced by `to`.
pub open spec fn replace_char(s: Seq<char>, from: char, to: char) -> Seq<char> {
    Seq::new(s.len(), |i: int| if s[i] == from { to } else { s[i] })
}

/// The non-empty strings of `v`, in order.
pub open spec fn non_empty(v: Seq<Seq<char>>) -> Seq<Seq<char>>
    decreases v.len(),
{
    if v.len() == 0 {
        Seq::empty()
    } else if v.last().len() == 0 {
        non_empty(v.drop_last())
    } else {
        non_empty(v.drop_last()).push(v.last())
    }
}

/// A copy of a vector of strings.
pub fn clone_strings(v: &Vec<String>) -> (r: Vec<String>)
    ensures
        r@ == v@,
{
    let mut r: Vec<String> = Vec::new();
    let n = v.len();
    let mut i: usize = 0;
    while i < n
        invariant
            n == v@.len(),
            i <= n,
            r@ == v@.take(i as int),
        decreases n - i,
    {
        r.push(v[i].clone());
        i = i + 1;
        assert(r@ =~= v@.take(i as int));
    }
    assert(v@.take(n as int) =~= v@);
    r
}

/// The strings of `v` joined by `sep`.
pub fn join_strings(v: &Vec<String>, sep: &str) -> (r: String)
    ensures
        r@ == join(strings_view(v@), sep@),
{
    let mut r = String::new();
    let n = v.len();
    let mut i: usize = 0;
    while i < n
        invariant
            n == v@.len(),
            i <= n,
            r@ == join(strings_view(v@.take(i as int)), sep@),
        decreases n - i,
    {
        proof {
            assert(strings_view(v@.take(i + 1)).drop_last() =~= strings_view(v@.take(i as int)));
            assert(strings_view(v@.take(i + 1)).last() == v@[i as int]@);
        }
        if i == 0 {
            r = v[i].clone();
            assert(strings_view(v@.take(1))[0] == v@[0]@);
        } else {
            r.append(sep);
            r.append(v[i].as_str());
        }
        i = i + 1;
    }
    assert(v@.take(n as int) =~= v@);
    r
}

/// `s` with every `from` replaced by `to`.
pub fn replace_chars(s: &str, from: char, to: char) -> (r: String)
    ensures
        r@ == replace_char(s@, from, to),
{
    let mut r = String::new();
    let n = s.unicode_len();
    let mut i: usize = 0;
    while i < n
        invariant
            n == s@.len(),
            i <= n,
            r@ == replace_char(s@, from, to).take(i as int),
        decreases n - i,
    {
        let c = s.get_char(i);
        if c == from {
            push_char(&mut r, to);
        } else {
            push_char(&mut r, c);
        }
        i = i + 1;
        assert(r@ =~= replace_char(s@, from, to).take(i as int));
    }
    assert(replace_char(s@, from, to).take(n as int) =~= replace_char(s@, from, to));
    r
}

/// A split always has at least one piece.
pub proof fn lemma_split_len(s: Seq<char>, c: char)
    ensures
        split(s, c).len() >= 1,
    decreases s.len(),
{
    if s.len() > 0 {
        lemma_split_len(s.drop_last(), c);
    }
}

/// The pieces of `s` between the occurrences of `c`.
pub fn split_chars(s: &str, c: char) -> (r: Vec<String>)
    ensures
        strings_view(r@) == split(s@, c),
{
    let mut r: Vec<String> = Vec::new();
    let mut cur = String::new();
    let n = s.unicode_len();
    let mut i: usize = 0;
    assert(s@.take(0) =~= Seq::<char>::empty());
    assert(strings_view(r@).push(cur@) =~= split(s@.take(0), c));
    while i < n
        invariant
            n == s@.len(),
            i <= n,
            strings_view(r@).push(cur@) == split(s@.take(i as int), c),
        decreases n - i,
    {
        let ch = s.get_char(i);
        proof {
            assert(s@.take(i + 1).drop_last() =~= s@.take(i as int));
            assert(s@.take(i + 1).last() == ch);
            lemma_split_len(s@.take(i as int), c);
        }
        let ghost prev = split(s@.take(i as int), c);
        if ch == c {
            let ghost old_r = r@;
            let ghost old_cur = cur@;
            r.push(cur);
            cur = String::new();
            assert(strings_view(r@) =~= strings_view(old_r).push(old_cur));
            assert(strings_view(r@).push(cur@) =~= prev.push(Seq::empty()));
        } else {
            let ghost old_cur = cur@;
            push_char(&mut cur, ch);
            assert(strings_view(r@).push(cur@) =~= prev.update(prev.len() - 1, prev.last().push(ch)));
        }
        i = i + 1;
    }
    assert(s@.take(n as int) =~= s@);
    let ghost old_r = r@;
    let ghost last = cur@;
    r.push(cur);
    assert(strings_view(r@) =~= strings_view(old_r).push(last));
    r
}

/// Whether `c` occurs in `s`.
pub open spec fn has_char(s: Seq<char>, c: char) -> bool {
    exists|i: int| 0 <= i < s.len() && s[i] == c
}

/// Splitting `a + [c] + b` where `b` has no `c` gives the pieces of `a` and then `b`.
pub proof fn lemma_split_append(a: Seq<char>, c: char, b: Seq<char>)
    requires
        !has_char(b, c),
    ensures
        split(a.push(c) + b, c) == split(a, c).push(b),
    decreases b.len(),
{
    if b.len() == 0 {
        assert(a.push(c) + b =~= a.push(c));
        assert((a.push(c)).drop_last() =~= a);
        assert(b =~= Seq::<char>::empty());
    } else {
        let b0 = b.drop_last();
        assert(!has_char(b0, c)) by {
            if has_char(b0, c) {
                let i = choose|i: int| 0 <= i < b0.len() && b0[i] == c;
                assert(b[i] == c);
            }
        }
        lemma_split_append(a, c, b0);
        let s = a.push(c) + b;
        assert(s.drop_last() =~= a.push(c) + b0);
        assert(s.last() == b.last());
        assert(b.last() != c) by {
            assert(b[b.len() - 1] == b.last());
        }
        lemma_split_len(a, c);
        assert(b0.push(b.last()) =~= b);
        let prev = split(s.drop_last(), c);
        assert(prev == split(a, c).push(b0));
        assert(prev.last() == b0);
        assert(split(s, c) == prev.update(prev.len() - 1, prev.last().push(s.last())));
        assert(prev.update(prev.len() - 1, b0.push(b.last())) =~= split(a, c).push(b));
    }
}

/// Splitting a string with no `c` gives that string alone.
pub proof fn lemma_split_plain(b: Seq<char>, c: char)
    requires
        !has_char(b, c),
    ensures
        split(b, c) == seq![b],
    decreases b.len(),
{
    if b.len() > 0 {
        let b0 = b.drop_last();
        assert(!has_char(b0, c)) by {
            if has_char(b0, c) {
                let i = choose|i: int| 0 <= i < b0.len() && b0[i] == c;
                assert(b[i] == c);
            }
        }
        lemma_split_plain(b0, c);
        assert(b.last() != c) by {
            assert(b[b.len() - 1] == b.last());
        }
        assert(b0.push(b.last()) =~= b);
        assert(seq![b0].update(0, b0.push(b.last())) =~= seq![b]);
    } else {
        assert(b =~= Seq::<char>::empty());
    }
}

/// Law: splitting a `c`-joined list of at least one string, none holding
/// `c`, gives the list back.
pub proof fn lemma_split_join(v: Seq<Seq<char>>, c: char)
    requires
        v.len() >= 1,
        forall|i: int| 0 <= i < v.len() ==> !has_char(#[trigger] v[i], c),
    ensures
        split(join(v, seq![c]), c) == v,
    decreases v.len(),
{
    if v.len() == 1 {
        lemma_split_plain(v[0], c);
        assert(seq![v[0]] =~= v);
    } else {
        let v0 = v.drop_last();
        assert forall|i: int| 0 <= i < v0.len() implies !has_char(#[trigger] v0[i], c) by {
            assert(v0[i] == v[i]);
        }
        lemma_split_join(v0, c);
        assert(join(v0, seq![c]) + seq![c] =~= join(v0, seq![c]).push(c));
        assert(!has_char(v.last(), c)) by {
            assert(v[v.len() - 1] == v.last());
        }
        lemma_split_append(join(v0, seq![c]), c, v.last());
        assert(v0.push(v.last()) =~= v);
    }
}
} // verus!
