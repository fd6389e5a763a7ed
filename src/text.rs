use vstd::prelude::*;

verus! {

/// Splits `s` at every '.', keeping empty parts; the empty sequence has one
/// empty part.
pub open spec fn split_dots(s: Seq<char>) -> Seq<Seq<char>>
    decreases s.len(),
{
    if s.len() == 0 {
        seq![Seq::empty()]
    } else {
        let p = split_dots(s.drop_last());
        if s.last() == '.' {
            p.push(Seq::empty())
        } else {
            p.update(p.len() - 1, p.last().push(s.last()))
        }
    }
}

/// The views of a sequence of strings.
pub open spec fn views(v: Seq<String>) -> Seq<Seq<char>> {
    v.map_values(|p: String| p@)
}

/// Character-wise equality of two strings.
pub fn str_eq(a: &str, b: &str) -> (r: bool)
    ensures
        r == (a@ == b@),
{
    let n = a.unicode_len();
    let m = b.unicode_len();
    if n != m {
        return false;
    }
    let mut i: usize = 0;
    while i < n
        invariant
            n == a@.len(),
            m == b@.len(),
            n == m,
            i <= n,
            a@.subrange(0, i as int) == b@.subrange(0, i as int),
        decreases n - i,
    {
        if a.get_char(i) != b.get_char(i) {
            assert(a@[i as int] != b@[i as int]);
            return false;
        }
        assert(a@.subrange(0, i + 1) == a@.subrange(0, i as int).push(a@[i as int]));
        assert(b@.subrange(0, i + 1) == b@.subrange(0, i as int).push(b@[i as int]));
        i = i + 1;
    }
    assert(a@ == a@.subrange(0, n as int));
    assert(b@ == b@.subrange(0, n as int));
    true
}

/// Splits a string at every '.'.
pub fn split_dots_exec(s: &str) -> (parts: Vec<String>)
    ensures
        views(parts@) == split_dots(s@),
{
    let n = s.unicode_len();
    let mut parts: Vec<String> = Vec::new();
    let mut start: usize = 0;
    let mut i: usize = 0;
    assert(s@.subrange(0, 0) =~= Seq::<char>::empty());
    assert(views(parts@).push(s@.subrange(0, 0)) =~= split_dots(s@.subrange(0, 0)));
    while i < n
        invariant
            n == s@.len(),
            start <= i <= n,
            views(parts@).push(s@.subrange(start as int, i as int)) == split_dots(
                s@.subrange(0, i as int),
            ),
        decreases n - i,
    {
        let c = s.get_char(i);
        let ghost pre = s@.subrange(0, i as int);
        let ghost next = s@.subrange(0, i + 1);
        assert(next.drop_last() =~= pre);
        assert(next.last() == c);
        if c == '.' {
            let piece = s.substring_char(start, i);
            let owned = piece.to_owned();
            let ghost old_parts = parts@;
            parts.push(owned);
            assert(views(parts@) =~= views(old_parts).push(s@.subrange(start as int, i as int)));
            start = i + 1;
            assert(s@.subrange(start as int, i + 1) =~= Seq::<char>::empty());
        } else {
            assert(s@.subrange(start as int, i + 1) =~= s@.subrange(start as int, i as int).push(c));
            assert(views(parts@).push(s@.subrange(start as int, i + 1)) =~= views(parts@).push(
                s@.subrange(start as int, i as int),
            ).update(views(parts@).len() as int, s@.subrange(start as int, i as int).push(c)));
        }
        i = i + 1;
    }
    let last = s.substring_char(start, n);
    let owned = last.to_owned();
    let ghost old_parts = parts@;
    parts.push(owned);
    assert(views(parts@) =~= views(old_parts).push(s@.subrange(start as int, n as int)));
    assert(s@.subrange(0, n as int) =~= s@);
    parts
}

} // verus!
