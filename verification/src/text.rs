//! Text primitives: whitespace, prefixes, trimming and concatenation.

use vstd::prelude::*;

verus! {

/// Whether `c` has the Unicode property `White_Space`.
pub open spec fn is_white_space(c: char) -> bool {
    let n = c as u32;
    ||| 0x09 <= n <= 0x0d
    ||| n == 0x20
    ||| n == 0x85
    ||| n == 0xa0
    ||| n == 0x1680
    ||| 0x2000 <= n <= 0x200a
    ||| n == 0x2028
    ||| n == 0x2029
    ||| n == 0x202f
    ||| n == 0x205f
    ||| n == 0x3000
}

/// Tells whether `c` is a whitespace character.
pub fn is_whitespace(c: char) -> (res: bool)
    ensures
        res == is_white_space(c),
{
    let n: u32 = c as u32;
    (0x09 <= n && n <= 0x0d) || n == 0x20 || n == 0x85 || n == 0xa0 || n == 0x1680 || (0x2000 <= n
        && n <= 0x200a) || n == 0x2028 || n == 0x2029 || n == 0x202f || n == 0x205f || n == 0x3000
}

/// Tells whether `s` begins with `prefix`.
pub fn starts_with(s: &str, prefix: &str) -> (res: bool)
    ensures
        res == prefix@.is_prefix_of(s@),
{
    let n = prefix.unicode_len();
    if s.unicode_len() < n {
        return false;
    }
    let mut i: usize = 0;
    while i < n
        invariant
            i <= n,
            n == prefix@.len(),
            n <= s@.len(),
            forall|k: int| 0 <= k < i ==> s@[k] == prefix@[k],
        decreases n - i,
    {
        if s.get_char(i) != prefix.get_char(i) {
            return false;
        }
        i += 1;
    }
    assert(s@.subrange(0, prefix@.len() as int) =~= prefix@);
    true
}

/// The texts of `parts`, one after another.
pub open spec fn concat(parts: Seq<Seq<char>>) -> Seq<char>
    decreases parts.len(),
{
    if parts.len() == 0 {
        Seq::empty()
    } else {
        concat(parts.drop_last()) + parts.last()
    }
}

/// The texts of `parts`, one after another, with `sep` between each two neighbours.
pub open spec fn join(parts: Seq<Seq<char>>, sep: Seq<char>) -> Seq<char>
    decreases parts.len(),
{
    if parts.len() == 0 {
        Seq::empty()
    } else if parts.len() == 1 {
        parts[0]
    } else {
        join(parts.drop_last(), sep) + sep + parts.last()
    }
}

/// `sep` where `wanted`, else nothing.
pub open spec fn sep_if(wanted: bool, sep: Seq<char>) -> Seq<char> {
    if wanted {
        sep
    } else {
        Seq::empty()
    }
}

/// A joined text keeps its parts in their order: part `i` stands behind the join of the
/// parts before it and in front of the join of the parts behind it, with `sep` on each
/// side where it has a neighbour there.
pub proof fn lemma_join_keeps_order(parts: Seq<Seq<char>>, sep: Seq<char>, i: int)
    requires
        0 <= i < parts.len(),
    ensures
        join(parts, sep) == join(parts.take(i), sep) + sep_if(i > 0, sep) + parts[i] + sep_if(
            i + 1 < parts.len(),
            sep,
        ) + join(parts.skip(i + 1), sep),
    decreases parts.len(),
{
    let n = parts.len() as int;
    let front = parts.drop_last();
    if i == n - 1 {
        assert(parts.take(i) =~= front);
        assert(parts.skip(i + 1) =~= Seq::<Seq<char>>::empty());
        assert(join(parts, sep) =~= join(parts.take(i), sep) + sep_if(i > 0, sep) + parts[i]
            + sep_if(i + 1 < parts.len(), sep) + join(parts.skip(i + 1), sep));
    } else {
        lemma_join_keeps_order(front, sep, i);
        let tail = parts.skip(i + 1);
        assert(front.take(i) =~= parts.take(i));
        assert(tail.drop_last() =~= front.skip(i + 1));
        assert(tail.last() == parts.last());
        if i + 1 == n - 1 {
            assert(front.skip(i + 1) =~= Seq::<Seq<char>>::empty());
            assert(tail.len() == 1);
            assert(join(tail, sep) == parts.last());
            assert(join(parts, sep) =~= join(parts.take(i), sep) + sep_if(i > 0, sep) + parts[i]
                + sep + join(tail, sep));
        } else {
            assert(tail.len() > 1);
            assert(join(tail, sep) == join(front.skip(i + 1), sep) + sep + parts.last());
            assert(join(parts, sep) =~= join(parts.take(i), sep) + sep_if(i > 0, sep) + parts[i]
                + sep + (join(front.skip(i + 1), sep) + sep + parts.last()));
        }
    }
}

/// The concatenation of two runs of parts, one after the other, is the concatenation
/// of the first run followed by that of the second.
pub proof fn lemma_concat_add(a: Seq<Seq<char>>, b: Seq<Seq<char>>)
    ensures
        concat(a + b) == concat(a) + concat(b),
    decreases b.len(),
{
    if b.len() == 0 {
        assert(a + b =~= a);
        assert(concat(a + b) =~= concat(a) + concat(b));
    } else {
        lemma_concat_add(a, b.drop_last());
        assert((a + b).drop_last() =~= a + b.drop_last());
        assert(concat(a + b) =~= concat(a) + concat(b));
    }
}

/// A concatenation keeps its parts in their order: part `i` stands behind the parts
/// before it and in front of the parts behind it.
pub proof fn lemma_concat_keeps_order(parts: Seq<Seq<char>>, i: int)
    requires
        0 <= i < parts.len(),
    ensures
        concat(parts) == concat(parts.take(i)) + parts[i] + concat(parts.skip(i + 1)),
    decreases parts.len(),
{
    let n = parts.len() as int;
    let front = parts.drop_last();
    if i == n - 1 {
        assert(parts.take(i) =~= front);
        assert(parts.skip(i + 1) =~= Seq::<Seq<char>>::empty());
        assert(concat(parts) =~= concat(parts.take(i)) + parts[i] + concat(parts.skip(i + 1)));
    } else {
        lemma_concat_keeps_order(front, i);
        let tail = parts.skip(i + 1);
        assert(front.take(i) =~= parts.take(i));
        assert(tail.drop_last() =~= front.skip(i + 1));
        assert(tail.last() == parts.last());
        assert(concat(parts) =~= concat(parts.take(i)) + parts[i] + (concat(front.skip(i + 1))
            + parts.last()));
    }
}

/// Tells whether `a` and `b` hold the same characters.
pub fn same_text(a: &str, b: &str) -> (res: bool)
    ensures
        res == (a@ == b@),
{
    let a = a.to_owned();
    let b = b.to_owned();
    a == b
}

/// Returns `s` without its first `n` characters.
pub fn skip(s: &str, n: usize) -> (res: &str)
    requires
        n <= s@.len(),
    ensures
        res@ == s@.skip(n as int),
{
    let len = s.unicode_len();
    s.substring_char(n, len)
}

/// The position of the last `c` in `s`, or -1 where it has none.
pub open spec fn last_index_of(s: Seq<char>, c: char) -> int
    decreases s.len(),
{
    if s.len() == 0 {
        -1
    } else if s.last() == c {
        s.len() - 1
    } else {
        last_index_of(s.drop_last(), c)
    }
}

/// Where `c` stands at `i` and nowhere behind it, or `i` is -1 and `c` stands nowhere,
/// `i` is the position that `last_index_of` gives.
pub proof fn lemma_last_index_of(s: Seq<char>, c: char, i: int)
    requires
        -1 <= i < s.len(),
        i >= 0 ==> s[i] == c,
        forall|k: int| i < k < s.len() ==> s[k] != c,
    ensures
        last_index_of(s, c) == i,
    decreases s.len(),
{
    if s.len() > 0 && s.last() != c {
        lemma_last_index_of(s.drop_last(), c, i);
    }
}

/// `last_index_of` gives the last position of `c`: `c` stands at it, unless it is -1,
/// and nowhere behind it.
pub proof fn lemma_last_index_of_is_last(s: Seq<char>, c: char)
    ensures
        -1 <= last_index_of(s, c) < s.len(),
        last_index_of(s, c) >= 0 ==> s[last_index_of(s, c)] == c,
        forall|k: int| last_index_of(s, c) < k < s.len() ==> s[k] != c,
    decreases s.len(),
{
    if s.len() > 0 && s.last() != c {
        let front = s.drop_last();
        lemma_last_index_of_is_last(front, c);
        assert forall|k: int| last_index_of(s, c) < k < s.len() implies s[k] != c by {
            if k < s.len() - 1 {
                assert(s[k] == front[k]);
            }
        }
    }
}

/// Returns how many of the first `end` characters of `s` stand up to and including the
/// last `c` among them: the position behind that `c`, or 0 where there is none.
pub fn after_last(s: &str, end: usize, c: char) -> (res: usize)
    requires
        end <= s@.len(),
    ensures
        res == last_index_of(s@.take(end as int), c) + 1,
        res <= end,
{
    let mut i: usize = end;
    while i > 0 && s.get_char(i - 1) != c
        invariant
            i <= end <= s@.len(),
            last_index_of(s@.take(end as int), c) == last_index_of(s@.take(i as int), c),
        decreases i,
    {
        assert(s@.take(i as int).drop_last() =~= s@.take(i - 1));
        i -= 1;
    }
    i
}

/// `s` without its leading whitespace.
pub open spec fn trim_start(s: Seq<char>) -> Seq<char>
    decreases s.len(),
{
    if s.len() > 0 && is_white_space(s[0]) {
        trim_start(s.drop_first())
    } else {
        s
    }
}

/// `s` without its trailing whitespace.
pub open spec fn trim_end(s: Seq<char>) -> Seq<char>
    decreases s.len(),
{
    if s.len() > 0 && is_white_space(s.last()) {
        trim_end(s.drop_last())
    } else {
        s
    }
}

/// `s` without its leading and trailing whitespace.
pub open spec fn trimmed(s: Seq<char>) -> Seq<char> {
    trim_end(trim_start(s))
}

/// What trimming leaves is the stretch of `s` from the returned start to the returned
/// end: all before and all behind it is whitespace, and it neither begins nor ends with
/// whitespace.
pub proof fn lemma_trimmed_is_core(s: Seq<char>) -> (core: (int, int))
    ensures
        0 <= core.0 <= core.1 <= s.len(),
        trimmed(s) == s.subrange(core.0, core.1),
        forall|k: int| 0 <= k < core.0 ==> is_white_space(s[k]),
        forall|k: int| core.1 <= k < s.len() ==> is_white_space(s[k]),
        core.0 < core.1 ==> !is_white_space(s[core.0]) && !is_white_space(s[core.1 - 1]),
{
    let start = lemma_trim_start_is_tail(s);
    let tail = s.skip(start);
    let len = lemma_trim_end_is_head(tail);
    assert(tail.take(len) =~= s.subrange(start, start + len));
    assert forall|k: int| start + len <= k < s.len() implies is_white_space(s[k]) by {
        assert(s[k] == tail[k - start]);
    }
    if len > 0 {
        assert(tail[len - 1] == s[start + len - 1]);
        assert(tail[0] == s[start]);
    }
    (start, start + len)
}

/// Trimming never lengthens a text.
pub proof fn lemma_trimmed_len(s: Seq<char>)
    ensures
        trimmed(s).len() <= s.len(),
{
    let core = lemma_trimmed_is_core(s);
}

proof fn lemma_trim_start_is_tail(s: Seq<char>) -> (start: int)
    ensures
        0 <= start <= s.len(),
        trim_start(s) == s.skip(start),
        forall|k: int| 0 <= k < start ==> is_white_space(s[k]),
        start < s.len() ==> !is_white_space(s[start]),
    decreases s.len(),
{
    if s.len() > 0 && is_white_space(s[0]) {
        let rest = s.drop_first();
        let start = lemma_trim_start_is_tail(rest);
        assert(rest.skip(start) =~= s.skip(start + 1));
        assert forall|k: int| 0 <= k < start + 1 implies is_white_space(s[k]) by {
            if k > 0 {
                assert(s[k] == rest[k - 1]);
            }
        }
        if start < rest.len() {
            assert(rest[start] == s[start + 1]);
        }
        start + 1
    } else {
        assert(s.skip(0) =~= s);
        0
    }
}

proof fn lemma_trim_end_is_head(s: Seq<char>) -> (len: int)
    ensures
        0 <= len <= s.len(),
        trim_end(s) == s.take(len),
        forall|k: int| len <= k < s.len() ==> is_white_space(s[k]),
        len > 0 ==> !is_white_space(s[len - 1]),
    decreases s.len(),
{
    if s.len() > 0 && is_white_space(s.last()) {
        let rest = s.drop_last();
        let len = lemma_trim_end_is_head(rest);
        assert(rest.take(len) =~= s.take(len));
        assert forall|k: int| len <= k < s.len() implies is_white_space(s[k]) by {
            if k < s.len() - 1 {
                assert(s[k] == rest[k]);
            }
        }
        if len > 0 {
            assert(rest[len - 1] == s[len - 1]);
        }
        len
    } else {
        assert(s.take(s.len() as int) =~= s);
        s.len() as int
    }
}

/// Returns `s` without its leading and trailing whitespace.
pub fn trim(s: &str) -> (res: &str)
    ensures
        res@ == trimmed(s@),
{
    let n = s.unicode_len();
    let mut start: usize = 0;
    assert(s@.skip(0) =~= s@);
    while start < n && is_whitespace(s.get_char(start))
        invariant
            start <= n,
            n == s@.len(),
            trim_start(s@) == trim_start(s@.skip(start as int)),
        decreases n - start,
    {
        assert(s@.skip(start as int).drop_first() =~= s@.skip(start + 1));
        start += 1;
    }
    assert(s@.skip(start as int) =~= s@.subrange(start as int, n as int));
    let mut end: usize = n;
    while end > start && is_whitespace(s.get_char(end - 1))
        invariant
            start <= end <= n,
            n == s@.len(),
            trimmed(s@) == trim_end(s@.subrange(start as int, end as int)),
        decreases end,
    {
        assert(s@.subrange(start as int, end as int).drop_last() =~= s@.subrange(
            start as int,
            end - 1,
        ));
        end -= 1;
    }
    s.substring_char(start, end)
}

} // verus!
