//! Small helpers on character sequences: comparing two texts, finding a
//! separator, taking the second of the fields it separates, and trimming a
//! repeated character from both ends.

use vstd::prelude::*;

verus! {

/// The index of the first occurrence of `c` in `s`, or the length of `s` if
/// `c` does not occur in it.
pub open spec fn index_of(s: Seq<char>, c: char) -> int
    decreases s.len(),
{
    if s.len() == 0 || s[0] == c {
        0
    } else {
        1 + index_of(s.drop_first(), c)
    }
}

/// The number of characters equal to `c` at the start of `s`.
pub open spec fn leading_run(s: Seq<char>, c: char) -> int
    decreases s.len(),
{
    if s.len() == 0 || s[0] != c {
        0
    } else {
        1 + leading_run(s.drop_first(), c)
    }
}

/// The number of characters equal to `c` at the end of `s`.
pub open spec fn trailing_run(s: Seq<char>, c: char) -> int
    decreases s.len(),
{
    if s.len() == 0 || s.last() != c {
        0
    } else {
        1 + trailing_run(s.drop_last(), c)
    }
}

/// The second of the fields that `sep` separates in `s`: what stands between
/// the first `sep` and the next one (or the end). `None` when `s` holds no
/// `sep` at all. The field may be empty.
pub open spec fn second_field(s: Seq<char>, sep: char) -> Option<Seq<char>> {
    let i = index_of(s, sep);
    if i >= s.len() {
        None
    } else {
        let rest = s.skip(i + 1);
        Some(rest.take(index_of(rest, sep)))
    }
}

/// `s` without the characters equal to `c` at its start and at its end.
pub open spec fn trim_matching(s: Seq<char>, c: char) -> Seq<char> {
    let rest = s.skip(leading_run(s, c));
    rest.take(rest.len() - trailing_run(rest, c))
}

/// `index_of` is the one position before which no `c` stands and at which
/// either `s` ends or a `c` stands.
pub proof fn lemma_index_of(s: Seq<char>, c: char, i: int)
    requires
        0 <= i <= s.len(),
        forall|k: int| 0 <= k < i ==> s[k] != c,
        i < s.len() ==> s[i] == c,
    ensures
        index_of(s, c) == i,
    decreases i,
{
    if i > 0 {
        let t = s.drop_first();
        assert(s[0] != c);
        assert forall|k: int| 0 <= k < i - 1 implies t[k] != c by {
            assert(t[k] == s[k + 1]);
        }
        lemma_index_of(t, c, i - 1);
    }
}

/// `leading_run` is the one position before which only `c` stands and at
/// which either `s` ends or another character stands.
pub proof fn lemma_leading_run(s: Seq<char>, c: char, i: int)
    requires
        0 <= i <= s.len(),
        forall|k: int| 0 <= k < i ==> s[k] == c,
        i < s.len() ==> s[i] != c,
    ensures
        leading_run(s, c) == i,
    decreases i,
{
    if i > 0 {
        let t = s.drop_first();
        assert(s[0] == c);
        assert forall|k: int| 0 <= k < i - 1 implies t[k] == c by {
            assert(t[k] == s[k + 1]);
        }
        lemma_leading_run(t, c, i - 1);
    }
}

/// `trailing_run` is the one count `n` such that the last `n` characters of
/// `s` are `c` and the one before them, if any, is not.
pub proof fn lemma_trailing_run(s: Seq<char>, c: char, n: int)
    requires
        0 <= n <= s.len(),
        forall|k: int| s.len() - n <= k < s.len() ==> s[k] == c,
        n < s.len() ==> s[s.len() - n - 1] != c,
    ensures
        trailing_run(s, c) == n,
    decreases n,
{
    if n > 0 {
        let t = s.drop_last();
        assert(s.last() == c);
        assert forall|k: int| t.len() - (n - 1) <= k < t.len() implies t[k] == c by {
            assert(t[k] == s[k]);
        }
        lemma_trailing_run(t, c, n - 1);
    }
}

/// Copies the characters of `s` into a vector, in order.
pub fn chars_of(s: &str) -> (v: Vec<char>)
    ensures
        v@ == s@,
{
    let mut v: Vec<char> = Vec::new();
    for c in it: s.chars()
        invariant
            it.seq() == s@,
            v@ == it.seq().take(it.index() as int),
    {
        v.push(c);
    }
    v
}

/// Tells whether `a` and `b` hold the same characters.
pub fn same_text(a: &str, b: &str) -> (r: bool)
    ensures
        r == (a@ == b@),
{
    let x = chars_of(a);
    let y = chars_of(b);
    if x.len() != y.len() {
        assert(a@.len() != b@.len());
        return false;
    }
    let mut i: usize = 0;
    while i < x.len()
        invariant
            x@ == a@,
            y@ == b@,
            x.len() == y.len(),
            i <= x.len(),
            forall|k: int| 0 <= k < i ==> x@[k] == y@[k],
        decreases x.len() - i,
    {
        if x[i] != y[i] {
            assert(a@[i as int] != b@[i as int]);
            return false;
        }
        i += 1;
    }
    assert(x@ =~= y@);
    true
}

/// Returns the index of the first `c` in `v` at or after `from`, or the
/// length of `v` if there is none.
fn find_from(v: &Vec<char>, from: usize, c: char) -> (i: usize)
    requires
        from <= v.len(),
    ensures
        from <= i <= v.len(),
        i == from + index_of(v@.skip(from as int), c),
{
    let mut i: usize = from;
    while i < v.len() && v[i] != c
        invariant
            from <= i <= v.len(),
            forall|k: int| from <= k < i ==> v@[k] != c,
        decreases v.len() - i,
    {
        i += 1;
    }
    proof {
        lemma_index_of(v@.skip(from as int), c, i - from);
    }
    i
}

/// Returns the second of the fields that `sep` separates in `s`, as
/// splitting `s` on `sep` and taking the field after the first would.
pub fn second_field_of(s: &str, sep: char) -> (r: Option<String>)
    ensures
        match r {
            Some(t) => second_field(s@, sep) == Some(t@),
            None => second_field(s@, sep) is None,
        },
{
    let v = chars_of(s);
    let i: usize = find_from(&v, 0, sep);
    assert(v@.skip(0) =~= v@);
    if i >= v.len() {
        None
    } else {
        let j: usize = find_from(&v, i + 1, sep);
        let field = s.substring_char(i + 1, j);
        proof {
            let rest = s@.skip(i + 1);
            assert(rest.take(j - (i + 1)) =~= s@.subrange(i + 1, j as int));
        }
        Some(field.to_owned())
    }
}

/// Returns `s` without the characters equal to `c` at its start and at its
/// end.
pub fn trim_matching_of(s: &str, c: char) -> (r: String)
    ensures
        r@ == trim_matching(s@, c),
{
    let v = chars_of(s);
    let n: usize = v.len();
    let mut a: usize = 0;
    while a < n && v[a] == c
        invariant
            n == v.len(),
            a <= n,
            forall|k: int| 0 <= k < a ==> v@[k] == c,
        decreases n - a,
    {
        a += 1;
    }
    let mut b: usize = n;
    while b > a && v[b - 1] == c
        invariant
            n == v.len(),
            a <= b <= n,
            forall|k: int| b <= k < n ==> v@[k] == c,
        decreases b,
    {
        b -= 1;
    }
    proof {
        lemma_leading_run(s@, c, a as int);
        let rest = s@.skip(a as int);
        assert forall|k: int| rest.len() - (n - b) <= k < rest.len() implies rest[k] == c by {
            assert(rest[k] == s@[k + a]);
        }
        lemma_trailing_run(rest, c, n - b);
        assert(rest.take(rest.len() - (n - b)) =~= s@.subrange(a as int, b as int));
    }
    s.substring_char(a, b).to_owned()
}

/// What `trim_matching` gives neither starts nor ends with `c`, and trimming
/// it again changes nothing.
pub proof fn lemma_trim_matching_is_trimmed(s: Seq<char>, c: char)
    ensures
        ({
            let t = trim_matching(s, c);
            &&& t.len() > 0 ==> t.first() != c && t.last() != c
            &&& trim_matching(t, c) == t
        }),
{
    let a = leading_run(s, c);
    lemma_leading_run_bounds(s, c);
    let rest = s.skip(a);
    let b = trailing_run(rest, c);
    lemma_trailing_run_bounds(rest, c);
    let t = trim_matching(s, c);
    assert(t =~= rest.take(rest.len() - b));
    if t.len() > 0 {
        assert(a < s.len());
        assert(t.first() == rest[0]);
        assert(rest[0] == s[a]);
        assert(b < rest.len());
        assert(t.last() == rest[rest.len() - b - 1]);
        lemma_leading_run(t, c, 0);
        lemma_trailing_run(t.skip(0), c, 0);
        assert(t.skip(0) =~= t);
        assert(t.take(t.len() as int) =~= t);
    } else {
        assert(t.skip(0) =~= t);
        assert(t.take(0) =~= t);
    }
}

/// The leading run lies within `s`, holds only `c`, and is followed by
/// another character or by the end of `s`.
pub proof fn lemma_leading_run_bounds(s: Seq<char>, c: char)
    ensures
        0 <= leading_run(s, c) <= s.len(),
        forall|k: int| 0 <= k < leading_run(s, c) ==> s[k] == c,
        leading_run(s, c) < s.len() ==> s[leading_run(s, c)] != c,
    decreases s.len(),
{
    if s.len() > 0 && s[0] == c {
        let t = s.drop_first();
        lemma_leading_run_bounds(t, c);
        assert forall|k: int| 0 <= k < leading_run(s, c) implies s[k] == c by {
            if k > 0 {
                assert(s[k] == t[k - 1]);
            }
        }
        if leading_run(s, c) < s.len() {
            assert(s[leading_run(s, c)] == t[leading_run(t, c)]);
        }
    }
}

/// The trailing run lies within `s`, holds only `c`, and is preceded by
/// another character or by the start of `s`.
pub proof fn lemma_trailing_run_bounds(s: Seq<char>, c: char)
    ensures
        0 <= trailing_run(s, c) <= s.len(),
        forall|k: int| s.len() - trailing_run(s, c) <= k < s.len() ==> s[k] == c,
        trailing_run(s, c) < s.len() ==> s[s.len() - trailing_run(s, c) - 1] != c,
    decreases s.len(),
{
    if s.len() > 0 && s.last() == c {
        let t = s.drop_last();
        lemma_trailing_run_bounds(t, c);
        assert forall|k: int| s.len() - trailing_run(s, c) <= k < s.len() implies s[k] == c by {
            if k < s.len() - 1 {
                assert(s[k] == t[k]);
            }
        }
        if trailing_run(s, c) < s.len() {
            assert(s[s.len() - trailing_run(s, c) - 1] == t[t.len() - trailing_run(t, c) - 1]);
        }
    }
}

/// The first occurrence lies within `s` or at its end, no `c` stands before
/// it, and a `c` stands at it unless it is the end.
pub proof fn lemma_index_of_bounds(s: Seq<char>, c: char)
    ensures
        0 <= index_of(s, c) <= s.len(),
        forall|k: int| 0 <= k < index_of(s, c) ==> s[k] != c,
        index_of(s, c) < s.len() ==> s[index_of(s, c)] == c,
    decreases s.len(),
{
    if s.len() > 0 && s[0] != c {
        let t = s.drop_first();
        lemma_index_of_bounds(t, c);
        assert forall|k: int| 0 <= k < index_of(s, c) implies s[k] != c by {
            if k > 0 {
                assert(s[k] == t[k - 1]);
            }
        }
        if index_of(s, c) < s.len() {
            assert(s[index_of(s, c)] == t[index_of(t, c)]);
        }
    }
}

/// The second field never holds the separator.
pub proof fn lemma_second_field_has_no_separator(s: Seq<char>, sep: char)
    ensures
        second_field(s, sep) matches Some(field) ==> !field.contains(sep),
{
    let i = index_of(s, sep);
    lemma_index_of_bounds(s, sep);
    if i < s.len() {
        let rest = s.skip(i + 1);
        lemma_index_of_bounds(rest, sep);
        let field = rest.take(index_of(rest, sep));
        assert forall|k: int| 0 <= k < field.len() implies field[k] != sep by {
            assert(field[k] == rest[k]);
        }
    }
}

/// Every character of the second field is a character of `s`.
pub proof fn lemma_second_field_is_part(s: Seq<char>, sep: char)
    ensures
        second_field(s, sep) matches Some(field) ==> forall|k: int|
            0 <= k < field.len() ==> s.contains(#[trigger] field[k]),
{
    let i = index_of(s, sep);
    lemma_index_of_bounds(s, sep);
    if i < s.len() {
        let rest = s.skip(i + 1);
        lemma_index_of_bounds(rest, sep);
        let field = rest.take(index_of(rest, sep));
        assert forall|k: int| 0 <= k < field.len() implies s.contains(#[trigger] field[k]) by {
            assert(field[k] == s[i + 1 + k]);
        }
    }
}

} // verus!
