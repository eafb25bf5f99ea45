//! Sequence-of-character utilities shared by the engine: substring search
//! (exact and ASCII case-insensitive), splitting on a separator, joining, and
//! padding with spaces.

use vstd::prelude::*;

verus! {

/// The pattern `pat` occurs in `s` starting at position `i`.
pub open spec fn occurs_at(s: Seq<char>, pat: Seq<char>, i: int) -> bool {
    &&& 0 <= i
    &&& i + pat.len() <= s.len()
    &&& forall|j: int| 0 <= j < pat.len() ==> s[i + j] == pat[j]
}

/// The pattern `pat` occurs somewhere in `s`.
pub open spec fn contains_seq(s: Seq<char>, pat: Seq<char>) -> bool {
    exists|i: int| occurs_at(s, pat, i)
}

/// `c` is an ASCII upper-case letter.
pub open spec fn is_ascii_upper(c: char) -> bool {
    'A' as int <= c as int <= 'Z' as int
}

/// `c` is an ASCII lower-case letter.
pub open spec fn is_ascii_lower(c: char) -> bool {
    'a' as int <= c as int <= 'z' as int
}

/// `c` matches the pattern character `p` up to ASCII case: either exactly, or
/// one is the ASCII upper-case form of the other.
pub open spec fn ci_eq(c: char, p: char) -> bool {
    ||| c == p
    ||| (is_ascii_upper(c) && is_ascii_lower(p) && c as int + 32 == p as int)
    ||| (is_ascii_lower(c) && is_ascii_upper(p) && c as int == p as int + 32)
}

/// The pattern `pat` occurs in `s` at position `i`, comparing characters up
/// to ASCII case.
pub open spec fn occurs_ci_at(s: Seq<char>, pat: Seq<char>, i: int) -> bool {
    &&& 0 <= i
    &&& i + pat.len() <= s.len()
    &&& forall|j: int| 0 <= j < pat.len() ==> ci_eq(s[i + j], pat[j])
}

/// The pattern `pat` occurs somewhere in `s`, up to ASCII case.
pub open spec fn contains_ci(s: Seq<char>, pat: Seq<char>) -> bool {
    exists|i: int| occurs_ci_at(s, pat, i)
}

/// Returns whether `pat` occurs as a contiguous substring of `s`.
pub fn contains_str(s: &str, pat: &str) -> (r: bool)
    ensures
        r == contains_seq(s@, pat@),
{
    let s_len = s.unicode_len();
    let pat_len = pat.unicode_len();
    if pat_len > s_len {
        return false;
    }
    let mut i: usize = 0;
    while i <= s_len - pat_len
        invariant
            s_len == s@.len(),
            pat_len == pat@.len(),
            pat_len <= s_len,
            i <= s_len - pat_len + 1,
            forall|k: int| 0 <= k < i ==> !occurs_at(s@, pat@, k),
        decreases s_len - pat_len - i + 1,
    {
        let mut j: usize = 0;
        let mut matched = true;
        while j < pat_len
            invariant
                s_len == s@.len(),
                pat_len == pat@.len(),
                pat_len <= s_len,
                i <= s_len - pat_len,
                j <= pat_len,
                matched <==> (forall|k: int| 0 <= k < j ==> s@[i + k] == pat@[k]),
            decreases pat_len - j,
        {
            if s.get_char(i + j) != pat.get_char(j) {
                matched = false;
                j = pat_len;
            } else {
                j = j + 1;
            }
        }
        if matched {
            assert(occurs_at(s@, pat@, i as int));
            return true;
        }
        i = i + 1;
    }
    false
}

/// Returns whether `c` matches `p` up to ASCII case.
pub fn char_ci_eq(c: char, p: char) -> (r: bool)
    ensures
        r == ci_eq(c, p),
{
    let cu = c as u32;
    let pu = p as u32;
    if cu == pu {
        true
    } else if 65 <= cu && cu <= 90 && 97 <= pu && pu <= 122 {
        cu + 32 == pu
    } else if 97 <= cu && cu <= 122 && 65 <= pu && pu <= 90 {
        cu == pu + 32
    } else {
        false
    }
}

/// Returns whether `pat` occurs as a contiguous substring of `s`, comparing
/// characters up to ASCII case.
pub fn contains_ci_str(s: &str, pat: &str) -> (r: bool)
    ensures
        r == contains_ci(s@, pat@),
{
    let s_len = s.unicode_len();
    let pat_len = pat.unicode_len();
    if pat_len > s_len {
        return false;
    }
    let mut i: usize = 0;
    while i <= s_len - pat_len
        invariant
            s_len == s@.len(),
            pat_len == pat@.len(),
            pat_len <= s_len,
            i <= s_len - pat_len + 1,
            forall|k: int| 0 <= k < i ==> !occurs_ci_at(s@, pat@, k),
        decreases s_len - pat_len - i + 1,
    {
        let mut j: usize = 0;
        let mut matched = true;
        while j < pat_len
            invariant
                s_len == s@.len(),
                pat_len == pat@.len(),
                pat_len <= s_len,
                i <= s_len - pat_len,
                j <= pat_len,
                matched <==> (forall|k: int| 0 <= k < j ==> ci_eq(s@[i + k], pat@[k])),
            decreases pat_len - j,
        {
            if !char_ci_eq(s.get_char(i + j), pat.get_char(j)) {
                matched = false;
                j = pat_len;
            } else {
                j = j + 1;
            }
        }
        if matched {
            assert(occurs_ci_at(s@, pat@, i as int));
            return true;
        }
        i = i + 1;
    }
    false
}

/// Splitting `s` at every occurrence of `sep`, keeping empty pieces, as
/// `str::split` does: the result always has one piece more than `s` has
/// separators, and an empty input yields one empty piece.
pub open spec fn split_on(s: Seq<char>, sep: char) -> Seq<Seq<char>>
    decreases s.len(),
{
    if s.len() == 0 {
        seq![Seq::<char>::empty()]
    } else if s[0] == sep {
        seq![Seq::<char>::empty()] + split_on(s.skip(1), sep)
    } else {
        let rest = split_on(s.skip(1), sep);
        seq![seq![s[0]] + rest[0]] + rest.skip(1)
    }
}

/// Splitting never yields an empty list of pieces.
pub proof fn lemma_split_on_len(s: Seq<char>, sep: char)
    ensures
        split_on(s, sep).len() >= 1,
    decreases s.len(),
{
    if s.len() != 0 {
        lemma_split_on_len(s.skip(1), sep);
    }
}

/// A separator-free sequence splits into exactly itself.
pub proof fn lemma_split_on_no_sep(s: Seq<char>, sep: char)
    requires
        forall|i: int| 0 <= i < s.len() ==> s[i] != sep,
    ensures
        split_on(s, sep) == seq![s],
    decreases s.len(),
{
    if s.len() != 0 {
        assert forall|i: int| 0 <= i < s.skip(1).len() implies s.skip(1)[i] != sep by {
            assert(s.skip(1)[i] == s[i + 1]);
        }
        lemma_split_on_no_sep(s.skip(1), sep);
        assert(seq![s[0]] + s.skip(1) =~= s);
        assert(split_on(s, sep) =~~= seq![s]);
    } else {
        assert(split_on(s, sep) =~~= seq![s]);
    }
}

/// Splitting at the first separator: everything before it is the first piece,
/// and the rest splits on its own.
pub proof fn lemma_split_on_first_sep(s: Seq<char>, sep: char, k: int)
    requires
        0 <= k < s.len(),
        s[k] == sep,
        forall|i: int| 0 <= i < k ==> s[i] != sep,
    ensures
        split_on(s, sep) == seq![s.take(k)] + split_on(s.skip(k + 1), sep),
    decreases s.len(),
{
    if k == 0 {
        assert(s.take(0) =~= Seq::<char>::empty());
        assert(split_on(s, sep) =~~= seq![s.take(0)] + split_on(s.skip(1), sep));
    } else {
        assert forall|i: int| 0 <= i < k - 1 implies s.skip(1)[i] != sep by {
            assert(s.skip(1)[i] == s[i + 1]);
        }
        assert(s.skip(1)[k - 1] == s[k]);
        lemma_split_on_first_sep(s.skip(1), sep, k - 1);
        lemma_split_on_len(s.skip(k + 1), sep);
        let rest = split_on(s.skip(1), sep);
        assert(rest == seq![s.skip(1).take(k - 1)] + split_on(s.skip(1).skip(k), sep));
        assert(s.skip(1).take(k - 1) =~= s.take(k).skip(1));
        assert(s.skip(1).skip(k) =~= s.skip(k + 1));
        assert(rest[0] == s.take(k).skip(1));
        assert(rest.skip(1) =~= split_on(s.skip(k + 1), sep));
        assert(seq![s[0]] + s.take(k).skip(1) =~= s.take(k));
        assert(split_on(s, sep) =~~= seq![s.take(k)] + split_on(s.skip(k + 1), sep));
    }
}

/// Splits `s` at every occurrence of `sep`, keeping empty pieces.
pub fn split_char(s: &str, sep: char) -> (r: Vec<String>)
    ensures
        r@.len() == split_on(s@, sep).len(),
        forall|k: int| 0 <= k < r@.len() ==> r@[k]@ == split_on(s@, sep)[k],
        r@.len() >= 1,
{
    let ghost full = split_on(s@, sep);
    proof {
        lemma_split_on_len(s@, sep);
        assert(s@.skip(0) =~= s@);
        assert(full.skip(0) =~= full);
    }
    let n = s.unicode_len();
    let mut parts: Vec<String> = Vec::new();
    let mut start: usize = 0;
    let mut i: usize = 0;
    while i < n
        invariant
            n == s@.len(),
            start <= i <= n,
            full == split_on(s@, sep),
            parts@.len() <= full.len(),
            forall|k: int| 0 <= k < parts@.len() ==> parts@[k]@ == full[k],
            split_on(s@.skip(start as int), sep) == full.skip(parts@.len() as int),
            forall|k: int| start <= k < i ==> s@[k] != sep,
        decreases n - i,
    {
        if s.get_char(i) == sep {
            proof {
                let rem = s@.skip(start as int);
                assert forall|k: int| 0 <= k < i - start implies rem[k] != sep by {
                    assert(rem[k] == s@[start + k]);
                }
                assert(rem[i - start] == s@[i as int]);
                lemma_split_on_first_sep(rem, sep, i - start);
                assert(rem.take(i - start) =~= s@.subrange(start as int, i as int));
                assert(rem.skip(i - start + 1) =~= s@.skip(i + 1));
                lemma_split_on_len(s@.skip(i + 1), sep);
                assert(full.skip(parts@.len() as int) == seq![s@.subrange(start as int, i as int)]
                    + split_on(s@.skip(i + 1), sep));
                assert(full.skip(parts@.len() as int).len() >= 1);
                assert(full.skip(parts@.len() as int)[0] == full[parts@.len() as int]);
                assert(full[parts@.len() as int] == s@.subrange(start as int, i as int));
                assert(full.skip(parts@.len() as int).skip(1) =~= full.skip(
                    parts@.len() as int + 1,
                ));
                assert((seq![s@.subrange(start as int, i as int)] + split_on(
                    s@.skip(i + 1),
                    sep,
                )).skip(1) =~= split_on(s@.skip(i + 1), sep));
            }
            let piece = s.substring_char(start, i).to_owned();
            parts.push(piece);
            start = i + 1;
        }
        i = i + 1;
    }
    proof {
        let rem = s@.skip(start as int);
        assert forall|k: int| 0 <= k < rem.len() implies rem[k] != sep by {
            assert(rem[k] == s@[start + k]);
        }
        lemma_split_on_no_sep(rem, sep);
        assert(rem =~= s@.subrange(start as int, n as int));
        assert(full.skip(parts@.len() as int) == seq![s@.subrange(start as int, n as int)]);
        assert(full.skip(parts@.len() as int)[0] == full[parts@.len() as int]);
        assert(full[parts@.len() as int] == s@.subrange(start as int, n as int));
        assert(parts@.len() + 1 == full.len());
    }
    let last = s.substring_char(start, n).to_owned();
    parts.push(last);
    parts
}

/// The views of a sequence of strings.
pub open spec fn views_of_strings(v: Seq<String>) -> Seq<Seq<char>> {
    Seq::new(v.len(), |i: int| v[i]@)
}

/// All pieces run together, in order, with nothing in between.
pub open spec fn concat_all(parts: Seq<Seq<char>>) -> Seq<char>
    decreases parts.len(),
{
    if parts.len() == 0 {
        Seq::<char>::empty()
    } else {
        parts[0] + concat_all(parts.skip(1))
    }
}

/// Appending one more piece appends its characters at the end.
pub proof fn lemma_concat_all_push(parts: Seq<Seq<char>>, x: Seq<char>)
    ensures
        concat_all(parts.push(x)) =~= concat_all(parts) + x,
    decreases parts.len(),
{
    if parts.len() == 0 {
        assert(parts.push(x).skip(1) =~= Seq::<Seq<char>>::empty());
        assert(parts.push(x)[0] == x);
        assert(x + Seq::<char>::empty() =~= x);
        assert(concat_all(parts) + x =~= x);
        assert(concat_all(parts.push(x).skip(1)) =~= Seq::<char>::empty());
    } else {
        lemma_concat_all_push(parts.skip(1), x);
        assert(parts.push(x).skip(1) =~= parts.skip(1).push(x));
        assert(parts.push(x)[0] == parts[0]);
        assert(concat_all(parts) == parts[0] + concat_all(parts.skip(1)));
        assert(concat_all(parts.push(x)) == parts[0] + concat_all(parts.skip(1).push(x)));
        assert(concat_all(parts.skip(1).push(x)) == concat_all(parts.skip(1)) + x);
        assert(parts[0] + (concat_all(parts.skip(1)) + x) =~= (parts[0] + concat_all(
            parts.skip(1),
        )) + x);
    }
}

/// Concatenates all strings of `v`, in order, with no separator.
pub fn concat_strings(v: &Vec<String>) -> (r: String)
    ensures
        r@ == concat_all(views_of_strings(v@)),
{
    let ghost views = views_of_strings(v@);
    let mut acc = String::new();
    let mut i: usize = 0;
    while i < v.len()
        invariant
            i <= v@.len(),
            views == views_of_strings(v@),
            acc@ =~= concat_all(views.take(i as int)),
        decreases v@.len() - i,
    {
        proof {
            lemma_concat_all_push(views.take(i as int), v@[i as int]@);
            assert(views.take(i + 1) =~= views.take(i as int).push(views[i as int]));
        }
        acc.append(v[i].as_str());
        i = i + 1;
    }
    proof {
        assert(views.take(v@.len() as int) =~= views);
    }
    acc
}

/// A string of `n` spaces.
pub fn repeat_spaces(n: usize) -> (r: String)
    ensures
        r@.len() == n,
        forall|k: int| 0 <= k < n ==> r@[k] == ' ',
{
    let mut acc = String::new();
    let mut i: usize = 0;
    while i < n
        invariant
            i <= n,
            acc@.len() == i,
            forall|k: int| 0 <= k < i ==> acc@[k] == ' ',
        decreases n - i,
    {
        proof {
            reveal_strlit(" ");
        }
        acc.append(" ");
        i = i + 1;
    }
    acc
}

/// Joining one path component onto a base path: a separator is inserted
/// unless the base already ends with one or is empty.
pub open spec fn spec_path_join(base: Seq<char>, component: Seq<char>) -> Seq<char> {
    if base.len() == 0 {
        component
    } else if base.last() == '/' {
        base + component
    } else {
        base + "/"@ + component
    }
}

/// Joins one path component onto a base path, inserting a separator unless
/// the base already ends with one or is empty.
pub fn path_join(base: &str, component: &str) -> (r: String)
    ensures
        r@ == spec_path_join(base@, component@),
{
    let n = base.unicode_len();
    if n == 0 {
        return component.to_owned();
    }
    let mut r = base.to_owned();
    if base.get_char(n - 1) != '/' {
        r.append("/");
    }
    r.append(component);
    r
}

/// One step of `Seq::filter`: filtering keeps or drops the last element and
/// filters the rest.
pub proof fn lemma_filter_step<A>(s: Seq<A>, pred: spec_fn(A) -> bool)
    requires
        s.len() > 0,
    ensures
        s.filter(pred) == if pred(s.last()) {
            s.drop_last().filter(pred).push(s.last())
        } else {
            s.drop_last().filter(pred)
        },
{
    reveal(Seq::filter);
}

/// Filtering an empty sequence yields an empty sequence.
pub proof fn lemma_filter_empty<A>(s: Seq<A>, pred: spec_fn(A) -> bool)
    requires
        s.len() == 0,
    ensures
        s.filter(pred) == Seq::<A>::empty(),
{
    reveal(Seq::filter);
    assert(s =~= Seq::<A>::empty());
    assert(s.filter(pred) =~= Seq::<A>::empty());
}

/// A pattern found in one part is found in the concatenation of that part
/// with anything to its right.
pub proof fn lemma_contains_ci_concat_left(a: Seq<char>, b: Seq<char>, pat: Seq<char>)
    requires
        contains_ci(a, pat),
    ensures
        contains_ci(a + b, pat),
{
    let i = choose|i: int| occurs_ci_at(a, pat, i);
    assert(occurs_ci_at(a + b, pat, i));
}

/// A pattern found in one part is found in the concatenation of that part
/// with anything to its left.
pub proof fn lemma_contains_ci_concat_right(a: Seq<char>, b: Seq<char>, pat: Seq<char>)
    requires
        contains_ci(b, pat),
    ensures
        contains_ci(a + b, pat),
{
    let i = choose|i: int| occurs_ci_at(b, pat, i);
    assert forall|j: int| 0 <= j < pat.len() implies ci_eq((a + b)[a.len() + i + j], pat[j]) by {
        assert((a + b)[a.len() + i + j] == b[i + j]);
    }
    assert(occurs_ci_at(a + b, pat, a.len() + i));
}

/// A pattern found in any one piece is found in the concatenation of all of
/// them.
pub proof fn lemma_contains_ci_concat_all(parts: Seq<Seq<char>>, t: int, pat: Seq<char>)
    requires
        0 <= t < parts.len(),
        contains_ci(parts[t], pat),
    ensures
        contains_ci(concat_all(parts), pat),
    decreases parts.len(),
{
    if t == 0 {
        lemma_contains_ci_concat_left(parts[0], concat_all(parts.skip(1)), pat);
    } else {
        lemma_contains_ci_concat_all(parts.skip(1), t - 1, pat);
        lemma_contains_ci_concat_right(parts[0], concat_all(parts.skip(1)), pat);
    }
}

} // verus!
