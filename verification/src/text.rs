//! Character-sequence utilities shared by the discovery parsers: trimming,
//! field splitting, prefix and search primitives, all specified over
//! `Seq<char>` and implemented over `Vec<char>`.

use vstd::prelude::*;
use vstd::std_specs::iter::IteratorSpec;

verus! {

broadcast use vstd::string::group_string_axioms;

/// The whitespace stripped from the edges of parsed fields.
pub open spec fn is_space(c: char) -> bool {
    c == ' ' || c == '\t' || c == '\r'
}

/// `s` with leading whitespace removed.
pub open spec fn trim_start_spec(s: Seq<char>) -> Seq<char>
    decreases s.len(),
{
    if s.len() > 0 && is_space(s.first()) {
        trim_start_spec(s.drop_first())
    } else {
        s
    }
}

/// `s` with trailing whitespace removed.
pub open spec fn trim_end_spec(s: Seq<char>) -> Seq<char>
    decreases s.len(),
{
    if s.len() > 0 && is_space(s.last()) {
        trim_end_spec(s.drop_last())
    } else {
        s
    }
}

/// `s` with whitespace removed from both edges.
pub open spec fn trim_spec(s: Seq<char>) -> Seq<char> {
    trim_end_spec(trim_start_spec(s))
}

/// The fields of `s` between occurrences of `sep`. A sequence with no
/// separator is one field; every separator ends a field, so the result
/// always holds at least one field.
pub open spec fn split_spec(s: Seq<char>, sep: char) -> Seq<Seq<char>>
    decreases s.len(),
{
    if s.len() == 0 {
        seq![Seq::<char>::empty()]
    } else if s.first() == sep {
        seq![Seq::<char>::empty()] + split_spec(s.drop_first(), sep)
    } else {
        let rest = split_spec(s.drop_first(), sep);
        seq![seq![s.first()] + rest.first()] + rest.drop_first()
    }
}

pub proof fn lemma_split_len(s: Seq<char>, sep: char)
    ensures
        split_spec(s, sep).len() >= 1,
    decreases s.len(),
{
    if s.len() != 0 {
        lemma_split_len(s.drop_first(), sep);
    }
}

/// The position of the first occurrence of `c` in `s`, if any.
pub open spec fn find_spec(s: Seq<char>, c: char) -> Option<int>
    decreases s.len(),
{
    if s.len() == 0 {
        None
    } else if s.first() == c {
        Some(0int)
    } else {
        match find_spec(s.drop_first(), c) {
            Some(j) => Some(j + 1),
            None => None,
        }
    }
}

/// `p` is an initial segment of `s`.
pub open spec fn has_prefix(s: Seq<char>, p: Seq<char>) -> bool {
    s.len() >= p.len() && s.take(p.len() as int) == p
}

/// The views of a sequence of character vectors.
pub open spec fn views(s: Seq<Vec<char>>) -> Seq<Seq<char>> {
    s.map_values(|v: Vec<char>| v@)
}

/// Relies on `String::push`: appends the given character to the string.
#[verifier::external_body]
pub(crate) fn push_char(s: &mut String, c: char)
    ensures
        final(s)@ == old(s)@.push(c),
{
    s.push(c);
}

/// The characters of a string slice, as a vector.
pub fn chars_of(s: &str) -> (r: Vec<char>)
    ensures
        r@ == s@,
{
    let mut it = s.chars();
    let mut r: Vec<char> = Vec::new();
    loop
        invariant
            it.obeys_prophetic_iter_laws(),
            it.decrease() is Some,
            r@ + it.remaining() == s@,
        ensures
            r@ == s@,
        decreases it.decrease()->0,
    {
        match it.next() {
            Some(c) => {
                r.push(c);
            },
            None => {
                proof {
                    assert(r@ =~= s@);
                }
                break;
            },
        }
    }
    r
}

/// A string holding exactly the given characters.
pub fn chars_to_string(v: &Vec<char>) -> (r: String)
    ensures
        r@ == v@,
{
    let mut r = String::new();
    let mut i: usize = 0;
    while i < v.len()
        invariant
            i <= v.len(),
            r@ == v@.subrange(0, i as int),
        decreases v.len() - i,
    {
        push_char(&mut r, v[i]);
        proof {
            assert(v@.subrange(0, i as int).push(v@[i as int]) =~= v@.subrange(0, i + 1));
        }
        i = i + 1;
    }
    proof {
        assert(v@.subrange(0, v@.len() as int) =~= v@);
    }
    r
}

fn is_space_exec(c: char) -> (r: bool)
    ensures
        r == is_space(c),
{
    c == ' ' || c == '\t' || c == '\r'
}

/// `v` with whitespace removed from both edges.
pub fn trimmed(v: &Vec<char>) -> (r: Vec<char>)
    ensures
        r@ == trim_spec(v@),
{
    proof {
        assert(v@.skip(0) =~= v@);
    }
    let mut a: usize = 0;
    while a < v.len() && is_space_exec(v[a])
        invariant
            a <= v.len(),
            trim_start_spec(v@) == trim_start_spec(v@.skip(a as int)),
        decreases v.len() - a,
    {
        proof {
            assert(v@.skip(a as int).drop_first() =~= v@.skip(a + 1));
        }
        a = a + 1;
    }
    proof {
        assert(trim_start_spec(v@.skip(a as int)) == v@.skip(a as int));
        assert(v@.skip(a as int) =~= v@.subrange(a as int, v@.len() as int));
    }
    let mut b: usize = v.len();
    while b > a && is_space_exec(v[b - 1])
        invariant
            a <= b <= v.len(),
            trim_spec(v@) == trim_end_spec(v@.subrange(a as int, b as int)),
        decreases b,
    {
        proof {
            assert(v@.subrange(a as int, b as int).drop_last() =~= v@.subrange(
                a as int,
                b - 1,
            ));
        }
        b = b - 1;
    }
    proof {
        assert(trim_end_spec(v@.subrange(a as int, b as int)) == v@.subrange(a as int, b as int));
    }
    let mut r: Vec<char> = Vec::new();
    let mut j: usize = a;
    while j < b
        invariant
            a <= j <= b <= v.len(),
            r@ == v@.subrange(a as int, j as int),
        decreases b - j,
    {
        r.push(v[j]);
        proof {
            assert(v@.subrange(a as int, j as int).push(v@[j as int]) =~= v@.subrange(
                a as int,
                j + 1,
            ));
        }
        j = j + 1;
    }
    r
}

/// The fields of `v.skip(i)` between occurrences of `sep`.
fn split_from(v: &Vec<char>, i: usize, sep: char) -> (r: Vec<Vec<char>>)
    requires
        i <= v.len(),
    ensures
        views(r@) == split_spec(v@.skip(i as int), sep),
        r@.len() >= 1,
    decreases v.len() - i,
{
    let ghost s = v@.skip(i as int);
    if i == v.len() {
        let mut r: Vec<Vec<char>> = Vec::new();
        r.push(Vec::new());
        proof {
            assert(s.len() == 0);
            assert(views(r@) =~= seq![Seq::<char>::empty()]);
        }
        r
    } else if v[i] == sep {
        let mut rest = split_from(v, i + 1, sep);
        rest.insert(0, Vec::new());
        proof {
            assert(s.drop_first() =~= v@.skip(i + 1));
            assert(s.first() == sep);
            assert(views(rest@) =~= seq![Seq::<char>::empty()] + split_spec(
                v@.skip(i + 1),
                sep,
            ));
        }
        rest
    } else {
        let c = v[i];
        let mut rest = split_from(v, i + 1, sep);
        let ghost old_views = views(rest@);
        let mut head = rest.remove(0);
        head.insert(0, c);
        rest.insert(0, head);
        proof {
            assert(s.drop_first() =~= v@.skip(i + 1));
            assert(s.first() == c && c != sep);
            assert(head@ =~= seq![c] + old_views.first());
            assert(views(rest@) =~= seq![seq![c] + old_views.first()] + old_views.drop_first());
        }
        rest
    }
}

/// The fields of `v` between occurrences of `sep`.
pub fn split_fields(v: &Vec<char>, sep: char) -> (r: Vec<Vec<char>>)
    ensures
        views(r@) == split_spec(v@, sep),
        r@.len() >= 1,
{
    let r = split_from(v, 0, sep);
    proof {
        assert(v@.skip(0) =~= v@);
    }
    r
}

/// The position of the first occurrence of `c` in `v.skip(i)`.
fn find_from(v: &Vec<char>, i: usize, c: char) -> (r: Option<usize>)
    requires
        i <= v.len(),
    ensures
        match r {
            Some(j) => i <= j < v.len() && find_spec(v@.skip(i as int), c) == Some(j - i),
            None => find_spec(v@.skip(i as int), c) is None,
        },
    decreases v.len() - i,
{
    if i == v.len() {
        None
    } else if v[i] == c {
        Some(i)
    } else {
        let r = find_from(v, i + 1, c);
        proof {
            assert(v@.skip(i as int).drop_first() =~= v@.skip(i + 1));
        }
        r
    }
}

/// The position of the first occurrence of `c` in `v`.
pub fn find_char(v: &Vec<char>, c: char) -> (r: Option<usize>)
    ensures
        match r {
            Some(j) => j < v.len() && find_spec(v@, c) == Some(j as int),
            None => find_spec(v@, c) is None,
        },
{
    let r = find_from(v, 0, c);
    proof {
        assert(v@.skip(0) =~= v@);
    }
    r
}

/// Whether `p` is an initial segment of `v`.
pub fn begins_with(v: &Vec<char>, p: &Vec<char>) -> (r: bool)
    ensures
        r == has_prefix(v@, p@),
{
    if v.len() < p.len() {
        return false;
    }
    let mut j: usize = 0;
    while j < p.len()
        invariant
            j <= p.len() <= v.len(),
            forall|k: int| 0 <= k < j ==> v@[k] == p@[k],
        decreases p.len() - j,
    {
        if v[j] != p[j] {
            proof {
                assert(v@.take(p@.len() as int)[j as int] == v@[j as int]);
            }
            return false;
        }
        j = j + 1;
    }
    proof {
        assert(v@.take(p@.len() as int) =~= p@);
    }
    true
}

/// A copy of the characters of `v` from `from` (inclusive) to `to` (exclusive).
pub fn copy_range(v: &Vec<char>, from: usize, to: usize) -> (r: Vec<char>)
    requires
        from <= to <= v.len(),
    ensures
        r@ == v@.subrange(from as int, to as int),
{
    let mut r: Vec<char> = Vec::new();
    let mut j: usize = from;
    while j < to
        invariant
            from <= j <= to <= v.len(),
            r@ == v@.subrange(from as int, j as int),
        decreases to - j,
    {
        r.push(v[j]);
        proof {
            assert(v@.subrange(from as int, j as int).push(v@[j as int]) =~= v@.subrange(
                from as int,
                j + 1,
            ));
        }
        j = j + 1;
    }
    r
}

} // verus!
