//! Verified text operations the record log and the output scanner are built
//! on: splitting at a separator, joining with a separator, trimming, substring
//! search and prefix tests, all specified over `Seq<char>`.

use vstd::prelude::*;
use vstd::string::StrSliceExecFns;
use vstd::string::StringExecFns;

verus! {

/// The split of `s` at every occurrence of `sep`: always one element more
/// than there are separators, so the split of the empty sequence is a single
/// empty element.
pub open spec fn spec_split(s: Seq<char>, sep: char) -> Seq<Seq<char>>
    decreases s.len(),
{
    if s.len() == 0 {
        seq![Seq::<char>::empty()]
    } else {
        let rest = spec_split(s.drop_last(), sep);
        if s.last() == sep {
            rest.push(Seq::<char>::empty())
        } else {
            rest.update(rest.len() - 1, rest.last().push(s.last()))
        }
    }
}

/// A split is never empty.
pub proof fn lemma_split_nonempty(s: Seq<char>, sep: char)
    ensures
        spec_split(s, sep).len() >= 1,
    decreases s.len(),
{
    if s.len() > 0 {
        lemma_split_nonempty(s.drop_last(), sep);
    }
}

/// The join of `parts` with `sep` between consecutive elements.
pub open spec fn spec_join(parts: Seq<Seq<char>>, sep: char) -> Seq<char>
    decreases parts.len(),
{
    if parts.len() == 0 {
        Seq::<char>::empty()
    } else if parts.len() == 1 {
        parts[0]
    } else {
        spec_join(parts.drop_last(), sep) + seq![sep] + parts.last()
    }
}

/// Splitting a sequence free of the separator yields that sequence alone.
pub proof fn lemma_split_no_sep(s: Seq<char>, sep: char)
    requires
        !s.contains(sep),
    ensures
        spec_split(s, sep) =~~= seq![s],
    decreases s.len(),
{
    if s.len() > 0 {
        assert(s[s.len() - 1] != sep);
        assert(forall|i: int| 0 <= i < s.len() - 1 ==> s.drop_last()[i] == s[i]);
        assert(!s.drop_last().contains(sep));
        lemma_split_no_sep(s.drop_last(), sep);
        assert(s.drop_last().push(s.last()) =~= s);
    }
}

/// Appending a separator and then a separator-free tail extends a split by
/// exactly that tail.
pub proof fn lemma_split_append(a: Seq<char>, x: Seq<char>, sep: char)
    requires
        !x.contains(sep),
    ensures
        spec_split(a + seq![sep] + x, sep) =~~= spec_split(a, sep).push(x),
    decreases x.len(),
{
    lemma_split_nonempty(a, sep);
    if x.len() == 0 {
        let s = a + seq![sep] + x;
        assert(s.len() == a.len() + 1);
        assert(s.last() == sep);
        assert(s.drop_last() =~= a);
    } else {
        let s = a + seq![sep] + x;
        assert(x[x.len() - 1] != sep);
        assert(s.last() == x.last());
        assert(s.last() != sep);
        assert(s.drop_last() =~= a + seq![sep] + x.drop_last());
        assert(forall|i: int| 0 <= i < x.len() - 1 ==> x.drop_last()[i] == x[i]);
        assert(!x.drop_last().contains(sep));
        lemma_split_append(a, x.drop_last(), sep);
        assert(x.drop_last().push(x.last()) =~= x);
    }
}

/// Splitting undoes joining, for a nonempty list of parts that are free of
/// the separator.
pub proof fn lemma_split_of_join(parts: Seq<Seq<char>>, sep: char)
    requires
        parts.len() > 0,
        forall|i: int| 0 <= i < parts.len() ==> !(#[trigger] parts[i]).contains(sep),
    ensures
        spec_split(spec_join(parts, sep), sep) =~~= parts,
    decreases parts.len(),
{
    if parts.len() == 1 {
        lemma_split_no_sep(parts[0], sep);
    } else {
        let init = parts.drop_last();
        assert(forall|i: int| 0 <= i < init.len() ==> init[i] == parts[i]);
        assert(forall|i: int| 0 <= i < init.len() ==> !(#[trigger] init[i]).contains(sep));
        lemma_split_of_join(init, sep);
        assert(!parts.last().contains(sep));
        lemma_split_append(spec_join(init, sep), parts.last(), sep);
        assert(init.push(parts.last()) =~~= parts);
    }
}

/// Splits `s` at every occurrence of `sep`.
pub fn split_on(s: &str, sep: char) -> (r: Vec<String>)
    ensures
        r.deep_view() == spec_split(s@, sep),
{
    broadcast use vstd::std_specs::vec::group_vec_axioms;

    let len = s.unicode_len();
    let mut r: Vec<String> = Vec::new();
    let mut start: usize = 0;
    let mut i: usize = 0;
    while i < len
        invariant
            start <= i <= len,
            len == s@.len(),
            spec_split(s@.take(i as int), sep) =~~= r.deep_view().push(
                s@.subrange(start as int, i as int),
            ),
        decreases len - i,
    {
        let c = s.get_char(i);
        if c == sep {
            let tok = String::from_str(s.substring_char(start, i));
            let ghost pre_dv = r.deep_view();
            proof {
                let pre = s@.take(i as int);
                let post = s@.take(i + 1);
                assert(post.drop_last() =~= pre);
                assert(post.last() == sep);
                assert(spec_split(post, sep) =~~= pre_dv.push(tok@).push(Seq::<char>::empty()));
            }
            r.push(tok);
            start = i + 1;
            proof {
                assert(r.deep_view() =~~= pre_dv.push(tok@));
                assert(s@.subrange(start as int, i + 1) =~= Seq::<char>::empty());
                assert(spec_split(s@.take(i + 1), sep) =~~= r.deep_view().push(
                    s@.subrange(start as int, i + 1),
                ));
            }
        } else {
            proof {
                let pre = s@.take(i as int);
                let post = s@.take(i + 1);
                assert(post.drop_last() =~= pre);
                assert(post.last() == s@[i as int]);
                lemma_split_nonempty(pre, sep);
                let old_split = r.deep_view().push(s@.subrange(start as int, i as int));
                assert(old_split.last() == s@.subrange(start as int, i as int));
                assert(old_split.len() - 1 == r.deep_view().len());
                assert(s@.subrange(start as int, i as int).push(s@[i as int]) =~= s@.subrange(
                    start as int,
                    i + 1,
                ));
                assert(spec_split(post, sep) =~~= old_split.update(
                    old_split.len() - 1,
                    s@.subrange(start as int, i + 1),
                ));
                assert(old_split.update(old_split.len() - 1, s@.subrange(start as int, i + 1))
                    =~~= r.deep_view().push(s@.subrange(start as int, i + 1)));
            }
        }
        i += 1;
    }
    let tok = String::from_str(s.substring_char(start, len));
    let ghost pre_dv = r.deep_view();
    proof {
        assert(s@.take(len as int) =~= s@);
    }
    r.push(tok);
    proof {
        assert(r.deep_view() =~~= pre_dv.push(tok@));
        assert(r.deep_view() =~~= spec_split(s@, sep));
    }
    r
}

/// Joins the parts with a newline between consecutive elements.
pub fn join_lines(parts: &Vec<String>) -> (r: String)
    ensures
        r@ == spec_join(parts.deep_view(), '\n'),
{
    proof {
        reveal_strlit("\n");
    }
    if parts.len() == 0 {
        let r = String::new();
        return r;
    }
    let mut r = parts[0].clone();
    let mut i: usize = 1;
    while i < parts.len()
        invariant
            1 <= i <= parts.deep_view().len(),
            parts.deep_view().len() == parts@.len(),
            r@ == spec_join(parts.deep_view().take(i as int), '\n'),
            "\n"@ =~= seq!['\n'],
        decreases parts@.len() - i,
    {
        r.append("\n");
        r.append(parts[i].as_str());
        proof {
            let dv = parts.deep_view();
            assert(dv.take(i + 1).drop_last() =~= dv.take(i as int));
            assert(dv.take(i + 1).last() == dv[i as int]);
            assert(spec_join(dv.take(i as int), '\n') + seq!['\n'] + dv[i as int] == spec_join(
                dv.take(i + 1),
                '\n',
            ));
        }
        i += 1;
    }
    proof {
        assert(parts.deep_view().take(parts@.len() as int) =~~= parts.deep_view());
    }
    r
}

/// Whether `needle` occurs in `hay` starting at position `i`.
pub open spec fn contains_at(hay: Seq<char>, needle: Seq<char>, i: int) -> bool {
    0 <= i && i + needle.len() <= hay.len() && hay.subrange(i, i + needle.len()) == needle
}

/// Whether `needle` occurs anywhere in `hay`.
pub open spec fn contains_seq(hay: Seq<char>, needle: Seq<char>) -> bool {
    exists|i: int| contains_at(hay, needle, i)
}

/// Whether `p` is a prefix of `s`.
pub open spec fn has_prefix(s: Seq<char>, p: Seq<char>) -> bool {
    p.len() <= s.len() && s.subrange(0, p.len() as int) == p
}

/// Whether `needle` occurs in `hay` starting at character position `i`.
fn match_at(hay: &str, needle: &str, i: usize) -> (r: bool)
    requires
        i + needle@.len() <= hay@.len(),
        hay@.len() <= usize::MAX,
    ensures
        r == contains_at(hay@, needle@, i as int),
{
    let nlen = needle.unicode_len();
    let mut j: usize = 0;
    while j < nlen
        invariant
            j <= nlen,
            nlen == needle@.len(),
            i + nlen <= hay@.len(),
            hay@.len() <= usize::MAX,
            forall|k: int| 0 <= k < j ==> hay@[i + k] == needle@[k],
        decreases nlen - j,
    {
        if hay.get_char(i + j) != needle.get_char(j) {
            proof {
                assert(hay@.subrange(i as int, i + needle@.len())[j as int] == hay@[i + j]);
            }
            return false;
        }
        j += 1;
    }
    proof {
        assert(hay@.subrange(i as int, i + needle@.len()) =~= needle@);
    }
    true
}

/// Whether `needle` occurs anywhere in `hay`.
pub fn str_contains(hay: &str, needle: &str) -> (r: bool)
    ensures
        r == contains_seq(hay@, needle@),
{
    let hlen = hay.unicode_len();
    let nlen = needle.unicode_len();
    if nlen > hlen {
        proof {
            assert(forall|i: int| !contains_at(hay@, needle@, i));
        }
        return false;
    }
    if nlen == 0 {
        proof {
            assert(hay@.subrange(0, 0) =~= needle@);
            assert(contains_at(hay@, needle@, 0));
        }
        return true;
    }
    let mut i: usize = 0;
    while i <= hlen - nlen
        invariant
            1 <= nlen <= hlen,
            hlen == hay@.len(),
            nlen == needle@.len(),
            i <= hlen - nlen + 1,
            forall|k: int| 0 <= k < i ==> !contains_at(hay@, needle@, k),
        decreases hlen - i,
    {
        if match_at(hay, needle, i) {
            return true;
        }
        i += 1;
    }
    proof {
        assert(forall|k: int| k > hlen - nlen ==> !contains_at(hay@, needle@, k));
    }
    false
}

/// Whether the text begins with the given prefix.
pub fn starts_with_str(s: &str, p: &str) -> (r: bool)
    ensures
        r == has_prefix(s@, p@),
{
    let slen = s.unicode_len();
    let plen = p.unicode_len();
    if plen > slen {
        return false;
    }
    match_at(s, p, 0)
}

/// Whether the two texts hold the same characters.
pub fn str_eq(a: &str, b: &str) -> (r: bool)
    ensures
        r == (a@ == b@),
{
    let alen = a.unicode_len();
    let blen = b.unicode_len();
    if alen != blen {
        return false;
    }
    let mut i: usize = 0;
    while i < alen
        invariant
            i <= alen,
            alen == a@.len(),
            alen == b@.len(),
            forall|k: int| 0 <= k < i ==> a@[k] == b@[k],
        decreases alen - i,
    {
        if a.get_char(i) != b.get_char(i) {
            return false;
        }
        i += 1;
    }
    proof {
        assert(a@ =~= b@);
    }
    true
}

/// The characters that trimming removes: the four fixed whitespace characters.
pub open spec fn spec_is_space(c: char) -> bool {
    c == ' ' || c == '\t' || c == '\r' || c == '\n'
}

/// Whether `c` is one of the fixed whitespace characters.
pub fn is_space(c: char) -> (r: bool)
    ensures
        r == spec_is_space(c),
{
    c == ' ' || c == '\t' || c == '\r' || c == '\n'
}

/// `s` without its leading whitespace.
pub open spec fn spec_trim_start(s: Seq<char>) -> Seq<char>
    decreases s.len(),
{
    if s.len() > 0 && spec_is_space(s[0]) {
        spec_trim_start(s.skip(1))
    } else {
        s
    }
}

/// `s` without its trailing whitespace.
pub open spec fn spec_trim_end(s: Seq<char>) -> Seq<char>
    decreases s.len(),
{
    if s.len() > 0 && spec_is_space(s.last()) {
        spec_trim_end(s.drop_last())
    } else {
        s
    }
}

/// `s` without leading and trailing whitespace.
pub open spec fn spec_trim(s: Seq<char>) -> Seq<char> {
    spec_trim_end(spec_trim_start(s))
}

/// Removes leading and trailing whitespace.
pub fn trim_str(s: &str) -> (r: String)
    ensures
        r@ == spec_trim(s@),
{
    let len = s.unicode_len();
    proof {
        assert(s@.skip(0) =~= s@);
    }
    let mut a: usize = 0;
    loop
        invariant_except_break
            a <= len,
            len == s@.len(),
            spec_trim_start(s@) == spec_trim_start(s@.skip(a as int)),
        ensures
            a <= len,
            len == s@.len(),
            spec_trim_start(s@) == spec_trim_start(s@.skip(a as int)),
            a == len || !spec_is_space(s@[a as int]),
        decreases len - a,
    {
        if a == len {
            break;
        }
        if !is_space(s.get_char(a)) {
            break;
        }
        proof {
            assert(s@.skip(a as int)[0] == s@[a as int]);
            assert(s@.skip(a as int).skip(1) =~= s@.skip(a + 1));
        }
        a += 1;
    }
    proof {
        if a == len {
            assert(s@.skip(a as int) =~= Seq::<char>::empty());
        } else {
            assert(s@.skip(a as int)[0] == s@[a as int]);
        }
        assert(spec_trim_start(s@) == s@.skip(a as int));
        assert(s@.skip(a as int) =~= s@.subrange(a as int, len as int));
    }
    let mut b: usize = len;
    loop
        invariant_except_break
            a <= b <= len,
            len == s@.len(),
            spec_trim_end(s@.skip(a as int)) == spec_trim_end(s@.subrange(a as int, b as int)),
        ensures
            a <= b <= len,
            len == s@.len(),
            spec_trim_end(s@.skip(a as int)) == spec_trim_end(s@.subrange(a as int, b as int)),
            b == a || !spec_is_space(s@[b - 1]),
        decreases b,
    {
        if b == a {
            break;
        }
        if !is_space(s.get_char(b - 1)) {
            break;
        }
        proof {
            let part = s@.subrange(a as int, b as int);
            assert(part.last() == s@[b - 1]);
            assert(part.drop_last() =~= s@.subrange(a as int, b - 1));
        }
        b -= 1;
    }
    proof {
        let part = s@.subrange(a as int, b as int);
        if b > a {
            assert(part.last() == s@[b - 1]);
        }
        assert(spec_trim_end(part) == part);
        assert(s@.skip(a as int) =~= s@.subrange(a as int, len as int));
    }
    String::from_str(s.substring_char(a, b))
}

} // verus!
