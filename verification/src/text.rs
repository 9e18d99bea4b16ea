//! Character-level string handling with specifications over `Seq<char>`.
use vstd::prelude::*;

verus! {

/// Appends one character to a string.
///
/// Wraps `String::push`, whose documentation states that it appends the given
/// `char` to the end of the `String`.
#[verifier::external_body]
pub(crate) fn push_char(s: &mut String, c: char)
    ensures
        final(s)@ == old(s)@.push(c),
{
    s.push(c);
}

/// The characters of a string slice, in order.
pub fn chars_of(s: &str) -> (r: Vec<char>)
    ensures
        r@ == s@,
{
    let mut r: Vec<char> = Vec::new();
    for c in it: s.chars()
        invariant
            r@ == it.seq().take(it.index() as int),
            it.seq() == s@,
    {
        r.push(c);
    }
    r
}

/// Builds a string from a sequence of characters.
pub fn string_of(v: &Vec<char>) -> (r: String)
    ensures
        r@ == v@,
{
    let mut r = String::new();
    let mut i: usize = 0;
    while i < v.len()
        invariant
            i <= v.len(),
            r@ == v@.take(i as int),
        decreases v.len() - i,
    {
        push_char(&mut r, v[i]);
        assert(v@.take(i + 1) == v@.take(i as int).push(v@[i as int]));
        i = i + 1;
    }
    assert(v@.take(v.len() as int) == v@);
    r
}

} // verus!

verus! {

/// `s` with every `from` replaced by `to`.
pub open spec fn replace_char_spec(s: Seq<char>, from: char, to: char) -> Seq<char> {
    s.map_values(|c: char| if c == from { to } else { c })
}

/// `s` with every space replaced by an underscore.
pub open spec fn spaces_to_underscores(s: Seq<char>) -> Seq<char> {
    replace_char_spec(s, ' ', '_')
}

/// Appends a string slice to a string.
pub fn push_str(s: &mut String, t: &str)
    ensures
        final(s)@ == old(s)@ + t@,
{
    let cs = chars_of(t);
    let ghost start = s@;
    let mut i: usize = 0;
    while i < cs.len()
        invariant
            i <= cs.len(),
            cs@ == t@,
            s@ == start + cs@.take(i as int),
        decreases cs.len() - i,
    {
        push_char(s, cs[i]);
        assert(cs@.take(i + 1) == cs@.take(i as int).push(cs@[i as int]));
        i = i + 1;
    }
    assert(cs@.take(cs.len() as int) == cs@);
}

/// Replaces every `from` in `s` with `to`, as `s.replace(from, to)` does
/// for single characters.
pub fn replace_char(s: &str, from: char, to: char) -> (r: String)
    ensures
        r@ == replace_char_spec(s@, from, to),
{
    let cs = chars_of(s);
    let mut r = String::new();
    let mut i: usize = 0;
    while i < cs.len()
        invariant
            i <= cs.len(),
            cs@ == s@,
            r@ == replace_char_spec(cs@.take(i as int), from, to),
        decreases cs.len() - i,
    {
        let c = cs[i];
        if c == from {
            push_char(&mut r, to);
        } else {
            push_char(&mut r, c);
        }
        assert(replace_char_spec(cs@.take(i + 1), from, to) =~= replace_char_spec(
            cs@.take(i as int),
            from,
            to,
        ).push(if c == from { to } else { c }));
        i = i + 1;
    }
    assert(cs@.take(cs.len() as int) == cs@);
    r
}

/// Replaces every space in `s` with an underscore, as
/// `s.replace(" ", "_")` does.
pub fn replace_spaces(s: &str) -> (r: String)
    ensures
        r@ == spaces_to_underscores(s@),
{
    replace_char(s, ' ', '_')
}

} // verus!

verus! {

/// The pieces of `s` between occurrences of `sep`, as `str::split` with a
/// single character gives them: one more piece than there are separators.
pub open spec fn split_seq(s: Seq<char>, sep: char) -> Seq<Seq<char>>
    decreases s.len(),
{
    if s.len() == 0 {
        seq![Seq::<char>::empty()]
    } else {
        let init = split_seq(s.drop_last(), sep);
        if s.last() == sep {
            init.push(Seq::<char>::empty())
        } else {
            init.update(init.len() - 1, init.last().push(s.last()))
        }
    }
}

/// A split always has at least one piece.
pub proof fn lemma_split_nonempty(s: Seq<char>, sep: char)
    ensures
        split_seq(s, sep).len() >= 1,
    decreases s.len(),
{
    if s.len() > 0 {
        lemma_split_nonempty(s.drop_last(), sep);
    }
}

/// The texts of a list of character vectors.
pub open spec fn views_of(v: Seq<Vec<char>>) -> Seq<Seq<char>> {
    v.map_values(|x: Vec<char>| x@)
}

/// Splits `s` at every occurrence of `sep`.
pub fn split_chars(s: &Vec<char>, sep: char) -> (r: Vec<Vec<char>>)
    ensures
        views_of(r@) == split_seq(s@, sep),
        r@.len() >= 1,
{
    let mut done: Vec<Vec<char>> = Vec::new();
    let mut cur: Vec<char> = Vec::new();
    let mut i: usize = 0;
    proof {
        assert(s@.take(0) =~= Seq::<char>::empty());
    }
    while i < s.len()
        invariant
            i <= s.len(),
            views_of(done@).push(cur@) == split_seq(s@.take(i as int), sep),
        decreases s.len() - i,
    {
        let c = s[i];
        let ghost p = s@.take(i as int);
        let ghost q = s@.take(i + 1);
        assert(q.drop_last() =~= p);
        assert(q.last() == c);
        proof { lemma_split_nonempty(p, sep); }
        if c == sep {
            let ghost before = done@;
            let finished = cur;
            done.push(finished);
            cur = Vec::new();
            assert(views_of(done@) =~= views_of(before).push(finished@));
            assert(views_of(done@).push(cur@) =~= split_seq(q, sep));
        } else {
            let ghost old_cur = cur@;
            cur.push(c);
            assert(views_of(done@).push(cur@) =~= split_seq(p, sep).update(
                split_seq(p, sep).len() - 1,
                old_cur.push(c),
            ));
        }
        i = i + 1;
    }
    assert(s@.take(s.len() as int) =~= s@);
    let ghost before = done@;
    done.push(cur);
    assert(views_of(done@) =~= views_of(before).push(cur@));
    done
}

/// Whether `c` has the Unicode White_Space property, as `char::is_whitespace`
/// tests it.
pub open spec fn is_space(c: char) -> bool {
    let v = c as u32;
    (0x09 <= v && v <= 0x0D) || v == 0x20 || v == 0x85 || v == 0xA0 || v == 0x1680 || (0x2000 <= v
        && v <= 0x200A) || v == 0x2028 || v == 0x2029 || v == 0x202F || v == 0x205F || v == 0x3000
}

/// Whether `c` is white space.
pub fn is_space_char(c: char) -> (r: bool)
    ensures
        r == is_space(c),
{
    let v = c as u32;
    (0x09 <= v && v <= 0x0D) || v == 0x20 || v == 0x85 || v == 0xA0 || v == 0x1680 || (0x2000 <= v
        && v <= 0x200A) || v == 0x2028 || v == 0x2029 || v == 0x202F || v == 0x205F || v == 0x3000
}

/// The number of leading white-space characters of `s`.
pub open spec fn leading_space(s: Seq<char>) -> nat
    decreases s.len(),
{
    if s.len() > 0 && is_space(s[0]) {
        1 + leading_space(s.drop_first())
    } else {
        0
    }
}

/// The number of trailing white-space characters of `s`.
pub open spec fn trailing_space(s: Seq<char>) -> nat
    decreases s.len(),
{
    if s.len() > 0 && is_space(s.last()) {
        1 + trailing_space(s.drop_last())
    } else {
        0
    }
}

/// `s` without its leading and trailing white space, as `str::trim` gives it.
pub open spec fn trim_spec(s: Seq<char>) -> Seq<char> {
    let t = s.skip(leading_space(s) as int);
    t.take(t.len() - trailing_space(t))
}

proof fn lemma_leading_space_bound(s: Seq<char>)
    ensures
        leading_space(s) <= s.len(),
    decreases s.len(),
{
    if s.len() > 0 && is_space(s[0]) {
        lemma_leading_space_bound(s.drop_first());
    }
}

proof fn lemma_trailing_space_bound(s: Seq<char>)
    ensures
        trailing_space(s) <= s.len(),
    decreases s.len(),
{
    if s.len() > 0 && is_space(s.last()) {
        lemma_trailing_space_bound(s.drop_last());
    }
}

/// Removes leading and trailing white space, as `str::trim` does.
pub fn trim_chars(s: &Vec<char>) -> (r: Vec<char>)
    ensures
        r@ == trim_spec(s@),
{
    let mut start: usize = 0;
    assert(s@.skip(0) =~= s@);
    while start < s.len() && is_space_char(s[start])
        invariant
            start <= s.len(),
            leading_space(s@) == start + leading_space(s@.skip(start as int)),
        decreases s.len() - start,
    {
        assert(s@.skip(start as int).drop_first() =~= s@.skip(start + 1));
        start = start + 1;
    }
    assert(leading_space(s@.skip(start as int)) == 0);
    let ghost t = s@.skip(start as int);
    let mut end: usize = s.len();
    proof { lemma_leading_space_bound(s@); }
    assert(t.take(end - start) =~= t);
    while end > start && is_space_char(s[end - 1])
        invariant
            start <= end <= s.len(),
            t == s@.skip(start as int),
            trailing_space(t) == (s.len() - end) + trailing_space(t.take(end - start)),
        decreases end - start,
    {
        assert(t.take(end - start).drop_last() =~= t.take(end - 1 - start));
        assert(t.take(end - start).last() == s@[end - 1]);
        end = end - 1;
    }
    assert(trailing_space(t.take(end - start)) == 0);
    let mut r: Vec<char> = Vec::new();
    let mut i: usize = start;
    while i < end
        invariant
            start <= i <= end <= s.len(),
            r@ == s@.subrange(start as int, i as int),
        decreases end - i,
    {
        r.push(s[i]);
        assert(s@.subrange(start as int, i + 1) =~= s@.subrange(start as int, i as int).push(s@[i as int]));
        i = i + 1;
    }
    assert(r@ =~= trim_spec(s@));
    r
}

/// The number of bytes that `c` takes in UTF-8.
pub open spec fn utf8_width(c: char) -> nat {
    let v = c as u32;
    if v < 0x80 {
        1
    } else if v < 0x800 {
        2
    } else if v < 0x10000 {
        3
    } else {
        4
    }
}

/// The number of bytes that `s` takes in UTF-8, which `str::len` reports.
pub open spec fn utf8_len(s: Seq<char>) -> nat
    decreases s.len(),
{
    if s.len() == 0 {
        0
    } else {
        utf8_len(s.drop_last()) + utf8_width(s.last())
    }
}

/// Whether `s` takes exactly `n` bytes in UTF-8.
pub fn has_utf8_len(s: &Vec<char>, n: usize) -> (r: bool)
    ensures
        r == (utf8_len(s@) == n),
{
    let mut total: usize = 0;
    let mut i: usize = 0;
    while i < s.len()
        invariant
            i <= s.len(),
            total == utf8_len(s@.take(i as int)),
            total <= n,
        decreases s.len() - i,
    {
        assert(s@.take(i + 1).drop_last() =~= s@.take(i as int));
        let v = s[i] as u32;
        let w: usize = if v < 0x80 {
            1
        } else if v < 0x800 {
            2
        } else if v < 0x10000 {
            3
        } else {
            4
        };
        if w > n - total {
            proof { lemma_utf8_len_prefix_le(s@, i + 1); }
            return false;
        }
        total = total + w;
        i = i + 1;
    }
    assert(s@.take(s.len() as int) =~= s@);
    total == n
}

/// The UTF-8 length of a prefix is at most that of the whole.
pub proof fn lemma_utf8_len_prefix_le(s: Seq<char>, k: int)
    requires
        0 <= k <= s.len(),
    ensures
        utf8_len(s.take(k)) <= utf8_len(s),
    decreases s.len() - k,
{
    if k < s.len() {
        lemma_utf8_len_prefix_le(s, k + 1);
        assert(s.take(k + 1).drop_last() =~= s.take(k));
    } else {
        assert(s.take(k) =~= s);
    }
}

} // verus!

verus! {

/// Replacing spaces keeps the length and changes every space, and only the
/// spaces, into an underscore.
pub proof fn law_spaces_become_underscores(s: Seq<char>)
    ensures
        spaces_to_underscores(s).len() == s.len(),
        forall|i: int| 0 <= i < s.len() ==> #[trigger] spaces_to_underscores(s)[i] == if s[i] == ' ' {
            '_'
        } else {
            s[i]
        },
{
}

/// The pieces of a split joined back with the separator between them.
pub open spec fn join_with(pieces: Seq<Seq<char>>, sep: char) -> Seq<char>
    decreases pieces.len(),
{
    if pieces.len() <= 1 {
        if pieces.len() == 1 {
            pieces[0]
        } else {
            Seq::empty()
        }
    } else {
        join_with(pieces.drop_last(), sep).push(sep) + pieces.last()
    }
}

/// Splitting loses nothing and cuts exactly at the separators: no piece
/// holds the separator, and joining the pieces with it gives the text back.
pub proof fn law_split_rejoins(s: Seq<char>, sep: char)
    ensures
        join_with(split_seq(s, sep), sep) == s,
        forall|i: int| 0 <= i < split_seq(s, sep).len() ==> !(#[trigger] split_seq(s, sep)[i]).contains(sep),
    decreases s.len(),
{
    lemma_split_nonempty(s, sep);
    if s.len() == 0 {
        assert(split_seq(s, sep) =~= seq![Seq::<char>::empty()]);
        assert(s =~= Seq::<char>::empty());
    } else {
        let init = split_seq(s.drop_last(), sep);
        law_split_rejoins(s.drop_last(), sep);
        lemma_split_nonempty(s.drop_last(), sep);
        if s.last() == sep {
            let r = init.push(Seq::<char>::empty());
            assert(r.drop_last() =~= init);
            assert(join_with(r, sep) =~= s.drop_last().push(sep) + Seq::<char>::empty());
            assert(s.drop_last().push(sep) =~= s);
            assert forall|i: int| 0 <= i < r.len() implies !(#[trigger] r[i]).contains(sep) by {
                if i < init.len() {
                    assert(r[i] == init[i]);
                } else {
                    assert(r[i] =~= Seq::<char>::empty());
                }
            }
        } else {
            let n = init.len();
            let r = init.update(n - 1, init.last().push(s.last()));
            assert forall|i: int| 0 <= i < r.len() implies !(#[trigger] r[i]).contains(sep) by {
                if i < n - 1 {
                    assert(r[i] == init[i]);
                } else {
                    let p = init.last().push(s.last());
                    assert(!init[n - 1].contains(sep));
                    if p.contains(sep) {
                        let k = choose|k: int| 0 <= k < p.len() && p[k] == sep;
                        if k < p.len() - 1 {
                            assert(init[n - 1][k] == sep);
                        }
                    }
                }
            }
            if n == 1 {
                assert(join_with(r, sep) == r[0]);
                assert(join_with(init, sep) == init[0]);
                assert(r[0] =~= s.drop_last().push(s.last()));
                assert(s.drop_last().push(s.last()) =~= s);
            } else {
                assert(r.drop_last() =~= init.drop_last());
                assert(join_with(r, sep) == join_with(init.drop_last(), sep).push(sep) + init.last().push(s.last()));
                assert(join_with(init, sep) == join_with(init.drop_last(), sep).push(sep) + init.last());
                assert(join_with(init.drop_last(), sep).push(sep) + init.last().push(s.last()) =~= (join_with(
                    init.drop_last(),
                    sep,
                ).push(sep) + init.last()).push(s.last()));
                assert(s.drop_last().push(s.last()) =~= s);
            }
        }
    }
}

/// The first `leading_space(s)` characters are white space, and the one
/// after them, if any, is not.
proof fn lemma_leading_space_prefix(s: Seq<char>)
    ensures
        leading_space(s) <= s.len(),
        forall|i: int| 0 <= i < leading_space(s) ==> is_space(#[trigger] s[i]),
        leading_space(s) < s.len() ==> !is_space(s[leading_space(s) as int]),
    decreases s.len(),
{
    if s.len() > 0 && is_space(s[0]) {
        lemma_leading_space_prefix(s.drop_first());
        assert forall|i: int| 0 <= i < leading_space(s) implies is_space(#[trigger] s[i]) by {
            if i > 0 {
                assert(s[i] == s.drop_first()[i - 1]);
            }
        }
        if leading_space(s) < s.len() {
            assert(s[leading_space(s) as int] == s.drop_first()[leading_space(s.drop_first()) as int]);
        }
    }
}

/// The last `trailing_space(s)` characters are white space, and the one
/// before them, if any, is not.
proof fn lemma_trailing_space_suffix(s: Seq<char>)
    ensures
        trailing_space(s) <= s.len(),
        forall|i: int| s.len() - trailing_space(s) <= i < s.len() ==> is_space(#[trigger] s[i]),
        trailing_space(s) < s.len() ==> !is_space(s[s.len() - 1 - trailing_space(s)]),
    decreases s.len(),
{
    if s.len() > 0 && is_space(s.last()) {
        lemma_trailing_space_suffix(s.drop_last());
        assert forall|i: int| s.len() - trailing_space(s) <= i < s.len() implies is_space(#[trigger] s[i]) by {
            if i < s.len() - 1 {
                assert(s[i] == s.drop_last()[i]);
            }
        }
        if trailing_space(s) < s.len() {
            assert(s[s.len() - 1 - trailing_space(s)] == s.drop_last()[s.drop_last().len() - 1 - trailing_space(
                s.drop_last(),
            )]);
        }
    }
}

/// Trimming keeps the middle of the text unchanged and removes only white
/// space: the result is a stretch of `s`, everything before and after it is
/// white space, and it neither starts nor ends with white space.
pub proof fn law_trim_removes_only_outer_space(s: Seq<char>)
    ensures
        ({
            let a = leading_space(s) as int;
            let r = trim_spec(s);
            &&& a + r.len() <= s.len()
            &&& r == s.subrange(a, a + r.len())
            &&& forall|i: int| 0 <= i < a ==> is_space(#[trigger] s[i])
            &&& forall|i: int| a + r.len() <= i < s.len() ==> is_space(#[trigger] s[i])
            &&& r.len() > 0 ==> !is_space(r[0]) && !is_space(r[r.len() - 1])
        }),
{
    lemma_leading_space_prefix(s);
    let a = leading_space(s) as int;
    let t = s.skip(a);
    lemma_trailing_space_suffix(t);
    let r = trim_spec(s);
    assert(r =~= s.subrange(a, a + r.len()));
    assert forall|i: int| a + r.len() <= i < s.len() implies is_space(#[trigger] s[i]) by {
        assert(s[i] == t[i - a]);
    }
    if r.len() > 0 {
        assert(r[0] == s[a]);
        assert(r[r.len() - 1] == t[t.len() - 1 - trailing_space(t)]);
    }
}

} // verus!
