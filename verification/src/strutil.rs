//! Character-level string utilities: decimal rendering, equality,
//! splitting and joining. Everything is specified against pure
//! functions over `Seq<char>`.

use vstd::prelude::*;

verus! {

/// The character for one decimal digit.
pub open spec fn dec_digit(d: int) -> char {
    if d == 0 {
        '0'
    } else if d == 1 {
        '1'
    } else if d == 2 {
        '2'
    } else if d == 3 {
        '3'
    } else if d == 4 {
        '4'
    } else if d == 5 {
        '5'
    } else if d == 6 {
        '6'
    } else if d == 7 {
        '7'
    } else if d == 8 {
        '8'
    } else {
        '9'
    }
}

/// Decimal rendering of a natural number, most significant digit first,
/// with no leading zeros (except for the number zero itself).
pub open spec fn dec_str(n: nat) -> Seq<char>
    decreases n,
{
    if n < 10 {
        seq![dec_digit(n as int)]
    } else {
        dec_str(n / 10).push(dec_digit((n % 10) as int))
    }
}

/// Decimal rendering of a signed number: a minus sign before the
/// rendering of the magnitude.
pub open spec fn int_str(n: int) -> Seq<char> {
    if n < 0 {
        seq!['-'] + dec_str((-n) as nat)
    } else {
        dec_str(n as nat)
    }
}

pub proof fn lemma_dec_str_min_len(n: nat)
    ensures
        dec_str(n).len() >= 1,
        n >= 10 ==> dec_str(n).len() >= 2,
    decreases n,
{
    if n >= 10 {
        lemma_dec_str_min_len(n / 10);
    }
}

/// Distinct numbers render as distinct strings.
pub proof fn lemma_dec_str_injective(a: nat, b: nat)
    requires
        a != b,
    ensures
        dec_str(a) != dec_str(b),
    decreases a + b,
{
    lemma_dec_str_min_len(a);
    lemma_dec_str_min_len(b);
    if a < 10 && b < 10 {
        if dec_str(a) == dec_str(b) {
            assert(dec_str(a)[0] == dec_str(b)[0]);
            assert(false);
        }
    } else if a < 10 || b < 10 {
        assert(dec_str(a).len() != dec_str(b).len());
    } else {
        if a % 10 != b % 10 {
            if dec_str(a) == dec_str(b) {
                assert(dec_str(a).last() == dec_str(b).last());
                assert(false);
            }
        } else {
            assert(a / 10 != b / 10) by {
                vstd::arithmetic::div_mod::lemma_fundamental_div_mod(a as int, 10);
                vstd::arithmetic::div_mod::lemma_fundamental_div_mod(b as int, 10);
            }
            lemma_dec_str_injective(a / 10, b / 10);
            if dec_str(a) == dec_str(b) {
                assert(dec_str(a).drop_last() =~= dec_str(a / 10));
                assert(dec_str(b).drop_last() =~= dec_str(b / 10));
                assert(false);
            }
        }
    }
}

/// A one-character string for a digit value.
pub(crate) fn digit_str(d: u64) -> (r: &'static str)
    requires
        d < 10,
    ensures
        r@ == seq![dec_digit(d as int)],
{
    if d == 0 {
        proof {
            reveal_strlit("0");
        }
        "0"
    } else if d == 1 {
        proof {
            reveal_strlit("1");
        }
        "1"
    } else if d == 2 {
        proof {
            reveal_strlit("2");
        }
        "2"
    } else if d == 3 {
        proof {
            reveal_strlit("3");
        }
        "3"
    } else if d == 4 {
        proof {
            reveal_strlit("4");
        }
        "4"
    } else if d == 5 {
        proof {
            reveal_strlit("5");
        }
        "5"
    } else if d == 6 {
        proof {
            reveal_strlit("6");
        }
        "6"
    } else if d == 7 {
        proof {
            reveal_strlit("7");
        }
        "7"
    } else if d == 8 {
        proof {
            reveal_strlit("8");
        }
        "8"
    } else {
        proof {
            reveal_strlit("9");
        }
        "9"
    }
}

/// Renders an unsigned machine integer in decimal.
pub fn u64_to_string(n: u64) -> (r: String)
    ensures
        r@ == dec_str(n as nat),
    decreases n,
{
    if n < 10 {
        String::from_str(digit_str(n))
    } else {
        let mut s = u64_to_string(n / 10);
        s.append(digit_str(n % 10));
        proof {
            assert(s@ =~= dec_str((n / 10) as nat).push(dec_digit((n % 10) as int)));
        }
        s
    }
}

/// Renders a machine index in decimal.
pub fn usize_to_string(n: usize) -> (r: String)
    ensures
        r@ == dec_str(n as nat),
{
    u64_to_string(n as u64)
}

/// Renders a signed machine integer in decimal.
pub fn i64_to_string(n: i64) -> (r: String)
    ensures
        r@ == int_str(n as int),
{
    if n >= 0 {
        u64_to_string(n as u64)
    } else if n == i64::MIN {
        proof {
            reveal_strlit("-9223372036854775808");
            reveal_with_fuel(dec_str, 25);
            assert(int_str(n as int) =~= "-9223372036854775808"@);
        }
        String::from_str("-9223372036854775808")
    } else {
        proof {
            reveal_strlit("-");
        }
        let mut s = String::from_str("-");
        s.append(u64_to_string((-n) as u64).as_str());
        proof {
            assert(s@ =~= int_str(n as int));
        }
        s
    }
}

/// Character-for-character string equality.
pub fn str_eq(a: &str, b: &str) -> (r: bool)
    ensures
        r == (a@ == b@),
{
    let a_len = a.unicode_len();
    let b_len = b.unicode_len();
    if a_len != b_len {
        return false;
    }
    let mut i: usize = 0;
    while i < a_len
        invariant
            i <= a_len,
            a_len == a@.len(),
            a_len == b@.len(),
            forall|j: int| 0 <= j < i ==> a@[j] == b@[j],
        decreases a_len - i,
    {
        if a.get_char(i) != b.get_char(i) {
            return false;
        }
        i = i + 1;
    }
    proof {
        assert(a@ =~= b@);
    }
    true
}

/// Splitting on a separator character. The result always holds at least
/// one segment; a string without the separator is one segment, and each
/// occurrence of the separator opens a new (possibly empty) segment.
pub open spec fn split_char(s: Seq<char>, sep: char) -> Seq<Seq<char>>
    decreases s.len(),
{
    if s.len() == 0 {
        seq![Seq::<char>::empty()]
    } else {
        let init = split_char(s.drop_last(), sep);
        if s.last() == sep {
            init.push(Seq::<char>::empty())
        } else {
            init.update(init.len() - 1, init.last().push(s.last()))
        }
    }
}

pub proof fn lemma_split_char_len(s: Seq<char>, sep: char)
    ensures
        split_char(s, sep).len() >= 1,
    decreases s.len(),
{
    if s.len() > 0 {
        lemma_split_char_len(s.drop_last(), sep);
    }
}

/// Splits a string at every occurrence of `sep`.
pub fn split_on_char(s: &str, sep: char) -> (r: Vec<String>)
    ensures
        r.deep_view() == split_char(s@, sep),
{
    let n = s.unicode_len();
    let mut parts: Vec<String> = Vec::new();
    let mut cur = String::new();
    let mut i: usize = 0;
    proof {
        assert(s@.subrange(0, 0) =~= Seq::<char>::empty());
        assert(parts.deep_view().push(cur@) =~= split_char(s@.subrange(0, 0), sep));
    }
    while i < n
        invariant
            i <= n,
            n == s@.len(),
            parts.deep_view().push(cur@) == split_char(s@.subrange(0, i as int), sep),
        decreases n - i,
    {
        let ghost prefix = s@.subrange(0, i as int);
        let ghost prefix1 = s@.subrange(0, i + 1);
        proof {
            assert(prefix1.drop_last() =~= prefix);
            lemma_split_char_len(prefix, sep);
        }
        let c = s.get_char(i);
        if c == sep {
            let ghost old_parts = parts.deep_view();
            parts.push(cur);
            cur = String::new();
            proof {
                assert(parts.deep_view() =~= old_parts.push(split_char(prefix, sep).last()));
                assert(parts.deep_view().push(cur@) =~= split_char(prefix1, sep));
            }
        } else {
            let piece = s.substring_char(i, i + 1);
            cur.append(piece);
            proof {
                assert(cur@ =~= split_char(prefix, sep).last().push(s@[i as int]));
                assert(parts.deep_view().push(cur@) =~= split_char(prefix1, sep));
            }
        }
        i = i + 1;
    }
    proof {
        assert(s@.subrange(0, n as int) =~= s@);
    }
    parts.push(cur);
    parts
}

/// The line structure of a file body: an empty body holds no lines;
/// otherwise the body is split at every newline character.
pub open spec fn split_lines(s: Seq<char>) -> Seq<Seq<char>> {
    if s.len() == 0 {
        Seq::<Seq<char>>::empty()
    } else {
        split_char(s, '\n')
    }
}

/// Splits a file body into lines, as `split_lines` describes.
pub fn split_lines_exec(s: &str) -> (r: Vec<String>)
    ensures
        r.deep_view() == split_lines(s@),
{
    if s.unicode_len() == 0 {
        let r: Vec<String> = Vec::new();
        proof {
            assert(r.deep_view() =~= split_lines(s@));
        }
        r
    } else {
        split_on_char(s, '\n')
    }
}

/// Whether the string holds the character anywhere.
pub open spec fn contains_char(s: Seq<char>, c: char) -> bool {
    exists|i: int| 0 <= i < s.len() && s[i] == c
}

/// A string splits into two or more segments exactly when it holds
/// the separator.
pub proof fn lemma_split_char_contains(s: Seq<char>, sep: char)
    ensures
        split_char(s, sep).len() >= 2 <==> contains_char(s, sep),
    decreases s.len(),
{
    if s.len() == 0 {
    } else {
        lemma_split_char_contains(s.drop_last(), sep);
        lemma_split_char_len(s.drop_last(), sep);
        if s.last() == sep {
            assert(s[s.len() - 1] == sep);
        } else {
            if contains_char(s, sep) {
                let i = choose|i: int| 0 <= i < s.len() && s[i] == sep;
                assert(s.drop_last()[i] == sep);
                assert(contains_char(s.drop_last(), sep));
            }
            if contains_char(s.drop_last(), sep) {
                let i = choose|i: int| 0 <= i < s.drop_last().len() && s.drop_last()[i] == sep;
                assert(s[i] == sep);
            }
        }
    }
}

/// The part of an address before its first `@`, or the whole address
/// if it holds none.
pub open spec fn segment_before_at(s: Seq<char>) -> Seq<char> {
    split_char(s, '@')[0]
}

/// The part of an address between its first and second `@`, or after
/// its first `@` if it holds exactly one. Meaningful only when the
/// address holds an `@` at all.
pub open spec fn segment_after_at(s: Seq<char>) -> Seq<char> {
    split_char(s, '@')[1]
}

/// The part of an address before its first `@`.
pub fn first_at_segment(s: &str) -> (r: String)
    ensures
        r@ == segment_before_at(s@),
{
    let mut parts = split_on_char(s, '@');
    proof {
        lemma_split_char_len(s@, '@');
        assert(parts.deep_view().len() == parts@.len());
        assert(parts@[0]@ == parts.deep_view()[0]);
    }
    parts.remove(0)
}

/// The part of an address after its first `@`, if the address holds
/// one; an address without `@` yields nothing.
pub fn second_at_segment(s: &str) -> (r: Option<String>)
    ensures
        r matches Some(d) ==> contains_char(s@, '@') && d@ == segment_after_at(s@),
        r is None ==> !contains_char(s@, '@'),
{
    let mut parts = split_on_char(s, '@');
    proof {
        assert(parts.deep_view().len() == parts@.len());
        lemma_split_char_contains(s@, '@');
    }
    if parts.len() >= 2 {
        proof {
            assert(parts@[1]@ == parts.deep_view()[1]);
        }
        Some(parts.remove(1))
    } else {
        None
    }
}

/// Joining with a separator character: the segments in order, with one
/// separator between each neighbouring pair.
pub open spec fn join_with(xs: Seq<Seq<char>>, sep: char) -> Seq<char>
    decreases xs.len(),
{
    if xs.len() == 0 {
        Seq::<char>::empty()
    } else if xs.len() == 1 {
        xs[0]
    } else {
        join_with(xs.drop_last(), sep).push(sep) + xs.last()
    }
}

/// A string without the separator is one segment.
proof fn lemma_split_no_sep(s: Seq<char>, sep: char)
    requires
        !contains_char(s, sep),
    ensures
        split_char(s, sep) == seq![s],
    decreases s.len(),
{
    if s.len() == 0 {
        assert(s =~= Seq::<char>::empty());
    } else {
        assert(!contains_char(s.drop_last(), sep)) by {
            if contains_char(s.drop_last(), sep) {
                let i = choose|i: int| 0 <= i < s.drop_last().len() && s.drop_last()[i] == sep;
                assert(s[i] == sep);
            }
        }
        lemma_split_no_sep(s.drop_last(), sep);
        assert(s[s.len() - 1] != sep);
        assert(split_char(s, sep) =~= seq![s.drop_last().push(s.last())]);
        assert(s.drop_last().push(s.last()) =~= s);
    }
}

/// Appending separator-free text extends the last segment and nothing
/// else.
proof fn lemma_split_append_no_sep(s: Seq<char>, t: Seq<char>, sep: char)
    requires
        !contains_char(t, sep),
    ensures
        split_char(s, sep) == split_char(s, sep).drop_last().push(
            split_char(s, sep).last(),
        ),
        split_char(s + t, sep) == split_char(s, sep).drop_last().push(
            split_char(s, sep).last() + t,
        ),
    decreases t.len(),
{
    lemma_split_char_len(s, sep);
    assert(split_char(s, sep) =~= split_char(s, sep).drop_last().push(split_char(s, sep).last()));
    if t.len() == 0 {
        assert(s + t =~= s);
        assert(split_char(s, sep).last() + t =~= split_char(s, sep).last());
    } else {
        assert(!contains_char(t.drop_last(), sep)) by {
            if contains_char(t.drop_last(), sep) {
                let i = choose|i: int| 0 <= i < t.drop_last().len() && t.drop_last()[i] == sep;
                assert(t[i] == sep);
            }
        }
        lemma_split_append_no_sep(s, t.drop_last(), sep);
        assert(t[t.len() - 1] != sep);
        assert((s + t).len() > 0 && (s + t).last() == t.last());
        assert((s + t).drop_last() =~= s + t.drop_last());
        let prev = split_char(s + t.drop_last(), sep);
        lemma_split_char_len(s + t.drop_last(), sep);
        assert(split_char(s + t, sep) =~= prev.update(prev.len() - 1, prev.last().push(t.last())));
        assert(prev.last() == split_char(s, sep).last() + t.drop_last());
        assert((split_char(s, sep).last() + t.drop_last()).push(t.last()) =~= split_char(
            s,
            sep,
        ).last() + t);
        assert(split_char(s + t, sep) =~= split_char(s, sep).drop_last().push(
            split_char(s, sep).last() + t,
        ));
    }
}

/// Round trip of the joining and the splitting: segments that hold no
/// separator, joined with it, split back into exactly those segments.
pub proof fn lemma_join_then_split(xs: Seq<Seq<char>>, sep: char)
    requires
        xs.len() >= 1,
        forall|i: int| 0 <= i < xs.len() ==> !contains_char(#[trigger] xs[i], sep),
    ensures
        split_char(join_with(xs, sep), sep) == xs,
    decreases xs.len(),
{
    if xs.len() == 1 {
        lemma_split_no_sep(xs[0], sep);
        assert(split_char(join_with(xs, sep), sep) =~= xs);
    } else {
        lemma_join_then_split(xs.drop_last(), sep);
        let j = join_with(xs.drop_last(), sep);
        assert(j.push(sep) =~= j + seq![sep]);
        assert((j + seq![sep]).drop_last() =~= j);
        assert((j + seq![sep]).last() == sep);
        assert(split_char(j + seq![sep], sep) == split_char(j, sep).push(Seq::<char>::empty()));
        lemma_split_append_no_sep(j + seq![sep], xs.last(), sep);
        let base = split_char(j + seq![sep], sep);
        assert(join_with(xs, sep) =~= (j + seq![sep]) + xs.last());
        assert(Seq::<char>::empty() + xs.last() =~= xs.last());
        assert(base.drop_last() =~= split_char(j, sep));
        assert(split_char(join_with(xs, sep), sep) =~= split_char(j, sep).push(xs.last()));
        assert(split_char(join_with(xs, sep), sep) =~= xs);
    }
}

/// Joins strings with a newline between each neighbouring pair.
pub fn join_lines(xs: &Vec<String>) -> (r: String)
    ensures
        r@ == join_with(xs.deep_view(), '\n'),
{
    let ghost dv = xs.deep_view();
    let mut out = String::new();
    let mut i: usize = 0;
    proof {
        assert(out@ =~= join_with(dv.subrange(0, 0), '\n'));
    }
    while i < xs.len()
        invariant
            i <= xs.len(),
            dv == xs.deep_view(),
            dv.len() == xs@.len(),
            out@ == join_with(dv.subrange(0, i as int), '\n'),
        decreases xs.len() - i,
    {
        proof {
            assert(dv.subrange(0, i + 1).drop_last() =~= dv.subrange(0, i as int));
        }
        if i > 0 {
            proof {
                reveal_strlit("\n");
            }
            out.append("\n");
        }
        out.append(xs[i].as_str());
        proof {
            assert(dv[i as int] == xs@[i as int]@);
            if i == 0 {
                assert(dv.subrange(0, 1) =~= seq![dv[0]]);
                assert(out@ =~= join_with(dv.subrange(0, i + 1), '\n'));
            } else {
                assert(out@ =~= join_with(dv.subrange(0, i as int), '\n').push('\n') + dv[
                    i as int]);
                assert(out@ =~= join_with(dv.subrange(0, i + 1), '\n'));
            }
        }
        i = i + 1;
    }
    proof {
        assert(dv.subrange(0, dv.len() as int) =~= dv);
    }
    out
}

} // verus!
