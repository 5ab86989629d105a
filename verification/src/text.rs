//! Character-sequence helpers: splitting on a separator, joining, trimming,
//! decimal numbers, and the conversions between `str`/`String` and `Vec<char>`.

use vstd::prelude::*;

verus! {

/// Appends one character to a `String`.
///
/// Trusted: calls `String::push`, whose documentation says it appends the given
/// `char` to the end of the string.
#[verifier::external_body]
pub(crate) fn push_char(s: &mut String, c: char)
    ensures
        final(s)@ == old(s)@.push(c),
{
    s.push(c);
}

/// The characters of `s`, in order.
pub fn chars_of(s: &str) -> (v: Vec<char>)
    ensures
        v@ == s@,
{
    let mut v: Vec<char> = Vec::new();
    for c in it: s.chars()
        invariant
            v@ == it.seq().take(it.index() as int),
    {
        v.push(c);
    }
    v
}

/// Appends the characters of `v` to `s`.
pub fn push_all(s: &mut String, v: &Vec<char>)
    ensures
        final(s)@ == old(s)@ + v@,
{
    let mut i: usize = 0;
    while i < v.len()
        invariant
            i <= v.len(),
            s@ == old(s)@ + v@.take(i as int),
        decreases v.len() - i,
    {
        push_char(s, v[i]);
        i += 1;
        assert(s@ =~= old(s)@ + v@.take(i as int));
    }
    assert(v@.take(v.len() as int) =~= v@);
}

/// Appends the characters of `t` to `s`.
pub fn push_str(s: &mut String, t: &str)
    ensures
        final(s)@ == old(s)@ + t@,
{
    let v = chars_of(t);
    push_all(s, &v);
}

/// Whether the string `s` is `lit`.
pub fn string_is(s: &String, lit: &str) -> (r: bool)
    ensures
        r == (s@ == lit@),
{
    let owned = lit.to_owned();
    *s == owned
}

/// A `String` holding exactly the characters of `t`.
pub fn string_from(t: &str) -> (s: String)
    ensures
        s@ == t@,
{
    t.to_owned()
}

/// A `String` holding exactly the characters of `v`.
pub fn string_of(v: &Vec<char>) -> (s: String)
    ensures
        s@ == v@,
{
    let mut s = String::new();
    let mut i: usize = 0;
    while i < v.len()
        invariant
            i <= v.len(),
            s@ == v@.take(i as int),
        decreases v.len() - i,
    {
        push_char(&mut s, v[i]);
        i += 1;
        assert(s@ == v@.take(i as int));
    }
    assert(v@.take(v.len() as int) == v@);
    s
}

/// `s` cut at every occurrence of `sep`, as `str::split` with a `char` pattern
/// does: there is always at least one piece, and the pieces hold no `sep`.
pub open spec fn split_on(s: Seq<char>, sep: char) -> Seq<Seq<char>>
    decreases s.len(),
{
    if s.len() == 0 {
        seq![Seq::empty()]
    } else {
        let init = split_on(s.drop_last(), sep);
        if s.last() == sep {
            init.push(Seq::empty())
        } else {
            init.update(init.len() - 1, init.last().push(s.last()))
        }
    }
}

/// The pieces of `xs` glued together with one `sep` between neighbours,
/// as `[T]::join` does.
pub open spec fn join_with(xs: Seq<Seq<char>>, sep: char) -> Seq<char>
    decreases xs.len(),
{
    if xs.len() == 0 {
        Seq::empty()
    } else if xs.len() == 1 {
        xs[0]
    } else {
        join_with(xs.drop_last(), sep) + seq![sep] + xs.last()
    }
}

/// All pieces of `xs` are free of `sep`.
pub open spec fn pieces_free_of(xs: Seq<Seq<char>>, sep: char) -> bool {
    forall|i: int, j: int| 0 <= i < xs.len() && 0 <= j < xs[i].len() ==> xs[i][j] != sep
}

/// The pieces of `xs` from index `d` on; none when `d` is past the end.
pub open spec fn skip_pieces(xs: Seq<Seq<char>>, d: nat) -> Seq<Seq<char>> {
    if d <= xs.len() {
        xs.skip(d as int)
    } else {
        Seq::empty()
    }
}

/// The concatenation of all pieces, in order.
pub open spec fn concat_all(xs: Seq<Seq<char>>) -> Seq<char>
    decreases xs.len(),
{
    if xs.len() == 0 {
        Seq::empty()
    } else {
        concat_all(xs.drop_last()) + xs.last()
    }
}

/// The pieces of `v` cut at every `sep`.
pub fn split_chars(v: &Vec<char>, sep: char) -> (pieces: Vec<Vec<char>>)
    ensures
        pieces.deep_view() == split_on(v@, sep),
{
    let mut done: Vec<Vec<char>> = Vec::new();
    let mut cur: Vec<char> = Vec::new();
    let mut i: usize = 0;
    assert(v@.take(0) =~= Seq::<char>::empty());
    while i < v.len()
        invariant
            i <= v.len(),
            split_on(v@.take(i as int), sep) == done.deep_view().push(cur@),
        decreases v.len() - i,
    {
        let c = v[i];
        let ghost before = done.deep_view().push(cur@);
        assert(v@.take(i + 1).drop_last() =~= v@.take(i as int));
        assert(v@.take(i + 1).last() == c);
        if c == sep {
            proof {
                lemma_deep_view_chars(&cur);
            }
            let ghost old_done = done.deep_view();
            done.push(cur);
            assert(done.deep_view() =~= old_done.push(before.last()));
            cur = Vec::new();
            assert(done.deep_view().push(cur@) =~= before.push(Seq::empty()));
        } else {
            cur.push(c);
            assert(done.deep_view().push(cur@) =~= before.update(
                before.len() - 1,
                before.last().push(c),
            ));
        }
        i += 1;
    }
    assert(v@.take(v.len() as int) =~= v@);
    let ghost all = done.deep_view().push(cur@);
    proof {
        lemma_deep_view_chars(&cur);
    }
    done.push(cur);
    assert(done.deep_view() =~= all);
    done
}

proof fn lemma_deep_view_chars(v: &Vec<char>)
    ensures
        v.deep_view() == v@,
{
    assert(v.deep_view() =~= v@);
}

/// Whether `c` is a curly brace.
pub open spec fn is_brace(c: char) -> bool {
    c == '{' || c == '}'
}

/// `s` without its leading braces.
pub open spec fn trim_start_braces(s: Seq<char>) -> Seq<char>
    decreases s.len(),
{
    if s.len() > 0 && is_brace(s[0]) {
        trim_start_braces(s.drop_first())
    } else {
        s
    }
}

/// `s` without its trailing braces.
pub open spec fn trim_end_braces(s: Seq<char>) -> Seq<char>
    decreases s.len(),
{
    if s.len() > 0 && is_brace(s.last()) {
        trim_end_braces(s.drop_last())
    } else {
        s
    }
}

/// `s` with all leading and trailing braces removed, as
/// `str::trim_matches(|c| c == '{' || c == '}')` does.
pub open spec fn trim_braces(s: Seq<char>) -> Seq<char> {
    trim_end_braces(trim_start_braces(s))
}

/// Trimming leaves a sequence without braces at either end untouched, and
/// strips the braces of a placeholder `{s}` down to `s`.
pub proof fn law_trim_braces_placeholder(s: Seq<char>)
    requires
        s.len() > 0 ==> !is_brace(s[0]) && !is_brace(s.last()),
    ensures
        trim_braces(s) == s,
        trim_braces(seq!['{'] + s + seq!['}']) == s,
{
    let p = seq!['{'] + s + seq!['}'];
    assert(p.drop_first() =~= s + seq!['}']);
    let q = s + seq!['}'];
    if s.len() > 0 {
        assert(q[0] == s[0]);
        assert(trim_start_braces(q) == q);
        assert(trim_start_braces(p) == q);
        assert(q.drop_last() =~= s);
        assert(trim_end_braces(q) == trim_end_braces(s));
    } else {
        assert(q =~= seq!['}']);
        assert(q[0] == '}');
        assert(q.drop_first() =~= Seq::<char>::empty());
        assert(trim_start_braces(Seq::<char>::empty()) =~= Seq::<char>::empty());
        assert(trim_start_braces(q) =~= Seq::<char>::empty());
    }
}

/// Trimming keeps a contiguous part of the sequence, with no brace at either end.
pub proof fn lemma_trim_braces_shape(s: Seq<char>) -> (k: int)
    ensures
        0 <= k,
        k + trim_braces(s).len() <= s.len(),
        trim_braces(s) == s.subrange(k, k + trim_braces(s).len()),
        trim_braces(s).len() > 0 ==> !is_brace(trim_braces(s)[0]) && !is_brace(
            trim_braces(s).last(),
        ),
{
    let (k, ts) = lemma_trim_start_shape(s);
    let te = lemma_trim_end_shape(ts);
    let t = trim_braces(s);
    assert(t == ts.take(te));
    assert(t =~= s.subrange(k, k + t.len()));
    if t.len() > 0 {
        assert(t[0] == ts[0]);
    }
    k
}

proof fn lemma_trim_start_shape(s: Seq<char>) -> (r: (int, Seq<char>))
    ensures
        0 <= r.0 <= s.len(),
        r.1 == trim_start_braces(s),
        r.1 == s.skip(r.0),
        r.1.len() > 0 ==> !is_brace(r.1[0]),
    decreases s.len(),
{
    if s.len() > 0 && is_brace(s[0]) {
        let (k, t) = lemma_trim_start_shape(s.drop_first());
        assert(s.drop_first().skip(k) =~= s.skip(k + 1));
        (k + 1, t)
    } else {
        assert(s.skip(0) =~= s);
        (0, s)
    }
}

proof fn lemma_trim_end_shape(s: Seq<char>) -> (k: int)
    ensures
        0 <= k <= s.len(),
        trim_end_braces(s) == s.take(k),
        k > 0 ==> !is_brace(s[k - 1]),
    decreases s.len(),
{
    if s.len() > 0 && is_brace(s.last()) {
        let k = lemma_trim_end_shape(s.drop_last());
        assert(s.drop_last().take(k) =~= s.take(k));
        k
    } else {
        assert(s.take(s.len() as int) =~= s);
        s.len() as int
    }
}

/// Splitting `a`, a separator and `b` splits `a` and `b` apart.
pub proof fn lemma_split_concat(a: Seq<char>, b: Seq<char>, sep: char)
    ensures
        split_on(a + seq![sep] + b, sep) == split_on(a, sep) + split_on(b, sep),
    decreases b.len(),
{
    let t = a + seq![sep] + b;
    if b.len() == 0 {
        assert(t.drop_last() =~= a);
        assert(split_on(b, sep) =~= seq![Seq::<char>::empty()]);
        assert(split_on(a, sep).push(Seq::empty()) =~= split_on(a, sep) + split_on(b, sep));
    } else {
        lemma_split_concat(a, b.drop_last(), sep);
        lemma_split_shape(b.drop_last(), sep);
        assert(t.drop_last() =~= a + seq![sep] + b.drop_last());
        assert(t.last() == b.last());
        let x = split_on(a, sep);
        let y = split_on(b.drop_last(), sep);
        if b.last() == sep {
            assert((x + y).push(Seq::empty()) =~= x + y.push(Seq::empty()));
        } else {
            assert((x + y).update((x + y).len() - 1, (x + y).last().push(b.last())) =~= x
                + y.update(y.len() - 1, y.last().push(b.last())));
        }
    }
}

/// Concatenating all pieces of two lists one after the other.
pub proof fn lemma_concat_all_append(x: Seq<Seq<char>>, y: Seq<Seq<char>>)
    ensures
        concat_all(x + y) == concat_all(x) + concat_all(y),
    decreases y.len(),
{
    if y.len() == 0 {
        assert(x + y =~= x);
        assert(concat_all(x) + concat_all(y) =~= concat_all(x));
    } else {
        lemma_concat_all_append(x, y.drop_last());
        assert((x + y).drop_last() =~= x + y.drop_last());
        assert((x + y).last() == y.last());
        assert(concat_all(x) + concat_all(y.drop_last()) + y.last() =~= concat_all(x) + (concat_all(
            y.drop_last(),
        ) + y.last()));
    }
}

/// The characters of `v` without leading and trailing braces.
pub fn trim_braces_chars(v: &Vec<char>) -> (t: Vec<char>)
    ensures
        t@ == trim_braces(v@),
{
    let n = v.len();
    let mut lo: usize = 0;
    assert(v@.subrange(0, n as int) =~= v@);
    while lo < n && (v[lo] == '{' || v[lo] == '}')
        invariant
            lo <= n == v.len(),
            trim_start_braces(v@) == trim_start_braces(v@.subrange(lo as int, n as int)),
        decreases n - lo,
    {
        assert(v@.subrange(lo as int, n as int).drop_first() =~= v@.subrange(lo + 1, n as int));
        lo += 1;
    }
    let ghost front = v@.subrange(lo as int, n as int);
    assert(trim_start_braces(v@) == front);
    let mut hi: usize = n;
    while hi > lo && (v[hi - 1] == '{' || v[hi - 1] == '}')
        invariant
            lo <= hi <= n == v.len(),
            front == v@.subrange(lo as int, n as int),
            trim_end_braces(front) == trim_end_braces(v@.subrange(lo as int, hi as int)),
        decreases hi - lo,
    {
        assert(v@.subrange(lo as int, hi as int).drop_last() =~= v@.subrange(lo as int, hi - 1));
        hi -= 1;
    }
    let mut t: Vec<char> = Vec::new();
    let mut i: usize = lo;
    while i < hi
        invariant
            lo <= i <= hi <= n == v.len(),
            t@ == v@.subrange(lo as int, i as int),
        decreases hi - i,
    {
        t.push(v[i]);
        i += 1;
        assert(t@ =~= v@.subrange(lo as int, i as int));
    }
    t
}

/// Whether `c` is an ASCII decimal digit.
pub open spec fn is_digit(c: char) -> bool {
    '0' <= c <= '9'
}

/// Whether every character of `s` is an ASCII decimal digit.
pub open spec fn all_digits(s: Seq<char>) -> bool {
    forall|i: int| 0 <= i < s.len() ==> is_digit(#[trigger] s[i])
}

/// The number that the decimal digits `s` spell.
pub open spec fn digits_value(s: Seq<char>) -> nat
    decreases s.len(),
{
    if s.len() == 0 {
        0
    } else {
        digits_value(s.drop_last()) * 10 + (s.last() as nat - '0' as nat) as nat
    }
}

/// The digits of an unsigned decimal: `s` without one leading `+`.
pub open spec fn unsigned_digits(s: Seq<char>) -> Seq<char> {
    if s.len() > 0 && s[0] == '+' {
        s.drop_first()
    } else {
        s
    }
}

/// What `str::parse::<usize>` gives: the value of an optional `+` followed by
/// at least one decimal digit, when it fits in a `usize`; nothing otherwise.
pub open spec fn parse_usize_spec(s: Seq<char>) -> Option<usize> {
    let d = unsigned_digits(s);
    if d.len() > 0 && all_digits(d) && digits_value(d) <= usize::MAX {
        Some(digits_value(d) as usize)
    } else {
        None
    }
}

proof fn lemma_digits_value_prefix(s: Seq<char>, i: int)
    requires
        0 <= i <= s.len(),
        all_digits(s),
    ensures
        digits_value(s.take(i)) <= digits_value(s),
    decreases s.len(),
{
    if i < s.len() {
        assert(s.drop_last().take(i) =~= s.take(i));
        assert(all_digits(s.drop_last())) by {
            assert forall|k: int| 0 <= k < s.drop_last().len() implies is_digit(
                #[trigger] s.drop_last()[k],
            ) by {
                assert(s.drop_last()[k] == s[k]);
            }
        }
        lemma_digits_value_prefix(s.drop_last(), i);
    } else {
        assert(s.take(i) =~= s);
    }
}

/// Parses an unsigned decimal number as `str::parse::<usize>` does.
pub fn parse_usize(s: &str) -> (r: Option<usize>)
    ensures
        r == parse_usize_spec(s@),
{
    let v = chars_of(s);
    let n = v.len();
    let start: usize = if n > 0 && v[0] == '+' {
        1
    } else {
        0
    };
    let ghost d = unsigned_digits(s@);
    assert(d =~= v@.subrange(start as int, n as int));
    if start == n {
        return None;
    }
    let mut acc: usize = 0;
    let mut i: usize = start;
    while i < n
        invariant
            start <= i <= n == v.len(),
            v@ == s@,
            d == unsigned_digits(s@),
            d == v@.subrange(start as int, n as int),
            all_digits(v@.subrange(start as int, i as int)),
            acc as nat == digits_value(v@.subrange(start as int, i as int)),
        decreases n - i,
    {
        let c = v[i];
        let ghost prev = v@.subrange(start as int, i as int);
        let ghost next = v@.subrange(start as int, i + 1);
        assert(next.drop_last() =~= prev);
        assert(next.last() == c);
        if !('0' <= c && c <= '9') {
            assert(d[(i - start) as int] == c);
            assert(!is_digit(d[(i - start) as int]));
            return None;
        }
        let digit = (c as u32 - '0' as u32) as usize;
        assert(all_digits(next)) by {
            assert forall|k: int| 0 <= k < next.len() implies is_digit(#[trigger] next[k]) by {
                if k < prev.len() {
                    assert(next[k] == prev[k]);
                }
            }
        }
        match acc.checked_mul(10) {
            Some(m) => match m.checked_add(digit) {
                Some(a) => {
                    acc = a;
                },
                None => {
                    proof {
                        assert(d.take((i + 1 - start) as int) =~= next);
                        lemma_overflow_rejects(d, next, (i + 1 - start) as int);
                    }
                    return None;
                },
            },
            None => {
                proof {
                    assert(d.take((i + 1 - start) as int) =~= next);
                    lemma_overflow_rejects(d, next, (i + 1 - start) as int);
                }
                return None;
            },
        }
        i += 1;
    }
    Some(acc)
}

proof fn lemma_overflow_rejects(d: Seq<char>, prefix: Seq<char>, k: int)
    requires
        0 <= k <= d.len(),
        prefix == d.take(k),
        digits_value(prefix) > usize::MAX,
    ensures
        !(all_digits(d) && digits_value(d) <= usize::MAX),
{
    if all_digits(d) {
        lemma_digits_value_prefix(d, k);
    }
}

/// The decimal digits of `n`, most significant first, without leading zeros.
pub open spec fn decimal(n: nat) -> Seq<char>
    decreases n,
{
    if n < 10 {
        seq![digit_char(n)]
    } else {
        decimal(n / 10).push(digit_char(n % 10))
    }
}

/// The ASCII digit for `d < 10`.
pub open spec fn digit_char(d: nat) -> char {
    ('0' as nat + d) as char
}

/// Appends the decimal digits of `n` to `s`.
pub fn push_decimal(s: &mut String, n: usize)
    ensures
        final(s)@ == old(s)@ + decimal(n as nat),
    decreases n,
{
    if n >= 10 {
        push_decimal(s, n / 10);
    }
    let d = (n % 10) as u32;
    let c = ('0' as u32 + d) as u8 as char;
    assert(c == digit_char((n % 10) as nat));
    push_char(s, c);
    if n >= 10 {
        assert(old(s)@ + decimal(n as nat) =~= old(s)@ + decimal((n / 10) as nat) + seq![c]);
    } else {
        assert(old(s)@ + decimal(n as nat) =~= old(s)@.push(c));
    }
}

pub proof fn lemma_split_shape(s: Seq<char>, sep: char)
    ensures
        split_on(s, sep).len() >= 1,
        pieces_free_of(split_on(s, sep), sep),
        split_on(s, sep).len() == 1 ==> split_on(s, sep)[0] == s,
    decreases s.len(),
{
    if s.len() > 0 {
        lemma_split_shape(s.drop_last(), sep);
        let init = split_on(s.drop_last(), sep);
        let r = split_on(s, sep);
        if s.last() != sep {
            assert forall|i: int, j: int| 0 <= i < r.len() && 0 <= j < r[i].len() implies r[i][j]
                != sep by {
                if i == init.len() - 1 && j == r[i].len() - 1 {
                } else {
                }
            }
            if r.len() == 1 {
                assert(s.drop_last().push(s.last()) =~= s);
            }
        }
    }
}

/// Joining the pieces of a split gives back the sequence that was split.
pub proof fn lemma_join_split(s: Seq<char>, sep: char)
    ensures
        join_with(split_on(s, sep), sep) == s,
    decreases s.len(),
{
    if s.len() > 0 {
        let t = s.drop_last();
        let c = s.last();
        lemma_join_split(t, sep);
        lemma_split_shape(t, sep);
        let init = split_on(t, sep);
        if c == sep {
            assert(init.push(Seq::empty()).drop_last() =~= init);
            assert(t + seq![sep] + Seq::<char>::empty() =~= s);
        } else {
            lemma_join_extend_last(init, c, sep);
            assert(t.push(c) =~= s);
        }
    }
}

/// Appending a character to the last piece appends it to the join.
pub proof fn lemma_join_extend_last(xs: Seq<Seq<char>>, c: char, sep: char)
    requires
        xs.len() >= 1,
    ensures
        join_with(xs.update(xs.len() - 1, xs.last().push(c)), sep) == join_with(xs, sep).push(c),
{
    let ys = xs.update(xs.len() - 1, xs.last().push(c));
    if xs.len() == 1 {
    } else {
        assert(ys.drop_last() =~= xs.drop_last());
        assert(join_with(xs.drop_last(), sep) + seq![sep] + xs.last().push(c) =~= (join_with(
            xs.drop_last(),
            sep,
        ) + seq![sep] + xs.last()).push(c));
    }
}

/// Splitting a join of separator-free pieces gives back the pieces.
pub proof fn lemma_split_join(xs: Seq<Seq<char>>, sep: char)
    requires
        xs.len() >= 1,
        pieces_free_of(xs, sep),
    ensures
        split_on(join_with(xs, sep), sep) == xs,
    decreases xs.len(), xs.last().len(),
{
    let last = xs.last();
    if last.len() == 0 {
        assert(last =~= Seq::<char>::empty());
        if xs.len() == 1 {
            assert(split_on(Seq::<char>::empty(), sep) =~= xs);
        } else {
            let init = xs.drop_last();
            assert(pieces_free_of(init, sep)) by {
                assert forall|i: int, j: int| 0 <= i < init.len() && 0 <= j < init[i].len() implies init[i][j]
                    != sep by {
                    assert(init[i] == xs[i]);
                }
            }
            lemma_split_join(init, sep);
            let j = join_with(xs, sep);
            assert(j =~= join_with(init, sep).push(sep));
            assert(j.drop_last() =~= join_with(init, sep));
            assert(init.push(Seq::empty()) =~= xs);
        }
    } else {
        let c = last.last();
        let ys = xs.update(xs.len() - 1, last.drop_last());
        assert(pieces_free_of(ys, sep)) by {
            assert forall|i: int, j: int| 0 <= i < ys.len() && 0 <= j < ys[i].len() implies ys[i][j]
                != sep by {
                if i == xs.len() - 1 {
                    assert(ys[i][j] == xs[i][j]);
                } else {
                    assert(ys[i] == xs[i]);
                }
            }
        }
        assert(c != sep) by {
            assert(xs[xs.len() - 1][last.len() - 1] != sep);
        }
        lemma_split_join(ys, sep);
        lemma_join_extend_last(ys, c, sep);
        assert(ys.update(ys.len() - 1, ys.last().push(c)) =~= xs) by {
            assert(last.drop_last().push(c) =~= last);
        }
        let j = join_with(xs, sep);
        assert(j.drop_last() =~= join_with(ys, sep));
        assert(j.last() == c);
        lemma_split_shape(join_with(ys, sep), sep);
    }
}

} // verus!
