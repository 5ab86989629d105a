//! The actix route that remains of an endpoint path once the scope segments
//! it is registered under are stripped.

use vstd::prelude::*;

use crate::text::{
    chars_of, join_with, lemma_join_split, lemma_split_join, lemma_split_shape, pieces_free_of,
    push_all, push_char, skip_pieces, split_chars, split_on,
};

verus! {


/// Whether the sequence ends with `c`.
pub open spec fn ends_with_char(s: Seq<char>, c: char) -> bool {
    s.len() > 0 && s.last() == c
}

/// The route that remains of `path` once its first `depth` segments are
/// stripped: the `/`-separated segments from index `depth` on, joined by `/`;
/// a trailing slash of `path` survives as `"/"` when nothing else is left.
pub open spec fn spec_route_path(path: Seq<char>, depth: nat) -> Seq<char> {
    let joined = join_with(skip_pieces(split_on(path, '/'), depth), '/');
    if joined.len() == 0 && ends_with_char(path, '/') {
        seq!['/']
    } else {
        joined
    }
}

/// Strip `depth` leading path segments to produce an actix-web route path.
///
/// A trailing slash is preserved: `"itemdata/"` with depth 1 yields `"/"`, not `""`.
pub fn route_path_after_depth(path: &str, depth: usize) -> (route: String)
    ensures
        route@ == spec_route_path(path@, depth as nat),
{
    let chars = chars_of(path);
    let pieces = split_chars(&chars, '/');
    let ghost ps = pieces.deep_view();
    let mut out = String::new();
    if depth < pieces.len() {
        let mut i: usize = depth;
        assert(ps.subrange(depth as int, depth as int) =~= Seq::<Seq<char>>::empty());
        while i < pieces.len()
            invariant
                depth <= i <= pieces.len(),
                ps == pieces.deep_view(),
                out@ == join_with(ps.subrange(depth as int, i as int), '/'),
            decreases pieces.len() - i,
        {
            let ghost prev = ps.subrange(depth as int, i as int);
            let ghost next = ps.subrange(depth as int, i + 1);
            assert(next.drop_last() =~= prev);
            assert(next.last() == ps[i as int]);
            if i > depth {
                push_char(&mut out, '/');
            } else {
                assert(next =~= seq![ps[i as int]]);
            }
            assert(pieces[i as int]@ == ps[i as int]) by {
                assert(pieces[i as int].deep_view() =~= pieces[i as int]@);
            }
            push_all(&mut out, &pieces[i]);
            i += 1;
        }
        assert(ps.subrange(depth as int, pieces.len() as int) =~= ps.skip(depth as int));
    }
    let n = chars.len();
    if out.as_str().is_empty() && n > 0 && chars[n - 1] == '/' {
        let mut slash = String::new();
        push_char(&mut slash, '/');
        slash
    } else {
        out
    }
}


/// Whether `suffix` is a suffix of `s`.
pub open spec fn is_suffix_of(suffix: Seq<char>, s: Seq<char>) -> bool {
    suffix.len() <= s.len() && s.skip(s.len() - suffix.len()) == suffix
}

/// Stripping no segment leaves the path as it is.
pub proof fn law_route_depth_zero_is_identity(path: Seq<char>)
    ensures
        spec_route_path(path, 0) == path,
{
    let xs = split_on(path, '/');
    lemma_split_shape(path, '/');
    lemma_join_split(path, '/');
    assert(skip_pieces(xs, 0) =~= xs);
}

/// The route is always a suffix of the path it was cut from.
pub proof fn law_route_is_suffix_of_path(path: Seq<char>, depth: nat)
    ensures
        is_suffix_of(spec_route_path(path, depth), path),
{
    let xs = split_on(path, '/');
    lemma_split_shape(path, '/');
    lemma_join_split(path, '/');
    let joined = join_with(skip_pieces(xs, depth), '/');
    if depth == 0 {
        law_route_depth_zero_is_identity(path);
        assert(path.skip(0) =~= path);
    } else if depth < xs.len() {
        lemma_join_cut(xs, depth as int, '/');
        let front = join_with(xs.take(depth as int), '/');
        assert(path.skip(front.len() + 1 as int) =~= joined);
        if joined.len() == 0 && ends_with_char(path, '/') {
            assert(path.skip(path.len() - 1) =~= seq!['/']);
        }
    } else {
        assert(joined =~= Seq::<char>::empty());
        if ends_with_char(path, '/') {
            assert(path.skip(path.len() - 1) =~= seq!['/']);
        } else {
            assert(path.skip(path.len() as int) =~= Seq::<char>::empty());
        }
    }
}

/// A trailing slash on the path is kept on the route, whatever the depth.
pub proof fn law_route_keeps_trailing_slash(path: Seq<char>, depth: nat)
    requires
        ends_with_char(path, '/'),
    ensures
        ends_with_char(spec_route_path(path, depth), '/'),
{
    law_route_is_suffix_of_path(path, depth);
    let r = spec_route_path(path, depth);
    if r.len() > 0 {
        assert(r.last() == path.skip(path.len() - r.len()).last());
    }
}

/// Stripping `a` segments and then `b` more is the same as stripping `a + b`.
pub proof fn law_route_strips_compose(path: Seq<char>, a: nat, b: nat)
    ensures
        spec_route_path(spec_route_path(path, a), b) == spec_route_path(path, a + b),
{
    let xs = split_on(path, '/');
    lemma_split_shape(path, '/');
    lemma_join_split(path, '/');
    let n = xs.len();
    let joined = join_with(skip_pieces(xs, a), '/');
    let r1 = spec_route_path(path, a);
    if a < n {
        let rest = xs.skip(a as int);
        assert(pieces_free_of(rest, '/'));
        lemma_join_tail_shape(rest, '/');
        lemma_join_tail_shape(xs, '/');
        assert(rest.last() == xs.last());
        if joined.len() == 0 {
            assert(rest.len() == 1 && rest[0].len() == 0);
            assert(a == n - 1);
            if ends_with_char(path, '/') {
                lemma_slash_route(b);
                assert(skip_pieces(xs, a + b).len() <= 1);
                if a + b == n - 1 {
                    assert(skip_pieces(xs, a + b) =~= rest);
                } else {
                    assert(skip_pieces(xs, a + b) =~= Seq::<Seq<char>>::empty());
                }
            } else {
                assert(n == 1);
                assert(path.len() == 0);
                assert(r1 =~= path);
            }
        } else {
            assert(r1 == joined);
            lemma_split_join(rest, '/');
            assert(split_on(r1, '/') == rest);
            assert(skip_pieces(rest, b) =~= skip_pieces(xs, a + b));
            assert(ends_with_char(r1, '/') == ends_with_char(path, '/'));
        }
    } else {
        assert(joined =~= Seq::<char>::empty());
        assert(skip_pieces(xs, a + b) =~= Seq::<Seq<char>>::empty());
        if ends_with_char(path, '/') {
            lemma_slash_route(b);
        } else {
            lemma_empty_route(b);
        }
    }
}

/// The route of `"/"` is `"/"` at every depth.
proof fn lemma_slash_route(b: nat)
    ensures
        spec_route_path(seq!['/'], b) == seq!['/'],
{
    let s = seq!['/'];
    let e = Seq::<char>::empty();
    assert(s.drop_last() =~= e);
    assert(split_on(e, '/') =~= seq![e]);
    assert(split_on(s, '/') =~= seq![e, e]);
    let xs = seq![e, e];
    if b == 0 {
        assert(skip_pieces(xs, b) =~= xs);
        assert(xs.drop_last() =~= seq![e]);
        assert(join_with(seq![e], '/') == e);
        assert(xs.last() == e);
        assert(e + seq!['/'] + e =~= s);
        assert(join_with(xs, '/') =~= s);
    } else if b == 1 {
        assert(skip_pieces(xs, b) =~= seq![e]);
    } else {
        assert(skip_pieces(xs, b) =~= Seq::<Seq<char>>::empty());
    }
}

/// The route of the empty path is empty at every depth.
proof fn lemma_empty_route(b: nat)
    ensures
        spec_route_path(Seq::empty(), b) == Seq::<char>::empty(),
{
    let e = Seq::<char>::empty();
    assert(split_on(e, '/') =~= seq![e]);
    if b == 0 {
        assert(skip_pieces(seq![e], b) =~= seq![e]);
    } else {
        assert(skip_pieces(seq![e], b) =~= Seq::<Seq<char>>::empty());
    }
}

/// How the end of a join looks, for separator-free pieces.
proof fn lemma_join_tail_shape(xs: Seq<Seq<char>>, sep: char)
    requires
        xs.len() >= 1,
        pieces_free_of(xs, sep),
    ensures
        xs.len() == 1 ==> join_with(xs, sep) == xs[0],
        xs.len() >= 2 ==> join_with(xs, sep).len() > 0,
        xs.last().len() > 0 ==> join_with(xs, sep).len() > 0 && join_with(xs, sep).last()
            == xs.last().last() && join_with(xs, sep).last() != sep,
        xs.last().len() == 0 && xs.len() >= 2 ==> join_with(xs, sep).last() == sep,
        join_with(xs, sep).len() == 0 ==> xs.len() == 1 && xs[0].len() == 0,
{
    if xs.last().len() > 0 {
        assert(xs[xs.len() - 1][xs.last().len() - 1] != sep);
    }
}

/// A join splits into the join of the first `d` pieces, a separator, and the join of the rest.
proof fn lemma_join_cut(xs: Seq<Seq<char>>, d: int, sep: char)
    requires
        0 < d < xs.len(),
    ensures
        join_with(xs, sep) == join_with(xs.take(d), sep) + seq![sep] + join_with(xs.skip(d), sep),
    decreases xs.len(),
{
    if d == xs.len() - 1 {
        assert(xs.take(d) =~= xs.drop_last());
        assert(xs.skip(d) =~= seq![xs.last()]);
    } else {
        let init = xs.drop_last();
        lemma_join_cut(init, d, sep);
        assert(init.take(d) =~= xs.take(d));
        assert(xs.skip(d).drop_last() =~= init.skip(d));
        assert(xs.skip(d).last() == xs.last());
    }
}

} // verus!
