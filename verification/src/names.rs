//! Lists of names separated by a character, as in `LISTEN_FDNAMES`.
use vstd::prelude::*;

verus! {

/// The pieces of `s` between the occurrences of `sep`, in order, as
/// `str::split` yields them: an empty text is one empty piece, and two
/// separators in a row leave an empty piece between them.
pub open spec fn split_spec(s: Seq<char>, sep: char) -> Seq<Seq<char>>
    decreases s.len(),
{
    if s.len() == 0 {
        seq![Seq::<char>::empty()]
    } else {
        let init = split_spec(s.drop_last(), sep);
        if s.last() == sep {
            init.push(Seq::<char>::empty())
        } else {
            init.update(init.len() - 1, init.last().push(s.last()))
        }
    }
}

/// The pieces written one after the other with `sep` between each two.
pub open spec fn join_spec(parts: Seq<Seq<char>>, sep: char) -> Seq<char>
    decreases parts.len(),
{
    if parts.len() == 0 {
        Seq::<char>::empty()
    } else if parts.len() == 1 {
        parts[0]
    } else {
        join_spec(parts.drop_last(), sep).push(sep) + parts.last()
    }
}

/// The views of a list of strings.
pub open spec fn string_views(v: Seq<String>) -> Seq<Seq<char>> {
    v.map_values(|p: String| p@)
}

/// Splitting always gives at least one piece.
pub proof fn lemma_split_nonempty(s: Seq<char>, sep: char)
    ensures
        split_spec(s, sep).len() >= 1,
    decreases s.len(),
{
    if s.len() > 0 {
        lemma_split_nonempty(s.drop_last(), sep);
    }
}

/// Law: no piece holds the separator.
pub proof fn lemma_split_pieces_lack_separator(s: Seq<char>, sep: char)
    ensures
        forall|i: int|
            0 <= i < split_spec(s, sep).len() ==> !(#[trigger] split_spec(s, sep)[i]).contains(sep),
    decreases s.len(),
{
    if s.len() > 0 {
        let init = split_spec(s.drop_last(), sep);
        lemma_split_nonempty(s.drop_last(), sep);
        lemma_split_pieces_lack_separator(s.drop_last(), sep);
        let r = split_spec(s, sep);
        assert forall|i: int| 0 <= i < r.len() implies !(#[trigger] r[i]).contains(sep) by {
            if s.last() == sep {
                if i < init.len() {
                    assert(r[i] == init[i]);
                } else {
                    assert(r[i] =~= Seq::<char>::empty());
                }
            } else {
                if i < init.len() - 1 {
                    assert(r[i] == init[i]);
                } else {
                    let p = init.last();
                    assert(r[i] == p.push(s.last()));
                    assert(!p.contains(sep)) by {
                        assert(p == init[init.len() - 1]);
                    }
                    if r[i].contains(sep) {
                        let j = choose|j: int| 0 <= j < r[i].len() && r[i][j] == sep;
                        if j < p.len() {
                            assert(p[j] == sep);
                        }
                    }
                }
            }
        }
    }
}

/// Law: writing the pieces back with the separator between them gives the
/// text that was split.
pub proof fn lemma_split_join(s: Seq<char>, sep: char)
    ensures
        join_spec(split_spec(s, sep), sep) == s,
    decreases s.len(),
{
    if s.len() == 0 {
        assert(join_spec(split_spec(s, sep), sep) =~= s);
    } else {
        let init = split_spec(s.drop_last(), sep);
        lemma_split_nonempty(s.drop_last(), sep);
        lemma_split_join(s.drop_last(), sep);
        let r = split_spec(s, sep);
        if s.last() == sep {
            assert(r.drop_last() =~= init);
            assert(join_spec(r, sep) =~= s);
        } else {
            let u = init.update(init.len() - 1, init.last().push(s.last()));
            if init.len() == 1 {
                assert(join_spec(u, sep) =~= s);
            } else {
                assert(u.drop_last() =~= init.drop_last());
                let a = join_spec(init.drop_last(), sep).push(sep);
                assert(join_spec(init, sep) == a + init.last());
                assert(u.last() == init.last().push(s.last()));
                assert(join_spec(u, sep) == a + u.last());
                assert(a + init.last().push(s.last()) =~= (a + init.last()).push(s.last()));
                assert(s =~= s.drop_last().push(s.last()));
            }
        }
    }
}

/// Text without the separator only lengthens the last piece.
proof fn lemma_split_append_plain(x: Seq<char>, b: Seq<char>, sep: char)
    requires
        !b.contains(sep),
    ensures
        split_spec(x + b, sep) == split_spec(x, sep).update(
            split_spec(x, sep).len() - 1,
            split_spec(x, sep).last() + b,
        ),
    decreases b.len(),
{
    lemma_split_nonempty(x, sep);
    let sx = split_spec(x, sep);
    if b.len() == 0 {
        assert(x + b =~= x);
        assert(sx.last() + b =~= sx.last());
        assert(sx.update(sx.len() - 1, sx.last() + b) =~= sx);
    } else {
        let b0 = b.drop_last();
        assert(!b0.contains(sep)) by {
            if b0.contains(sep) {
                let j = choose|j: int| 0 <= j < b0.len() && b0[j] == sep;
                assert(b[j] == sep);
            }
        }
        assert(b.last() != sep) by {
            assert(b[b.len() - 1] == b.last());
        }
        lemma_split_append_plain(x, b0, sep);
        assert((x + b).drop_last() =~= x + b0);
        assert((x + b).last() == b.last());
        let s0 = split_spec(x + b0, sep);
        assert(s0 == sx.update(sx.len() - 1, sx.last() + b0));
        assert(s0.last() == sx.last() + b0);
        assert((sx.last() + b0).push(b.last()) =~= sx.last() + b);
        assert(split_spec(x + b, sep) =~= sx.update(sx.len() - 1, sx.last() + b));
    }
}

/// Law: a list of names that hold no separator, written with the separator
/// between each two, is split back into exactly those names. This is how
/// systemd writes `LISTEN_FDNAMES` and how the names are read.
pub proof fn lemma_join_split(parts: Seq<Seq<char>>, sep: char)
    requires
        parts.len() >= 1,
        forall|i: int| 0 <= i < parts.len() ==> !(#[trigger] parts[i]).contains(sep),
    ensures
        split_spec(join_spec(parts, sep), sep) == parts,
    decreases parts.len(),
{
    let e = Seq::<char>::empty();
    if parts.len() == 1 {
        lemma_split_append_plain(e, parts[0], sep);
        assert(e + parts[0] =~= parts[0]);
        assert(split_spec(e, sep) =~= seq![e]);
        assert(split_spec(join_spec(parts, sep), sep) =~= parts);
    } else {
        let init = parts.drop_last();
        assert forall|i: int| 0 <= i < init.len() implies !(#[trigger] init[i]).contains(sep) by {
            assert(init[i] == parts[i]);
        }
        lemma_join_split(init, sep);
        let j = join_spec(init, sep);
        let jp = j.push(sep);
        assert(jp.drop_last() =~= j);
        assert(split_spec(jp, sep) == split_spec(j, sep).push(e));
        assert(!parts.last().contains(sep)) by {
            assert(parts.last() == parts[parts.len() - 1]);
        }
        lemma_split_append_plain(jp, parts.last(), sep);
        assert(e + parts.last() =~= parts.last());
        assert(split_spec(join_spec(parts, sep), sep) =~= parts);
    }
}

/// The pieces of `s` between the occurrences of `sep`.
pub fn split_on(s: &str, sep: char) -> (r: Vec<String>)
    ensures
        string_views(r@) == split_spec(s@, sep),
{
    let len = s.unicode_len();
    let mut pieces: Vec<String> = Vec::new();
    let mut start: usize = 0;
    let mut i: usize = 0;
    assert(s@.take(0) =~= Seq::<char>::empty());
    assert(string_views(pieces@).push(s@.subrange(0, 0)) =~= split_spec(s@.take(0), sep));
    while i < len
        invariant
            len == s@.len(),
            start <= i <= len,
            split_spec(s@.take(i as int), sep) =~= string_views(pieces@).push(
                s@.subrange(start as int, i as int),
            ),
        decreases len - i,
    {
        let c = s.get_char(i);
        let ghost old_views = string_views(pieces@);
        let ghost old_start = start;
        assert(s@.take(i + 1).drop_last() =~= s@.take(i as int));
        assert(s@.take(i + 1).last() == c);
        let ghost cur = s@.subrange(start as int, i as int);
        assert(split_spec(s@.take(i + 1), sep) == (if c == sep {
            split_spec(s@.take(i as int), sep).push(Seq::<char>::empty())
        } else {
            split_spec(s@.take(i as int), sep).update(
                split_spec(s@.take(i as int), sep).len() - 1,
                split_spec(s@.take(i as int), sep).last().push(c),
            )
        }));
        if c == sep {
            let piece = s.substring_char(start, i).to_owned();
            pieces.push(piece);
            start = i + 1;
            assert(string_views(pieces@) =~= old_views.push(cur));
            assert(s@.subrange(start as int, i + 1) =~= Seq::<char>::empty());
            assert(split_spec(s@.take(i + 1), sep) =~= string_views(pieces@).push(
                s@.subrange(start as int, i + 1),
            ));
        } else {
            assert(s@.subrange(start as int, i + 1) =~= cur.push(c));
            assert(split_spec(s@.take(i + 1), sep) =~= old_views.push(cur.push(c)));
        }
        i = i + 1;
    }
    let last = s.substring_char(start, len).to_owned();
    let ghost views_before = string_views(pieces@);
    pieces.push(last);
    assert(s@.take(len as int) =~= s@);
    assert(string_views(pieces@) =~= views_before.push(s@.subrange(start as int, len as int)));
    pieces
}

} // verus!
