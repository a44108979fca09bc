//! Specification-level text builders shared by the renderers' contracts:
//! repeated fill characters, and the three ways of joining a sequence of
//! texts, with the decomposition lemmas that the rendering loops rest on.

use vstd::prelude::*;

verus! {

/// `n` copies of the character `c`.
pub open spec fn repeat_char(c: char, n: nat) -> Seq<char> {
    Seq::new(n, |i: int| c)
}

/// The length of the text's UTF-8 encoding: the measure the byte
/// counters use.
pub open spec fn byte_len(t: Seq<char>) -> nat {
    vstd::utf8::encode_utf8(t).len()
}

/// A text's UTF-8 encoding is at least as long as the text itself:
/// every character takes at least one byte.
pub proof fn lemma_byte_len_ge_len(t: Seq<char>)
    ensures
        byte_len(t) >= t.len(),
    decreases t.len(),
{
    if t.len() > 0 {
        lemma_byte_len_ge_len(t.drop_first());
        assert(vstd::utf8::encode_scalar(t[0] as u32).len() >= 1);
    }
}

/// The given texts, each one followed by `sep`.
pub open spec fn cat_sep(ts: Seq<Seq<char>>, sep: Seq<char>) -> Seq<char>
    decreases ts.len(),
{
    if ts.len() == 0 {
        Seq::empty()
    } else {
        ts[0] + sep + cat_sep(ts.drop_first(), sep)
    }
}

/// The given texts joined with `sep` between consecutive ones; nothing
/// follows the last text.
pub open spec fn joined_text(ts: Seq<Seq<char>>, sep: Seq<char>) -> Seq<char>
    decreases ts.len(),
{
    if ts.len() == 0 {
        Seq::empty()
    } else if ts.len() == 1 {
        ts[0]
    } else {
        ts[0] + sep + joined_text(ts.drop_first(), sep)
    }
}

/// The given texts joined with `sep` between consecutive ones and `fin`
/// after the last one.
pub open spec fn joined_text_fin(ts: Seq<Seq<char>>, sep: Seq<char>, fin: Seq<char>) -> Seq<char>
    decreases ts.len(),
{
    if ts.len() == 0 {
        Seq::empty()
    } else if ts.len() == 1 {
        ts[0] + fin
    } else {
        ts[0] + sep + joined_text_fin(ts.drop_first(), sep, fin)
    }
}

/// Law: joining no texts yields the empty text, whatever the
/// separator; joining one text yields exactly that text with no
/// separator; joining three texts puts the separator exactly between
/// consecutive texts.
pub proof fn lemma_joined_round_trip(a: Seq<char>, b: Seq<char>, c: Seq<char>, sep: Seq<char>)
    ensures
        joined_text(Seq::<Seq<char>>::empty(), sep) == Seq::<char>::empty(),
        joined_text(seq![a], sep) == a,
        joined_text(seq![a, b, c], sep) == a + sep + b + sep + c,
{
    assert(seq![a, b, c].drop_first() =~= seq![b, c]);
    assert(seq![b, c].drop_first() =~= seq![c]);
    assert(joined_text(seq![c], sep) == c);
    assert(joined_text(seq![b, c], sep) == b + sep + c);
    assert(a + sep + (b + sep + c) =~= a + sep + b + sep + c);
}

/// Taking one more text extends `cat_sep` by that text and a separator.
pub proof fn lemma_cat_sep_take_step(ts: Seq<Seq<char>>, sep: Seq<char>, k: int)
    requires
        0 <= k < ts.len(),
    ensures
        cat_sep(ts.take(k + 1), sep) == cat_sep(ts.take(k), sep) + ts[k] + sep,
    decreases k,
{
    if k == 0 {
        assert(ts.take(0) =~= Seq::<Seq<char>>::empty());
        assert(ts.take(1).drop_first() =~= Seq::<Seq<char>>::empty());
        assert(cat_sep(ts.take(1), sep) =~= cat_sep(ts.take(0), sep) + ts[0] + sep);
    } else {
        let tl = ts.drop_first();
        lemma_cat_sep_take_step(tl, sep, k - 1);
        assert(ts.take(k + 1).drop_first() =~= tl.take(k));
        assert(ts.take(k).drop_first() =~= tl.take(k - 1));
        assert(ts.take(k + 1)[0] == ts[0]);
        assert(ts.take(k)[0] == ts[0]);
        assert(cat_sep(ts.take(k + 1), sep) == ts[0] + sep + cat_sep(tl.take(k), sep));
        assert(cat_sep(ts.take(k), sep) == ts[0] + sep + cat_sep(tl.take(k - 1), sep));
        assert(tl[k - 1] == ts[k]);
        assert(ts[0] + sep + (cat_sep(tl.take(k - 1), sep) + tl[k - 1] + sep) =~= (ts[0] + sep
            + cat_sep(tl.take(k - 1), sep)) + ts[k] + sep);
    }
}

/// A join splits, at any position, into the finished prefix (every text
/// followed by a separator) and the join of the rest.
pub proof fn lemma_joined_decompose(ts: Seq<Seq<char>>, sep: Seq<char>, k: int)
    requires
        0 <= k < ts.len(),
    ensures
        joined_text(ts, sep) == cat_sep(ts.take(k), sep) + joined_text(ts.skip(k), sep),
    decreases k,
{
    if k == 0 {
        assert(ts.take(0) =~= Seq::<Seq<char>>::empty());
        assert(ts.skip(0) =~= ts);
        assert(cat_sep(ts.take(0), sep) + joined_text(ts, sep) =~= joined_text(ts, sep));
    } else {
        let tl = ts.drop_first();
        lemma_joined_decompose(tl, sep, k - 1);
        assert(ts.take(k).drop_first() =~= tl.take(k - 1));
        assert(ts.take(k)[0] == ts[0]);
        assert(ts.skip(k) =~= tl.skip(k - 1));
        assert(joined_text(ts, sep) == ts[0] + sep + joined_text(tl, sep));
        assert(cat_sep(ts.take(k), sep) == ts[0] + sep + cat_sep(tl.take(k - 1), sep));
        assert((ts[0] + sep + cat_sep(tl.take(k - 1), sep)) + joined_text(tl.skip(k - 1), sep)
            =~= ts[0] + sep + (cat_sep(tl.take(k - 1), sep) + joined_text(tl.skip(k - 1), sep)));
    }
}

/// The analogue of [`lemma_joined_decompose`] for a join with a final
/// separator.
pub proof fn lemma_joined_fin_decompose(
    ts: Seq<Seq<char>>,
    sep: Seq<char>,
    fin: Seq<char>,
    k: int,
)
    requires
        0 <= k < ts.len(),
    ensures
        joined_text_fin(ts, sep, fin) == cat_sep(ts.take(k), sep) + joined_text_fin(
            ts.skip(k),
            sep,
            fin,
        ),
    decreases k,
{
    if k == 0 {
        assert(ts.take(0) =~= Seq::<Seq<char>>::empty());
        assert(ts.skip(0) =~= ts);
        assert(cat_sep(ts.take(0), sep) + joined_text_fin(ts, sep, fin) =~= joined_text_fin(
            ts,
            sep,
            fin,
        ));
    } else {
        let tl = ts.drop_first();
        lemma_joined_fin_decompose(tl, sep, fin, k - 1);
        assert(ts.take(k).drop_first() =~= tl.take(k - 1));
        assert(ts.take(k)[0] == ts[0]);
        assert(ts.skip(k) =~= tl.skip(k - 1));
        assert(joined_text_fin(ts, sep, fin) == ts[0] + sep + joined_text_fin(tl, sep, fin));
        assert(cat_sep(ts.take(k), sep) == ts[0] + sep + cat_sep(tl.take(k - 1), sep));
        assert((ts[0] + sep + cat_sep(tl.take(k - 1), sep)) + joined_text_fin(
            tl.skip(k - 1),
            sep,
            fin,
        ) =~= ts[0] + sep + (cat_sep(tl.take(k - 1), sep) + joined_text_fin(
            tl.skip(k - 1),
            sep,
            fin,
        )));
    }
}

/// The analogue of [`lemma_joined_decompose`] for `cat_sep` itself.
pub proof fn lemma_cat_sep_decompose(ts: Seq<Seq<char>>, sep: Seq<char>, k: int)
    requires
        0 <= k < ts.len(),
    ensures
        cat_sep(ts, sep) == cat_sep(ts.take(k), sep) + cat_sep(ts.skip(k), sep),
    decreases k,
{
    if k == 0 {
        assert(ts.take(0) =~= Seq::<Seq<char>>::empty());
        assert(ts.skip(0) =~= ts);
        assert(cat_sep(ts.take(0), sep) + cat_sep(ts, sep) =~= cat_sep(ts, sep));
    } else {
        let tl = ts.drop_first();
        lemma_cat_sep_decompose(tl, sep, k - 1);
        assert(ts.take(k).drop_first() =~= tl.take(k - 1));
        assert(ts.take(k)[0] == ts[0]);
        assert(ts.skip(k) =~= tl.skip(k - 1));
        assert(cat_sep(ts, sep) == ts[0] + sep + cat_sep(tl, sep));
        assert(cat_sep(ts.take(k), sep) == ts[0] + sep + cat_sep(tl.take(k - 1), sep));
        assert((ts[0] + sep + cat_sep(tl.take(k - 1), sep)) + cat_sep(tl.skip(k - 1), sep) =~= ts[0]
            + sep + (cat_sep(tl.take(k - 1), sep) + cat_sep(tl.skip(k - 1), sep)));
    }
}

} // verus!
