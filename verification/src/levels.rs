//! Definition/repetition level encoding for the repeated item list.
//!
//! A nested columnar format stores the variable-length item lists as flat
//! columns plus, per leaf column, two level vectors.  The definition level
//! of an entry says how many optional ancestors are present: a leaf in item
//! tier `k` carries the constant `1 + k` for every real value (the repeated
//! list itself counts as the first level), and `0` for the placeholder that
//! an empty frame still emits, so per-frame group boundaries stay
//! reconstructible.  The repetition level is `0` for the entry that starts
//! a new frame's list (or the placeholder of an empty one) and `1` for
//! every further item within the same frame.
//!
//! Decoding the two vectors recovers the exact per-frame item counts; the
//! round trip is proved below.

use vstd::prelude::*;

verus! {

/// Definition levels one frame contributes: a lone placeholder `0` for an
/// empty list, else the column's constant `d` once per item.
pub open spec fn frame_def_levels(c: usize, d: u8) -> Seq<u8> {
    if c == 0 {
        seq![0u8]
    } else {
        Seq::new(c as nat, |i: int| d)
    }
}

/// Repetition levels one frame contributes: `0` opens the frame's list,
/// `1` marks each further item within it.
pub open spec fn frame_rep_levels(c: usize) -> Seq<u8> {
    if c == 0 {
        seq![0u8]
    } else {
        seq![0u8] + Seq::new((c - 1) as nat, |i: int| 1u8)
    }
}

/// Definition levels of a whole batch, frame by frame, for a leaf column
/// whose constant definition level is `d`.
pub open spec fn def_levels(counts: Seq<usize>, d: u8) -> Seq<u8>
    decreases counts.len(),
{
    if counts.len() == 0 {
        Seq::empty()
    } else {
        def_levels(counts.drop_last(), d) + frame_def_levels(counts.last(), d)
    }
}

/// Repetition levels of a whole batch, frame by frame.
pub open spec fn rep_levels(counts: Seq<usize>) -> Seq<u8>
    decreases counts.len(),
{
    if counts.len() == 0 {
        Seq::empty()
    } else {
        rep_levels(counts.drop_last()) + frame_rep_levels(counts.last())
    }
}

/// One decoding step: what one (definition, repetition) entry does to the
/// per-frame counts recovered so far.  `None` is a malformed pair: a
/// repetition level other than 0 or 1, a continuation entry with nothing to
/// continue (no open frame, or an empty-frame placeholder), or a
/// continuation carrying definition level 0.
pub open spec fn decode_step(counts: Seq<usize>, def: u8, rep: u8) -> Option<Seq<usize>> {
    if rep == 0 {
        if def == 0 {
            Some(counts.push(0))
        } else {
            Some(counts.push(1))
        }
    } else if rep == 1 && def != 0 {
        if counts.len() > 0 && 1 <= counts.last() && counts.last() < usize::MAX {
            Some(counts.update(counts.len() - 1, (counts.last() + 1) as usize))
        } else {
            None
        }
    } else {
        None
    }
}

/// Folds [`decode_step`] over paired level vectors.
pub open spec fn decode_loop(def: Seq<u8>, rep: Seq<u8>, acc: Seq<usize>) -> Option<Seq<usize>>
    recommends
        def.len() == rep.len(),
    decreases def.len(),
{
    if def.len() == 0 {
        Some(acc)
    } else {
        match decode_step(acc, def[0], rep[0]) {
            Some(a2) => decode_loop(def.drop_first(), rep.drop_first(), a2),
            None => None,
        }
    }
}

/// Re-expansion of paired level vectors into per-frame item counts, or
/// `None` where the vectors are malformed.
pub open spec fn decode_levels(def: Seq<u8>, rep: Seq<u8>) -> Option<Seq<usize>> {
    if def.len() == rep.len() {
        decode_loop(def, rep, Seq::empty())
    } else {
        None
    }
}

/// Computes the two level vectors of a leaf item column from the per-frame
/// item counts, with `d` the column's constant definition level.
pub fn item_levels(counts: &Vec<usize>, d: u8) -> (r: (Vec<u8>, Vec<u8>))
    ensures
        r.0@ == def_levels(counts@, d),
        r.1@ == rep_levels(counts@),
{
    let n = counts.len();
    let mut def: Vec<u8> = Vec::new();
    let mut rep: Vec<u8> = Vec::new();
    let mut k: usize = 0;
    while k < n
        invariant
            0 <= k <= n,
            n == counts@.len(),
            def@ == def_levels(counts@.subrange(0, k as int), d),
            rep@ == rep_levels(counts@.subrange(0, k as int)),
        decreases n - k,
    {
        let c = counts[k];
        let ghost def0 = def@;
        let ghost rep0 = rep@;
        if c == 0 {
            def.push(0);
            rep.push(0);
            proof {
                assert(def@ =~= def0 + frame_def_levels(0, d));
                assert(rep@ =~= rep0 + frame_rep_levels(0));
            }
        } else {
            def.push(d);
            rep.push(0);
            proof {
                assert(def@ =~= def0 + Seq::new(1nat, |j: int| d));
                assert(rep@ =~= rep0 + (seq![0u8] + Seq::new(0nat, |j: int| 1u8)));
            }
            let mut i: usize = 1;
            while i < c
                invariant
                    1 <= i <= c,
                    def@ == def0 + Seq::new(i as nat, |j: int| d),
                    rep@ == rep0 + (seq![0u8] + Seq::new((i - 1) as nat, |j: int| 1u8)),
                decreases c - i,
            {
                def.push(d);
                rep.push(1);
                i += 1;
                proof {
                    assert(def@ =~= def0 + Seq::new(i as nat, |j: int| d));
                    assert(rep@ =~= rep0 + (seq![0u8] + Seq::new((i - 1) as nat, |j: int| 1u8)));
                }
            }
            proof {
                assert(def@ =~= def0 + frame_def_levels(c, d));
                assert(rep@ =~= rep0 + frame_rep_levels(c));
            }
        }
        k += 1;
        proof {
            assert(counts@.subrange(0, k as int).drop_last() =~= counts@.subrange(0, k - 1));
            assert(counts@.subrange(0, k as int).last() == counts@[k - 1]);
        }
    }
    proof {
        assert(counts@.subrange(0, n as int) =~= counts@);
    }
    (def, rep)
}

/// Re-expands paired level vectors into the per-frame item counts they
/// encode, or `None` where the vectors are malformed.
pub fn decode_item_levels(def: &Vec<u8>, rep: &Vec<u8>) -> (r: Option<Vec<usize>>)
    ensures
        match r {
            Some(v) => decode_levels(def@, rep@) == Some(v@),
            None => decode_levels(def@, rep@) is None,
        },
{
    if def.len() != rep.len() {
        return None;
    }
    let n = def.len();
    let mut acc: Vec<usize> = Vec::new();
    let mut i: usize = 0;
    proof {
        assert(def@.skip(0) =~= def@);
        assert(rep@.skip(0) =~= rep@);
    }
    while i < n
        invariant
            0 <= i <= n,
            n == def@.len(),
            n == rep@.len(),
            decode_loop(def@, rep@, Seq::empty()) == decode_loop(
                def@.skip(i as int),
                rep@.skip(i as int),
                acc@,
            ),
        decreases n - i,
    {
        let dv = def[i];
        let rv = rep[i];
        proof {
            assert(def@.skip(i as int)[0] == def@[i as int]);
            assert(rep@.skip(i as int)[0] == rep@[i as int]);
            assert(def@.skip(i as int).drop_first() =~= def@.skip(i as int + 1));
            assert(rep@.skip(i as int).drop_first() =~= rep@.skip(i as int + 1));
        }
        if rv == 0 {
            if dv == 0 {
                acc.push(0);
            } else {
                acc.push(1);
            }
        } else if rv == 1 && dv != 0 {
            let m = acc.len();
            if m == 0 {
                return None;
            }
            let last = acc[m - 1];
            if last < 1 || last == usize::MAX {
                return None;
            }
            acc[m - 1] = last + 1;
        } else {
            return None;
        }
        i += 1;
    }
    proof {
        assert(def@.skip(n as int).len() == 0);
    }
    Some(acc)
}

/// Decoding a run of `j` continuation entries adds `j` to the open frame's
/// count.
proof fn lemma_decode_run(j: int, d: u8, acc: Seq<usize>)
    requires
        0 <= j,
        1 <= d,
        acc.len() > 0,
        1 <= acc.last(),
        acc.last() + j <= usize::MAX,
    ensures
        decode_loop(Seq::new(j as nat, |i: int| d), Seq::new(j as nat, |i: int| 1u8), acc)
            == Some(acc.update(acc.len() - 1, (acc.last() + j) as usize)),
    decreases j,
{
    if j == 0 {
        assert(acc.update(acc.len() - 1, (acc.last() + 0) as usize) =~= acc);
    } else {
        let a2 = acc.update(acc.len() - 1, (acc.last() + 1) as usize);
        assert(decode_step(acc, d, 1u8) == Some(a2));
        assert(Seq::new(j as nat, |i: int| d).drop_first() =~= Seq::new(
            (j - 1) as nat,
            |i: int| d,
        ));
        assert(Seq::new(j as nat, |i: int| 1u8).drop_first() =~= Seq::new(
            (j - 1) as nat,
            |i: int| 1u8,
        ));
        lemma_decode_run(j - 1, d, a2);
        assert(a2.update(a2.len() - 1, (a2.last() + (j - 1)) as usize) =~= acc.update(
            acc.len() - 1,
            (acc.last() + j) as usize,
        ));
    }
}

/// Decoding the level block of one frame appends that frame's count.
proof fn lemma_decode_frame(c: usize, d: u8, acc: Seq<usize>)
    requires
        1 <= d,
    ensures
        decode_loop(frame_def_levels(c, d), frame_rep_levels(c), acc) == Some(acc.push(c)),
{
    if c == 0 {
        let fd = frame_def_levels(0, d);
        let fr = frame_rep_levels(0);
        assert(fd[0] == 0u8);
        assert(fr[0] == 0u8);
        assert(decode_step(acc, 0u8, 0u8) == Some(acc.push(0)));
        assert(fd.drop_first() =~= Seq::<u8>::empty());
        assert(decode_loop(fd.drop_first(), fr.drop_first(), acc.push(0)) == Some(acc.push(0)));
    } else {
        let fd = frame_def_levels(c, d);
        let fr = frame_rep_levels(c);
        assert(fd[0] == d);
        assert(fr[0] == 0u8);
        let a2 = acc.push(1);
        assert(decode_step(acc, d, 0u8) == Some(a2));
        assert(fd.drop_first() =~= Seq::new((c - 1) as nat, |i: int| d));
        assert(fr.drop_first() =~= Seq::new((c - 1) as nat, |i: int| 1u8));
        lemma_decode_run(c - 1, d, a2);
        assert(decode_loop(fd.drop_first(), fr.drop_first(), a2) == Some(acc.push(c))) by {
            assert(a2.update(a2.len() - 1, (a2.last() + (c - 1)) as usize) =~= acc.push(c));
        }
    }
}

/// Decoding distributes over concatenation of paired level blocks.
proof fn lemma_decode_split(
    def1: Seq<u8>,
    rep1: Seq<u8>,
    def2: Seq<u8>,
    rep2: Seq<u8>,
    acc: Seq<usize>,
)
    requires
        def1.len() == rep1.len(),
    ensures
        decode_loop(def1 + def2, rep1 + rep2, acc) == (match decode_loop(def1, rep1, acc) {
            Some(a) => decode_loop(def2, rep2, a),
            None => None,
        }),
    decreases def1.len(),
{
    if def1.len() == 0 {
        assert(def1 + def2 =~= def2);
        assert(rep1 + rep2 =~= rep2);
    } else {
        assert((def1 + def2)[0] == def1[0]);
        assert((rep1 + rep2)[0] == rep1[0]);
        match decode_step(acc, def1[0], rep1[0]) {
            Some(a2) => {
                assert((def1 + def2).drop_first() =~= def1.drop_first() + def2);
                assert((rep1 + rep2).drop_first() =~= rep1.drop_first() + rep2);
                lemma_decode_split(def1.drop_first(), rep1.drop_first(), def2, rep2, a2);
            },
            None => {},
        }
    }
}

/// The encoded level vectors of a batch have equal lengths.
proof fn lemma_levels_len(counts: Seq<usize>, d: u8)
    ensures
        def_levels(counts, d).len() == rep_levels(counts).len(),
    decreases counts.len(),
{
    if counts.len() > 0 {
        lemma_levels_len(counts.drop_last(), d);
    }
}

/// Law: re-expanding the level vectors of a batch recovers the exact
/// per-frame item counts the encoder was given, for every batch and every
/// leaf definition level at least 1 (level 0 is reserved for the
/// empty-frame placeholder).
pub proof fn lemma_levels_round_trip(counts: Seq<usize>, d: u8)
    requires
        1 <= d,
    ensures
        decode_levels(def_levels(counts, d), rep_levels(counts)) == Some(counts),
    decreases counts.len(),
{
    lemma_levels_len(counts, d);
    if counts.len() == 0 {
        assert(decode_loop(Seq::empty(), Seq::empty(), Seq::empty()) == Some(
            Seq::<usize>::empty(),
        ));
        assert(counts =~= Seq::<usize>::empty());
    } else {
        let cs = counts.drop_last();
        let c = counts.last();
        lemma_levels_round_trip(cs, d);
        lemma_levels_len(cs, d);
        lemma_decode_split(
            def_levels(cs, d),
            rep_levels(cs),
            frame_def_levels(c, d),
            frame_rep_levels(c),
            Seq::empty(),
        );
        lemma_decode_frame(c, d, cs);
        assert(cs.push(c) =~= counts);
    }
}

} // verus!
