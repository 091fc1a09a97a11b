//! Batch-wide version-tier resolution.
//!
//! Tier presence is structural and version-locked for a whole batch: the
//! resolver reads it once, from the first frame record (and, for the item
//! chain, from the first item record anywhere in the batch, since early
//! frames may have empty item lists), and the rest of the conversion trusts
//! it.  Resolution fails only on malformed input: an empty batch, a first
//! frame with no ports, or an optional chain that skips a tier.

use vstd::prelude::*;

use crate::record::{Frame, Item};

verus! {

/// The optional chain a fatal error points at.
#[derive(Clone, Copy, Debug, PartialEq, Eq)]
pub enum Chain {
    Pre,
    Post,
    Item,
}

/// Terminal error of the conversion core.  There are no recoverable errors:
/// each variant names the invariant that broke, and the whole conversion
/// aborts with it.
#[derive(Clone, Copy, Debug, PartialEq, Eq)]
pub enum FatalError {
    /// The batch is empty, or its first frame has no ports.
    EmptyInput,
    /// An optional chain has a tier whose parent tier is missing.
    TierGap(Chain),
    /// A frame's structure disagrees with the batch-wide resolved tiers:
    /// a tier, block or port present in the column tree but absent in the
    /// record, or the other way round.
    FrameMismatch,
    /// Schema generation was asked to describe a tier whose presence flag
    /// contradicts its parent's.
    SchemaContradiction(Chain),
}

/// Deepest tier present in each optional chain, plus the presence of the
/// whole-batch blocks, read once from the batch per [`resolve`].
#[derive(Clone, Copy, Debug, PartialEq, Eq)]
pub struct Depths {
    /// Deepest pre-state tier (0 to 2).
    pub pre: u8,
    /// Deepest post-state tier (0 to 5).
    pub post: u8,
    /// Deepest item tier (0 to 2), or `None` when no frame has any item.
    pub item: Option<u8>,
    /// The batch carries a start-of-game block.
    pub start: bool,
    /// The batch carries an end-of-game block.
    pub end: bool,
    /// The end-of-game block has its optional version tier.
    pub end_v3_7: bool,
}

impl Depths {
    pub open spec fn wf(self) -> bool {
        &&& self.pre <= 2
        &&& self.post <= 5
        &&& match self.item {
            Some(d) => d <= 2,
            None => true,
        }
        &&& self.end_v3_7 ==> self.end
    }
}

/// First item record of the batch, in frame order: the item whose record
/// resolves the item chain's depth.
pub open spec fn first_item(frames: Seq<Frame>) -> Option<Item>
    decreases frames.len(),
{
    if frames.len() == 0 {
        None
    } else if frames[0].item_seq().len() > 0 {
        Some(frames[0].item_seq()[0])
    } else {
        first_item(frames.drop_first())
    }
}

/// What [`resolve`] returns, as a function of the batch.
pub open spec fn resolve_spec(frames: Seq<Frame>) -> Result<Depths, FatalError> {
    if frames.len() == 0 || frames[0].ports@.len() == 0 {
        Err(FatalError::EmptyInput)
    } else {
        let pre = frames[0].ports@[0].leader.pre;
        let post = frames[0].ports@[0].leader.post;
        if !pre.tiers_wf() {
            Err(FatalError::TierGap(Chain::Pre))
        } else if !post.tiers_wf() {
            Err(FatalError::TierGap(Chain::Post))
        } else if first_item(frames) is Some && !first_item(frames).unwrap().tiers_wf() {
            Err(FatalError::TierGap(Chain::Item))
        } else {
            Ok(
                Depths {
                    pre: pre.depth() as u8,
                    post: post.depth() as u8,
                    item: match first_item(frames) {
                        Some(it) => Some(it.depth() as u8),
                        None => None,
                    },
                    start: frames[0].start is Some,
                    end: frames[0].end is Some,
                    end_v3_7: match frames[0].end {
                        Some(e) => e.v3_7 is Some,
                        None => false,
                    },
                },
            )
        }
    }
}

/// A batch that resolves has well-formed depths.
pub proof fn lemma_resolve_wf(frames: Seq<Frame>)
    ensures
        resolve_spec(frames) is Ok ==> resolve_spec(frames).unwrap().wf(),
{
}

/// Law: resolution succeeds exactly when every optional chain it reads is
/// monotone across the fixed tier ordering — tier `k + 1` present implies
/// tier `k` present — and a chain that skips a tier is a fatal error naming
/// that chain.
pub proof fn lemma_tier_monotonicity(frames: Seq<Frame>)
    requires
        frames.len() > 0,
        frames[0].ports@.len() > 0,
    ensures
        resolve_spec(frames) is Ok <==> {
            &&& frames[0].ports@[0].leader.pre.tiers_wf()
            &&& frames[0].ports@[0].leader.post.tiers_wf()
            &&& (first_item(frames) is Some ==> first_item(frames).unwrap().tiers_wf())
        },
        !frames[0].ports@[0].leader.pre.tiers_wf() ==> resolve_spec(frames) == Err::<
            Depths,
            FatalError,
        >(FatalError::TierGap(Chain::Pre)),
        frames[0].ports@[0].leader.pre.tiers_wf() && !frames[0].ports@[0].leader.post.tiers_wf()
            ==> resolve_spec(frames) == Err::<Depths, FatalError>(
            FatalError::TierGap(Chain::Post),
        ),
        frames[0].ports@[0].leader.pre.tiers_wf() && frames[0].ports@[0].leader.post.tiers_wf()
            && first_item(frames) is Some && !first_item(frames).unwrap().tiers_wf()
            ==> resolve_spec(frames) == Err::<Depths, FatalError>(
            FatalError::TierGap(Chain::Item),
        ),
{
}

/// Skipping frames with empty item lists does not change the first item.
proof fn lemma_first_item_skip(frames: Seq<Frame>, f: int)
    requires
        0 <= f <= frames.len(),
        forall|i: int| 0 <= i < f ==> #[trigger] frames[i].item_seq().len() == 0,
    ensures
        first_item(frames) == first_item(frames.skip(f)),
    decreases f,
{
    if f > 0 {
        assert(frames.drop_first() == frames.skip(1));
        lemma_first_item_skip(frames.skip(1), f - 1);
        assert(frames.skip(1).skip(f - 1) =~= frames.skip(f));
    } else {
        assert(frames.skip(0) =~= frames);
    }
}

impl crate::record::Pre {
    /// Deepest tier present, or the chain it finds skipping a tier.
    pub fn resolve_depth(&self) -> (r: Result<u8, FatalError>)
        ensures
            self.tiers_wf() ==> r == Ok::<u8, FatalError>(self.depth() as u8),
            !self.tiers_wf() ==> r == Err::<u8, FatalError>(FatalError::TierGap(Chain::Pre)),
    {
        match (self.v1_2.is_some(), self.v1_4.is_some()) {
            (false, true) => Err(FatalError::TierGap(Chain::Pre)),
            (true, true) => Ok(2),
            (true, false) => Ok(1),
            (false, false) => Ok(0),
        }
    }
}

impl crate::record::Post {
    /// Deepest tier present, or the chain it finds skipping a tier.
    pub fn resolve_depth(&self) -> (r: Result<u8, FatalError>)
        ensures
            self.tiers_wf() ==> r == Ok::<u8, FatalError>(self.depth() as u8),
            !self.tiers_wf() ==> r == Err::<u8, FatalError>(FatalError::TierGap(Chain::Post)),
    {
        let wf = (!self.v3_8.is_some() || self.v3_5.is_some()) && (!self.v3_5.is_some()
            || self.v2_1.is_some()) && (!self.v2_1.is_some() || self.v2_0.is_some()) && (
        !self.v2_0.is_some() || self.v0_2.is_some());
        if !wf {
            Err(FatalError::TierGap(Chain::Post))
        } else if self.v3_8.is_some() {
            Ok(5)
        } else if self.v3_5.is_some() {
            Ok(4)
        } else if self.v2_1.is_some() {
            Ok(3)
        } else if self.v2_0.is_some() {
            Ok(2)
        } else if self.v0_2.is_some() {
            Ok(1)
        } else {
            Ok(0)
        }
    }
}

impl crate::record::Item {
    /// Deepest tier present, or the chain it finds skipping a tier.
    pub fn resolve_depth(&self) -> (r: Result<u8, FatalError>)
        ensures
            self.tiers_wf() ==> r == Ok::<u8, FatalError>(self.depth() as u8),
            !self.tiers_wf() ==> r == Err::<u8, FatalError>(FatalError::TierGap(Chain::Item)),
    {
        match (self.v3_2.is_some(), self.v3_6.is_some()) {
            (false, true) => Err(FatalError::TierGap(Chain::Item)),
            (true, true) => Ok(2),
            (true, false) => Ok(1),
            (false, false) => Ok(0),
        }
    }
}

/// Walks each optional chain once — pre-state and post-state on the first
/// frame's first port, items on the first item record of the batch — and
/// returns the deepest tier present per chain, together with the presence
/// of the start- and end-of-game blocks.
pub fn resolve(frames: &Vec<Frame>) -> (r: Result<Depths, FatalError>)
    ensures
        r == resolve_spec(frames@),
{
    if frames.len() == 0 || frames[0].ports.len() == 0 {
        return Err(FatalError::EmptyInput);
    }
    let first = &frames[0];
    let pre = match first.ports[0].leader.pre.resolve_depth() {
        Ok(d) => d,
        Err(e) => { return Err(e) },
    };
    let post = match first.ports[0].leader.post.resolve_depth() {
        Ok(d) => d,
        Err(e) => { return Err(e) },
    };

    // Find the first item record of the batch, if any.
    let n = frames.len();
    let mut k: usize = 0;
    while k < n
        invariant
            n == frames@.len(),
            0 <= k <= n,
            forall|i: int| 0 <= i < k ==> #[trigger] frames@[i].item_seq().len() == 0,
        ensures
            0 <= k <= n,
            forall|i: int| 0 <= i < k ==> #[trigger] frames@[i].item_seq().len() == 0,
            k < n ==> frames@[k as int].item_seq().len() > 0,
        decreases n - k,
    {
        match &frames[k].items {
            Some(items) => {
                if items.len() > 0 {
                    break ;
                }
            },
            None => {},
        }
        k += 1;
    }
    proof {
        lemma_first_item_skip(frames@, k as int);
    }
    let item = if k < n {
        match &frames[k].items {
            Some(items) => {
                assert(frames@.skip(k as int)[0] == frames@[k as int]);
                match items[0].resolve_depth() {
                    Ok(d) => Some(d),
                    Err(e) => { return Err(e) },
                }
            },
            None => {
                // The scan stopped early only on a non-empty item list.
                assert(false);
                None
            },
        }
    } else {
        assert(frames@.skip(k as int).len() == 0);
        None
    };

    Ok(
        Depths {
            pre,
            post,
            item,
            start: first.start.is_some(),
            end: first.end.is_some(),
            end_v3_7: match &first.end {
                Some(e) => e.v3_7.is_some(),
                None => false,
            },
        },
    )
}

} // verus!
