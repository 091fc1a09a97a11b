//! Plain-value model of the decoded frame records.
//!
//! Every record is one simulation tick.  Per occupied port it carries a
//! leader entry and, for paired characters, an optional follower entry, each
//! with a pre-state and a post-state block.  The blocks are version-gated:
//! an always-present base tier followed by a linear chain of optional tiers,
//! one per protocol version that added fields.  The chain is linear, so a
//! well-formed record has tier `k + 1` only when it also has tier `k`.
//!
//! Floating-point source fields are carried as their raw 32-bit
//! little-endian bit patterns: the conversion core never interprets them,
//! it only moves them, so the bit pattern is the value.

use vstd::prelude::*;

verus! {

/// Pre-state fields introduced by the first optional tier (protocol v1.2).
pub struct PreV1_2 {
    pub raw_analog_x: u8,
}

/// Pre-state fields introduced by the second optional tier (protocol v1.4).
pub struct PreV1_4 {
    /// IEEE-754 bit pattern.
    pub damage: u32,
}

/// Pre-state block of one player on one frame: the base tier plus the
/// linear chain of optional version tiers.
pub struct Pre {
    /// IEEE-754 bit pattern.
    pub position_x: u32,
    /// IEEE-754 bit pattern.
    pub position_y: u32,
    /// Signed-sign facing encoding: negative faces left, zero or positive
    /// faces right.
    pub direction: i8,
    /// IEEE-754 bit pattern.
    pub joystick_x: u32,
    /// IEEE-754 bit pattern.
    pub joystick_y: u32,
    /// IEEE-754 bit pattern.
    pub cstick_x: u32,
    /// IEEE-754 bit pattern.
    pub cstick_y: u32,
    /// IEEE-754 bit pattern.
    pub triggers_logical: u32,
    /// IEEE-754 bit pattern.
    pub triggers_physical_l: u32,
    /// IEEE-754 bit pattern.
    pub triggers_physical_r: u32,
    pub random_seed: u32,
    pub buttons_logical: u32,
    pub buttons_physical: u16,
    pub state: u16,
    pub v1_2: Option<PreV1_2>,
    pub v1_4: Option<PreV1_4>,
}

/// Post-state fields introduced at protocol v0.2.
pub struct PostV0_2 {
    /// IEEE-754 bit pattern.
    pub state_age: u32,
}

/// Post-state fields introduced at protocol v2.0.
pub struct PostV2_0 {
    pub flags: u64,
    /// IEEE-754 bit pattern.
    pub misc_as: u32,
    pub airborne: bool,
    pub ground: u16,
    pub jumps: u8,
    /// Tri-state L-cancel flag: `None` is unattempted/unknown,
    /// `Some(true)` success, `Some(false)` failure.
    pub l_cancel: Option<bool>,
}

/// Post-state fields introduced at protocol v2.1.
pub struct PostV2_1 {
    pub hurtbox_state: u8,
}

/// Post-state fields introduced at protocol v3.5.
pub struct PostV3_5 {
    /// IEEE-754 bit pattern.
    pub autogenous_x: u32,
    /// IEEE-754 bit pattern.
    pub autogenous_y: u32,
    /// IEEE-754 bit pattern.
    pub knockback_x: u32,
    /// IEEE-754 bit pattern.
    pub knockback_y: u32,
}

/// Post-state fields introduced at protocol v3.8.
pub struct PostV3_8 {
    /// IEEE-754 bit pattern.
    pub hitlag: u32,
}

/// Post-state block of one player on one frame.
pub struct Post {
    /// IEEE-754 bit pattern.
    pub position_x: u32,
    /// IEEE-754 bit pattern.
    pub position_y: u32,
    /// Signed-sign facing encoding, as in [`Pre::direction`].
    pub direction: i8,
    /// IEEE-754 bit pattern.
    pub damage: u32,
    /// IEEE-754 bit pattern.
    pub shield: u32,
    pub state: u16,
    pub character: u8,
    /// Identifier of the last attack this player landed, absent when none
    /// has landed yet.
    pub last_attack_landed: Option<u8>,
    pub combo_count: u8,
    /// Port of the player this one was last hit by, absent when never hit.
    pub last_hit_by: Option<u8>,
    pub stocks: u8,
    pub v0_2: Option<PostV0_2>,
    pub v2_0: Option<PostV2_0>,
    pub v2_1: Option<PostV2_1>,
    pub v3_5: Option<PostV3_5>,
    pub v3_8: Option<PostV3_8>,
}

/// Item fields introduced at protocol v3.2.
pub struct ItemV3_2 {
    /// Raw 4-byte little-endian "misc" field, kept as the source bytes.
    pub misc: [u8; 4],
}

/// Item fields introduced at protocol v3.6.
pub struct ItemV3_6 {
    /// Port of the item's owner, absent when unowned.
    pub owner: Option<u8>,
}

/// One active-item record within a frame's variable-length item list.
pub struct Item {
    pub id: u32,
    pub kind: u16,
    pub state: u8,
    /// Signed-sign facing encoding, as in [`Pre::direction`].
    pub direction: i8,
    /// IEEE-754 bit pattern.
    pub position_x: u32,
    /// IEEE-754 bit pattern.
    pub position_y: u32,
    /// IEEE-754 bit pattern.
    pub velocity_x: u32,
    /// IEEE-754 bit pattern.
    pub velocity_y: u32,
    pub damage: u16,
    /// IEEE-754 bit pattern.
    pub timer: u32,
    pub v3_2: Option<ItemV3_2>,
    pub v3_6: Option<ItemV3_6>,
}

/// Start-of-game block, present on the first frame of batches that carry it.
pub struct Start {
    pub random_seed: u32,
}

/// End-of-game fields introduced at protocol v3.7.
pub struct EndV3_7 {
    pub latest_finalized_frame: i32,
}

/// End-of-game block: an empty base tier plus one optional version tier.
pub struct End {
    pub v3_7: Option<EndV3_7>,
}

/// Pre- and post-state of one character on one frame.
pub struct Data {
    pub pre: Pre,
    pub post: Post,
}

/// One occupied port on one frame: the leader character and, where the
/// port's resident character is a paired one, its follower.
pub struct PortData {
    pub leader: Data,
    pub follower: Option<Data>,
}

/// One frame record, as handed over by the upstream replay parser.
pub struct Frame {
    pub start: Option<Start>,
    pub end: Option<End>,
    pub ports: Vec<PortData>,
    pub items: Option<Vec<Item>>,
}

impl Pre {
    /// The optional chain is linear: a later tier may be present only when
    /// every earlier one is.
    pub open spec fn tiers_wf(self) -> bool {
        self.v1_4 is Some ==> self.v1_2 is Some
    }

    /// Deepest tier present, counting the always-present base tier as 0.
    pub open spec fn depth(self) -> int {
        if self.v1_4 is Some {
            2
        } else if self.v1_2 is Some {
            1
        } else {
            0
        }
    }

    /// The block is well-formed and its deepest present tier is `d`.
    pub open spec fn has_depth(self, d: int) -> bool {
        self.tiers_wf() && self.depth() == d
    }
}

impl Post {
    /// The optional chain is linear: a later tier may be present only when
    /// every earlier one is.
    pub open spec fn tiers_wf(self) -> bool {
        &&& self.v3_8 is Some ==> self.v3_5 is Some
        &&& self.v3_5 is Some ==> self.v2_1 is Some
        &&& self.v2_1 is Some ==> self.v2_0 is Some
        &&& self.v2_0 is Some ==> self.v0_2 is Some
    }

    /// Deepest tier present, counting the always-present base tier as 0.
    pub open spec fn depth(self) -> int {
        if self.v3_8 is Some {
            5
        } else if self.v3_5 is Some {
            4
        } else if self.v2_1 is Some {
            3
        } else if self.v2_0 is Some {
            2
        } else if self.v0_2 is Some {
            1
        } else {
            0
        }
    }

    /// The block is well-formed and its deepest present tier is `d`.
    pub open spec fn has_depth(self, d: int) -> bool {
        self.tiers_wf() && self.depth() == d
    }
}

impl Item {
    /// The optional chain is linear: a later tier may be present only when
    /// every earlier one is.
    pub open spec fn tiers_wf(self) -> bool {
        self.v3_6 is Some ==> self.v3_2 is Some
    }

    /// Deepest tier present, counting the always-present base tier as 0.
    pub open spec fn depth(self) -> int {
        if self.v3_6 is Some {
            2
        } else if self.v3_2 is Some {
            1
        } else {
            0
        }
    }

    /// The record is well-formed and its deepest present tier is `d`.
    pub open spec fn has_depth(self, d: int) -> bool {
        self.tiers_wf() && self.depth() == d
    }
}

impl Frame {
    /// The frame's item list, with an absent list reading as empty.
    pub open spec fn item_seq(self) -> Seq<Item> {
        match self.items {
            Some(v) => v@,
            None => Seq::empty(),
        }
    }
}

impl Pre {
    /// Whether the block is well-formed with deepest tier exactly `d`.
    pub fn matches_depth(&self, d: u8) -> (b: bool)
        requires
            d <= 2,
        ensures
            b == self.has_depth(d as int),
    {
        self.v1_2.is_some() == (d >= 1) && self.v1_4.is_some() == (d >= 2)
    }
}

impl Post {
    /// Whether the block is well-formed with deepest tier exactly `d`.
    pub fn matches_depth(&self, d: u8) -> (b: bool)
        requires
            d <= 5,
        ensures
            b == self.has_depth(d as int),
    {
        self.v0_2.is_some() == (d >= 1) && self.v2_0.is_some() == (d >= 2)
            && self.v2_1.is_some() == (d >= 3) && self.v3_5.is_some() == (d >= 4)
            && self.v3_8.is_some() == (d >= 5)
    }
}

impl Item {
    /// Whether the record is well-formed with deepest tier exactly `d`.
    pub fn matches_depth(&self, d: u8) -> (b: bool)
        requires
            d <= 2,
        ensures
            b == self.has_depth(d as int),
    {
        self.v3_2.is_some() == (d >= 1) && self.v3_6.is_some() == (d >= 2)
    }
}

} // verus!
