//! Row-to-column transform.
//!
//! One typed column per leaf field, sized to the batch.  Fixed per-port
//! fields use dense addressing: every column is pre-sized to
//! (port count × frame count) and written by direct index assignment at
//! (port, frame).  Variable-length item lists use append addressing: item
//! columns start empty and grow in frame order, with an explicit
//! length-per-frame side array.
//!
//! The per-field conversion rules live here as spec functions: directional
//! fields become booleans, absent "last attack landed" / "last hit by" /
//! "owner" values become their defined sentinels, the tri-state L-cancel
//! flag becomes a small integer, and the raw 4-byte item "misc" field is
//! reinterpreted as a little-endian unsigned 32-bit integer.

use vstd::prelude::*;

use crate::record::{Frame, Item, Pre, Post};
use crate::resolve::{resolve, resolve_spec, Depths, FatalError};
use crate::FIRST_FRAME_INDEX;

verus! {

// ---------------------------------------------------------------------------
// Per-field conversion rules.
// ---------------------------------------------------------------------------
/// Directional encoding: negative faces left (`false`), zero or positive
/// faces right (`true`).
pub open spec fn dir_bool(d: i8) -> bool {
    d >= 0
}

/// Sentinel rule for the "last attack landed" identifier: absent becomes 0.
pub open spec fn attack_code(a: Option<u8>) -> u8 {
    match a {
        Some(v) => v,
        None => 0,
    }
}

/// Sentinel rule for "last hit by" and item "owner" ports: absent becomes
/// the maximum representable small-unsigned value.
pub open spec fn port_code(h: Option<u8>) -> u8 {
    match h {
        Some(v) => v,
        None => 0xff,
    }
}

/// Tri-state L-cancel flag: unattempted/unknown 0, success 1, failure 2.
pub open spec fn l_cancel_code(l: Option<bool>) -> u8 {
    match l {
        None => 0,
        Some(true) => 1,
        Some(false) => 2,
    }
}

/// Little-endian reinterpretation of a raw 4-byte field as an unsigned
/// 32-bit integer.  This is a reinterpretation, not a numeric conversion:
/// byte 0 is the lowest-order byte.
pub open spec fn le32(b: [u8; 4]) -> u32 {
    (b@[0] + b@[1] * 0x100 + b@[2] * 0x10000 + b@[3] * 0x1000000) as u32
}

/// Little-endian decode of the 4-byte item "misc" field.
pub fn decode_le32(b: &[u8; 4]) -> (r: u32)
    ensures
        r == le32(*b),
{
    b[0] as u32 + (b[1] as u32) * 0x100 + (b[2] as u32) * 0x10000 + (b[3] as u32) * 0x1000000
}

// ---------------------------------------------------------------------------
// Dense (port × frame) grids.
// ---------------------------------------------------------------------------
/// A dense column holding one value per (port, frame) position: outer index
/// port, inner index frame.
pub open spec fn grid_wf<T>(g: Seq<Vec<T>>, ports: int, frames: int) -> bool {
    &&& g.len() == ports
    &&& forall|p: int| 0 <= p < ports ==> (#[trigger] g[p])@.len() == frames
}

pub(crate) fn filled_vec<T: Copy>(n: usize, v: T) -> (r: Vec<T>)
    ensures
        r@.len() == n,
        forall|i: int| 0 <= i < n ==> r@[i] == v,
{
    let mut r: Vec<T> = Vec::new();
    let mut i: usize = 0;
    while i < n
        invariant
            i <= n,
            r@.len() == i,
            forall|j: int| 0 <= j < i ==> r@[j] == v,
        decreases n - i,
    {
        r.push(v);
        i += 1;
    }
    r
}

/// Pre-sized dense column, every cell holding `v`.
pub(crate) fn grid<T: Copy>(ports: usize, frames: usize, v: T) -> (r: Vec<Vec<T>>)
    ensures
        grid_wf(r@, ports as int, frames as int),
        forall|p: int, f: int| 0 <= p < ports && 0 <= f < frames ==> r@[p]@[f] == v,
{
    let mut r: Vec<Vec<T>> = Vec::new();
    let mut p: usize = 0;
    while p < ports
        invariant
            p <= ports,
            r@.len() == p,
            forall|q: int| 0 <= q < p ==> (#[trigger] r@[q])@.len() == frames,
            forall|q: int, f: int| 0 <= q < p && 0 <= f < frames ==> r@[q]@[f] == v,
        decreases ports - p,
    {
        r.push(filled_vec(frames, v));
        p += 1;
    }
    r
}

/// Direct index assignment at (port, frame): the dense addressing write.
pub(crate) fn set2<T>(g: &mut Vec<Vec<T>>, p: usize, f: usize, v: T)
    requires
        p < old(g)@.len(),
        f < old(g)@[p as int]@.len(),
    ensures
        final(g)@.len() == old(g)@.len(),
        forall|q: int| 0 <= q < old(g)@.len() && q != p ==> final(g)@[q] == old(g)@[q],
        final(g)@[p as int]@ == old(g)@[p as int]@.update(f as int, v),
{
    g[p][f] = v;
}

// ---------------------------------------------------------------------------
// Pre-state column group.
// ---------------------------------------------------------------------------
/// Dense pre-state columns of one character role (leader or follower), in
/// schema order.  An optional tier's columns exist for every row or for
/// none: tier presence is batch-wide.
pub struct PreCol {
    pub position_x: Vec<Vec<u32>>,
    pub position_y: Vec<Vec<u32>>,
    pub direction: Vec<Vec<bool>>,
    pub joystick_x: Vec<Vec<u32>>,
    pub joystick_y: Vec<Vec<u32>>,
    pub cstick_x: Vec<Vec<u32>>,
    pub cstick_y: Vec<Vec<u32>>,
    pub triggers_physical_l: Vec<Vec<u32>>,
    pub triggers_physical_r: Vec<Vec<u32>>,
    pub triggers_logical: Vec<Vec<u32>>,
    pub random_seed: Vec<Vec<u32>>,
    pub buttons_physical: Vec<Vec<u16>>,
    pub buttons_logical: Vec<Vec<u32>>,
    pub state: Vec<Vec<u16>>,
    pub raw_analog_x: Option<Vec<Vec<u8>>>,
    pub damage: Option<Vec<Vec<u32>>>,
}

impl PreCol {
    /// Port count of the dense layout.
    pub open spec fn ports(self) -> int {
        self.position_x@.len() as int
    }

    /// Frame count of the dense layout.
    pub open spec fn frames(self) -> int {
        if self.ports() > 0 {
            self.position_x@[0]@.len() as int
        } else {
            0
        }
    }

    /// Every column is a dense (ports × frames) grid.
    pub open spec fn wf(self) -> bool {
        &&& grid_wf(self.position_x@, self.ports(), self.frames())
        &&& grid_wf(self.position_y@, self.ports(), self.frames())
        &&& grid_wf(self.direction@, self.ports(), self.frames())
        &&& grid_wf(self.joystick_x@, self.ports(), self.frames())
        &&& grid_wf(self.joystick_y@, self.ports(), self.frames())
        &&& grid_wf(self.cstick_x@, self.ports(), self.frames())
        &&& grid_wf(self.cstick_y@, self.ports(), self.frames())
        &&& grid_wf(self.triggers_physical_l@, self.ports(), self.frames())
        &&& grid_wf(self.triggers_physical_r@, self.ports(), self.frames())
        &&& grid_wf(self.triggers_logical@, self.ports(), self.frames())
        &&& grid_wf(self.random_seed@, self.ports(), self.frames())
        &&& grid_wf(self.buttons_physical@, self.ports(), self.frames())
        &&& grid_wf(self.buttons_logical@, self.ports(), self.frames())
        &&& grid_wf(self.state@, self.ports(), self.frames())
        &&& match self.raw_analog_x {
            Some(g) => grid_wf(g@, self.ports(), self.frames()),
            None => true,
        }
        &&& match self.damage {
            Some(g) => grid_wf(g@, self.ports(), self.frames()),
            None => true,
        }
    }

    /// The tier columns present are exactly those at or below depth `d`.
    pub open spec fn tiers_ok(self, d: int) -> bool {
        &&& self.raw_analog_x is Some <==> d >= 1
        &&& self.damage is Some <==> d >= 2
    }

    /// The cell (p, f) holds the converted fields of record `r`.
    pub open spec fn filled_at(self, r: Pre, p: int, f: int) -> bool {
        &&& self.position_x@[p]@[f] == r.position_x
        &&& self.position_y@[p]@[f] == r.position_y
        &&& self.direction@[p]@[f] == dir_bool(r.direction)
        &&& self.joystick_x@[p]@[f] == r.joystick_x
        &&& self.joystick_y@[p]@[f] == r.joystick_y
        &&& self.cstick_x@[p]@[f] == r.cstick_x
        &&& self.cstick_y@[p]@[f] == r.cstick_y
        &&& self.triggers_physical_l@[p]@[f] == r.triggers_physical_l
        &&& self.triggers_physical_r@[p]@[f] == r.triggers_physical_r
        &&& self.triggers_logical@[p]@[f] == r.triggers_logical
        &&& self.random_seed@[p]@[f] == r.random_seed
        &&& self.buttons_physical@[p]@[f] == r.buttons_physical
        &&& self.buttons_logical@[p]@[f] == r.buttons_logical
        &&& self.state@[p]@[f] == r.state
        &&& match (self.raw_analog_x, r.v1_2) {
            (Some(g), Some(t)) => g@[p]@[f] == t.raw_analog_x,
            _ => true,
        }
        &&& match (self.damage, r.v1_4) {
            (Some(g), Some(t)) => g@[p]@[f] == t.damage,
            _ => true,
        }
    }

    /// The cell (p, f) holds the type's zero values: the state of follower
    /// cells whose port has no follower data on that frame.
    pub open spec fn zero_at(self, p: int, f: int) -> bool {
        &&& self.position_x@[p]@[f] == 0
        &&& self.position_y@[p]@[f] == 0
        &&& self.direction@[p]@[f] == false
        &&& self.joystick_x@[p]@[f] == 0
        &&& self.joystick_y@[p]@[f] == 0
        &&& self.cstick_x@[p]@[f] == 0
        &&& self.cstick_y@[p]@[f] == 0
        &&& self.triggers_physical_l@[p]@[f] == 0
        &&& self.triggers_physical_r@[p]@[f] == 0
        &&& self.triggers_logical@[p]@[f] == 0
        &&& self.random_seed@[p]@[f] == 0
        &&& self.buttons_physical@[p]@[f] == 0
        &&& self.buttons_logical@[p]@[f] == 0
        &&& self.state@[p]@[f] == 0
        &&& match self.raw_analog_x {
            Some(g) => g@[p]@[f] == 0,
            None => true,
        }
        &&& match self.damage {
            Some(g) => g@[p]@[f] == 0,
            None => true,
        }
    }

    /// The two column groups agree at cell (p, f).
    pub open spec fn cell_eq(self, other: Self, p: int, f: int) -> bool {
        &&& self.position_x@[p]@[f] == other.position_x@[p]@[f]
        &&& self.position_y@[p]@[f] == other.position_y@[p]@[f]
        &&& self.direction@[p]@[f] == other.direction@[p]@[f]
        &&& self.joystick_x@[p]@[f] == other.joystick_x@[p]@[f]
        &&& self.joystick_y@[p]@[f] == other.joystick_y@[p]@[f]
        &&& self.cstick_x@[p]@[f] == other.cstick_x@[p]@[f]
        &&& self.cstick_y@[p]@[f] == other.cstick_y@[p]@[f]
        &&& self.triggers_physical_l@[p]@[f] == other.triggers_physical_l@[p]@[f]
        &&& self.triggers_physical_r@[p]@[f] == other.triggers_physical_r@[p]@[f]
        &&& self.triggers_logical@[p]@[f] == other.triggers_logical@[p]@[f]
        &&& self.random_seed@[p]@[f] == other.random_seed@[p]@[f]
        &&& self.buttons_physical@[p]@[f] == other.buttons_physical@[p]@[f]
        &&& self.buttons_logical@[p]@[f] == other.buttons_logical@[p]@[f]
        &&& self.state@[p]@[f] == other.state@[p]@[f]
        &&& match (self.raw_analog_x, other.raw_analog_x) {
            (Some(a), Some(b)) => a@[p]@[f] == b@[p]@[f],
            (None, None) => true,
            _ => false,
        }
        &&& match (self.damage, other.damage) {
            (Some(a), Some(b)) => a@[p]@[f] == b@[p]@[f],
            (None, None) => true,
            _ => false,
        }
    }

    /// Dense allocation: every column pre-sized to (ports × frames), zeroed,
    /// with tier columns down to resolved depth `d`.
    pub fn new(ports: usize, frames: usize, d: u8) -> (r: Self)
        requires
            d <= 2,
        ensures
            r.wf(),
            r.ports() == ports,
            r.frames() == frames || ports == 0,
            r.tiers_ok(d as int),
            forall|p: int, f: int| 0 <= p < ports && 0 <= f < frames ==> r.zero_at(p, f),
    {
        PreCol {
            position_x: grid(ports, frames, 0u32),
            position_y: grid(ports, frames, 0u32),
            direction: grid(ports, frames, false),
            joystick_x: grid(ports, frames, 0u32),
            joystick_y: grid(ports, frames, 0u32),
            cstick_x: grid(ports, frames, 0u32),
            cstick_y: grid(ports, frames, 0u32),
            triggers_physical_l: grid(ports, frames, 0u32),
            triggers_physical_r: grid(ports, frames, 0u32),
            triggers_logical: grid(ports, frames, 0u32),
            random_seed: grid(ports, frames, 0u32),
            buttons_physical: grid(ports, frames, 0u16),
            buttons_logical: grid(ports, frames, 0u32),
            state: grid(ports, frames, 0u16),
            raw_analog_x: if d >= 1 {
                Some(grid(ports, frames, 0u8))
            } else {
                None
            },
            damage: if d >= 2 {
                Some(grid(ports, frames, 0u32))
            } else {
                None
            },
        }
    }

    /// One dense write: the converted fields of `src` land at (p, f), every
    /// other cell keeps its value.
    fn fill(&mut self, src: &Pre, p: usize, f: usize)
        requires
            old(self).wf(),
            0 <= p < old(self).ports(),
            0 <= f < old(self).frames(),
        ensures
            final(self).wf(),
            final(self).ports() == old(self).ports(),
            final(self).frames() == old(self).frames(),
            final(self).raw_analog_x is Some <==> old(self).raw_analog_x is Some,
            final(self).damage is Some <==> old(self).damage is Some,
            final(self).filled_at(*src, p as int, f as int),
            forall|q: int, g: int|
                0 <= q < old(self).ports() && 0 <= g < old(self).frames() && !(q == p && g == f)
                    ==> final(self).cell_eq(*old(self), q, g),
    {
        set2(&mut self.position_x, p, f, src.position_x);
        set2(&mut self.position_y, p, f, src.position_y);
        set2(&mut self.direction, p, f, src.direction >= 0);
        set2(&mut self.joystick_x, p, f, src.joystick_x);
        set2(&mut self.joystick_y, p, f, src.joystick_y);
        set2(&mut self.cstick_x, p, f, src.cstick_x);
        set2(&mut self.cstick_y, p, f, src.cstick_y);
        set2(&mut self.triggers_physical_l, p, f, src.triggers_physical_l);
        set2(&mut self.triggers_physical_r, p, f, src.triggers_physical_r);
        set2(&mut self.triggers_logical, p, f, src.triggers_logical);
        set2(&mut self.random_seed, p, f, src.random_seed);
        set2(&mut self.buttons_physical, p, f, src.buttons_physical);
        set2(&mut self.buttons_logical, p, f, src.buttons_logical);
        set2(&mut self.state, p, f, src.state);
        if let Some(col) = &mut self.raw_analog_x {
            if let Some(t) = &src.v1_2 {
                set2(col, p, f, t.raw_analog_x);
            }
        }
        if let Some(col) = &mut self.damage {
            if let Some(t) = &src.v1_4 {
                set2(col, p, f, t.damage);
            }
        }
    }
}

// ---------------------------------------------------------------------------
// Post-state column group.
// ---------------------------------------------------------------------------
/// Columns of the post-state tier introduced at protocol v2.0.
pub struct PostColV2_0 {
    pub flags: Vec<Vec<u64>>,
    pub misc_as: Vec<Vec<u32>>,
    pub airborne: Vec<Vec<bool>>,
    pub ground: Vec<Vec<u16>>,
    pub jumps: Vec<Vec<u8>>,
    pub l_cancel: Vec<Vec<u8>>,
}

/// Columns of the post-state tier introduced at protocol v3.5.
pub struct PostColV3_5 {
    pub autogenous_x: Vec<Vec<u32>>,
    pub autogenous_y: Vec<Vec<u32>>,
    pub knockback_x: Vec<Vec<u32>>,
    pub knockback_y: Vec<Vec<u32>>,
}

/// Dense post-state columns of one character role, in schema order.
pub struct PostCol {
    pub position_x: Vec<Vec<u32>>,
    pub position_y: Vec<Vec<u32>>,
    pub direction: Vec<Vec<bool>>,
    pub damage: Vec<Vec<u32>>,
    pub shield: Vec<Vec<u32>>,
    pub state: Vec<Vec<u16>>,
    pub character: Vec<Vec<u8>>,
    pub last_attack_landed: Vec<Vec<u8>>,
    pub combo_count: Vec<Vec<u8>>,
    pub last_hit_by: Vec<Vec<u8>>,
    pub stocks: Vec<Vec<u8>>,
    pub state_age: Option<Vec<Vec<u32>>>,
    pub v2_0: Option<PostColV2_0>,
    pub hurtbox_state: Option<Vec<Vec<u8>>>,
    pub v3_5: Option<PostColV3_5>,
    pub hitlag: Option<Vec<Vec<u32>>>,
}

impl PostCol {
    /// Port count of the dense layout.
    pub open spec fn ports(self) -> int {
        self.position_x@.len() as int
    }

    /// Frame count of the dense layout.
    pub open spec fn frames(self) -> int {
        if self.ports() > 0 {
            self.position_x@[0]@.len() as int
        } else {
            0
        }
    }

    /// Every column is a dense (ports × frames) grid.
    pub open spec fn wf(self) -> bool {
        &&& grid_wf(self.position_x@, self.ports(), self.frames())
        &&& grid_wf(self.position_y@, self.ports(), self.frames())
        &&& grid_wf(self.direction@, self.ports(), self.frames())
        &&& grid_wf(self.damage@, self.ports(), self.frames())
        &&& grid_wf(self.shield@, self.ports(), self.frames())
        &&& grid_wf(self.state@, self.ports(), self.frames())
        &&& grid_wf(self.character@, self.ports(), self.frames())
        &&& grid_wf(self.last_attack_landed@, self.ports(), self.frames())
        &&& grid_wf(self.combo_count@, self.ports(), self.frames())
        &&& grid_wf(self.last_hit_by@, self.ports(), self.frames())
        &&& grid_wf(self.stocks@, self.ports(), self.frames())
        &&& match self.state_age {
            Some(g) => grid_wf(g@, self.ports(), self.frames()),
            None => true,
        }
        &&& match self.v2_0 {
            Some(t) => {
                &&& grid_wf(t.flags@, self.ports(), self.frames())
                &&& grid_wf(t.misc_as@, self.ports(), self.frames())
                &&& grid_wf(t.airborne@, self.ports(), self.frames())
                &&& grid_wf(t.ground@, self.ports(), self.frames())
                &&& grid_wf(t.jumps@, self.ports(), self.frames())
                &&& grid_wf(t.l_cancel@, self.ports(), self.frames())
            },
            None => true,
        }
        &&& match self.hurtbox_state {
            Some(g) => grid_wf(g@, self.ports(), self.frames()),
            None => true,
        }
        &&& match self.v3_5 {
            Some(t) => {
                &&& grid_wf(t.autogenous_x@, self.ports(), self.frames())
                &&& grid_wf(t.autogenous_y@, self.ports(), self.frames())
                &&& grid_wf(t.knockback_x@, self.ports(), self.frames())
                &&& grid_wf(t.knockback_y@, self.ports(), self.frames())
            },
            None => true,
        }
        &&& match self.hitlag {
            Some(g) => grid_wf(g@, self.ports(), self.frames()),
            None => true,
        }
    }

    /// The tier columns present are exactly those at or below depth `d`.
    pub open spec fn tiers_ok(self, d: int) -> bool {
        &&& self.state_age is Some <==> d >= 1
        &&& self.v2_0 is Some <==> d >= 2
        &&& self.hurtbox_state is Some <==> d >= 3
        &&& self.v3_5 is Some <==> d >= 4
        &&& self.hitlag is Some <==> d >= 5
    }

    /// The cell (p, f) holds the converted fields of record `r`.
    pub open spec fn filled_at(self, r: Post, p: int, f: int) -> bool {
        &&& self.position_x@[p]@[f] == r.position_x
        &&& self.position_y@[p]@[f] == r.position_y
        &&& self.direction@[p]@[f] == dir_bool(r.direction)
        &&& self.damage@[p]@[f] == r.damage
        &&& self.shield@[p]@[f] == r.shield
        &&& self.state@[p]@[f] == r.state
        &&& self.character@[p]@[f] == r.character
        &&& self.last_attack_landed@[p]@[f] == attack_code(r.last_attack_landed)
        &&& self.combo_count@[p]@[f] == r.combo_count
        &&& self.last_hit_by@[p]@[f] == port_code(r.last_hit_by)
        &&& self.stocks@[p]@[f] == r.stocks
        &&& match (self.state_age, r.v0_2) {
            (Some(g), Some(t)) => g@[p]@[f] == t.state_age,
            _ => true,
        }
        &&& match (self.v2_0, r.v2_0) {
            (Some(c), Some(t)) => {
                &&& c.flags@[p]@[f] == t.flags
                &&& c.misc_as@[p]@[f] == t.misc_as
                &&& c.airborne@[p]@[f] == t.airborne
                &&& c.ground@[p]@[f] == t.ground
                &&& c.jumps@[p]@[f] == t.jumps
                &&& c.l_cancel@[p]@[f] == l_cancel_code(t.l_cancel)
            },
            _ => true,
        }
        &&& match (self.hurtbox_state, r.v2_1) {
            (Some(g), Some(t)) => g@[p]@[f] == t.hurtbox_state,
            _ => true,
        }
        &&& match (self.v3_5, r.v3_5) {
            (Some(c), Some(t)) => {
                &&& c.autogenous_x@[p]@[f] == t.autogenous_x
                &&& c.autogenous_y@[p]@[f] == t.autogenous_y
                &&& c.knockback_x@[p]@[f] == t.knockback_x
                &&& c.knockback_y@[p]@[f] == t.knockback_y
            },
            _ => true,
        }
        &&& match (self.hitlag, r.v3_8) {
            (Some(g), Some(t)) => g@[p]@[f] == t.hitlag,
            _ => true,
        }
    }

    /// The cell (p, f) holds the type's zero values.
    pub open spec fn zero_at(self, p: int, f: int) -> bool {
        &&& self.position_x@[p]@[f] == 0
        &&& self.position_y@[p]@[f] == 0
        &&& self.direction@[p]@[f] == false
        &&& self.damage@[p]@[f] == 0
        &&& self.shield@[p]@[f] == 0
        &&& self.state@[p]@[f] == 0
        &&& self.character@[p]@[f] == 0
        &&& self.last_attack_landed@[p]@[f] == 0
        &&& self.combo_count@[p]@[f] == 0
        &&& self.last_hit_by@[p]@[f] == 0
        &&& self.stocks@[p]@[f] == 0
        &&& match self.state_age {
            Some(g) => g@[p]@[f] == 0,
            None => true,
        }
        &&& match self.v2_0 {
            Some(c) => {
                &&& c.flags@[p]@[f] == 0
                &&& c.misc_as@[p]@[f] == 0
                &&& c.airborne@[p]@[f] == false
                &&& c.ground@[p]@[f] == 0
                &&& c.jumps@[p]@[f] == 0
                &&& c.l_cancel@[p]@[f] == 0
            },
            None => true,
        }
        &&& match self.hurtbox_state {
            Some(g) => g@[p]@[f] == 0,
            None => true,
        }
        &&& match self.v3_5 {
            Some(c) => {
                &&& c.autogenous_x@[p]@[f] == 0
                &&& c.autogenous_y@[p]@[f] == 0
                &&& c.knockback_x@[p]@[f] == 0
                &&& c.knockback_y@[p]@[f] == 0
            },
            None => true,
        }
        &&& match self.hitlag {
            Some(g) => g@[p]@[f] == 0,
            None => true,
        }
    }

    /// The two column groups agree at cell (p, f).
    pub open spec fn cell_eq(self, other: Self, p: int, f: int) -> bool {
        &&& self.position_x@[p]@[f] == other.position_x@[p]@[f]
        &&& self.position_y@[p]@[f] == other.position_y@[p]@[f]
        &&& self.direction@[p]@[f] == other.direction@[p]@[f]
        &&& self.damage@[p]@[f] == other.damage@[p]@[f]
        &&& self.shield@[p]@[f] == other.shield@[p]@[f]
        &&& self.state@[p]@[f] == other.state@[p]@[f]
        &&& self.character@[p]@[f] == other.character@[p]@[f]
        &&& self.last_attack_landed@[p]@[f] == other.last_attack_landed@[p]@[f]
        &&& self.combo_count@[p]@[f] == other.combo_count@[p]@[f]
        &&& self.last_hit_by@[p]@[f] == other.last_hit_by@[p]@[f]
        &&& self.stocks@[p]@[f] == other.stocks@[p]@[f]
        &&& match (self.state_age, other.state_age) {
            (Some(a), Some(b)) => a@[p]@[f] == b@[p]@[f],
            (None, None) => true,
            _ => false,
        }
        &&& match (self.v2_0, other.v2_0) {
            (Some(a), Some(b)) => {
                &&& a.flags@[p]@[f] == b.flags@[p]@[f]
                &&& a.misc_as@[p]@[f] == b.misc_as@[p]@[f]
                &&& a.airborne@[p]@[f] == b.airborne@[p]@[f]
                &&& a.ground@[p]@[f] == b.ground@[p]@[f]
                &&& a.jumps@[p]@[f] == b.jumps@[p]@[f]
                &&& a.l_cancel@[p]@[f] == b.l_cancel@[p]@[f]
            },
            (None, None) => true,
            _ => false,
        }
        &&& match (self.hurtbox_state, other.hurtbox_state) {
            (Some(a), Some(b)) => a@[p]@[f] == b@[p]@[f],
            (None, None) => true,
            _ => false,
        }
        &&& match (self.v3_5, other.v3_5) {
            (Some(a), Some(b)) => {
                &&& a.autogenous_x@[p]@[f] == b.autogenous_x@[p]@[f]
                &&& a.autogenous_y@[p]@[f] == b.autogenous_y@[p]@[f]
                &&& a.knockback_x@[p]@[f] == b.knockback_x@[p]@[f]
                &&& a.knockback_y@[p]@[f] == b.knockback_y@[p]@[f]
            },
            (None, None) => true,
            _ => false,
        }
        &&& match (self.hitlag, other.hitlag) {
            (Some(a), Some(b)) => a@[p]@[f] == b@[p]@[f],
            (None, None) => true,
            _ => false,
        }
    }

    /// Dense allocation: every column pre-sized to (ports × frames), zeroed,
    /// with tier columns down to resolved depth `d`.
    pub fn new(ports: usize, frames: usize, d: u8) -> (r: Self)
        requires
            d <= 5,
        ensures
            r.wf(),
            r.ports() == ports,
            r.frames() == frames || ports == 0,
            r.tiers_ok(d as int),
            forall|p: int, f: int| 0 <= p < ports && 0 <= f < frames ==> r.zero_at(p, f),
    {
        PostCol {
            position_x: grid(ports, frames, 0u32),
            position_y: grid(ports, frames, 0u32),
            direction: grid(ports, frames, false),
            damage: grid(ports, frames, 0u32),
            shield: grid(ports, frames, 0u32),
            state: grid(ports, frames, 0u16),
            character: grid(ports, frames, 0u8),
            last_attack_landed: grid(ports, frames, 0u8),
            combo_count: grid(ports, frames, 0u8),
            last_hit_by: grid(ports, frames, 0u8),
            stocks: grid(ports, frames, 0u8),
            state_age: if d >= 1 {
                Some(grid(ports, frames, 0u32))
            } else {
                None
            },
            v2_0: if d >= 2 {
                Some(
                    PostColV2_0 {
                        flags: grid(ports, frames, 0u64),
                        misc_as: grid(ports, frames, 0u32),
                        airborne: grid(ports, frames, false),
                        ground: grid(ports, frames, 0u16),
                        jumps: grid(ports, frames, 0u8),
                        l_cancel: grid(ports, frames, 0u8),
                    },
                )
            } else {
                None
            },
            hurtbox_state: if d >= 3 {
                Some(grid(ports, frames, 0u8))
            } else {
                None
            },
            v3_5: if d >= 4 {
                Some(
                    PostColV3_5 {
                        autogenous_x: grid(ports, frames, 0u32),
                        autogenous_y: grid(ports, frames, 0u32),
                        knockback_x: grid(ports, frames, 0u32),
                        knockback_y: grid(ports, frames, 0u32),
                    },
                )
            } else {
                None
            },
            hitlag: if d >= 5 {
                Some(grid(ports, frames, 0u32))
            } else {
                None
            },
        }
    }

    /// One dense write: the converted fields of `src` land at (p, f), every
    /// other cell keeps its value.
    fn fill(&mut self, src: &Post, p: usize, f: usize)
        requires
            old(self).wf(),
            0 <= p < old(self).ports(),
            0 <= f < old(self).frames(),
        ensures
            final(self).wf(),
            final(self).ports() == old(self).ports(),
            final(self).frames() == old(self).frames(),
            final(self).state_age is Some <==> old(self).state_age is Some,
            final(self).v2_0 is Some <==> old(self).v2_0 is Some,
            final(self).hurtbox_state is Some <==> old(self).hurtbox_state is Some,
            final(self).v3_5 is Some <==> old(self).v3_5 is Some,
            final(self).hitlag is Some <==> old(self).hitlag is Some,
            final(self).filled_at(*src, p as int, f as int),
            forall|q: int, g: int|
                0 <= q < old(self).ports() && 0 <= g < old(self).frames() && !(q == p && g == f)
                    ==> final(self).cell_eq(*old(self), q, g),
    {
        set2(&mut self.position_x, p, f, src.position_x);
        set2(&mut self.position_y, p, f, src.position_y);
        set2(&mut self.direction, p, f, src.direction >= 0);
        set2(&mut self.damage, p, f, src.damage);
        set2(&mut self.shield, p, f, src.shield);
        set2(&mut self.state, p, f, src.state);
        set2(&mut self.character, p, f, src.character);
        set2(
            &mut self.last_attack_landed,
            p,
            f,
            match src.last_attack_landed {
                Some(a) => a,
                None => 0,
            },
        );
        set2(&mut self.combo_count, p, f, src.combo_count);
        set2(
            &mut self.last_hit_by,
            p,
            f,
            match src.last_hit_by {
                Some(h) => h,
                None => 0xff,
            },
        );
        set2(&mut self.stocks, p, f, src.stocks);
        if let Some(col) = &mut self.state_age {
            if let Some(t) = &src.v0_2 {
                set2(col, p, f, t.state_age);
            }
        }
        if let Some(c) = &mut self.v2_0 {
            if let Some(t) = &src.v2_0 {
                set2(&mut c.flags, p, f, t.flags);
                set2(&mut c.misc_as, p, f, t.misc_as);
                set2(&mut c.airborne, p, f, t.airborne);
                set2(&mut c.ground, p, f, t.ground);
                set2(&mut c.jumps, p, f, t.jumps);
                set2(
                    &mut c.l_cancel,
                    p,
                    f,
                    match t.l_cancel {
                        None => 0,
                        Some(true) => 1,
                        Some(false) => 2,
                    },
                );
            }
        }
        if let Some(col) = &mut self.hurtbox_state {
            if let Some(t) = &src.v2_1 {
                set2(col, p, f, t.hurtbox_state);
            }
        }
        if let Some(c) = &mut self.v3_5 {
            if let Some(t) = &src.v3_5 {
                set2(&mut c.autogenous_x, p, f, t.autogenous_x);
                set2(&mut c.autogenous_y, p, f, t.autogenous_y);
                set2(&mut c.knockback_x, p, f, t.knockback_x);
                set2(&mut c.knockback_y, p, f, t.knockback_y);
            }
        }
        if let Some(col) = &mut self.hitlag {
            if let Some(t) = &src.v3_8 {
                set2(col, p, f, t.hitlag);
            }
        }
    }
}

// ---------------------------------------------------------------------------
// Item column group (append-addressed).
// ---------------------------------------------------------------------------
/// Converted "misc" value of an item record: the little-endian
/// reinterpretation of the raw bytes, zero when the record lacks the tier.
pub open spec fn item_misc_code(it: Item) -> u32 {
    match it.v3_2 {
        Some(t) => le32(t.misc),
        None => 0,
    }
}

/// Converted "owner" value of an item record: the port sentinel rule, zero
/// when the record lacks the tier.
pub open spec fn item_owner_code(it: Item) -> u8 {
    match it.v3_6 {
        Some(t) => port_code(t.owner),
        None => 0,
    }
}

/// Item columns.  The number of items per frame is unknown until that frame
/// is visited, so these columns start empty and grow by append, in frame
/// order; `lengths` records each frame's item count as the explicit
/// length-per-frame side array.
pub struct ItemCol {
    /// Frame index of each item occurrence, starting at
    /// [`crate::FIRST_FRAME_INDEX`].
    pub index: Vec<i32>,
    pub id: Vec<u32>,
    pub kind: Vec<u16>,
    pub state: Vec<u8>,
    pub direction: Vec<bool>,
    pub position_x: Vec<u32>,
    pub position_y: Vec<u32>,
    pub velocity_x: Vec<u32>,
    pub velocity_y: Vec<u32>,
    pub damage: Vec<u16>,
    pub timer: Vec<u32>,
    pub misc: Option<Vec<u32>>,
    pub owner: Option<Vec<u8>>,
    /// Item count of each frame, in frame order.
    pub lengths: Vec<usize>,
}

impl ItemCol {
    /// Number of item occurrences appended so far.
    pub open spec fn len(self) -> int {
        self.index@.len() as int
    }

    /// Every value column has one entry per appended item.
    pub open spec fn wf(self) -> bool {
        &&& self.id@.len() == self.len()
        &&& self.kind@.len() == self.len()
        &&& self.state@.len() == self.len()
        &&& self.direction@.len() == self.len()
        &&& self.position_x@.len() == self.len()
        &&& self.position_y@.len() == self.len()
        &&& self.velocity_x@.len() == self.len()
        &&& self.velocity_y@.len() == self.len()
        &&& self.damage@.len() == self.len()
        &&& self.timer@.len() == self.len()
        &&& match self.misc {
            Some(g) => g@.len() == self.len(),
            None => true,
        }
        &&& match self.owner {
            Some(g) => g@.len() == self.len(),
            None => true,
        }
    }

    /// The tier columns present are exactly those at or below depth `d`.
    pub open spec fn tiers_ok(self, d: int) -> bool {
        &&& self.misc is Some <==> d >= 1
        &&& self.owner is Some <==> d >= 2
    }

    /// Row `j` holds the converted fields of item record `it`, recorded for
    /// frame index `fidx`.
    pub open spec fn filled_at(self, it: Item, fidx: i32, j: int) -> bool {
        &&& self.index@[j] == fidx
        &&& self.id@[j] == it.id
        &&& self.kind@[j] == it.kind
        &&& self.state@[j] == it.state
        &&& self.direction@[j] == dir_bool(it.direction)
        &&& self.position_x@[j] == it.position_x
        &&& self.position_y@[j] == it.position_y
        &&& self.velocity_x@[j] == it.velocity_x
        &&& self.velocity_y@[j] == it.velocity_y
        &&& self.damage@[j] == it.damage
        &&& self.timer@[j] == it.timer
        &&& match self.misc {
            Some(g) => g@[j] == item_misc_code(it),
            None => true,
        }
        &&& match self.owner {
            Some(g) => g@[j] == item_owner_code(it),
            None => true,
        }
    }

    /// Row `j` of the two column groups agrees.
    pub open spec fn row_eq(self, other: Self, j: int) -> bool {
        &&& self.index@[j] == other.index@[j]
        &&& self.id@[j] == other.id@[j]
        &&& self.kind@[j] == other.kind@[j]
        &&& self.state@[j] == other.state@[j]
        &&& self.direction@[j] == other.direction@[j]
        &&& self.position_x@[j] == other.position_x@[j]
        &&& self.position_y@[j] == other.position_y@[j]
        &&& self.velocity_x@[j] == other.velocity_x@[j]
        &&& self.velocity_y@[j] == other.velocity_y@[j]
        &&& self.damage@[j] == other.damage@[j]
        &&& self.timer@[j] == other.timer@[j]
        &&& match (self.misc, other.misc) {
            (Some(a), Some(b)) => a@[j] == b@[j],
            (None, None) => true,
            _ => false,
        }
        &&& match (self.owner, other.owner) {
            (Some(a), Some(b)) => a@[j] == b@[j],
            (None, None) => true,
            _ => false,
        }
    }

    /// Empty item columns with tier columns down to resolved depth `d`.
    pub fn new(d: u8) -> (r: Self)
        requires
            d <= 2,
        ensures
            r.wf(),
            r.len() == 0,
            r.tiers_ok(d as int),
            r.lengths@.len() == 0,
    {
        ItemCol {
            index: Vec::new(),
            id: Vec::new(),
            kind: Vec::new(),
            state: Vec::new(),
            direction: Vec::new(),
            position_x: Vec::new(),
            position_y: Vec::new(),
            velocity_x: Vec::new(),
            velocity_y: Vec::new(),
            damage: Vec::new(),
            timer: Vec::new(),
            misc: if d >= 1 {
                Some(Vec::new())
            } else {
                None
            },
            owner: if d >= 2 {
                Some(Vec::new())
            } else {
                None
            },
            lengths: Vec::new(),
        }
    }

    /// Appends one item occurrence: row `old.len()` holds the converted
    /// fields of `it`, earlier rows and the side array keep their values.
    fn push_item(&mut self, it: &Item, fidx: i32)
        requires
            old(self).wf(),
        ensures
            final(self).wf(),
            final(self).len() == old(self).len() + 1,
            final(self).misc is Some <==> old(self).misc is Some,
            final(self).owner is Some <==> old(self).owner is Some,
            final(self).lengths == old(self).lengths,
            final(self).filled_at(*it, fidx, old(self).len()),
            forall|j: int| 0 <= j < old(self).len() ==> final(self).row_eq(*old(self), j),
    {
        self.index.push(fidx);
        self.id.push(it.id);
        self.kind.push(it.kind);
        self.state.push(it.state);
        self.direction.push(it.direction >= 0);
        self.position_x.push(it.position_x);
        self.position_y.push(it.position_y);
        self.velocity_x.push(it.velocity_x);
        self.velocity_y.push(it.velocity_y);
        self.damage.push(it.damage);
        self.timer.push(it.timer);
        if let Some(col) = &mut self.misc {
            match &it.v3_2 {
                Some(t) => col.push(decode_le32(&t.misc)),
                None => col.push(0),
            }
        }
        if let Some(col) = &mut self.owner {
            match &it.v3_6 {
                Some(t) => col.push(
                    match t.owner {
                        Some(o) => o,
                        None => 0xff,
                    },
                ),
                None => col.push(0),
            }
        }
    }
}

// ---------------------------------------------------------------------------
// Whole-batch blocks and the assembled column tree.
// ---------------------------------------------------------------------------
/// Start-of-game columns, one value per frame.
pub struct StartCol {
    pub random_seed: Vec<u32>,
}

/// End-of-game columns, one value per frame; the version tier's column
/// exists for the whole batch or not at all.
pub struct EndCol {
    pub latest_finalized_frame: Option<Vec<i32>>,
}

/// Pre- and post-state column groups of one character role.
pub struct Port {
    pub pre: PreCol,
    pub post: PostCol,
}

/// The Column Tree: output of the transform, mirroring the record's
/// nested-optional shape with every leaf a dense array indexed by
/// (port, frame), or an append-ordered list with a length side array for
/// items.  Tier presence is a batch-wide fact, never per-row nullability.
pub struct Frames {
    pub leader: Port,
    pub follower: Port,
    pub start: Option<StartCol>,
    pub end: Option<EndCol>,
    pub item: Option<ItemCol>,
}

impl Frames {
    /// Port count of the dense layout.
    pub open spec fn ports(self) -> int {
        self.leader.pre.ports()
    }

    /// Frame count of the dense layout.
    pub open spec fn frames(self) -> int {
        self.leader.pre.frames()
    }

    /// All four dense groups share the same (ports × frames) layout, the
    /// whole-batch blocks have one value per frame, and the item side array
    /// has one count per frame.
    pub open spec fn wf(self) -> bool {
        &&& self.ports() >= 1
        &&& self.frames() >= 1
        &&& self.leader.pre.wf()
        &&& self.leader.post.wf()
        &&& self.follower.pre.wf()
        &&& self.follower.post.wf()
        &&& self.leader.post.ports() == self.ports()
        &&& self.leader.post.frames() == self.frames()
        &&& self.follower.pre.ports() == self.ports()
        &&& self.follower.pre.frames() == self.frames()
        &&& self.follower.post.ports() == self.ports()
        &&& self.follower.post.frames() == self.frames()
        &&& match self.start {
            Some(c) => c.random_seed@.len() == self.frames(),
            None => true,
        }
        &&& match self.end {
            Some(c) => match c.latest_finalized_frame {
                Some(g) => g@.len() == self.frames(),
                None => true,
            },
            None => true,
        }
        &&& match self.item {
            Some(c) => c.wf() && c.lengths@.len() == self.frames(),
            None => true,
        }
    }

    /// The tier columns present throughout the tree are exactly those the
    /// resolved depths call for.
    pub open spec fn tiers_ok(self, d: Depths) -> bool {
        &&& self.leader.pre.tiers_ok(d.pre as int)
        &&& self.leader.post.tiers_ok(d.post as int)
        &&& self.follower.pre.tiers_ok(d.pre as int)
        &&& self.follower.post.tiers_ok(d.post as int)
        &&& self.start is Some <==> d.start
        &&& self.end is Some <==> d.end
        &&& match self.end {
            Some(c) => c.latest_finalized_frame is Some <==> d.end_v3_7,
            None => true,
        }
        &&& match (self.item, d.item) {
            (Some(c), Some(di)) => c.tiers_ok(di as int),
            (None, None) => true,
            _ => false,
        }
    }
}


// ---------------------------------------------------------------------------
// Batch uniformity and the transform itself.
// ---------------------------------------------------------------------------
/// A port entry agrees with the batch-wide resolved depths: the leader's
/// blocks, and the follower's where a follower is present, all have exactly
/// the resolved tiers.
pub open spec fn port_uniform(pd: crate::record::PortData, d: Depths) -> bool {
    &&& pd.leader.pre.has_depth(d.pre as int)
    &&& pd.leader.post.has_depth(d.post as int)
    &&& match pd.follower {
        Some(fo) => fo.pre.has_depth(d.pre as int) && fo.post.has_depth(d.post as int),
        None => true,
    }
}

/// A frame record agrees with the batch-wide resolved structure: the port
/// count, every port entry, the whole-batch blocks, and every item record.
pub open spec fn frame_uniform(fr: Frame, d: Depths, ports: int) -> bool {
    &&& fr.ports@.len() == ports
    &&& forall|p: int| 0 <= p < ports ==> port_uniform(#[trigger] fr.ports@[p], d)
    &&& (fr.start is Some <==> d.start)
    &&& match fr.end {
        Some(e) => d.end && (e.v3_7 is Some <==> d.end_v3_7),
        None => !d.end,
    }
    &&& match d.item {
        Some(di) => fr.items is Some && forall|k: int|
            0 <= k < fr.item_seq().len() ==> (#[trigger] fr.item_seq()[k]).has_depth(di as int),
        None => fr.item_seq().len() == 0,
    }
}

/// Every frame of the batch agrees with the resolved structure.  The
/// transform aborts with [`FatalError::FrameMismatch`] on any batch where
/// this fails.
pub open spec fn batch_uniform(frames: Seq<Frame>, d: Depths) -> bool {
    forall|f: int|
        0 <= f < frames.len() ==> frame_uniform(
            #[trigger] frames[f],
            d,
            frames[0].ports@.len() as int,
        )
}

/// Number of item occurrences in frames `0 .. f`: the append-order offset
/// at which frame `f`'s items start.
pub open spec fn items_before(frames: Seq<Frame>, f: int) -> int
    decreases f,
{
    if f <= 0 {
        0
    } else {
        items_before(frames, f - 1) + frames[f - 1].item_seq().len()
    }
}

/// The cells of every dense column group at (p, f) hold what the transform
/// owes them: converted leader fields, and converted follower fields where
/// the record has a follower, the zero cell where it has none.
pub open spec fn port_cell_ok(out: Frames, src: Seq<Frame>, p: int, f: int) -> bool {
    &&& out.leader.pre.filled_at(src[f].ports@[p].leader.pre, p, f)
    &&& out.leader.post.filled_at(src[f].ports@[p].leader.post, p, f)
    &&& match src[f].ports@[p].follower {
        Some(fo) => out.follower.pre.filled_at(fo.pre, p, f) && out.follower.post.filled_at(
            fo.post,
            p,
            f,
        ),
        None => out.follower.pre.zero_at(p, f) && out.follower.post.zero_at(p, f),
    }
}

/// Full correctness of a transform result: well-formed dense layout of the
/// batch's dimensions, tier columns as resolved, every (port, frame) cell
/// converted, the whole-batch blocks copied per frame, and the item columns
/// holding every item in append order with the length side array.
pub open spec fn transpose_ok(src: Seq<Frame>, d: Depths, out: Frames) -> bool {
    &&& out.wf()
    &&& out.ports() == src[0].ports@.len()
    &&& out.frames() == src.len()
    &&& out.tiers_ok(d)
    &&& forall|p: int, f: int|
        0 <= p < out.ports() && 0 <= f < out.frames() ==> #[trigger] port_cell_ok(out, src, p, f)
    &&& match out.start {
        Some(c) => forall|f: int|
            0 <= f < src.len() ==> c.random_seed@[f] == (#[trigger] src[f].start).unwrap().random_seed,
        None => true,
    }
    &&& match out.end {
        Some(c) => match c.latest_finalized_frame {
            Some(g) => forall|f: int|
                0 <= f < src.len() ==> g@[f] == (#[trigger] src[f].end).unwrap().v3_7.unwrap().latest_finalized_frame,
            None => true,
        },
        None => true,
    }
    &&& match out.item {
        Some(c) => {
            &&& c.len() == items_before(src, src.len() as int)
            &&& forall|f: int|
                0 <= f < src.len() ==> c.lengths@[f] == (#[trigger] src[f].item_seq()).len()
            &&& forall|f: int, k: int|
                0 <= f < src.len() && 0 <= k < src[f].item_seq().len() ==> c.filled_at(
                    #[trigger] src[f].item_seq()[k],
                    (f + FIRST_FRAME_INDEX as int) as i32,
                    items_before(src, f) + k,
                )
        },
        None => true,
    }
}

/// Checks one frame record against the batch-wide resolved structure.
fn frame_ok(fr: &Frame, d: &Depths, ports: usize) -> (b: bool)
    requires
        d.wf(),
    ensures
        b == frame_uniform(*fr, *d, ports as int),
{
    if fr.ports.len() != ports {
        return false;
    }
    let mut p: usize = 0;
    while p < ports
        invariant
            0 <= p <= ports,
            ports == fr.ports@.len(),
            d.wf(),
            forall|q: int| 0 <= q < p ==> port_uniform(#[trigger] fr.ports@[q], *d),
        decreases ports - p,
    {
        let pd = &fr.ports[p];
        if !pd.leader.pre.matches_depth(d.pre) {
            return false;
        }
        if !pd.leader.post.matches_depth(d.post) {
            return false;
        }
        match &pd.follower {
            Some(fo) => {
                if !fo.pre.matches_depth(d.pre) {
                    return false;
                }
                if !fo.post.matches_depth(d.post) {
                    return false;
                }
            },
            None => {},
        }
        p += 1;
    }
    if fr.start.is_some() != d.start {
        return false;
    }
    match &fr.end {
        Some(e) => {
            if !d.end {
                return false;
            }
            if e.v3_7.is_some() != d.end_v3_7 {
                return false;
            }
        },
        None => {
            if d.end {
                return false;
            }
        },
    }
    match &d.item {
        Some(di) => {
            match &fr.items {
                Some(items) => {
                    let n = items.len();
                    let mut k: usize = 0;
                    while k < n
                        invariant
                            0 <= k <= n,
                            n == items@.len(),
                            items@ == fr.item_seq(),
                            d.item == Some(*di),
                            *di <= 2,
                            forall|j: int|
                                0 <= j < k ==> (#[trigger] fr.item_seq()[j]).has_depth(*di as int),
                        decreases n - k,
                    {
                        if !items[k].matches_depth(*di) {
                            proof {
                                assert(fr.item_seq()[k as int] == items@[k as int]);
                                assert(!fr.item_seq()[k as int].has_depth(*di as int));
                            }
                            return false;
                        }
                        k += 1;
                    }
                },
                None => {
                    return false;
                },
            }
        },
        None => {
            match &fr.items {
                Some(items) => {
                    if items.len() > 0 {
                        return false;
                    }
                },
                None => {},
            }
        },
    }
    true
}


/// Frames `0 .. a` contribute no more item occurrences than frames `0 .. b`.
proof fn lemma_items_before_mono(frames: Seq<Frame>, a: int, b: int)
    requires
        0 <= a <= b,
    ensures
        items_before(frames, a) <= items_before(frames, b),
    decreases b,
{
    if a < b {
        lemma_items_before_mono(frames, a, b - 1);
    }
}

/// The follower cell (q, g) still holds its zero values.
spec fn follower_zero(out: Frames, q: int, g: int) -> bool {
    &&& out.follower.pre.zero_at(q, g)
    &&& out.follower.post.zero_at(q, g)
}

/// Shapes, dimensions and tier columns of the four dense groups.
spec fn groups_ok(out: Frames, d: Depths, nports: int, nframes: int) -> bool {
    &&& out.leader.pre.wf() && out.leader.pre.ports() == nports && out.leader.pre.frames()
        == nframes && out.leader.pre.tiers_ok(d.pre as int)
    &&& out.leader.post.wf() && out.leader.post.ports() == nports && out.leader.post.frames()
        == nframes && out.leader.post.tiers_ok(d.post as int)
    &&& out.follower.pre.wf() && out.follower.pre.ports() == nports && out.follower.pre.frames()
        == nframes && out.follower.pre.tiers_ok(d.pre as int)
    &&& out.follower.post.wf() && out.follower.post.ports() == nports && out.follower.post.frames()
        == nframes && out.follower.post.tiers_ok(d.post as int)
}

/// Dense-cell progress up to the frontier (frame `f`, port `p`): every cell
/// before the frontier is converted, every follower cell at or past it is
/// still zero.
spec fn cells_done(out: Frames, src: Seq<Frame>, nports: int, nframes: int, f: int, p: int) -> bool {
    &&& forall|q: int, g: int|
        0 <= q < nports && 0 <= g < nframes && (g < f || (g == f && q < p))
            ==> #[trigger] port_cell_ok(out, src, q, g)
    &&& forall|q: int, g: int|
        0 <= q < nports && 0 <= g < nframes && !(g < f || (g == f && q < p))
            ==> #[trigger] follower_zero(out, q, g)
}

/// Start-block progress for frames `0 .. f`.
spec fn start_done(out: Frames, src: Seq<Frame>, d: Depths, nframes: int, f: int) -> bool {
    &&& (out.start is Some <==> d.start)
    &&& match out.start {
        Some(c) => c.random_seed@.len() == nframes && forall|g: int|
            0 <= g < f ==> c.random_seed@[g] == (#[trigger] src[g].start).unwrap().random_seed,
        None => true,
    }
}

/// End-block progress for frames `0 .. f`.
spec fn end_done(out: Frames, src: Seq<Frame>, d: Depths, nframes: int, f: int) -> bool {
    &&& (out.end is Some <==> d.end)
    &&& match out.end {
        Some(c) => {
            &&& (c.latest_finalized_frame is Some <==> d.end_v3_7)
            &&& match c.latest_finalized_frame {
                Some(col) => col@.len() == nframes && forall|g: int|
                    0 <= g < f ==> col@[g] == (
                    #[trigger] src[g].end).unwrap().v3_7.unwrap().latest_finalized_frame,
                None => true,
            }
        },
        None => true,
    }
}

/// Item-column progress for frames `0 .. f`.
spec fn item_done(out: Frames, src: Seq<Frame>, d: Depths, f: int) -> bool {
    match (out.item, d.item) {
        (Some(c), Some(di)) => {
            &&& c.wf()
            &&& c.tiers_ok(di as int)
            &&& c.lengths@.len() == f
            &&& c.len() == items_before(src, f)
            &&& forall|g: int| 0 <= g < f ==> c.lengths@[g] == (#[trigger] src[g].item_seq()).len()
            &&& forall|g: int, k: int|
                0 <= g < f && 0 <= k < src[g].item_seq().len() ==> c.filled_at(
                    #[trigger] src[g].item_seq()[k],
                    (g + FIRST_FRAME_INDEX as int) as i32,
                    items_before(src, g) + k,
                )
        },
        (None, None) => true,
        _ => false,
    }
}

/// The row-to-column transform: resolves the batch's version tiers from its
/// first frame, allocates the Column Tree, and copies every record's fields
/// into the dense columns in one pass over the frames, checking each frame
/// against the resolved structure on the way.
///
/// Returns the tier-resolution error on a malformed batch,
/// [`FatalError::FrameMismatch`] on the first frame whose structure
/// disagrees with the resolved tiers, and the fully populated Column Tree
/// otherwise.
pub fn transpose_rows(frames: &Vec<Frame>) -> (r: Result<Frames, FatalError>)
    requires
        frames@.len() <= 0x7fff_ffff,
    ensures
        match r {
            Ok(out) => match resolve_spec(frames@) {
                Ok(d) => batch_uniform(frames@, d) && transpose_ok(frames@, d, out),
                Err(_) => false,
            },
            Err(e) => match resolve_spec(frames@) {
                Ok(d) => e == FatalError::FrameMismatch && !batch_uniform(frames@, d),
                Err(e2) => e == e2,
            },
        },
{
    let d = match resolve(frames) {
        Ok(d) => d,
        Err(e) => { return Err(e) },
    };
    proof {
        crate::resolve::lemma_resolve_wf(frames@);
    }
    let nframes = frames.len();
    let nports = frames[0].ports.len();

    let mut out = Frames {
        leader: Port {
            pre: PreCol::new(nports, nframes, d.pre),
            post: PostCol::new(nports, nframes, d.post),
        },
        follower: Port {
            pre: PreCol::new(nports, nframes, d.pre),
            post: PostCol::new(nports, nframes, d.post),
        },
        start: if d.start {
            Some(StartCol { random_seed: filled_vec(nframes, 0u32) })
        } else {
            None
        },
        end: if d.end {
            Some(
                EndCol {
                    latest_finalized_frame: if d.end_v3_7 {
                        Some(filled_vec(nframes, 0i32))
                    } else {
                        None
                    },
                },
            )
        } else {
            None
        },
        item: match d.item {
            Some(di) => Some(ItemCol::new(di)),
            None => None,
        },
    };

    let mut f: usize = 0;
    while f < nframes
        invariant
            nframes == frames@.len(),
            nframes <= 0x7fff_ffff,
            1 <= nports,
            nports == frames@[0].ports@.len(),
            0 <= f <= nframes,
            resolve_spec(frames@) == Ok::<Depths, FatalError>(d),
            d.wf(),
            groups_ok(out, d, nports as int, nframes as int),
            cells_done(out, frames@, nports as int, nframes as int, f as int, 0),
            start_done(out, frames@, d, nframes as int, f as int),
            end_done(out, frames@, d, nframes as int, f as int),
            item_done(out, frames@, d, f as int),
            forall|g: int|
                0 <= g < f ==> frame_uniform(#[trigger] frames@[g], d, nports as int),
        decreases nframes - f,
    {
        let fr = &frames[f];
        if !frame_ok(fr, &d, nports) {
            proof {
                assert(!frame_uniform(frames@[f as int], d, nports as int));
                assert(!batch_uniform(frames@, d));
            }
            return Err(FatalError::FrameMismatch);
        }

        // Dense per-port writes for this frame.
        let mut p: usize = 0;
        while p < nports
            invariant
                nframes == frames@.len(),
                1 <= nports,
                0 <= f < nframes,
                0 <= p <= nports,
                *fr == frames@[f as int],
                fr.ports@.len() == nports,
                d.wf(),
                groups_ok(out, d, nports as int, nframes as int),
                cells_done(out, frames@, nports as int, nframes as int, f as int, p as int),
                start_done(out, frames@, d, nframes as int, f as int),
                end_done(out, frames@, d, nframes as int, f as int),
                item_done(out, frames@, d, f as int),
            decreases nports - p,
        {
            let pd = &fr.ports[p];
            let ghost snap = out;
            out.leader.pre.fill(&pd.leader.pre, p, f);
            out.leader.post.fill(&pd.leader.post, p, f);
            match &pd.follower {
                Some(fo) => {
                    out.follower.pre.fill(&fo.pre, p, f);
                    out.follower.post.fill(&fo.post, p, f);
                },
                None => {},
            }
            proof {
                let src = frames@;
                let np = nports as int;
                let nf = nframes as int;
                let fi = f as int;
                let pi = p as int;
                assert forall|q: int, g: int|
                    0 <= q < np && 0 <= g < nf && (g < fi || (g == fi && q < pi + 1)) implies #[trigger] port_cell_ok(
                    out,
                    src,
                    q,
                    g,
                ) by {
                    if q == pi && g == fi {
                        assert(src[g].ports@[q] == *pd);
                        match pd.follower {
                            Some(_) => {},
                            None => {
                                assert(follower_zero(snap, q, g));
                            },
                        }
                    } else {
                        assert(port_cell_ok(snap, src, q, g));
                        assert(out.leader.pre.cell_eq(snap.leader.pre, q, g));
                        assert(out.leader.post.cell_eq(snap.leader.post, q, g));
                        match pd.follower {
                            Some(_) => {
                                assert(out.follower.pre.cell_eq(snap.follower.pre, q, g));
                                assert(out.follower.post.cell_eq(snap.follower.post, q, g));
                            },
                            None => {
                                assert(out.follower == snap.follower);
                            },
                        }
                    }
                };
                assert forall|q: int, g: int|
                    0 <= q < np && 0 <= g < nf && !(g < fi || (g == fi && q < pi + 1)) implies #[trigger] follower_zero(
                    out,
                    q,
                    g,
                ) by {
                    assert(follower_zero(snap, q, g));
                    match pd.follower {
                        Some(_) => {
                            assert(out.follower.pre.cell_eq(snap.follower.pre, q, g));
                            assert(out.follower.post.cell_eq(snap.follower.post, q, g));
                        },
                        None => {
                            assert(out.follower == snap.follower);
                        },
                    }
                };
                assert(out.start == snap.start);
                assert(out.end == snap.end);
                assert(out.item == snap.item);
                assert(start_done(out, src, d, nf, fi)) by {
                    assert(start_done(snap, src, d, nf, fi));
                }
                assert(end_done(out, src, d, nf, fi)) by {
                    assert(end_done(snap, src, d, nf, fi));
                }
                assert(item_done(out, src, d, fi)) by {
                    assert(item_done(snap, src, d, fi));
                }
            }
            p += 1;
        }

        let ghost out_mid = out;

        // Whole-batch blocks of this frame.
        if let Some(sc) = &mut out.start {
            match &fr.start {
                Some(s) => {
                    sc.random_seed[f] = s.random_seed;
                },
                None => {
                    proof {
                        assert(false);
                    }
                },
            }
        }
        if let Some(ec) = &mut out.end {
            match &fr.end {
                Some(e) => {
                    if let Some(col) = &mut ec.latest_finalized_frame {
                        match &e.v3_7 {
                            Some(v) => {
                                col[f] = v.latest_finalized_frame;
                            },
                            None => {
                                proof {
                                    assert(false);
                                }
                            },
                        }
                    }
                },
                None => {
                    proof {
                        assert(false);
                    }
                },
            }
        }

        // Append this frame's items.
        proof {
            assert(out.leader == out_mid.leader);
            assert(out.follower == out_mid.follower);
            assert(out.item == out_mid.item);
            assert(item_done(out, frames@, d, f as int)) by {
                assert(item_done(out_mid, frames@, d, f as int));
            }
        }
        if let Some(ic) = &mut out.item {
            match &fr.items {
                Some(items) => {
                    let ghost ic0 = *ic;
                    proof {
                        assert(d.item is Some);
                        assert(ic0.wf());
                        assert(ic0.tiers_ok(d.item.unwrap() as int));
                        assert(ic0.lengths@.len() == f as int);
                        assert(ic0.len() == items_before(frames@, f as int));
                        assert(forall|g: int|
                            0 <= g < f ==> ic0.lengths@[g] == (
                            #[trigger] frames@[g].item_seq()).len());
                        assert(forall|g: int, k2: int|
                            0 <= g < f && 0 <= k2 < frames@[g].item_seq().len()
                                ==> ic0.filled_at(
                                #[trigger] frames@[g].item_seq()[k2],
                                (g + FIRST_FRAME_INDEX as int) as i32,
                                items_before(frames@, g) + k2,
                            ));
                    }
                    let cnt = items.len();
                    let fidx: i32 = (f as i32) + FIRST_FRAME_INDEX;
                    let mut k: usize = 0;
                    while k < cnt
                        invariant
                            cnt == items@.len(),
                            0 <= k <= cnt,
                            0 <= f < nframes,
                            nframes == frames@.len(),
                            nframes <= 0x7fff_ffff,
                            items@ == frames@[f as int].item_seq(),
                            fidx == f + FIRST_FRAME_INDEX as int,
                            ic.wf(),
                            ic0.wf(),
                            ic.misc is Some <==> ic0.misc is Some,
                            ic.owner is Some <==> ic0.owner is Some,
                            ic.lengths == ic0.lengths,
                            ic0.len() == items_before(frames@, f as int),
                            ic.len() == items_before(frames@, f as int) + k,
                            forall|j: int| 0 <= j < ic0.len() ==> ic.row_eq(ic0, j),
                            forall|j: int|
                                0 <= j < k ==> ic.filled_at(
                                    #[trigger] frames@[f as int].item_seq()[j],
                                    fidx,
                                    items_before(frames@, f as int) + j,
                                ),
                        decreases cnt - k,
                    {
                        let ghost prev = *ic;
                        ic.push_item(&items[k], fidx);
                        proof {
                            assert forall|j: int| 0 <= j < ic0.len() implies ic.row_eq(ic0, j) by {
                                assert(prev.row_eq(ic0, j));
                                assert(ic.row_eq(prev, j));
                            };
                            assert forall|j: int|
                                0 <= j < k + 1 implies ic.filled_at(
                                #[trigger] frames@[f as int].item_seq()[j],
                                fidx,
                                items_before(frames@, f as int) + j,
                            ) by {
                                if j < k {
                                    assert(prev.filled_at(
                                        frames@[f as int].item_seq()[j],
                                        fidx,
                                        items_before(frames@, f as int) + j,
                                    ));
                                    assert(ic.row_eq(prev, items_before(frames@, f as int) + j));
                                } else {
                                    assert(items@[j] == frames@[f as int].item_seq()[j]);
                                }
                            };
                        }
                        k += 1;
                    }
                    let ghost ic1 = *ic;
                    ic.lengths.push(cnt);
                    proof {
                        let src = frames@;
                        let fi = f as int;
                        assert(ic.index == ic1.index);
                        assert(ic.misc == ic1.misc);
                        assert(ic.owner == ic1.owner);
                        assert(ic.len() == items_before(src, fi + 1));
                        assert(ic.tiers_ok(d.item.unwrap() as int));
                        assert forall|g: int| 0 <= g < fi + 1 implies ic.lengths@[g] == (
                        #[trigger] src[g].item_seq()).len() by {
                            if g < fi {
                                assert(ic0.lengths@[g] == src[g].item_seq().len());
                            } else {
                                assert(items@ == src[fi].item_seq());
                            }
                        };
                        assert forall|g: int, k2: int|
                            0 <= g < fi + 1 && 0 <= k2 < src[g].item_seq().len() implies ic.filled_at(
                            #[trigger] src[g].item_seq()[k2],
                            (g + FIRST_FRAME_INDEX as int) as i32,
                            items_before(src, g) + k2,
                        ) by {
                            if g < fi {
                                lemma_items_before_mono(src, 0, g);
                                lemma_items_before_mono(src, g + 1, fi);
                                assert(ic0.filled_at(
                                    src[g].item_seq()[k2],
                                    (g + FIRST_FRAME_INDEX as int) as i32,
                                    items_before(src, g) + k2,
                                ));
                                assert(items_before(src, g) + k2 < ic0.len());
                                assert(ic1.row_eq(ic0, items_before(src, g) + k2));
                                assert(ic.row_eq(ic0, items_before(src, g) + k2));
                            } else {
                                assert(ic1.filled_at(
                                    src[g].item_seq()[k2],
                                    fidx,
                                    items_before(src, fi) + k2,
                                ));
                                assert(ic.filled_at(
                                    src[g].item_seq()[k2],
                                    fidx,
                                    items_before(src, fi) + k2,
                                ));
                            }
                        };
                    }
                },
                None => {
                    proof {
                        assert(false);
                    }
                },
            }
        }

        proof {
            let src = frames@;
            let fi = f as int;
            // The block writes touched no dense column.
            assert(out.leader == out_mid.leader);
            assert(out.follower == out_mid.follower);
            assert forall|q: int, g: int|
                0 <= q < nports && 0 <= g < nframes && g < fi + 1 implies #[trigger] port_cell_ok(
                out,
                src,
                q,
                g,
            ) by {
                assert(port_cell_ok(out_mid, src, q, g));
            };
            assert forall|q: int, g: int|
                0 <= q < nports && 0 <= g < nframes && !(g < fi + 1) implies #[trigger] follower_zero(
                out,
                q,
                g,
            ) by {
                assert(follower_zero(out_mid, q, g));
            };
            assert(cells_done(out, src, nports as int, nframes as int, fi + 1, 0));
        }
        f += 1;
    }

    proof {
        assert(transpose_ok(frames@, d, out)) by {
            assert(groups_ok(out, d, nports as int, nframes as int));
            assert(cells_done(out, frames@, nports as int, nframes as int, nframes as int, 0));
        }
    }
    Ok(out)
}


/// Law: the transform's output is losslessly re-expandable.  For every
/// batch the transform accepts, (a) the column tree's tier presence
/// reproduces, for every frame and port, the records' exact optional-tier
/// presence, and (b) decoding the definition/repetition level vectors
/// emitted for the item list (at any real leaf definition level) recovers
/// the exact original item-list length of every frame.
pub proof fn lemma_round_trip(src: Seq<Frame>, d: Depths, out: Frames, lev: u8)
    requires
        resolve_spec(src) == Ok::<Depths, FatalError>(d),
        batch_uniform(src, d),
        transpose_ok(src, d, out),
        1 <= lev,
    ensures
        forall|f: int, p: int|
            0 <= f < src.len() && 0 <= p < out.ports() ==> {
                let pre = (#[trigger] src[f].ports@[p]).leader.pre;
                &&& (pre.v1_2 is Some <==> out.leader.pre.raw_analog_x is Some)
                &&& (pre.v1_4 is Some <==> out.leader.pre.damage is Some)
            },
        forall|f: int, p: int|
            0 <= f < src.len() && 0 <= p < out.ports() ==> {
                let post = (#[trigger] src[f].ports@[p]).leader.post;
                &&& (post.v0_2 is Some <==> out.leader.post.state_age is Some)
                &&& (post.v2_0 is Some <==> out.leader.post.v2_0 is Some)
                &&& (post.v2_1 is Some <==> out.leader.post.hurtbox_state is Some)
                &&& (post.v3_5 is Some <==> out.leader.post.v3_5 is Some)
                &&& (post.v3_8 is Some <==> out.leader.post.hitlag is Some)
            },
        forall|f: int, p: int|
            0 <= f < src.len() && 0 <= p < out.ports() ==> match (
            #[trigger] src[f].ports@[p]).follower {
                Some(fo) => {
                    &&& (fo.pre.v1_2 is Some <==> out.follower.pre.raw_analog_x is Some)
                    &&& (fo.pre.v1_4 is Some <==> out.follower.pre.damage is Some)
                    &&& (fo.post.v0_2 is Some <==> out.follower.post.state_age is Some)
                    &&& (fo.post.v2_0 is Some <==> out.follower.post.v2_0 is Some)
                    &&& (fo.post.v2_1 is Some <==> out.follower.post.hurtbox_state is Some)
                    &&& (fo.post.v3_5 is Some <==> out.follower.post.v3_5 is Some)
                    &&& (fo.post.v3_8 is Some <==> out.follower.post.hitlag is Some)
                },
                None => true,
            },
        match out.item {
            Some(c) => {
                &&& crate::levels::decode_levels(
                    crate::levels::def_levels(c.lengths@, lev),
                    crate::levels::rep_levels(c.lengths@),
                ) == Some(c.lengths@)
                &&& forall|f: int|
                    0 <= f < src.len() ==> c.lengths@[f] == (#[trigger] src[f].item_seq()).len()
            },
            None => forall|f: int| 0 <= f < src.len() ==> (#[trigger] src[f].item_seq()).len() == 0,
        },
{
    assert forall|f: int, p: int| 0 <= f < src.len() && 0 <= p < out.ports() implies {
        let pre = (#[trigger] src[f].ports@[p]).leader.pre;
        &&& (pre.v1_2 is Some <==> out.leader.pre.raw_analog_x is Some)
        &&& (pre.v1_4 is Some <==> out.leader.pre.damage is Some)
    } by {
        assert(frame_uniform(src[f], d, src[0].ports@.len() as int));
        assert(port_uniform(src[f].ports@[p], d));
    };
    assert forall|f: int, p: int| 0 <= f < src.len() && 0 <= p < out.ports() implies {
        let post = (#[trigger] src[f].ports@[p]).leader.post;
        &&& (post.v0_2 is Some <==> out.leader.post.state_age is Some)
        &&& (post.v2_0 is Some <==> out.leader.post.v2_0 is Some)
        &&& (post.v2_1 is Some <==> out.leader.post.hurtbox_state is Some)
        &&& (post.v3_5 is Some <==> out.leader.post.v3_5 is Some)
        &&& (post.v3_8 is Some <==> out.leader.post.hitlag is Some)
    } by {
        assert(frame_uniform(src[f], d, src[0].ports@.len() as int));
        assert(port_uniform(src[f].ports@[p], d));
    };
    assert forall|f: int, p: int| 0 <= f < src.len() && 0 <= p < out.ports() implies match (
    #[trigger] src[f].ports@[p]).follower {
        Some(fo) => {
            &&& (fo.pre.v1_2 is Some <==> out.follower.pre.raw_analog_x is Some)
            &&& (fo.pre.v1_4 is Some <==> out.follower.pre.damage is Some)
            &&& (fo.post.v0_2 is Some <==> out.follower.post.state_age is Some)
            &&& (fo.post.v2_0 is Some <==> out.follower.post.v2_0 is Some)
            &&& (fo.post.v2_1 is Some <==> out.follower.post.hurtbox_state is Some)
            &&& (fo.post.v3_5 is Some <==> out.follower.post.v3_5 is Some)
            &&& (fo.post.v3_8 is Some <==> out.follower.post.hitlag is Some)
        },
        None => true,
    } by {
        assert(frame_uniform(src[f], d, src[0].ports@.len() as int));
        assert(port_uniform(src[f].ports@[p], d));
    };
    match out.item {
        Some(c) => {
            crate::levels::lemma_levels_round_trip(c.lengths@, lev);
        },
        None => {
            assert forall|f: int| 0 <= f < src.len() implies (
            #[trigger] src[f].item_seq()).len() == 0 by {
                assert(frame_uniform(src[f], d, src[0].ports@.len() as int));
            };
        },
    }
}

} // verus!
