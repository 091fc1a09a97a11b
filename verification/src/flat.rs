//! Flat-sink layout for the item columns.
//!
//! A flat scientific-array sink has no native support for lists, so the
//! variable-length item lists are laid out as a dense
//! (frame count × item capacity) grid with an explicit capacity constant
//! and a defined absent-slot sentinel: unused slots hold the maximum
//! 32-bit unsigned value in the `id` column and the type's zero value
//! everywhere else.  No definition/repetition metadata is emitted.
//!
//! The fixed per-port columns need no extra work for this sink: the dense
//! (port × frame) grids of [`crate::transform::Frames`] already are the
//! flat layout, grouped hierarchically by the optional-tier chain.

use vstd::prelude::*;

use crate::transform::{grid, grid_wf, set2, ItemCol};

verus! {

/// Fixed per-frame item capacity of the flat layout.
pub const MAX_ITEMS: usize = 16;

/// Total item count of frames `0 .. f`, from the length side array: the
/// append-order offset at which frame `f`'s items start.
pub open spec fn sum_lengths(lengths: Seq<usize>, f: int) -> int
    decreases f,
{
    if f <= 0 {
        0
    } else {
        sum_lengths(lengths, f - 1) + lengths[f - 1]
    }
}

/// Prefix sums of the length side array are monotone.
pub proof fn lemma_sum_lengths_mono(lengths: Seq<usize>, a: int, b: int)
    requires
        0 <= a <= b,
    ensures
        sum_lengths(lengths, a) <= sum_lengths(lengths, b),
    decreases b,
{
    if a < b {
        lemma_sum_lengths_mono(lengths, a, b - 1);
    }
}

/// Dense (frame × item-slot) grids of the item fields, outer index frame.
pub struct ItemGrid {
    pub id: Vec<Vec<u32>>,
    pub kind: Vec<Vec<u16>>,
    pub state: Vec<Vec<u8>>,
    pub direction: Vec<Vec<bool>>,
    pub position_x: Vec<Vec<u32>>,
    pub position_y: Vec<Vec<u32>>,
    pub velocity_x: Vec<Vec<u32>>,
    pub velocity_y: Vec<Vec<u32>>,
    pub damage: Vec<Vec<u16>>,
    pub timer: Vec<Vec<u32>>,
    pub misc: Option<Vec<Vec<u32>>>,
    pub owner: Option<Vec<Vec<u8>>>,
}

impl ItemGrid {
    /// Frame count of the grid.
    pub open spec fn frames(self) -> int {
        self.id@.len() as int
    }

    /// Every grid is dense with [`MAX_ITEMS`] slots per frame.
    pub open spec fn wf(self) -> bool {
        &&& grid_wf(self.id@, self.frames(), MAX_ITEMS as int)
        &&& grid_wf(self.kind@, self.frames(), MAX_ITEMS as int)
        &&& grid_wf(self.state@, self.frames(), MAX_ITEMS as int)
        &&& grid_wf(self.direction@, self.frames(), MAX_ITEMS as int)
        &&& grid_wf(self.position_x@, self.frames(), MAX_ITEMS as int)
        &&& grid_wf(self.position_y@, self.frames(), MAX_ITEMS as int)
        &&& grid_wf(self.velocity_x@, self.frames(), MAX_ITEMS as int)
        &&& grid_wf(self.velocity_y@, self.frames(), MAX_ITEMS as int)
        &&& grid_wf(self.damage@, self.frames(), MAX_ITEMS as int)
        &&& grid_wf(self.timer@, self.frames(), MAX_ITEMS as int)
        &&& match self.misc {
            Some(g) => grid_wf(g@, self.frames(), MAX_ITEMS as int),
            None => true,
        }
        &&& match self.owner {
            Some(g) => grid_wf(g@, self.frames(), MAX_ITEMS as int),
            None => true,
        }
    }

    /// Slot (f, k) holds row `j` of the item columns.
    pub open spec fn slot_eq(self, c: ItemCol, f: int, k: int, j: int) -> bool {
        &&& self.id@[f]@[k] == c.id@[j]
        &&& self.kind@[f]@[k] == c.kind@[j]
        &&& self.state@[f]@[k] == c.state@[j]
        &&& self.direction@[f]@[k] == c.direction@[j]
        &&& self.position_x@[f]@[k] == c.position_x@[j]
        &&& self.position_y@[f]@[k] == c.position_y@[j]
        &&& self.velocity_x@[f]@[k] == c.velocity_x@[j]
        &&& self.velocity_y@[f]@[k] == c.velocity_y@[j]
        &&& self.damage@[f]@[k] == c.damage@[j]
        &&& self.timer@[f]@[k] == c.timer@[j]
        &&& match (self.misc, c.misc) {
            (Some(a), Some(b)) => a@[f]@[k] == b@[j],
            _ => true,
        }
        &&& match (self.owner, c.owner) {
            (Some(a), Some(b)) => a@[f]@[k] == b@[j],
            _ => true,
        }
    }

    /// Slot (f, k) holds the absent-slot sentinels: the maximum 32-bit
    /// unsigned value in `id`, the type's zero value everywhere else.
    pub open spec fn slot_empty(self, f: int, k: int) -> bool {
        &&& self.id@[f]@[k] == u32::MAX
        &&& self.kind@[f]@[k] == 0
        &&& self.state@[f]@[k] == 0
        &&& self.direction@[f]@[k] == false
        &&& self.position_x@[f]@[k] == 0
        &&& self.position_y@[f]@[k] == 0
        &&& self.velocity_x@[f]@[k] == 0
        &&& self.velocity_y@[f]@[k] == 0
        &&& self.damage@[f]@[k] == 0
        &&& self.timer@[f]@[k] == 0
        &&& match self.misc {
            Some(a) => a@[f]@[k] == 0,
            None => true,
        }
        &&& match self.owner {
            Some(a) => a@[f]@[k] == 0,
            None => true,
        }
    }

    /// The two grids agree at slot (f, k).
    pub open spec fn cell_eq(self, other: Self, f: int, k: int) -> bool {
        &&& self.id@[f]@[k] == other.id@[f]@[k]
        &&& self.kind@[f]@[k] == other.kind@[f]@[k]
        &&& self.state@[f]@[k] == other.state@[f]@[k]
        &&& self.direction@[f]@[k] == other.direction@[f]@[k]
        &&& self.position_x@[f]@[k] == other.position_x@[f]@[k]
        &&& self.position_y@[f]@[k] == other.position_y@[f]@[k]
        &&& self.velocity_x@[f]@[k] == other.velocity_x@[f]@[k]
        &&& self.velocity_y@[f]@[k] == other.velocity_y@[f]@[k]
        &&& self.damage@[f]@[k] == other.damage@[f]@[k]
        &&& self.timer@[f]@[k] == other.timer@[f]@[k]
        &&& match (self.misc, other.misc) {
            (Some(a), Some(b)) => a@[f]@[k] == b@[f]@[k],
            (None, None) => true,
            _ => false,
        }
        &&& match (self.owner, other.owner) {
            (Some(a), Some(b)) => a@[f]@[k] == b@[f]@[k],
            (None, None) => true,
            _ => false,
        }
    }

    /// Dense allocation: every slot of every frame holds the sentinels.
    fn new(num_frames: usize, has_misc: bool, has_owner: bool) -> (r: Self)
        ensures
            r.wf(),
            r.frames() == num_frames,
            r.misc is Some <==> has_misc,
            r.owner is Some <==> has_owner,
            forall|f: int, k: int|
                0 <= f < num_frames && 0 <= k < MAX_ITEMS ==> r.slot_empty(f, k),
    {
        ItemGrid {
            id: grid(num_frames, MAX_ITEMS, u32::MAX),
            kind: grid(num_frames, MAX_ITEMS, 0u16),
            state: grid(num_frames, MAX_ITEMS, 0u8),
            direction: grid(num_frames, MAX_ITEMS, false),
            position_x: grid(num_frames, MAX_ITEMS, 0u32),
            position_y: grid(num_frames, MAX_ITEMS, 0u32),
            velocity_x: grid(num_frames, MAX_ITEMS, 0u32),
            velocity_y: grid(num_frames, MAX_ITEMS, 0u32),
            damage: grid(num_frames, MAX_ITEMS, 0u16),
            timer: grid(num_frames, MAX_ITEMS, 0u32),
            misc: if has_misc {
                Some(grid(num_frames, MAX_ITEMS, 0u32))
            } else {
                None
            },
            owner: if has_owner {
                Some(grid(num_frames, MAX_ITEMS, 0u8))
            } else {
                None
            },
        }
    }

    /// One dense write: row `j` of the item columns lands in slot (f, k),
    /// every other slot keeps its value.
    fn fill_slot(&mut self, c: &ItemCol, j: usize, f: usize, k: usize)
        requires
            old(self).wf(),
            c.wf(),
            0 <= j < c.len(),
            0 <= f < old(self).frames(),
            0 <= k < MAX_ITEMS,
            old(self).misc is Some <==> c.misc is Some,
            old(self).owner is Some <==> c.owner is Some,
        ensures
            final(self).wf(),
            final(self).frames() == old(self).frames(),
            final(self).misc is Some <==> old(self).misc is Some,
            final(self).owner is Some <==> old(self).owner is Some,
            final(self).slot_eq(*c, f as int, k as int, j as int),
            forall|g: int, kk: int|
                0 <= g < old(self).frames() && 0 <= kk < MAX_ITEMS && !(g == f && kk == k)
                    ==> final(self).cell_eq(*old(self), g, kk),
    {
        set2(&mut self.id, f, k, c.id[j]);
        set2(&mut self.kind, f, k, c.kind[j]);
        set2(&mut self.state, f, k, c.state[j]);
        set2(&mut self.direction, f, k, c.direction[j]);
        set2(&mut self.position_x, f, k, c.position_x[j]);
        set2(&mut self.position_y, f, k, c.position_y[j]);
        set2(&mut self.velocity_x, f, k, c.velocity_x[j]);
        set2(&mut self.velocity_y, f, k, c.velocity_y[j]);
        set2(&mut self.damage, f, k, c.damage[j]);
        set2(&mut self.timer, f, k, c.timer[j]);
        match (&mut self.misc, &c.misc) {
            (Some(g), Some(v)) => {
                set2(g, f, k, v[j]);
            },
            _ => {},
        }
        match (&mut self.owner, &c.owner) {
            (Some(g), Some(v)) => {
                set2(g, f, k, v[j]);
            },
            _ => {},
        }
    }
}

/// Slot (f, k) of the grid holds item `k` of frame `f`: row
/// `sum_lengths(..., f) + k` of the append-ordered item columns.
pub open spec fn placed(r: ItemGrid, c: ItemCol, f: int, k: int) -> bool {
    r.slot_eq(c, f, k, sum_lengths(c.lengths@, f) + k)
}

/// Scatters the append-ordered item columns into the flat sink's dense
/// (frame × [`MAX_ITEMS`]) grid: frame `f`'s items fill its first slots in
/// order, the rest keep the absent-slot sentinels.
pub fn item_grid(item: &ItemCol, num_frames: usize) -> (r: ItemGrid)
    requires
        item.wf(),
        item.lengths@.len() == num_frames,
        sum_lengths(item.lengths@, num_frames as int) == item.len(),
        forall|f: int| 0 <= f < num_frames ==> #[trigger] item.lengths@[f] <= MAX_ITEMS,
    ensures
        r.wf(),
        r.frames() == num_frames,
        r.misc is Some <==> item.misc is Some,
        r.owner is Some <==> item.owner is Some,
        forall|f: int, k: int|
            0 <= f < num_frames && 0 <= k < item.lengths@[f] ==> #[trigger] placed(r, *item, f, k),
        forall|f: int, k: int|
            0 <= f < num_frames && item.lengths@[f] <= k < MAX_ITEMS ==> #[trigger] r.slot_empty(
                f,
                k,
            ),
{
    let mut r = ItemGrid::new(num_frames, item.misc.is_some(), item.owner.is_some());
    let total = item.index.len();
    let ghost lens = item.lengths@;
    let mut j: usize = 0;
    let mut f: usize = 0;
    while f < num_frames
        invariant
            item.wf(),
            lens == item.lengths@,
            lens.len() == num_frames,
            total == item.len(),
            sum_lengths(lens, num_frames as int) == item.len(),
            forall|g: int| 0 <= g < num_frames ==> #[trigger] lens[g] <= MAX_ITEMS,
            0 <= f <= num_frames,
            j == sum_lengths(lens, f as int),
            r.wf(),
            r.frames() == num_frames,
            r.misc is Some <==> item.misc is Some,
            r.owner is Some <==> item.owner is Some,
            forall|g: int, k: int|
                0 <= g < f && 0 <= k < lens[g] ==> #[trigger] placed(r, *item, g, k),
            forall|g: int, k: int|
                0 <= g < num_frames && 0 <= k < MAX_ITEMS && !(g < f && k < lens[g])
                    ==> #[trigger] r.slot_empty(g, k),
        decreases num_frames - f,
    {
        let cnt = item.lengths[f];
        proof {
            lemma_sum_lengths_mono(lens, f as int + 1, num_frames as int);
            assert(sum_lengths(lens, f as int + 1) == j + cnt);
        }
        let mut k: usize = 0;
        while k < cnt
            invariant
                item.wf(),
                lens == item.lengths@,
                lens.len() == num_frames,
                total == item.len(),
                forall|g: int| 0 <= g < num_frames ==> #[trigger] lens[g] <= MAX_ITEMS,
                0 <= f < num_frames,
                cnt == lens[f as int],
                cnt <= MAX_ITEMS,
                0 <= k <= cnt,
                j == sum_lengths(lens, f as int),
                j + cnt <= total,
                r.wf(),
                r.frames() == num_frames,
                r.misc is Some <==> item.misc is Some,
                r.owner is Some <==> item.owner is Some,
                forall|g: int, kk: int|
                    0 <= g < f && 0 <= kk < lens[g] ==> #[trigger] placed(r, *item, g, kk),
                forall|kk: int| 0 <= kk < k ==> #[trigger] placed(r, *item, f as int, kk),
                forall|g: int, kk: int|
                    0 <= g < num_frames && 0 <= kk < MAX_ITEMS && !((g < f && kk < lens[g]) || (g
                        == f && kk < k)) ==> #[trigger] r.slot_empty(g, kk),
            decreases cnt - k,
        {
            let ghost snap = r;
            r.fill_slot(item, j + k, f, k);
            proof {
                assert forall|g: int, kk: int|
                    0 <= g < f && 0 <= kk < lens[g] implies #[trigger] placed(r, *item, g, kk) by {
                    assert(placed(snap, *item, g, kk));
                    assert(r.cell_eq(snap, g, kk));
                };
                assert forall|kk: int| 0 <= kk < k + 1 implies #[trigger] placed(
                    r,
                    *item,
                    f as int,
                    kk,
                ) by {
                    if kk < k {
                        assert(placed(snap, *item, f as int, kk));
                        assert(r.cell_eq(snap, f as int, kk));
                    } else {
                        assert(r.slot_eq(*item, f as int, kk, j + kk));
                    }
                };
                assert forall|g: int, kk: int|
                    0 <= g < num_frames && 0 <= kk < MAX_ITEMS && !((g < f && kk < lens[g]) || (g
                        == f && kk < k + 1)) implies #[trigger] r.slot_empty(g, kk) by {
                    assert(snap.slot_empty(g, kk));
                    assert(r.cell_eq(snap, g, kk));
                };
            }
            k += 1;
        }
        j = j + cnt;
        f += 1;
    }
    r
}

} // verus!
