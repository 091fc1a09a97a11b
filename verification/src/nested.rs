//! Nested-schema encoder: lays the Column Tree out as typed row-group
//! buffers for a nested columnar file format, together with the generated
//! schema string that describes them.
//!
//! Output contract: one row-group per occupied port for leader data, and one
//! additional row-group per port whose resident character on the first
//! frame is a paired-character identifier, for follower data.  Each
//! row-group is an ordered list of typed column buffers in schema order.
//! Items are emitted as one row-group of their own, with the paired
//! definition/repetition level vectors of the repeated list.
//!
//! The sink boundary exposes four leaf types: boolean, 32-bit signed,
//! 64-bit signed, and 32-bit float.  Wider unsigned sources are
//! reinterpreted into the signed type of the same width (a bit-level cast,
//! not a numeric conversion); float buffers carry IEEE-754 bit patterns.

use vstd::prelude::*;
use vstd::string::StringExecFns;

use crate::levels::{def_levels, item_levels, rep_levels};
use crate::resolve::{Chain, FatalError};
use crate::transform::{Frames, ItemCol, PostCol, PreCol};
use crate::FIRST_FRAME_INDEX;

verus! {

/// Resident-character identifier for the leading half of the paired
/// character: a port whose first-frame resident character is this one (or
/// [`NANA`]) gets a follower row-group.
pub const POPO: u8 = 10;

/// Resident-character identifier for the trailing half of the paired
/// character.
pub const NANA: u8 = 11;

// ---------------------------------------------------------------------------
// Typed column buffers.
// ---------------------------------------------------------------------------
/// One flat value buffer, tagged with its leaf type.  `F32` carries the
/// IEEE-754 bit patterns of a 32-bit float column.
pub enum ColumnData {
    Bool(Vec<bool>),
    I32(Vec<i32>),
    I64(Vec<i64>),
    F32(Vec<u32>),
}

/// Mathematical view of a typed column buffer.
pub enum ColView {
    Bool(Seq<bool>),
    I32(Seq<i32>),
    I64(Seq<i64>),
    F32(Seq<u32>),
}

impl View for ColumnData {
    type V = ColView;

    open spec fn view(&self) -> ColView {
        match self {
            ColumnData::Bool(v) => ColView::Bool(v@),
            ColumnData::I32(v) => ColView::I32(v@),
            ColumnData::I64(v) => ColView::I64(v@),
            ColumnData::F32(v) => ColView::F32(v@),
        }
    }
}

/// One row-group under construction: the ordered typed column buffers
/// written into it so far.
pub struct RowGroupSink {
    pub cols: Vec<ColumnData>,
}

/// The ordered views of a row-group's columns.
pub open spec fn cols_view(rgw: RowGroupSink) -> Seq<ColView> {
    rgw.cols@.map_values(|c: ColumnData| c@)
}

impl RowGroupSink {
    /// An empty row-group.
    pub fn new() -> (r: Self)
        ensures
            cols_view(r) == Seq::<ColView>::empty(),
    {
        let r = RowGroupSink { cols: Vec::new() };
        proof {
            assert(cols_view(r) =~= Seq::<ColView>::empty());
        }
        r
    }
}

/// Appends one boolean column to the row-group.
pub fn write_bool(rgw: &mut RowGroupSink, data: Vec<bool>)
    ensures
        cols_view(*final(rgw)) == cols_view(*old(rgw)).push(ColView::Bool(data@)),
{
    let ghost before = cols_view(*rgw);
    rgw.cols.push(ColumnData::Bool(data));
    proof {
        assert(cols_view(*rgw) =~= before.push(ColView::Bool(data@)));
    }
}

/// Appends one 32-bit signed column to the row-group.
pub fn write_i32(rgw: &mut RowGroupSink, data: Vec<i32>)
    ensures
        cols_view(*final(rgw)) == cols_view(*old(rgw)).push(ColView::I32(data@)),
{
    let ghost before = cols_view(*rgw);
    rgw.cols.push(ColumnData::I32(data));
    proof {
        assert(cols_view(*rgw) =~= before.push(ColView::I32(data@)));
    }
}

/// Appends one 64-bit signed column to the row-group.
pub fn write_i64(rgw: &mut RowGroupSink, data: Vec<i64>)
    ensures
        cols_view(*final(rgw)) == cols_view(*old(rgw)).push(ColView::I64(data@)),
{
    let ghost before = cols_view(*rgw);
    rgw.cols.push(ColumnData::I64(data));
    proof {
        assert(cols_view(*rgw) =~= before.push(ColView::I64(data@)));
    }
}

/// Appends one 32-bit float column (as bit patterns) to the row-group.
pub fn write_f32(rgw: &mut RowGroupSink, data: Vec<u32>)
    ensures
        cols_view(*final(rgw)) == cols_view(*old(rgw)).push(ColView::F32(data@)),
{
    let ghost before = cols_view(*rgw);
    rgw.cols.push(ColumnData::F32(data));
    proof {
        assert(cols_view(*rgw) =~= before.push(ColView::F32(data@)));
    }
}

// ---------------------------------------------------------------------------
// Bit-level reinterpretations into the sink's signed leaf types.
// ---------------------------------------------------------------------------
/// The 32-bit signed value with the same bit pattern as `x`.
pub open spec fn as_i32(x: u32) -> i32 {
    if x < 0x8000_0000 {
        x as i32
    } else {
        (x - 0x1_0000_0000) as i32
    }
}

/// The 64-bit signed value with the same bit pattern as `x`.
pub open spec fn as_i64(x: u64) -> i64 {
    if x < 0x8000_0000_0000_0000 {
        x as i64
    } else {
        (x - 0x1_0000_0000_0000_0000) as i64
    }
}

/// Reinterprets an unsigned 32-bit value as the signed value with the same
/// bit pattern.
pub fn to_i32(x: u32) -> (r: i32)
    ensures
        r == as_i32(x),
{
    if x < 0x8000_0000 {
        x as i32
    } else {
        ((x - 0x8000_0000) as i32) + i32::MIN
    }
}

/// Reinterprets an unsigned 64-bit value as the signed value with the same
/// bit pattern.
pub fn to_i64(x: u64) -> (r: i64)
    ensures
        r == as_i64(x),
{
    if x < 0x8000_0000_0000_0000 {
        x as i64
    } else {
        ((x - 0x8000_0000_0000_0000) as i64) + i64::MIN
    }
}

/// Element-wise [`as_i32`] of a 32-bit unsigned column.
pub open spec fn seq_u32_i32(s: Seq<u32>) -> Seq<i32> {
    Seq::new(s.len(), |i: int| as_i32(s[i]))
}

/// Element-wise widening of a 16-bit unsigned column.
pub open spec fn seq_u16_i32(s: Seq<u16>) -> Seq<i32> {
    Seq::new(s.len(), |i: int| s[i] as i32)
}

/// Element-wise widening of an 8-bit unsigned column.
pub open spec fn seq_u8_i32(s: Seq<u8>) -> Seq<i32> {
    Seq::new(s.len(), |i: int| s[i] as i32)
}

/// Element-wise [`as_i64`] of a 64-bit unsigned column.
pub open spec fn seq_u64_i64(s: Seq<u64>) -> Seq<i64> {
    Seq::new(s.len(), |i: int| as_i64(s[i]))
}

// ---------------------------------------------------------------------------
// Row extraction from the dense (port × frame) grids.
// ---------------------------------------------------------------------------
/// Copy of one port's row of a dense column.
fn copy_row<T: Copy>(g: &Vec<Vec<T>>, p: usize) -> (r: Vec<T>)
    requires
        p < g@.len(),
    ensures
        r@ == g@[p as int]@,
{
    let row = &g[p];
    let n = row.len();
    let mut r: Vec<T> = Vec::new();
    let mut i: usize = 0;
    while i < n
        invariant
            0 <= i <= n,
            n == row@.len(),
            r@ == row@.subrange(0, i as int),
        decreases n - i,
    {
        r.push(row[i]);
        i += 1;
        proof {
            assert(r@ =~= row@.subrange(0, i as int));
        }
    }
    proof {
        assert(row@.subrange(0, n as int) =~= row@);
    }
    r
}

/// Copy of one port's row of a 32-bit unsigned column, reinterpreted.
fn copy_row_u32_i32(g: &Vec<Vec<u32>>, p: usize) -> (r: Vec<i32>)
    requires
        p < g@.len(),
    ensures
        r@ == seq_u32_i32(g@[p as int]@),
{
    let row = &g[p];
    let n = row.len();
    let mut r: Vec<i32> = Vec::new();
    let mut i: usize = 0;
    while i < n
        invariant
            0 <= i <= n,
            n == row@.len(),
            r@.len() == i,
            forall|j: int| 0 <= j < i ==> r@[j] == as_i32(row@[j]),
        decreases n - i,
    {
        r.push(to_i32(row[i]));
        i += 1;
    }
    proof {
        assert(r@ =~= seq_u32_i32(g@[p as int]@));
    }
    r
}

/// Copy of one port's row of a 16-bit unsigned column, widened.
fn copy_row_u16_i32(g: &Vec<Vec<u16>>, p: usize) -> (r: Vec<i32>)
    requires
        p < g@.len(),
    ensures
        r@ == seq_u16_i32(g@[p as int]@),
{
    let row = &g[p];
    let n = row.len();
    let mut r: Vec<i32> = Vec::new();
    let mut i: usize = 0;
    while i < n
        invariant
            0 <= i <= n,
            n == row@.len(),
            r@.len() == i,
            forall|j: int| 0 <= j < i ==> r@[j] == row@[j] as i32,
        decreases n - i,
    {
        r.push(row[i] as i32);
        i += 1;
    }
    proof {
        assert(r@ =~= seq_u16_i32(g@[p as int]@));
    }
    r
}

/// Copy of one port's row of an 8-bit unsigned column, widened.
fn copy_row_u8_i32(g: &Vec<Vec<u8>>, p: usize) -> (r: Vec<i32>)
    requires
        p < g@.len(),
    ensures
        r@ == seq_u8_i32(g@[p as int]@),
{
    let row = &g[p];
    let n = row.len();
    let mut r: Vec<i32> = Vec::new();
    let mut i: usize = 0;
    while i < n
        invariant
            0 <= i <= n,
            n == row@.len(),
            r@.len() == i,
            forall|j: int| 0 <= j < i ==> r@[j] == row@[j] as i32,
        decreases n - i,
    {
        r.push(row[i] as i32);
        i += 1;
    }
    proof {
        assert(r@ =~= seq_u8_i32(g@[p as int]@));
    }
    r
}

// ---------------------------------------------------------------------------
// Generated schema strings.
// ---------------------------------------------------------------------------
/// Pre-state base-tier schema.
pub const SCHEMA_FRAME_PRE: &'static str = "
required group position {
	required float x;
	required float y;
}
required boolean direction;
required group joystick {
	required float x;
	required float y;
}
required group cstick {
	required float x;
	required float y;
}
required group triggers {
	required group physical {
		required float l;
		required float r;
	}
	required float logical;
}
required int32 random_seed (UINT_32);
required group buttons {
	required int32 physical (UINT_16);
	required int32 logical (UINT_32);
}
required int32 state (UINT_16);
";

/// Pre-state v1.2 tier schema.
pub const SCHEMA_FRAME_PRE_V1_2: &'static str = "
required int32 raw_analog_x (UINT_8);
";

/// Pre-state v1.4 tier schema.
pub const SCHEMA_FRAME_PRE_V1_4: &'static str = "
required float damage;
";

/// Post-state base-tier schema.
pub const SCHEMA_FRAME_POST: &'static str = "
required group position {
	required float x;
	required float y;
}
required boolean direction;
required float damage;
required float shield;
required int32 state (UINT_16);
required int32 character (UINT_8);
required int32 last_attack_landed (UINT_8);
required int32 combo_count (UINT_8);
required int32 last_hit_by (UINT_8);
required int32 stocks (UINT_8);
";

/// Post-state v0.2 tier schema.
pub const SCHEMA_FRAME_POST_V0_2: &'static str = "
required float state_age;
";

/// Post-state v2.0 tier schema.
pub const SCHEMA_FRAME_POST_V2_0: &'static str = "
required int64 flags (UINT_64);
required float misc_as;
required boolean airborne;
required int32 ground (UINT_16);
required int32 jumps (UINT_8);
required int32 l_cancel (UINT_8);
";

/// Post-state v2.1 tier schema.
pub const SCHEMA_FRAME_POST_V2_1: &'static str = "
required int32 hurtbox_state (UINT_8);
";

/// Post-state v3.5 tier schema.
pub const SCHEMA_FRAME_POST_V3_5: &'static str = "
required group velocities {
	required group autogenous {
		required float x;
		required float y;
	}
	required group knockback {
		required float x;
		required float y;
	}
}
";

/// Post-state v3.8 tier schema.
pub const SCHEMA_FRAME_POST_V3_8: &'static str = "
required float hitlag;
";

/// Item base-tier schema.
pub const SCHEMA_ITEM: &'static str = "
required int32 index;
required int32 id (UINT_32);
required int32 type (UINT_16);
required int32 state (UINT_8);
required boolean direction;
required group position {
	required float x;
	required float y;
}
required group velocity {
	required float x;
	required float y;
}
required int32 damage (UINT_16);
required float timer;
";

/// Item v3.2 tier schema.
pub const SCHEMA_ITEM_V3_2: &'static str = "
required int32 misc (UINT_32);
";

/// Item v3.6 tier schema.
pub const SCHEMA_ITEM_V3_6: &'static str = "
required int32 owner (UINT_8);
";

/// Opening of the frame-data message schema.
pub const SCHEMA_FRAMES_HEAD: &'static str = "
message frame_data {
	required int32 index;
	required int32 port (UINT_8);
	required boolean is_follower;
	required group pre { ";

/// Middle of the frame-data message schema, between the pre and post groups.
pub const SCHEMA_FRAMES_MID: &'static str = " }
	required group post { ";

/// Closing of the frame-data message schema.
pub const SCHEMA_FRAMES_TAIL: &'static str = " }
}";

/// Opening of the item-data message schema.
pub const SCHEMA_ITEMS_HEAD: &'static str = "
message item_data {
	";

/// Closing of the item-data message schema.
pub const SCHEMA_ITEMS_TAIL: &'static str = "
}
";

/// A schema result agrees with its specification: same error, or a string
/// whose characters are exactly the specified ones.
pub open spec fn schema_matches(r: Result<String, FatalError>, s: Result<Seq<char>, FatalError>) -> bool {
    match (r, s) {
        (Ok(a), Ok(b)) => a@ == b,
        (Err(a), Err(b)) => a == b,
        _ => false,
    }
}

/// Schema text of the pre-state group, given which tier columns exist, or
/// the fatal error where a tier's presence flag contradicts its parent's.
pub open spec fn schema_frame_pre_spec(has_v1_2: bool, has_v1_4: bool) -> Result<
    Seq<char>,
    FatalError,
> {
    if has_v1_4 && !has_v1_2 {
        Err(FatalError::SchemaContradiction(Chain::Pre))
    } else {
        Ok(
            SCHEMA_FRAME_PRE@ + (if has_v1_2 {
                SCHEMA_FRAME_PRE_V1_2@
            } else {
                Seq::empty()
            }) + (if has_v1_4 {
                SCHEMA_FRAME_PRE_V1_4@
            } else {
                Seq::empty()
            }),
        )
    }
}

/// Schema text of the post-state group, given which tier columns exist, or
/// the fatal error where a tier's presence flag contradicts its parent's.
pub open spec fn schema_frame_post_spec(
    has_v0_2: bool,
    has_v2_0: bool,
    has_v2_1: bool,
    has_v3_5: bool,
    has_v3_8: bool,
) -> Result<Seq<char>, FatalError> {
    if (has_v2_0 && !has_v0_2) || (has_v2_1 && !has_v2_0) || (has_v3_5 && !has_v2_1) || (has_v3_8
        && !has_v3_5) {
        Err(FatalError::SchemaContradiction(Chain::Post))
    } else {
        Ok(
            SCHEMA_FRAME_POST@ + (if has_v0_2 {
                SCHEMA_FRAME_POST_V0_2@
            } else {
                Seq::empty()
            }) + (if has_v2_0 {
                SCHEMA_FRAME_POST_V2_0@
            } else {
                Seq::empty()
            }) + (if has_v2_1 {
                SCHEMA_FRAME_POST_V2_1@
            } else {
                Seq::empty()
            }) + (if has_v3_5 {
                SCHEMA_FRAME_POST_V3_5@
            } else {
                Seq::empty()
            }) + (if has_v3_8 {
                SCHEMA_FRAME_POST_V3_8@
            } else {
                Seq::empty()
            }),
        )
    }
}

/// Schema text of the whole frame-data message.
pub open spec fn schema_frames_spec(fr: Frames) -> Result<Seq<char>, FatalError> {
    match schema_frame_pre_spec(fr.leader.pre.raw_analog_x is Some, fr.leader.pre.damage is Some) {
        Err(e) => Err(e),
        Ok(p) => match schema_frame_post_spec(
            fr.leader.post.state_age is Some,
            fr.leader.post.v2_0 is Some,
            fr.leader.post.hurtbox_state is Some,
            fr.leader.post.v3_5 is Some,
            fr.leader.post.hitlag is Some,
        ) {
            Err(e) => Err(e),
            Ok(q) => Ok(SCHEMA_FRAMES_HEAD@ + p + SCHEMA_FRAMES_MID@ + q + SCHEMA_FRAMES_TAIL@),
        },
    }
}

/// Schema text of the item group, given which tier columns exist.
pub open spec fn schema_item_spec(has_misc: bool, has_owner: bool) -> Result<
    Seq<char>,
    FatalError,
> {
    if has_owner && !has_misc {
        Err(FatalError::SchemaContradiction(Chain::Item))
    } else {
        Ok(
            SCHEMA_ITEM@ + (if has_misc {
                SCHEMA_ITEM_V3_2@
            } else {
                Seq::empty()
            }) + (if has_owner {
                SCHEMA_ITEM_V3_6@
            } else {
                Seq::empty()
            }),
        )
    }
}

/// Schema text of the whole item-data message.
pub open spec fn schema_items_spec(it: ItemCol) -> Result<Seq<char>, FatalError> {
    match schema_item_spec(it.misc is Some, it.owner is Some) {
        Err(e) => Err(e),
        Ok(s) => Ok(SCHEMA_ITEMS_HEAD@ + s + SCHEMA_ITEMS_TAIL@),
    }
}

/// Generates the pre-state group's schema text from the column tree's tier
/// presence, failing fast where a tier's presence flag contradicts its
/// parent's.
pub fn schema_frame_pre(frames: &Frames) -> (r: Result<String, FatalError>)
    ensures
        schema_matches(
            r,
            schema_frame_pre_spec(
                frames.leader.pre.raw_analog_x is Some,
                frames.leader.pre.damage is Some,
            ),
        ),
{
    let pre = &frames.leader.pre;
    let has_v1_2 = pre.raw_analog_x.is_some();
    let has_v1_4 = pre.damage.is_some();
    if has_v1_4 && !has_v1_2 {
        return Err(FatalError::SchemaContradiction(Chain::Pre));
    }
    let mut s = String::from_str(SCHEMA_FRAME_PRE);
    if has_v1_2 {
        s.append(SCHEMA_FRAME_PRE_V1_2);
    }
    if has_v1_4 {
        s.append(SCHEMA_FRAME_PRE_V1_4);
    }
    proof {
        assert(s@ =~= schema_frame_pre_spec(has_v1_2, has_v1_4).unwrap());
    }
    Ok(s)
}

/// Generates the post-state group's schema text from the column tree's tier
/// presence, failing fast where a tier's presence flag contradicts its
/// parent's.
pub fn schema_frame_post(frames: &Frames) -> (r: Result<String, FatalError>)
    ensures
        schema_matches(
            r,
            schema_frame_post_spec(
                frames.leader.post.state_age is Some,
                frames.leader.post.v2_0 is Some,
                frames.leader.post.hurtbox_state is Some,
                frames.leader.post.v3_5 is Some,
                frames.leader.post.hitlag is Some,
            ),
        ),
{
    let post = &frames.leader.post;
    let has_v0_2 = post.state_age.is_some();
    let has_v2_0 = post.v2_0.is_some();
    let has_v2_1 = post.hurtbox_state.is_some();
    let has_v3_5 = post.v3_5.is_some();
    let has_v3_8 = post.hitlag.is_some();
    if (has_v2_0 && !has_v0_2) || (has_v2_1 && !has_v2_0) || (has_v3_5 && !has_v2_1) || (has_v3_8
        && !has_v3_5) {
        return Err(FatalError::SchemaContradiction(Chain::Post));
    }
    let mut s = String::from_str(SCHEMA_FRAME_POST);
    if has_v0_2 {
        s.append(SCHEMA_FRAME_POST_V0_2);
    }
    if has_v2_0 {
        s.append(SCHEMA_FRAME_POST_V2_0);
    }
    if has_v2_1 {
        s.append(SCHEMA_FRAME_POST_V2_1);
    }
    if has_v3_5 {
        s.append(SCHEMA_FRAME_POST_V3_5);
    }
    if has_v3_8 {
        s.append(SCHEMA_FRAME_POST_V3_8);
    }
    proof {
        assert(s@ =~= schema_frame_post_spec(has_v0_2, has_v2_0, has_v2_1, has_v3_5, has_v3_8).unwrap());
    }
    Ok(s)
}

/// Generates the whole frame-data message schema.
pub fn schema_frames(frames: &Frames) -> (r: Result<String, FatalError>)
    ensures
        schema_matches(r, schema_frames_spec(*frames)),
{
    let pre = match schema_frame_pre(frames) {
        Ok(p) => p,
        Err(e) => { return Err(e) },
    };
    let post = match schema_frame_post(frames) {
        Ok(q) => q,
        Err(e) => { return Err(e) },
    };
    let mut s = String::from_str(SCHEMA_FRAMES_HEAD);
    s.append(pre.as_str());
    s.append(SCHEMA_FRAMES_MID);
    s.append(post.as_str());
    s.append(SCHEMA_FRAMES_TAIL);
    proof {
        assert(s@ =~= schema_frames_spec(*frames).unwrap());
    }
    Ok(s)
}

/// Generates the item group's schema text from the item columns' tier
/// presence, failing fast where a tier's presence flag contradicts its
/// parent's.
pub fn schema_item(item: &ItemCol) -> (r: Result<String, FatalError>)
    ensures
        schema_matches(r, schema_item_spec(item.misc is Some, item.owner is Some)),
{
    let has_misc = item.misc.is_some();
    let has_owner = item.owner.is_some();
    if has_owner && !has_misc {
        return Err(FatalError::SchemaContradiction(Chain::Item));
    }
    let mut s = String::from_str(SCHEMA_ITEM);
    if has_misc {
        s.append(SCHEMA_ITEM_V3_2);
    }
    if has_owner {
        s.append(SCHEMA_ITEM_V3_6);
    }
    proof {
        assert(s@ =~= schema_item_spec(has_misc, has_owner).unwrap());
    }
    Ok(s)
}

/// Generates the whole item-data message schema.
pub fn schema_items(item: &ItemCol) -> (r: Result<String, FatalError>)
    ensures
        schema_matches(r, schema_items_spec(*item)),
{
    let body = match schema_item(item) {
        Ok(s) => s,
        Err(e) => { return Err(e) },
    };
    let mut s = String::from_str(SCHEMA_ITEMS_HEAD);
    s.append(body.as_str());
    s.append(SCHEMA_ITEMS_TAIL);
    proof {
        assert(s@ =~= schema_items_spec(*item).unwrap());
    }
    Ok(s)
}

/// Copy of one port's row of a 64-bit unsigned column, reinterpreted.
fn copy_row_u64_i64(g: &Vec<Vec<u64>>, p: usize) -> (r: Vec<i64>)
    requires
        p < g@.len(),
    ensures
        r@ == seq_u64_i64(g@[p as int]@),
{
    let row = &g[p];
    let n = row.len();
    let mut r: Vec<i64> = Vec::new();
    let mut i: usize = 0;
    while i < n
        invariant
            0 <= i <= n,
            n == row@.len(),
            r@.len() == i,
            forall|j: int| 0 <= j < i ==> r@[j] == as_i64(row@[j]),
        decreases n - i,
    {
        r.push(to_i64(row[i]));
        i += 1;
    }
    proof {
        assert(r@ =~= seq_u64_i64(g@[p as int]@));
    }
    r
}

/// Copy of an append-addressed column.
fn copy_vec<T: Copy>(v: &Vec<T>) -> (r: Vec<T>)
    ensures
        r@ == v@,
{
    let n = v.len();
    let mut r: Vec<T> = Vec::new();
    let mut i: usize = 0;
    while i < n
        invariant
            0 <= i <= n,
            n == v@.len(),
            r@ == v@.subrange(0, i as int),
        decreases n - i,
    {
        r.push(v[i]);
        i += 1;
        proof {
            assert(r@ =~= v@.subrange(0, i as int));
        }
    }
    proof {
        assert(v@.subrange(0, n as int) =~= v@);
    }
    r
}

/// Copy of an append-addressed 32-bit unsigned column, reinterpreted.
fn copy_vec_u32_i32(v: &Vec<u32>) -> (r: Vec<i32>)
    ensures
        r@ == seq_u32_i32(v@),
{
    let n = v.len();
    let mut r: Vec<i32> = Vec::new();
    let mut i: usize = 0;
    while i < n
        invariant
            0 <= i <= n,
            n == v@.len(),
            r@.len() == i,
            forall|j: int| 0 <= j < i ==> r@[j] == as_i32(v@[j]),
        decreases n - i,
    {
        r.push(to_i32(v[i]));
        i += 1;
    }
    proof {
        assert(r@ =~= seq_u32_i32(v@));
    }
    r
}

/// Copy of an append-addressed 16-bit unsigned column, widened.
fn copy_vec_u16_i32(v: &Vec<u16>) -> (r: Vec<i32>)
    ensures
        r@ == seq_u16_i32(v@),
{
    let n = v.len();
    let mut r: Vec<i32> = Vec::new();
    let mut i: usize = 0;
    while i < n
        invariant
            0 <= i <= n,
            n == v@.len(),
            r@.len() == i,
            forall|j: int| 0 <= j < i ==> r@[j] == v@[j] as i32,
        decreases n - i,
    {
        r.push(v[i] as i32);
        i += 1;
    }
    proof {
        assert(r@ =~= seq_u16_i32(v@));
    }
    r
}

/// Copy of an append-addressed 8-bit unsigned column, widened.
fn copy_vec_u8_i32(v: &Vec<u8>) -> (r: Vec<i32>)
    ensures
        r@ == seq_u8_i32(v@),
{
    let n = v.len();
    let mut r: Vec<i32> = Vec::new();
    let mut i: usize = 0;
    while i < n
        invariant
            0 <= i <= n,
            n == v@.len(),
            r@.len() == i,
            forall|j: int| 0 <= j < i ==> r@[j] == v@[j] as i32,
        decreases n - i,
    {
        r.push(v[i] as i32);
        i += 1;
    }
    proof {
        assert(r@ =~= seq_u8_i32(v@));
    }
    r
}

// ---------------------------------------------------------------------------
// Row-group column sequences, in schema order.
// ---------------------------------------------------------------------------
/// The pre-state columns of port `p`, in schema order, as the sink sees
/// them.
pub open spec fn pre_group_cols(c: PreCol, p: int) -> Seq<ColView> {
    seq![
        ColView::F32(c.position_x@[p]@),
        ColView::F32(c.position_y@[p]@),
        ColView::Bool(c.direction@[p]@),
        ColView::F32(c.joystick_x@[p]@),
        ColView::F32(c.joystick_y@[p]@),
        ColView::F32(c.cstick_x@[p]@),
        ColView::F32(c.cstick_y@[p]@),
        ColView::F32(c.triggers_physical_l@[p]@),
        ColView::F32(c.triggers_physical_r@[p]@),
        ColView::F32(c.triggers_logical@[p]@),
        ColView::I32(seq_u32_i32(c.random_seed@[p]@)),
        ColView::I32(seq_u16_i32(c.buttons_physical@[p]@)),
        ColView::I32(seq_u32_i32(c.buttons_logical@[p]@)),
        ColView::I32(seq_u16_i32(c.state@[p]@)),
    ] + (match c.raw_analog_x {
        Some(g) => seq![ColView::I32(seq_u8_i32(g@[p]@))],
        None => Seq::empty(),
    }) + (match c.damage {
        Some(g) => seq![ColView::F32(g@[p]@)],
        None => Seq::empty(),
    })
}

/// The post-state columns of port `p`, in schema order, as the sink sees
/// them.
pub open spec fn post_group_cols(c: PostCol, p: int) -> Seq<ColView> {
    seq![
        ColView::F32(c.position_x@[p]@),
        ColView::F32(c.position_y@[p]@),
        ColView::Bool(c.direction@[p]@),
        ColView::F32(c.damage@[p]@),
        ColView::F32(c.shield@[p]@),
        ColView::I32(seq_u16_i32(c.state@[p]@)),
        ColView::I32(seq_u8_i32(c.character@[p]@)),
        ColView::I32(seq_u8_i32(c.last_attack_landed@[p]@)),
        ColView::I32(seq_u8_i32(c.combo_count@[p]@)),
        ColView::I32(seq_u8_i32(c.last_hit_by@[p]@)),
        ColView::I32(seq_u8_i32(c.stocks@[p]@)),
    ] + (match c.state_age {
        Some(g) => seq![ColView::F32(g@[p]@)],
        None => Seq::empty(),
    }) + (match c.v2_0 {
        Some(t) => seq![
            ColView::I64(seq_u64_i64(t.flags@[p]@)),
            ColView::F32(t.misc_as@[p]@),
            ColView::Bool(t.airborne@[p]@),
            ColView::I32(seq_u16_i32(t.ground@[p]@)),
            ColView::I32(seq_u8_i32(t.jumps@[p]@)),
            ColView::I32(seq_u8_i32(t.l_cancel@[p]@)),
        ],
        None => Seq::empty(),
    }) + (match c.hurtbox_state {
        Some(g) => seq![ColView::I32(seq_u8_i32(g@[p]@))],
        None => Seq::empty(),
    }) + (match c.v3_5 {
        Some(t) => seq![
            ColView::F32(t.autogenous_x@[p]@),
            ColView::F32(t.autogenous_y@[p]@),
            ColView::F32(t.knockback_x@[p]@),
            ColView::F32(t.knockback_y@[p]@),
        ],
        None => Seq::empty(),
    }) + (match c.hitlag {
        Some(g) => seq![ColView::F32(g@[p]@)],
        None => Seq::empty(),
    })
}

/// The item columns, in schema order, as the sink sees them.
pub open spec fn item_group_cols(c: ItemCol) -> Seq<ColView> {
    seq![
        ColView::I32(c.index@),
        ColView::I32(seq_u32_i32(c.id@)),
        ColView::I32(seq_u16_i32(c.kind@)),
        ColView::I32(seq_u8_i32(c.state@)),
        ColView::Bool(c.direction@),
        ColView::F32(c.position_x@),
        ColView::F32(c.position_y@),
        ColView::F32(c.velocity_x@),
        ColView::F32(c.velocity_y@),
        ColView::I32(seq_u16_i32(c.damage@)),
        ColView::F32(c.timer@),
    ] + (match c.misc {
        Some(g) => seq![ColView::I32(seq_u32_i32(g@))],
        None => Seq::empty(),
    }) + (match c.owner {
        Some(g) => seq![ColView::I32(seq_u8_i32(g@))],
        None => Seq::empty(),
    })
}

/// Writes the pre-state columns of port `p` into the row-group, in schema
/// order.
pub fn write_pre(rgw: &mut RowGroupSink, pre: &PreCol, p: usize)
    requires
        pre.wf(),
        0 <= p < pre.ports(),
    ensures
        cols_view(*final(rgw)) == cols_view(*old(rgw)) + pre_group_cols(*pre, p as int),
{
    write_f32(rgw, copy_row(&pre.position_x, p));
    write_f32(rgw, copy_row(&pre.position_y, p));
    write_bool(rgw, copy_row(&pre.direction, p));
    write_f32(rgw, copy_row(&pre.joystick_x, p));
    write_f32(rgw, copy_row(&pre.joystick_y, p));
    write_f32(rgw, copy_row(&pre.cstick_x, p));
    write_f32(rgw, copy_row(&pre.cstick_y, p));
    write_f32(rgw, copy_row(&pre.triggers_physical_l, p));
    write_f32(rgw, copy_row(&pre.triggers_physical_r, p));
    write_f32(rgw, copy_row(&pre.triggers_logical, p));
    write_i32(rgw, copy_row_u32_i32(&pre.random_seed, p));
    write_i32(rgw, copy_row_u16_i32(&pre.buttons_physical, p));
    write_i32(rgw, copy_row_u32_i32(&pre.buttons_logical, p));
    write_i32(rgw, copy_row_u16_i32(&pre.state, p));
    if let Some(col) = &pre.raw_analog_x {
        write_i32(rgw, copy_row_u8_i32(col, p));
    }
    if let Some(col) = &pre.damage {
        write_f32(rgw, copy_row(col, p));
    }
    proof {
        assert(cols_view(*rgw) =~= cols_view(*old(rgw)) + pre_group_cols(*pre, p as int));
    }
}

/// Writes the post-state columns of port `p` into the row-group, in schema
/// order.
#[verifier::rlimit(100)]
pub fn write_post(rgw: &mut RowGroupSink, post: &PostCol, p: usize)
    requires
        post.wf(),
        0 <= p < post.ports(),
    ensures
        cols_view(*final(rgw)) == cols_view(*old(rgw)) + post_group_cols(*post, p as int),
{
    write_f32(rgw, copy_row(&post.position_x, p));
    write_f32(rgw, copy_row(&post.position_y, p));
    write_bool(rgw, copy_row(&post.direction, p));
    write_f32(rgw, copy_row(&post.damage, p));
    write_f32(rgw, copy_row(&post.shield, p));
    write_i32(rgw, copy_row_u16_i32(&post.state, p));
    write_i32(rgw, copy_row_u8_i32(&post.character, p));
    write_i32(rgw, copy_row_u8_i32(&post.last_attack_landed, p));
    write_i32(rgw, copy_row_u8_i32(&post.combo_count, p));
    write_i32(rgw, copy_row_u8_i32(&post.last_hit_by, p));
    write_i32(rgw, copy_row_u8_i32(&post.stocks, p));
    if let Some(col) = &post.state_age {
        write_f32(rgw, copy_row(col, p));
    }
    if let Some(t) = &post.v2_0 {
        write_i64(rgw, copy_row_u64_i64(&t.flags, p));
        write_f32(rgw, copy_row(&t.misc_as, p));
        write_bool(rgw, copy_row(&t.airborne, p));
        write_i32(rgw, copy_row_u16_i32(&t.ground, p));
        write_i32(rgw, copy_row_u8_i32(&t.jumps, p));
        write_i32(rgw, copy_row_u8_i32(&t.l_cancel, p));
    }
    if let Some(col) = &post.hurtbox_state {
        write_i32(rgw, copy_row_u8_i32(col, p));
    }
    if let Some(t) = &post.v3_5 {
        write_f32(rgw, copy_row(&t.autogenous_x, p));
        write_f32(rgw, copy_row(&t.autogenous_y, p));
        write_f32(rgw, copy_row(&t.knockback_x, p));
        write_f32(rgw, copy_row(&t.knockback_y, p));
    }
    if let Some(col) = &post.hitlag {
        write_f32(rgw, copy_row(col, p));
    }
    proof {
        assert(cols_view(*rgw) =~= cols_view(*old(rgw)) + post_group_cols(*post, p as int));
    }
}

/// Writes the item columns into the row-group, in schema order.
pub fn write_item(rgw: &mut RowGroupSink, item: &ItemCol)
    requires
        item.wf(),
    ensures
        cols_view(*final(rgw)) == cols_view(*old(rgw)) + item_group_cols(*item),
{
    write_i32(rgw, copy_vec(&item.index));
    write_i32(rgw, copy_vec_u32_i32(&item.id));
    write_i32(rgw, copy_vec_u16_i32(&item.kind));
    write_i32(rgw, copy_vec_u8_i32(&item.state));
    write_bool(rgw, copy_vec(&item.direction));
    write_f32(rgw, copy_vec(&item.position_x));
    write_f32(rgw, copy_vec(&item.position_y));
    write_f32(rgw, copy_vec(&item.velocity_x));
    write_f32(rgw, copy_vec(&item.velocity_y));
    write_i32(rgw, copy_vec_u16_i32(&item.damage));
    write_f32(rgw, copy_vec(&item.timer));
    if let Some(col) = &item.misc {
        write_i32(rgw, copy_vec_u32_i32(col));
    }
    if let Some(col) = &item.owner {
        write_i32(rgw, copy_vec_u8_i32(col));
    }
    proof {
        assert(cols_view(*rgw) =~= cols_view(*old(rgw)) + item_group_cols(*item));
    }
}

// ---------------------------------------------------------------------------
// Whole-file assembly.
// ---------------------------------------------------------------------------
/// The frame index column: one entry per frame, starting at
/// [`crate::FIRST_FRAME_INDEX`].
pub open spec fn index_col(n: int) -> Seq<i32> {
    Seq::new(n as nat, |i: int| (i + FIRST_FRAME_INDEX as int) as i32)
}

/// A constant 32-bit signed column.
pub open spec fn const_i32(n: int, v: i32) -> Seq<i32> {
    Seq::new(n as nat, |i: int| v)
}

/// A constant boolean column.
pub open spec fn const_bool(n: int, v: bool) -> Seq<bool> {
    Seq::new(n as nat, |i: int| v)
}

/// Port `p`'s resident character on the first frame is a paired-character
/// identifier, so the port gets a follower row-group.
pub open spec fn paired(fr: Frames, p: int) -> bool {
    ||| fr.leader.post.character@[p]@[0] == POPO
    ||| fr.leader.post.character@[p]@[0] == NANA
}

/// The leader row-group of port `p`: frame indexes, the port number, the
/// follower flag (false), then the pre- and post-state columns.
pub open spec fn leader_group(fr: Frames, p: int) -> Seq<ColView> {
    seq![
        ColView::I32(index_col(fr.frames())),
        ColView::I32(const_i32(fr.frames(), p as i32)),
        ColView::Bool(const_bool(fr.frames(), false)),
    ] + pre_group_cols(fr.leader.pre, p) + post_group_cols(fr.leader.post, p)
}

/// The follower row-group of port `p`.
pub open spec fn follower_group(fr: Frames, p: int) -> Seq<ColView> {
    seq![
        ColView::I32(index_col(fr.frames())),
        ColView::I32(const_i32(fr.frames(), p as i32)),
        ColView::Bool(const_bool(fr.frames(), true)),
    ] + pre_group_cols(fr.follower.pre, p) + post_group_cols(fr.follower.post, p)
}

/// The follower row-groups of ports `0 .. p`, in port order: one per paired
/// port.
pub open spec fn follower_section(fr: Frames, p: int) -> Seq<Seq<ColView>>
    decreases p,
{
    if p <= 0 {
        Seq::empty()
    } else {
        follower_section(fr, p - 1) + (if paired(fr, p - 1) {
            seq![follower_group(fr, p - 1)]
        } else {
            Seq::empty()
        })
    }
}

/// The nested-sink encoding of a frame batch: the generated schema string
/// and the ordered row-groups.
pub struct FrameGroups {
    pub schema: String,
    pub groups: Vec<RowGroupSink>,
}

/// The nested-sink encoding of the item columns: the generated schema
/// string, one row-group, and the definition/repetition level vectors of
/// the repeated item list.  A base-tier leaf's values sit under one
/// repeated ancestor, so its definition level is 1; a leaf of optional
/// tier `k` adds its `k` optional ancestors for a constant `1 + k`.  Every
/// leaf shares the same repetition vector, since the item list is the only
/// repeated group.
pub struct ItemGroups {
    pub schema: String,
    pub group: RowGroupSink,
    /// Definition levels of the base-tier leaf columns.
    pub def_levels: Vec<u8>,
    /// Definition levels of the first optional tier's leaf column, when it
    /// exists.
    pub misc_def_levels: Option<Vec<u8>>,
    /// Definition levels of the second optional tier's leaf column, when it
    /// exists.
    pub owner_def_levels: Option<Vec<u8>>,
    /// Repetition levels of every leaf column.
    pub rep_levels: Vec<u8>,
}

/// The frame index column as a value.
fn make_index(n: usize) -> (r: Vec<i32>)
    requires
        n <= 0x7fff_ffff,
    ensures
        r@ == index_col(n as int),
{
    let mut r: Vec<i32> = Vec::new();
    let mut i: usize = 0;
    while i < n
        invariant
            0 <= i <= n,
            n <= 0x7fff_ffff,
            r@.len() == i,
            forall|j: int| 0 <= j < i ==> r@[j] == (j + FIRST_FRAME_INDEX as int) as i32,
        decreases n - i,
    {
        r.push((i as i32) + FIRST_FRAME_INDEX);
        i += 1;
    }
    proof {
        assert(r@ =~= index_col(n as int));
    }
    r
}

/// A constant column as a value.
fn make_const<T: Copy>(n: usize, v: T) -> (r: Vec<T>)
    ensures
        r@ == Seq::new(n as nat, |i: int| v),
{
    let mut r: Vec<T> = Vec::new();
    let mut i: usize = 0;
    while i < n
        invariant
            0 <= i <= n,
            r@.len() == i,
            forall|j: int| 0 <= j < i ==> r@[j] == v,
        decreases n - i,
    {
        r.push(v);
        i += 1;
    }
    proof {
        assert(r@ =~= Seq::new(n as nat, |i: int| v));
    }
    r
}

/// Encodes a populated Column Tree for the nested sink: the generated
/// schema string, one leader row-group per port, then one follower
/// row-group per port whose first-frame resident character is a
/// paired-character identifier, in port order.  Fails only where the tree's
/// tier presence flags contradict each other, before any row-group is
/// built.
pub fn write_frames(frames: &Frames) -> (r: Result<FrameGroups, FatalError>)
    requires
        frames.wf(),
        frames.frames() <= 0x7fff_ffff,
        frames.ports() <= 0x7fff_ffff,
    ensures
        match r {
            Ok(out) => {
                &&& schema_frames_spec(*frames) == Ok::<Seq<char>, FatalError>(out.schema@)
                &&& out.groups@.len() == frames.ports() + follower_section(
                    *frames,
                    frames.ports(),
                ).len()
                &&& forall|i: int|
                    0 <= i < frames.ports() ==> cols_view(#[trigger] out.groups@[i])
                        == leader_group(*frames, i)
                &&& forall|i: int|
                    frames.ports() <= i < out.groups@.len() ==> cols_view(#[trigger] out.groups@[i])
                        == follower_section(*frames, frames.ports())[i - frames.ports()]
            },
            Err(e) => schema_frames_spec(*frames) == Err::<Seq<char>, FatalError>(e),
        },
{
    let schema = match schema_frames(frames) {
        Ok(s) => s,
        Err(e) => { return Err(e) },
    };
    let nports = frames.leader.pre.position_x.len();
    let nframes = frames.leader.pre.position_x[0].len();
    let mut groups: Vec<RowGroupSink> = Vec::new();

    let mut p: usize = 0;
    while p < nports
        invariant
            nports == frames.ports(),
            nframes == frames.frames(),
            nframes <= 0x7fff_ffff,
            nports <= 0x7fff_ffff,
            frames.wf(),
            0 <= p <= nports,
            groups@.len() == p,
            forall|i: int|
                0 <= i < p ==> cols_view(#[trigger] groups@[i]) == leader_group(*frames, i),
        decreases nports - p,
    {
        let mut g = RowGroupSink::new();
        write_i32(&mut g, make_index(nframes));
        write_i32(&mut g, make_const(nframes, p as i32));
        write_bool(&mut g, make_const(nframes, false));
        write_pre(&mut g, &frames.leader.pre, p);
        write_post(&mut g, &frames.leader.post, p);
        proof {
            assert(cols_view(g) =~= leader_group(*frames, p as int));
        }
        groups.push(g);
        p += 1;
    }

    let mut p2: usize = 0;
    while p2 < nports
        invariant
            nports == frames.ports(),
            nframes == frames.frames(),
            nframes <= 0x7fff_ffff,
            nports <= 0x7fff_ffff,
            frames.wf(),
            0 <= p2 <= nports,
            groups@.len() == nports + follower_section(*frames, p2 as int).len(),
            forall|i: int|
                0 <= i < nports ==> cols_view(#[trigger] groups@[i]) == leader_group(*frames, i),
            forall|i: int|
                nports <= i < groups@.len() ==> cols_view(#[trigger] groups@[i])
                    == follower_section(*frames, p2 as int)[i - nports],
        decreases nports - p2,
    {
        let ch = frames.leader.post.character[p2][0];
        if ch == POPO || ch == NANA {
            let mut g = RowGroupSink::new();
            write_i32(&mut g, make_index(nframes));
            write_i32(&mut g, make_const(nframes, p2 as i32));
            write_bool(&mut g, make_const(nframes, true));
            write_pre(&mut g, &frames.follower.pre, p2);
            write_post(&mut g, &frames.follower.post, p2);
            proof {
                assert(cols_view(g) =~= follower_group(*frames, p2 as int));
            }
            groups.push(g);
        }
        p2 += 1;
        proof {
            let fs = follower_section(*frames, p2 as int);
            let prev = follower_section(*frames, p2 as int - 1);
            if paired(*frames, p2 as int - 1) {
                assert(fs =~= prev + seq![follower_group(*frames, p2 as int - 1)]);
            } else {
                assert(fs =~= prev);
            }
        }
    }

    Ok(FrameGroups { schema, groups })
}

/// Encodes the populated item columns for the nested sink: the generated
/// schema string, one row-group of item columns, and the paired
/// definition/repetition level vectors of the repeated list for base-tier
/// leaves.  Fails only where the tier presence flags contradict each other.
pub fn write_items(item: &ItemCol) -> (r: Result<ItemGroups, FatalError>)
    requires
        item.wf(),
    ensures
        match r {
            Ok(out) => {
                &&& schema_items_spec(*item) == Ok::<Seq<char>, FatalError>(out.schema@)
                &&& cols_view(out.group) == item_group_cols(*item)
                &&& out.def_levels@ == def_levels(item.lengths@, 1)
                &&& (out.misc_def_levels is Some <==> item.misc is Some)
                &&& match out.misc_def_levels {
                    Some(v) => v@ == def_levels(item.lengths@, 2),
                    None => true,
                }
                &&& (out.owner_def_levels is Some <==> item.owner is Some)
                &&& match out.owner_def_levels {
                    Some(v) => v@ == def_levels(item.lengths@, 3),
                    None => true,
                }
                &&& out.rep_levels@ == rep_levels(item.lengths@)
            },
            Err(e) => schema_items_spec(*item) == Err::<Seq<char>, FatalError>(e),
        },
{
    let schema = match schema_items(item) {
        Ok(s) => s,
        Err(e) => { return Err(e) },
    };
    let mut group = RowGroupSink::new();
    write_item(&mut group, item);
    let (def, rep) = item_levels(&item.lengths, 1);
    let misc_def_levels = if item.misc.is_some() {
        Some(item_levels(&item.lengths, 2).0)
    } else {
        None
    };
    let owner_def_levels = if item.owner.is_some() {
        Some(item_levels(&item.lengths, 3).0)
    } else {
        None
    };
    proof {
        assert(cols_view(group) =~= item_group_cols(*item));
    }
    Ok(
        ItemGroups {
            schema,
            group,
            def_levels: def,
            misc_def_levels,
            owner_def_levels,
            rep_levels: rep,
        },
    )
}

} // verus!
