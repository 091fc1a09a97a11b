//! Sink-bound encodings: row-group assembly with the generated schema, and
//! the flat item grid.

use slp::flat::{item_grid, MAX_ITEMS};
use slp::nested::{
    schema_frame_pre, schema_frames, schema_items, write_frames, write_items, ColumnData,
    SCHEMA_FRAME_PRE, SCHEMA_FRAME_PRE_V1_2,
};
use slp::record::{Data, Frame, Item, ItemV3_2, PortData, Post, Pre, PreV1_2};
use slp::resolve::{Chain, FatalError};
use slp::transform::{transpose_rows, Frames, ItemCol};

fn base_pre() -> Pre {
    Pre {
        position_x: 0,
        position_y: 0,
        direction: 1,
        joystick_x: 0,
        joystick_y: 0,
        cstick_x: 0,
        cstick_y: 0,
        triggers_logical: 0,
        triggers_physical_l: 0,
        triggers_physical_r: 0,
        random_seed: 0,
        buttons_logical: 0,
        buttons_physical: 0,
        state: 0,
        v1_2: None,
        v1_4: None,
    }
}

fn base_post(character: u8) -> Post {
    Post {
        position_x: 0,
        position_y: 0,
        direction: 1,
        damage: 0,
        shield: 0,
        state: 0,
        character,
        last_attack_landed: None,
        combo_count: 0,
        last_hit_by: None,
        stocks: 4,
        v0_2: None,
        v2_0: None,
        v2_1: None,
        v3_5: None,
        v3_8: None,
    }
}

fn base_item(id: u32) -> Item {
    Item {
        id,
        kind: 3,
        state: 0,
        direction: 1,
        position_x: 0,
        position_y: 0,
        velocity_x: 0,
        velocity_y: 0,
        damage: 0,
        timer: 0,
        v3_2: None,
        v3_6: None,
    }
}

fn two_port_frame(char0: u8, char1: u8, follower0: bool) -> Frame {
    let mut p0 = PortData {
        leader: Data { pre: base_pre(), post: base_post(char0) },
        follower: None,
    };
    if follower0 {
        p0.follower = Some(Data { pre: base_pre(), post: base_post(char0) });
    }
    let p1 = PortData {
        leader: Data { pre: base_pre(), post: base_post(char1) },
        follower: None,
    };
    Frame { start: None, end: None, ports: vec![p0, p1], items: None }
}

fn transform(frames: &Vec<Frame>) -> Frames {
    transpose_rows(frames).unwrap()
}

fn rows_of(col: &ColumnData) -> usize {
    match col {
        ColumnData::Bool(v) => v.len(),
        ColumnData::I32(v) => v.len(),
        ColumnData::I64(v) => v.len(),
        ColumnData::F32(v) => v.len(),
    }
}

#[test]
fn base_batch_has_two_leader_row_groups() {
    // A 3-frame, 2-port batch with no optional tiers and no items: exactly
    // one leader row-group per port, no follower row-groups, 3 rows each.
    let frames = vec![
        two_port_frame(1, 2, false),
        two_port_frame(1, 2, false),
        two_port_frame(1, 2, false),
    ];
    let out = write_frames(&transform(&frames)).unwrap();
    assert_eq!(out.groups.len(), 2);
    for g in &out.groups {
        for col in &g.cols {
            assert_eq!(rows_of(col), 3);
        }
    }
    // Frame indexes start at the fixed first-frame constant; the follower
    // flag column is all false.
    match (&out.groups[0].cols[0], &out.groups[0].cols[2]) {
        (ColumnData::I32(index), ColumnData::Bool(follower)) => {
            assert_eq!(index, &vec![-123, -122, -121]);
            assert_eq!(follower, &vec![false, false, false]);
        },
        _ => panic!("unexpected column types"),
    }
    match &out.groups[1].cols[1] {
        ColumnData::I32(port) => assert_eq!(port, &vec![1, 1, 1]),
        _ => panic!("unexpected column type"),
    }
}

#[test]
fn paired_character_adds_follower_row_group() {
    // Port 0's resident character on frame 0 is a paired-character
    // identifier: both a leader and a follower row-group for port 0.
    let frames = vec![two_port_frame(10, 2, true)];
    let out = write_frames(&transform(&frames)).unwrap();
    assert_eq!(out.groups.len(), 3);
    let follower_group = &out.groups[2];
    match (&follower_group.cols[1], &follower_group.cols[2]) {
        (ColumnData::I32(port), ColumnData::Bool(follower)) => {
            assert_eq!(port, &vec![0]);
            assert_eq!(follower, &vec![true]);
        },
        _ => panic!("unexpected column types"),
    }
}

#[test]
fn unpaired_characters_add_no_follower_row_group() {
    let frames = vec![two_port_frame(1, 2, false)];
    let out = write_frames(&transform(&frames)).unwrap();
    assert_eq!(out.groups.len(), 2);
}

#[test]
fn schema_grows_with_tiers() {
    let frames = vec![two_port_frame(1, 2, false)];
    let base = transform(&frames);
    let base_schema = schema_frame_pre(&base).unwrap();
    assert_eq!(base_schema, SCHEMA_FRAME_PRE);

    let mut deep_frame = two_port_frame(1, 2, false);
    for p in &mut deep_frame.ports {
        p.leader.pre.v1_2 = Some(PreV1_2 { raw_analog_x: 0 });
    }
    let deep = transform(&vec![deep_frame]);
    let deep_schema = schema_frame_pre(&deep).unwrap();
    assert_eq!(
        deep_schema,
        format!("{}{}", SCHEMA_FRAME_PRE, SCHEMA_FRAME_PRE_V1_2)
    );
}

#[test]
fn schema_contradiction_is_fatal() {
    let frames = vec![two_port_frame(1, 2, false)];
    let mut tree = transform(&frames);
    // Forge a tree whose second pre-state tier is present without its
    // parent: schema generation must fail fast, never silently correct.
    tree.leader.pre.damage = Some(vec![vec![0], vec![0]]);
    assert_eq!(
        schema_frame_pre(&tree).err(),
        Some(FatalError::SchemaContradiction(Chain::Pre))
    );
    assert_eq!(
        schema_frames(&tree).err(),
        Some(FatalError::SchemaContradiction(Chain::Pre))
    );
}

#[test]
fn frame_schema_wraps_pre_and_post_groups() {
    let frames = vec![two_port_frame(1, 2, false)];
    let tree = transform(&frames);
    let schema = schema_frames(&tree).unwrap();
    assert!(schema.starts_with("\nmessage frame_data {"));
    assert!(schema.contains("required group pre {"));
    assert!(schema.contains("required group post {"));
    assert!(schema.contains("required int32 last_hit_by (UINT_8);"));
}

fn item_batch() -> Vec<Frame> {
    let mut a = base_item(1);
    a.v3_2 = Some(ItemV3_2 { misc: [0x01, 0x00, 0x00, 0x00] });
    let mut b = base_item(2);
    b.v3_2 = Some(ItemV3_2 { misc: [0xFF, 0xFF, 0xFF, 0xFF] });
    let mut c = base_item(3);
    c.v3_2 = Some(ItemV3_2 { misc: [0x02, 0x00, 0x00, 0x00] });
    let mut f0 = two_port_frame(1, 2, false);
    f0.items = Some(vec![a, b]);
    let mut f1 = two_port_frame(1, 2, false);
    f1.items = Some(vec![]);
    let mut f2 = two_port_frame(1, 2, false);
    f2.items = Some(vec![c]);
    vec![f0, f1, f2]
}

#[test]
fn item_row_group_carries_levels() {
    let tree = transform(&item_batch());
    let items = tree.item.as_ref().unwrap();
    let out = write_items(items).unwrap();
    assert_eq!(out.def_levels, vec![1, 1, 0, 1]);
    assert_eq!(out.misc_def_levels, Some(vec![2, 2, 0, 2]));
    assert_eq!(out.owner_def_levels, None);
    assert_eq!(out.rep_levels, vec![0, 1, 0, 0]);
    match (&out.group.cols[0], &out.group.cols[1]) {
        (ColumnData::I32(index), ColumnData::I32(id)) => {
            assert_eq!(index, &vec![-123, -123, -121]);
            assert_eq!(id, &vec![1, 2, 3]);
        },
        _ => panic!("unexpected column types"),
    }
    // The reinterpreted misc column sits after the base columns.
    match &out.group.cols[11] {
        ColumnData::I32(misc) => assert_eq!(misc, &vec![1, -1, 2]),
        _ => panic!("unexpected column type"),
    }
    assert!(out.schema.contains("required int32 misc (UINT_32);"));
    assert!(!out.schema.contains("required int32 owner (UINT_8);"));
}

#[test]
fn item_schema_contradiction_is_fatal() {
    let tree = transform(&item_batch());
    let mut items = tree.item.unwrap();
    items.misc = None;
    items.owner = Some(vec![0, 0, 0]);
    assert_eq!(
        schema_items(&items).err(),
        Some(FatalError::SchemaContradiction(Chain::Item))
    );
}

#[test]
fn post_schema_contradiction_is_fatal() {
    let frames = vec![two_port_frame(1, 2, false)];
    let mut tree = transform(&frames);
    // A post-state tier flag without its parent tier's flag.
    tree.leader.post.hurtbox_state = Some(vec![vec![0], vec![0]]);
    assert_eq!(
        slp::nested::schema_frame_post(&tree).err(),
        Some(FatalError::SchemaContradiction(Chain::Post))
    );
}

#[test]
fn flat_grid_scatters_items_with_sentinels() {
    let tree = transform(&item_batch());
    let items = tree.item.as_ref().unwrap();
    let grid = item_grid(items, 3);
    assert_eq!(grid.id.len(), 3);
    for f in 0..3 {
        assert_eq!(grid.id[f].len(), MAX_ITEMS);
    }
    assert_eq!(grid.id[0][0], 1);
    assert_eq!(grid.id[0][1], 2);
    // Absent slots hold the id sentinel and zeros elsewhere.
    assert_eq!(grid.id[0][2], u32::MAX);
    assert_eq!(grid.id[1][0], u32::MAX);
    assert_eq!(grid.id[2][0], 3);
    assert_eq!(grid.kind[0][2], 0);
    assert_eq!(grid.misc.as_ref().unwrap()[0][0], 1);
    assert_eq!(grid.misc.as_ref().unwrap()[0][1], u32::MAX);
    assert_eq!(grid.misc.as_ref().unwrap()[1][0], 0);
}

#[test]
fn flat_grid_without_items_is_all_sentinels() {
    let items = ItemCol {
        index: vec![],
        id: vec![],
        kind: vec![],
        state: vec![],
        direction: vec![],
        position_x: vec![],
        position_y: vec![],
        velocity_x: vec![],
        velocity_y: vec![],
        damage: vec![],
        timer: vec![],
        misc: None,
        owner: None,
        lengths: vec![0, 0],
    };
    let grid = item_grid(&items, 2);
    for f in 0..2 {
        for k in 0..MAX_ITEMS {
            assert_eq!(grid.id[f][k], u32::MAX);
            assert_eq!(grid.timer[f][k], 0);
            assert!(!grid.direction[f][k]);
        }
    }
}
