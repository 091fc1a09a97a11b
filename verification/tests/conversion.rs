//! Batch conversion: tier resolution, the row-to-column transform, and the
//! level encoder's round trip.

use slp::levels::{decode_item_levels, item_levels};
use slp::record::{
    Data, End, EndV3_7, Frame, Item, ItemV3_2, ItemV3_6, PortData, Post, PostV0_2, PostV2_0, Pre,
    PreV1_2, PreV1_4, Start,
};
use slp::resolve::{resolve, Chain, FatalError};
use slp::transform::{decode_le32, transpose_rows};

fn base_pre() -> Pre {
    Pre {
        position_x: 0,
        position_y: 0,
        direction: 1,
        joystick_x: 0,
        joystick_y: 0,
        cstick_x: 0,
        cstick_y: 0,
        triggers_logical: 0,
        triggers_physical_l: 0,
        triggers_physical_r: 0,
        random_seed: 0,
        buttons_logical: 0,
        buttons_physical: 0,
        state: 0,
        v1_2: None,
        v1_4: None,
    }
}

fn base_post() -> Post {
    Post {
        position_x: 0,
        position_y: 0,
        direction: 1,
        damage: 0,
        shield: 0,
        state: 0,
        character: 0,
        last_attack_landed: None,
        combo_count: 0,
        last_hit_by: None,
        stocks: 4,
        v0_2: None,
        v2_0: None,
        v2_1: None,
        v3_5: None,
        v3_8: None,
    }
}

fn base_item() -> Item {
    Item {
        id: 7,
        kind: 3,
        state: 0,
        direction: 1,
        position_x: 0,
        position_y: 0,
        velocity_x: 0,
        velocity_y: 0,
        damage: 0,
        timer: 0,
        v3_2: None,
        v3_6: None,
    }
}

fn leader_only(pre: Pre, post: Post) -> PortData {
    PortData { leader: Data { pre, post }, follower: None }
}

fn frame(ports: Vec<PortData>, items: Option<Vec<Item>>) -> Frame {
    Frame { start: None, end: None, ports, items }
}

#[test]
fn resolve_empty_batch_is_fatal() {
    let frames: Vec<Frame> = vec![];
    assert_eq!(resolve(&frames), Err(FatalError::EmptyInput));
}

#[test]
fn resolve_frame_without_ports_is_fatal() {
    let frames = vec![frame(vec![], None)];
    assert_eq!(resolve(&frames), Err(FatalError::EmptyInput));
}

#[test]
fn resolve_reads_depths_from_first_frame() {
    let mut pre = base_pre();
    pre.v1_2 = Some(PreV1_2 { raw_analog_x: 5 });
    let mut post = base_post();
    post.v0_2 = Some(PostV0_2 { state_age: 0 });
    let frames = vec![frame(vec![leader_only(pre, post)], None)];
    let d = resolve(&frames).unwrap();
    assert_eq!(d.pre, 1);
    assert_eq!(d.post, 1);
    assert_eq!(d.item, None);
    assert!(!d.start);
    assert!(!d.end);
}

#[test]
fn pre_tier_gap_is_fatal() {
    let mut pre = base_pre();
    pre.v1_4 = Some(PreV1_4 { damage: 0 });
    let frames = vec![frame(vec![leader_only(pre, base_post())], None)];
    assert_eq!(resolve(&frames), Err(FatalError::TierGap(Chain::Pre)));
    assert_eq!(
        transpose_rows(&frames).err(),
        Some(FatalError::TierGap(Chain::Pre))
    );
}

#[test]
fn post_tier_gap_is_fatal() {
    let mut post = base_post();
    post.v2_0 = Some(PostV2_0 {
        flags: 0,
        misc_as: 0,
        airborne: false,
        ground: 0,
        jumps: 0,
        l_cancel: None,
    });
    let frames = vec![frame(vec![leader_only(base_pre(), post)], None)];
    assert_eq!(resolve(&frames), Err(FatalError::TierGap(Chain::Post)));
}

#[test]
fn item_tier_gap_is_fatal() {
    let mut item = base_item();
    item.v3_6 = Some(ItemV3_6 { owner: Some(2) });
    let frames = vec![frame(
        vec![leader_only(base_pre(), base_post())],
        Some(vec![item]),
    )];
    assert_eq!(resolve(&frames), Err(FatalError::TierGap(Chain::Item)));
}

#[test]
fn directional_encoding_table() {
    // Input direction values {negative, zero, positive} map to booleans
    // {false, true, true}.
    let mut frames = Vec::new();
    for d in [-1i8, 0i8, 1i8] {
        let mut pre = base_pre();
        pre.direction = d;
        let mut post = base_post();
        post.direction = d;
        frames.push(frame(vec![leader_only(pre, post)], None));
    }
    let out = transpose_rows(&frames).unwrap();
    assert_eq!(out.leader.pre.direction[0], vec![false, true, true]);
    assert_eq!(out.leader.post.direction[0], vec![false, true, true]);
}

#[test]
fn sentinel_policy() {
    // Absent "last hit by" becomes the max small-unsigned sentinel; absent
    // "last attack landed" becomes zero; present values pass through.
    let mut with_values = base_post();
    with_values.last_hit_by = Some(2);
    with_values.last_attack_landed = Some(17);
    let frames = vec![
        frame(vec![leader_only(base_pre(), base_post())], None),
        frame(vec![leader_only(base_pre(), with_values)], None),
    ];
    let out = transpose_rows(&frames).unwrap();
    assert_eq!(out.leader.post.last_hit_by[0], vec![255, 2]);
    assert_eq!(out.leader.post.last_attack_landed[0], vec![0, 17]);
}

#[test]
fn l_cancel_tri_state() {
    let mut frames = Vec::new();
    for l in [None, Some(true), Some(false)] {
        let mut post = base_post();
        post.v0_2 = Some(PostV0_2 { state_age: 0 });
        post.v2_0 = Some(PostV2_0 {
            flags: 0,
            misc_as: 0,
            airborne: false,
            ground: 0,
            jumps: 0,
            l_cancel: l,
        });
        frames.push(frame(vec![leader_only(base_pre(), post)], None));
    }
    let out = transpose_rows(&frames).unwrap();
    assert_eq!(out.leader.post.v2_0.as_ref().unwrap().l_cancel[0], vec![0, 1, 2]);
}

#[test]
fn little_endian_reinterpretation() {
    assert_eq!(decode_le32(&[0x01, 0x00, 0x00, 0x00]), 1);
    assert_eq!(decode_le32(&[0xFF, 0xFF, 0xFF, 0xFF]), u32::MAX);

    let mut one = base_item();
    one.v3_2 = Some(ItemV3_2 { misc: [0x01, 0x00, 0x00, 0x00] });
    let mut max = base_item();
    max.v3_2 = Some(ItemV3_2 { misc: [0xFF, 0xFF, 0xFF, 0xFF] });
    let frames = vec![frame(
        vec![leader_only(base_pre(), base_post())],
        Some(vec![one, max]),
    )];
    let out = transpose_rows(&frames).unwrap();
    let items = out.item.unwrap();
    assert_eq!(items.misc.unwrap(), vec![1, u32::MAX]);
}

#[test]
fn item_owner_sentinel() {
    let mut owned = base_item();
    owned.v3_2 = Some(ItemV3_2 { misc: [0; 4] });
    owned.v3_6 = Some(ItemV3_6 { owner: Some(3) });
    let mut unowned = base_item();
    unowned.v3_2 = Some(ItemV3_2 { misc: [0; 4] });
    unowned.v3_6 = Some(ItemV3_6 { owner: None });
    let frames = vec![frame(
        vec![leader_only(base_pre(), base_post())],
        Some(vec![owned, unowned]),
    )];
    let out = transpose_rows(&frames).unwrap();
    let items = out.item.unwrap();
    assert_eq!(items.owner.unwrap(), vec![3, 255]);
}

#[test]
fn item_columns_follow_append_order() {
    let mut a = base_item();
    a.id = 1;
    let mut b = base_item();
    b.id = 2;
    let mut c = base_item();
    c.id = 3;
    let frames = vec![
        frame(vec![leader_only(base_pre(), base_post())], Some(vec![a, b])),
        frame(vec![leader_only(base_pre(), base_post())], Some(vec![])),
        frame(vec![leader_only(base_pre(), base_post())], Some(vec![c])),
    ];
    let out = transpose_rows(&frames).unwrap();
    let items = out.item.unwrap();
    assert_eq!(items.id, vec![1, 2, 3]);
    // Item frame indexes start at the fixed first-frame constant.
    assert_eq!(items.index, vec![-123, -123, -121]);
    assert_eq!(items.lengths, vec![2, 0, 1]);
}

#[test]
fn frame_mismatch_on_divergent_tier_depth() {
    let mut deep = base_pre();
    deep.v1_2 = Some(PreV1_2 { raw_analog_x: 0 });
    let frames = vec![
        frame(vec![leader_only(deep, base_post())], None),
        frame(vec![leader_only(base_pre(), base_post())], None),
    ];
    assert_eq!(transpose_rows(&frames).err(), Some(FatalError::FrameMismatch));
}

#[test]
fn frame_mismatch_on_divergent_port_count() {
    let frames = vec![
        frame(vec![leader_only(base_pre(), base_post())], None),
        frame(
            vec![
                leader_only(base_pre(), base_post()),
                leader_only(base_pre(), base_post()),
            ],
            None,
        ),
    ];
    assert_eq!(transpose_rows(&frames).err(), Some(FatalError::FrameMismatch));
}

#[test]
fn follower_cells_are_zero_where_absent() {
    let mut with_follower = leader_only(base_pre(), base_post());
    let mut fpre = base_pre();
    fpre.position_x = 0x4048_0000; // some bit pattern
    with_follower.follower = Some(Data { pre: fpre, post: base_post() });
    let frames = vec![
        frame(vec![with_follower], None),
        frame(vec![leader_only(base_pre(), base_post())], None),
    ];
    let out = transpose_rows(&frames).unwrap();
    assert_eq!(out.follower.pre.position_x[0], vec![0x4048_0000, 0]);
    // The unfilled follower direction stays at the zero value.
    assert_eq!(out.follower.pre.direction[0], vec![true, false]);
}

#[test]
fn start_and_end_blocks_are_copied() {
    let mut f0 = frame(vec![leader_only(base_pre(), base_post())], None);
    f0.start = Some(Start { random_seed: 11 });
    f0.end = Some(End { v3_7: Some(EndV3_7 { latest_finalized_frame: -100 }) });
    let mut f1 = frame(vec![leader_only(base_pre(), base_post())], None);
    f1.start = Some(Start { random_seed: 12 });
    f1.end = Some(End { v3_7: Some(EndV3_7 { latest_finalized_frame: -99 }) });
    let frames = vec![f0, f1];
    let out = transpose_rows(&frames).unwrap();
    assert_eq!(out.start.unwrap().random_seed, vec![11, 12]);
    assert_eq!(
        out.end.unwrap().latest_finalized_frame.unwrap(),
        vec![-100, -99]
    );
}

#[test]
fn end_block_without_version_tier() {
    let mut f0 = frame(vec![leader_only(base_pre(), base_post())], None);
    f0.end = Some(End { v3_7: None });
    let frames = vec![f0];
    let out = transpose_rows(&frames).unwrap();
    let end = out.end.unwrap();
    assert!(end.latest_finalized_frame.is_none());
}

#[test]
fn levels_round_trip_mixed_lengths() {
    // Transform, encode the item levels, re-expand: the per-frame lengths
    // come back exactly.
    let mut a = base_item();
    a.id = 1;
    let mut b = base_item();
    b.id = 2;
    let mut c = base_item();
    c.id = 3;
    let frames = vec![
        frame(vec![leader_only(base_pre(), base_post())], Some(vec![a, b])),
        frame(vec![leader_only(base_pre(), base_post())], Some(vec![])),
        frame(vec![leader_only(base_pre(), base_post())], Some(vec![c])),
    ];
    let out = transpose_rows(&frames).unwrap();
    let items = out.item.unwrap();
    let (def, rep) = item_levels(&items.lengths, 1);
    assert_eq!(def, vec![1, 1, 0, 1]);
    assert_eq!(rep, vec![0, 1, 0, 0]);
    assert_eq!(decode_item_levels(&def, &rep), Some(vec![2, 0, 1]));
}

#[test]
fn levels_empty_frames_emit_placeholders() {
    // One placeholder definition-level-0 entry per empty frame.
    let lengths: Vec<usize> = vec![0, 0, 0];
    let (def, rep) = item_levels(&lengths, 1);
    assert_eq!(def, vec![0, 0, 0]);
    assert_eq!(rep, vec![0, 0, 0]);
    assert_eq!(decode_item_levels(&def, &rep), Some(vec![0, 0, 0]));
}

#[test]
fn decode_rejects_malformed_levels() {
    // A continuation entry cannot follow an empty-frame placeholder.
    assert_eq!(decode_item_levels(&vec![0, 1], &vec![0, 1]), None);
    // A continuation entry cannot open the stream.
    assert_eq!(decode_item_levels(&vec![1], &vec![1]), None);
    // Level vectors must pair up.
    assert_eq!(decode_item_levels(&vec![1, 1], &vec![0]), None);
    // Repetition levels deeper than the single repeated group are malformed.
    assert_eq!(decode_item_levels(&vec![1, 1], &vec![0, 2]), None);
}

#[test]
fn tier_presence_round_trips_through_columns() {
    let mut pre = base_pre();
    pre.v1_2 = Some(PreV1_2 { raw_analog_x: 42 });
    pre.v1_4 = Some(PreV1_4 { damage: 9 });
    let frames = vec![frame(vec![leader_only(pre, base_post())], None)];
    let out = transpose_rows(&frames).unwrap();
    assert!(out.leader.pre.raw_analog_x.is_some());
    assert!(out.leader.pre.damage.is_some());
    assert!(out.leader.post.state_age.is_none());
    assert_eq!(out.leader.pre.raw_analog_x.unwrap()[0], vec![42]);
    assert_eq!(out.leader.pre.damage.unwrap()[0], vec![9]);
}
