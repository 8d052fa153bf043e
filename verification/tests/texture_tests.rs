use dopamine::draw_lists::{draw_plan, DrawAction, DrawCallback, DrawCmdInfo, DrawListInfo};
use dopamine::texture_upload::{
    col_to_dx9_argb, copy_regions, copy_texture_region, grown_capacity, RegionCopy, TextureAction, TextureData,
    TextureFormat, TextureRect, TextureStatus, INDEX_BUF_ADD_CAPACITY, VERTEX_BUF_ADD_CAPACITY,
};

fn texture(status: TextureStatus, tex_id: u64) -> TextureData {
    TextureData {
        status,
        tex_id,
        format: TextureFormat::RGBA32,
        width: 4,
        height: 2,
        bytes_per_pixel: 4,
        pixels: (0u8..32).collect(),
        update_rect: TextureRect { x: 1, y: 0, w: 2, h: 2 },
        updates: vec![TextureRect { x: 1, y: 0, w: 1, h: 1 }, TextureRect { x: 2, y: 1, w: 1, h: 1 }],
    }
}

#[test]
fn texture_actions_by_status() {
    assert_eq!(texture(TextureStatus::WantCreate, 0).action(), TextureAction::Create { width: 4, height: 2 });
    assert_eq!(
        texture(TextureStatus::WantUpdates, 5).action(),
        TextureAction::Update { left: 1, top: 0, right: 3, bottom: 2 }
    );
    assert_eq!(texture(TextureStatus::WantDestroy, 5).action(), TextureAction::Destroy { tex_id: 5 });
    assert_eq!(texture(TextureStatus::WantDestroy, 0).action(), TextureAction::Nothing);
    assert_eq!(texture(TextureStatus::Ready, 5).action(), TextureAction::Nothing);
}

#[test]
fn finishing_an_action_moves_the_status_on() {
    let mut t = texture(TextureStatus::WantCreate, 0);
    t.finish(77);
    assert_eq!((t.status, t.tex_id), (TextureStatus::Ready, 77));
    let mut t = texture(TextureStatus::WantDestroy, 77);
    t.finish(0);
    assert_eq!((t.status, t.tex_id), (TextureStatus::Destroyed, 0));
    let mut t = texture(TextureStatus::WantDestroy, 0);
    t.finish(0);
    assert_eq!(t.status, TextureStatus::WantDestroy);
    let mut t = texture(TextureStatus::WantUpdates, 3);
    t.finish(9);
    assert_eq!((t.status, t.tex_id), (TextureStatus::Ready, 3));
}

#[test]
fn rows_are_copied_with_their_pitches() {
    let src: Vec<u8> = (0u8..24).collect();
    let mut dst = vec![0u8; 20];
    copy_texture_region(&src, 4, 12, &mut dst, 2, 10, 1, 2);
    let mut expected = vec![0u8; 20];
    expected[2..6].copy_from_slice(&src[4..8]);
    expected[12..16].copy_from_slice(&src[16..20]);
    assert_eq!(dst, expected);
    let before = dst.clone();
    copy_texture_region(&src, 0, 0, &mut dst, 0, 0, 3, 0);
    assert_eq!(dst, before);
}

#[test]
fn update_copies_land_inside_the_locked_area() {
    let t = texture(TextureStatus::WantUpdates, 5);
    let copies = t.update_copies(8);
    assert_eq!(
        copies,
        vec![
            RegionCopy { src_offset: 4, src_pitch: 16, dst_offset: 0, dst_pitch: 8, w: 1, h: 1 },
            RegionCopy { src_offset: 24, src_pitch: 16, dst_offset: 12, dst_pitch: 8, w: 1, h: 1 },
        ]
    );
    let mut locked = vec![0u8; 16];
    assert!(copy_regions(&t.pixels, &copies, &mut locked));
    assert_eq!(&locked[0..4], &[4, 5, 6, 7]);
    assert_eq!(&locked[12..16], &[24, 25, 26, 27]);
    assert_eq!(&locked[4..12], &[0u8; 8]);
    let mut small = vec![9u8; 8];
    assert!(!copy_regions(&t.pixels, &copies, &mut small));
    assert_eq!(small, vec![9u8; 8]);
}

#[test]
fn vertex_colours_swap_red_and_blue() {
    assert_eq!(col_to_dx9_argb(0xAABBCCDD), 0xAADDCCBB);
    assert_eq!(col_to_dx9_argb(col_to_dx9_argb(0x12345678)), 0x12345678);
}

#[test]
fn buffers_grow_only_when_too_small() {
    assert_eq!(grown_capacity(100, 50, VERTEX_BUF_ADD_CAPACITY), None);
    assert_eq!(grown_capacity(100, 101, VERTEX_BUF_ADD_CAPACITY), Some(5101));
    assert_eq!(grown_capacity(0, 1, INDEX_BUF_ADD_CAPACITY), Some(10001));
}


fn cmd(callback: DrawCallback, clipped_out: bool, vtx_offset: u32, idx_offset: u32, elem_count: u32) -> DrawCmdInfo {
    DrawCmdInfo { callback, clipped_out, texture: 9, vtx_offset, idx_offset, elem_count }
}

#[test]
fn draw_lists_share_buffers_in_order() {
    let lists = vec![
        DrawListInfo {
            vtx_buffer_size: 10,
            idx_buffer_size: 30,
            cmds: vec![cmd(DrawCallback::NoCallback, false, 0, 0, 12), cmd(DrawCallback::NoCallback, true, 4, 12, 6)],
        },
        DrawListInfo {
            vtx_buffer_size: 5,
            idx_buffer_size: 9,
            cmds: vec![
                cmd(DrawCallback::ResetRenderState, false, 0, 0, 0),
                cmd(DrawCallback::User, false, 0, 0, 0),
                cmd(DrawCallback::NoCallback, false, 2, 3, 6),
            ],
        },
    ];
    assert_eq!(
        draw_plan(&lists),
        vec![
            DrawAction::Draw { list: 0, cmd: 0, texture: 9, base_vertex: 0, num_vertices: 10, start_index: 0, prim_count: 4 },
            DrawAction::SetupRenderState,
            DrawAction::UserCallback { list: 1, cmd: 1 },
            DrawAction::Draw { list: 1, cmd: 2, texture: 9, base_vertex: 12, num_vertices: 5, start_index: 33, prim_count: 2 },
        ]
    );
    assert!(draw_plan(&vec![]).is_empty());
}

#[test]
fn draw_list_offsets_checked() {
    use_offsets();
}

fn use_offsets() {
    let ok = vec![DrawListInfo { vtx_buffer_size: 10, idx_buffer_size: 10, cmds: vec![cmd(DrawCallback::NoCallback, false, 5, 5, 3)] }];
    assert!(dopamine::draw_lists::offsets_fit_exec(&ok));
    let big = vec![
        DrawListInfo { vtx_buffer_size: u32::MAX, idx_buffer_size: 0, cmds: vec![] },
        DrawListInfo { vtx_buffer_size: 1, idx_buffer_size: 0, cmds: vec![] },
    ];
    assert!(!dopamine::draw_lists::offsets_fit_exec(&big));
    let far = vec![
        DrawListInfo { vtx_buffer_size: 10, idx_buffer_size: 0, cmds: vec![] },
        DrawListInfo { vtx_buffer_size: 0, idx_buffer_size: 0, cmds: vec![cmd(DrawCallback::NoCallback, false, u32::MAX - 5, 0, 3)] },
    ];
    assert!(!dopamine::draw_lists::offsets_fit_exec(&far));
}
